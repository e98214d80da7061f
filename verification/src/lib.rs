//! The connection-binding layer of a transparent sidecar proxy.

pub mod addr;
pub mod authority;
pub mod bind;
pub mod error;
pub mod protocol;
pub mod service;

pub use crate::addr::{SocketAddr, SocketAddrV4, SocketAddrV6};
pub use crate::authority::Authority;
pub use crate::bind::{Bind, BindProtocol};
pub use crate::error::BufferSpawnError;
pub use crate::protocol::{Host, Protocol, RequestHead, Version};
pub use crate::service::{
    Backoff, Buffering, Client, ClientCtx, Connect, NewHttp, Reconnect, SensorConnect, Sensors,
    Service, TransportProtocol,
};
