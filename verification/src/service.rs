//! What a bound service is made of.
//!
//! A bound service is a stack of five layers, innermost first: a transport
//! connector, telemetry round the connector, an HTTP client, telemetry round
//! the client, and a wrapper that connects anew when the connection is lost.
//! The values here say how each layer is set up. Opening connections and
//! exchanging requests is the work of the components that run the stack.

use std::marker::PhantomData;
use std::sync::atomic::AtomicUsize;
use std::sync::Arc;

use tokio_core::reactor::Handle;
use vstd::prelude::*;

use crate::addr::SocketAddr;
use crate::protocol::Protocol;

verus! {

/// The reactor handle of `tokio_core`, on which the layers schedule their work.
/// Nothing is known of it here but which handle it is.
#[verifier::external_type_specification]
#[verifier::external_body]
pub struct ExHandle(tokio_core::reactor::Handle);

/// Trusted: `Clone::clone` of `tokio_core::reactor::Handle`, which the crate
/// derives. The copy is a handle on the same event loop, and stands for the
/// handle it was made from wherever a contract speaks of one.
pub assume_specification[ <tokio_core::reactor::Handle as Clone>::clone ](
    handle: &tokio_core::reactor::Handle,
) -> (copy: tokio_core::reactor::Handle)
    ensures
        copy == *handle,
;

/// Trusted: `Arc::clone`, which makes another pointer to the same allocation.
#[verifier::external_body]
pub(crate) fn share<T>(shared: &Arc<T>) -> (copy: Arc<T>)
    ensures
        copy == *shared,
{
    Arc::clone(shared)
}

/// A handle on the proxy's telemetry, with which connections and HTTP
/// exchanges are instrumented.
///
/// The null handle records nothing; it serves until the telemetry is set up.
/// Any other handle names the sink that takes the records.
#[derive(Clone, Copy, Debug, PartialEq, Eq, Hash, Structural)]
pub enum Sensors {
    Null,
    Sink(u64),
}

/// The kind of traffic that a connection carries, as telemetry labels it.
#[derive(Clone, Copy, Debug, PartialEq, Eq, Hash, Structural)]
pub enum TransportProtocol {
    Http,
    Tcp,
}

/// What telemetry is told of an outbound connection: the proxy it belongs
/// to, the address it goes to and the traffic it carries.
pub struct ClientCtx<P> {
    pub proxy: Arc<P>,
    pub remote: SocketAddr,
    pub protocol: TransportProtocol,
}

/// The transport connector: it dials `addr`, driven by `executor`.
pub struct Connect {
    pub addr: SocketAddr,
    pub executor: Handle,
}

/// A connector wrapped by telemetry, which records when a connection opens
/// and closes, how long it lived and how many bytes it carried.
pub struct SensorConnect<P> {
    pub inner: Connect,
    pub sensors: Sensors,
    pub ctx: Arc<ClientCtx<P>>,
}

/// An HTTP client for one protocol version, over connections made by
/// `connect`. `B` is the type of the request bodies that it sends.
pub struct Client<P, B> {
    pub protocol: Protocol,
    pub connect: SensorConnect<P>,
    pub executor: Handle,
    pub body: PhantomData<B>,
}

/// An HTTP client wrapped by telemetry: each request sent through it takes
/// its id from `next_id`, and its exchange is recorded.
pub struct NewHttp<P, B> {
    pub next_id: Arc<AtomicUsize>,
    pub client: Client<P, B>,
    pub sensors: Sensors,
    pub ctx: Arc<ClientCtx<P>>,
}

/// How long a service waits after a failed connection before it connects
/// again. No policy has been chosen yet, so there is one value.
#[derive(Clone, Copy, Debug, PartialEq, Eq, Hash, Structural)]
pub enum Backoff {
    /// The next attempt follows at once.
    Immediate,
}

/// How many requests may wait while a service has no connection. No limit
/// has been chosen yet, so there is one value.
#[derive(Clone, Copy, Debug, PartialEq, Eq, Hash, Structural)]
pub enum Buffering {
    /// Any number of requests may wait.
    Unbounded,
}

/// A service that is made anew from `new_service` whenever its connection
/// fails. It starts without a connection: the first one is to be made when
/// the first request is due.
pub struct Reconnect<N> {
    pub new_service: N,
    pub backoff: Backoff,
    pub buffering: Buffering,
}

/// A bound service: an HTTP client with telemetry that reconnects by itself.
pub type Service<P, B> = Reconnect<NewHttp<P, B>>;

impl Sensors {
    /// The handle that records nothing.
    pub fn null() -> (sensors: Sensors)
        ensures
            sensors == Sensors::Null,
    {
        Sensors::Null
    }

    /// Wraps a connector, so that its connections are recorded under `ctx`.
    pub fn connect<P>(&self, connect: Connect, ctx: &Arc<ClientCtx<P>>) -> (wrapped: SensorConnect<P>)
        ensures
            wrapped.inner == connect,
            wrapped.sensors == *self,
            wrapped.ctx == *ctx,
    {
        SensorConnect { inner: connect, sensors: *self, ctx: share(ctx) }
    }

    /// Wraps an HTTP client, so that its requests take their ids from
    /// `next_id` and its exchanges are recorded under `ctx`.
    pub fn http<P, B>(
        &self,
        next_id: Arc<AtomicUsize>,
        client: Client<P, B>,
        ctx: &Arc<ClientCtx<P>>,
    ) -> (wrapped: NewHttp<P, B>)
        ensures
            wrapped.next_id == next_id,
            wrapped.client == client,
            wrapped.sensors == *self,
            wrapped.ctx == *ctx,
    {
        NewHttp { next_id, client, sensors: *self, ctx: share(ctx) }
    }
}

impl<P> ClientCtx<P> {
    /// The context of a connection of `proxy` to `remote` that carries
    /// `protocol`.
    pub fn new(proxy: &Arc<P>, remote: &SocketAddr, protocol: TransportProtocol) -> (ctx: Arc<
        ClientCtx<P>,
    >)
        ensures
            ctx.proxy == *proxy,
            ctx.remote == *remote,
            ctx.protocol == protocol,
    {
        Arc::new(ClientCtx { proxy: share(proxy), remote: *remote, protocol })
    }
}

impl Connect {
    /// A connector to `addr` that is driven by `executor`.
    pub fn new(addr: SocketAddr, executor: &Handle) -> (connect: Connect)
        ensures
            connect.addr == addr,
            connect.executor == *executor,
    {
        Connect { addr, executor: executor.clone() }
    }
}

impl<P, B> Client<P, B> {
    /// An HTTP client that speaks the version which `protocol` names, over
    /// connections made by `connect`.
    pub fn new(protocol: &Protocol, connect: SensorConnect<P>, executor: Handle) -> (client: Client<
        P,
        B,
    >)
        ensures
            client.protocol@ == protocol@,
            client.connect == connect,
            client.executor == executor,
    {
        Client { protocol: protocol.clone(), connect, executor, body: PhantomData }
    }
}

impl<N> Reconnect<N> {
    /// A service that is made from `new_service`, and made again each time
    /// its connection fails: at once, and with no limit on the requests that
    /// wait meanwhile.
    pub fn new(new_service: N) -> (service: Reconnect<N>)
        ensures
            service == (Reconnect {
                new_service,
                backoff: Backoff::Immediate,
                buffering: Buffering::Unbounded,
            }),
    {
        Reconnect { new_service, backoff: Backoff::Immediate, buffering: Buffering::Unbounded }
    }
}

} // verus!
