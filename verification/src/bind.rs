//! The binder: a factory that turns a destination address and a protocol
//! into a bound service.

use std::marker::PhantomData;
use std::sync::atomic::AtomicUsize;
use std::sync::Arc;

use tokio_core::reactor::Handle;
use vstd::prelude::*;

use crate::addr::SocketAddr;
use crate::protocol::{Protocol, ProtocolKey};
use crate::service::{
    share, Backoff, Buffering, Client, ClientCtx, Connect, Reconnect, Sensors, Service,
    TransportProtocol,
};

verus! {

/// Binds a service from an address.
///
/// A binder holds the proxy's context, its telemetry, the executor on which
/// services run, and the counter from which requests take their ids. `C` is
/// the type of the context: `()` until [`Bind::with_ctx`] gives one, and only
/// a binder with a shared context can bind. `B` is the type of the request
/// bodies that the bound services send.
///
/// Clones of a binder share the counter, and so do all the services that
/// they bind.
pub struct Bind<C, B> {
    ctx: C,
    sensors: Sensors,
    executor: Handle,
    req_ids: Arc<AtomicUsize>,
    _p: PhantomData<B>,
}

/// Binds a service from an address, for a protocol that was fixed beforehand.
pub struct BindProtocol<C, B> {
    bind: Bind<C, B>,
    protocol: Protocol,
}

/// The parts of a [`Bind`].
pub struct BindView<C> {
    pub ctx: C,
    pub sensors: Sensors,
    pub executor: Handle,
    pub req_ids: Arc<AtomicUsize>,
}

/// The parts of a [`BindProtocol`].
pub struct BindProtocolView<C> {
    pub bind: BindView<C>,
    pub protocol: ProtocolKey,
}

impl<C, B> View for Bind<C, B> {
    type V = BindView<C>;

    closed spec fn view(&self) -> BindView<C> {
        BindView {
            ctx: self.ctx,
            sensors: self.sensors,
            executor: self.executor,
            req_ids: self.req_ids,
        }
    }
}

impl<C, B> View for BindProtocol<C, B> {
    type V = BindProtocolView<C>;

    closed spec fn view(&self) -> BindProtocolView<C> {
        BindProtocolView { bind: self.bind@, protocol: self.protocol@ }
    }
}

/// Whether `service` is the service that a binder with the parts `bind` makes
/// for `addr` and `protocol`: every layer set up from those three and from
/// nothing else.
pub open spec fn binds<P, B>(
    bind: BindView<Arc<P>>,
    addr: SocketAddr,
    protocol: ProtocolKey,
    service: Service<P, B>,
) -> bool {
    let http = service.new_service;
    let client = http.client;
    let connect = client.connect;
    &&& service.backoff == Backoff::Immediate
    &&& service.buffering == Buffering::Unbounded
    &&& http.ctx.proxy == bind.ctx
    &&& http.ctx.remote == addr
    &&& http.ctx.protocol == TransportProtocol::Http
    &&& connect.inner.addr == addr
    &&& connect.inner.executor == bind.executor
    &&& connect.sensors == bind.sensors
    &&& connect.ctx == http.ctx
    &&& client.protocol@ == protocol
    &&& client.executor == bind.executor
    &&& http.next_id == bind.req_ids
    &&& http.sensors == bind.sensors
}

impl<B> Bind<(), B> {
    /// A binder without a context, with the null telemetry and with a counter
    /// of its own.
    pub fn new(executor: Handle) -> (bind: Self)
        ensures
            bind@.ctx == (),
            bind@.sensors == Sensors::Null,
            bind@.executor == executor,
    {
        Bind {
            executor,
            ctx: (),
            sensors: Sensors::null(),
            req_ids: Arc::new(AtomicUsize::new(0)),
            _p: PhantomData,
        }
    }

    /// The same binder with `sensors` as its telemetry.
    pub fn with_sensors(self, sensors: Sensors) -> (bind: Self)
        ensures
            bind@ == (BindView { sensors, ..self@ }),
    {
        Bind { sensors, ..self }
    }

    /// The same binder with `ctx` as its context.
    pub fn with_ctx<C>(self, ctx: C) -> (bind: Bind<C, B>)
        ensures
            bind@ == (BindView {
                ctx,
                sensors: self@.sensors,
                executor: self@.executor,
                req_ids: self@.req_ids,
            }),
    {
        Bind {
            ctx,
            sensors: self.sensors,
            executor: self.executor,
            req_ids: self.req_ids,
            _p: PhantomData,
        }
    }
}

impl<B> Clone for Bind<(), B> {
    /// A binder with the same telemetry, the same executor and the same
    /// counter.
    fn clone(&self) -> (copy: Self)
        ensures
            copy@ == self@,
    {
        Bind {
            ctx: (),
            sensors: self.sensors,
            executor: self.executor.clone(),
            req_ids: share(&self.req_ids),
            _p: PhantomData,
        }
    }
}

impl<P, B> Clone for Bind<Arc<P>, B> {
    /// A binder with the same context, the same telemetry, the same executor
    /// and the same counter: all four are shared, none is copied.
    fn clone(&self) -> (copy: Self)
        ensures
            copy@ == self@,
    {
        Bind {
            ctx: share(&self.ctx),
            sensors: self.sensors,
            executor: self.executor.clone(),
            req_ids: share(&self.req_ids),
            _p: PhantomData,
        }
    }
}

impl<C, B> Bind<C, B> {
    /// The executor on which the bound services run.
    pub fn executor(&self) -> (executor: &Handle)
        ensures
            *executor == self@.executor,
    {
        &self.executor
    }

    /// A binder that binds every address for `protocol`.
    pub fn with_protocol(self, protocol: Protocol) -> (bound: BindProtocol<C, B>)
        ensures
            bound@ == (BindProtocolView { bind: self@, protocol: protocol@ }),
    {
        BindProtocol { bind: self, protocol }
    }
}

impl<P, B> Bind<Arc<P>, B> {
    /// Binds a service to `addr` that speaks `protocol`.
    ///
    /// The service is built layer by layer and handed to the caller, who owns
    /// it from then on; the binder keeps nothing of it. No connection is
    /// made here: the service connects when its first request is due.
    pub fn bind_service(&self, addr: &SocketAddr, protocol: &Protocol) -> (service: Service<P, B>)
        ensures
            binds(self@, *addr, protocol@, service),
    {
        let client_ctx = ClientCtx::new(&self.ctx, addr, TransportProtocol::Http);

        // Map a socket address to a connection.
        let connect = self.sensors.connect(Connect::new(*addr, &self.executor), &client_ctx);

        let client = Client::new(protocol, connect, self.executor.clone());

        let proxy = self.sensors.http(share(&self.req_ids), client, &client_ctx);

        // Reconnect whenever the connection fails.
        Reconnect::new(proxy)
    }
}

impl<P, B> BindProtocol<Arc<P>, B> {
    /// Binds a service to `addr` for the protocol of this binder. Binding
    /// cannot fail.
    pub fn bind(&self, addr: &SocketAddr) -> (bound: Result<Service<P, B>, ()>)
        ensures
            bound matches Ok(service) && binds(self@.bind, *addr, self@.protocol, service),
    {
        Ok(self.bind.bind_service(addr, &self.protocol))
    }
}

/// The services that one binder makes take their request ids from one
/// counter, that of the binder, whatever they are bound to.
pub proof fn lemma_services_share_the_counter<P, B>(
    bind: BindView<Arc<P>>,
    first_addr: SocketAddr,
    first_protocol: ProtocolKey,
    first: Service<P, B>,
    second_addr: SocketAddr,
    second_protocol: ProtocolKey,
    second: Service<P, B>,
)
    requires
        binds(bind, first_addr, first_protocol, first),
        binds(bind, second_addr, second_protocol, second),
    ensures
        first.new_service.next_id == bind.req_ids,
        second.new_service.next_id == first.new_service.next_id,
{
}

} // verus!
