//! The server: how it is set up, how a request finds its handler, and how
//! the handler's outcome becomes a response.

use crate::buffer::{buf_seq, bytes_as_slice, bytes_from_vec, bytes_seq};
use crate::connection::{Connection, ConnectionError, ConnectionView, DEFAULT_IDLE_SECS};
use crate::controller::{spec_fresh_controller, Controller};
use crate::dispatcher::{MethodKey, ServiceRegistry};
use crate::message::{
    decode_request, encode_response, spec_decode_request, spec_encode_response, MetaError,
    RequestMetaView, RequestPackage, ResponseMeta, ResponseMetaView, ResponsePackage, ERROR_OK,
    ERROR_PARSE, ERROR_UNKNOWN, ERROR_UNKNOWN_METHOD,
};
use crate::protocol::{
    emit_frame, spec_frame, spec_pull, BrpcFramer, FrameError, FrameView, Protocol,
};
use crate::service::MethodError;
use bytes::{Bytes, BytesMut};
use std::sync::atomic::AtomicUsize;
use std::sync::Arc;
use tokio_core::reactor::Remote;
use vstd::prelude::*;
use vstd::string::StringExecFns;

verus! {

/// `tokio_core::reactor::Remote`: a handle on an event loop. The library
/// keeps it for the code that runs the server and never looks inside.
#[verifier::external_type_specification]
#[verifier::external_body]
pub struct ExRemote(Remote);

/// An internet address as its bits, most significant first.
#[derive(Clone, Copy, Debug, PartialEq, Eq, Structural)]
pub enum IpAddress {
    V4(u32),
    V6(u128),
}

/// Where a server listens.
#[derive(Clone, Copy, Debug, PartialEq, Eq, Structural)]
pub struct SocketAddress {
    pub ip: IpAddress,
    pub port: u16,
}

/// Why a server could not be set up.
#[derive(Clone, Copy, Debug, PartialEq, Eq, Structural)]
pub enum ServerBuildError {
    /// The address is not a socket address.
    AddressParse,
    /// The address could not be listened on.
    Bind,
}

/// Text of the response to a call of a method that is not registered.
pub open spec fn spec_unknown_method_text() -> Seq<char> {
    "unknown method"@
}

/// Text of the response to a request whose meta could not be read.
pub open spec fn spec_parse_error_text() -> Seq<char> {
    "malformed request meta"@
}

/// The meta of the response to the call `correlation_id` whose handler
/// ended with `outcome`: the error in words where it failed.
pub open spec fn spec_outcome_meta(correlation_id: u64, outcome: Option<MethodError>) -> ResponseMetaView {
    match outcome {
        None => ResponseMetaView {
            correlation_id,
            error_code: ERROR_OK,
            error_text: None,
            attachment_size: None,
            compression_type: None,
        },
        Some(e) => ResponseMetaView {
            correlation_id,
            error_code: ERROR_UNKNOWN,
            error_text: Some(e.spec_description()),
            attachment_size: None,
            compression_type: None,
        },
    }
}

/// The meta of a response that the server makes up itself, without asking
/// a handler.
pub open spec fn spec_refusal_meta(correlation_id: u64, error_code: i32, text: Seq<char>) -> ResponseMetaView {
    ResponseMetaView {
        correlation_id,
        error_code,
        error_text: Some(text),
        attachment_size: None,
        compression_type: None,
    }
}

/// The handler that a request is routed to, if there is one.
pub open spec fn spec_route<H>(registry: Map<MethodKey, H>, meta: RequestMetaView) -> Option<H> {
    if registry.dom().contains((meta.service_name, meta.method_name)) {
        Some(registry[(meta.service_name, meta.method_name)])
    } else {
        None
    }
}

/// Turns the outcome of a handler into the response to the call
/// `correlation_id`.
///
/// A result travels back as it is, with its controller and error code zero.
/// A failure becomes a response without payload, with a fresh controller,
/// the code of an unknown error, and the error in words.
pub fn result_to_errno(
    correlation_id: u64,
    result: Result<(Bytes, Controller), MethodError>,
) -> (response: ResponsePackage)
    ensures
        match result {
            Ok((body, controller)) => {
                &&& response.0@ == spec_outcome_meta(correlation_id, None)
                &&& response.1 == controller
                &&& response.2 == body
            },
            Err(e) => {
                &&& response.0@ == spec_outcome_meta(correlation_id, Some(e))
                &&& response.0@.error_text->0.len() > 0
                &&& response.1@ == spec_fresh_controller()
                &&& bytes_seq(response.2) == Seq::<u8>::empty()
            },
        },
{
    match result {
        Ok((body, controller)) => (ResponseMeta::success(correlation_id), controller, body),
        Err(e) => (
            ResponseMeta::failure(correlation_id, ERROR_UNKNOWN, e.description()),
            Controller::default(),
            Bytes::new(),
        ),
    }
}

/// A response that the server makes up itself.
fn refusal(correlation_id: u64, error_code: i32, text: &str) -> (response: ResponsePackage)
    ensures
        response.0@ == spec_refusal_meta(correlation_id, error_code, text@),
        response.1@ == spec_fresh_controller(),
        bytes_seq(response.2) == Seq::<u8>::empty(),
{
    (
        ResponseMeta::failure(correlation_id, error_code, String::from_str(text)),
        Controller::default(),
        Bytes::new(),
    )
}

/// What is to be done with a request.
pub enum Dispatch<'a, H> {
    /// Call `handler` with `body` and `controller`; hand its outcome, with
    /// `correlation_id`, to [`result_to_errno`].
    Invoke { handler: &'a H, correlation_id: u64, body: Bytes, controller: Controller },
    /// Send this response; no handler is called.
    Reply(ResponsePackage),
}

/// The service that a server runs on every connection: it routes each
/// request to the handler registered for its method.
pub struct MetaService<H> {
    registry: Arc<ServiceRegistry<H>>,
}

impl<H> MetaService<H> {
    /// The methods that the service routes to.
    pub closed spec fn spec_registry(self) -> Map<MethodKey, H> {
        self.registry@
    }

    /// A service that routes to the methods of `registry`.
    pub fn new(registry: Arc<ServiceRegistry<H>>) -> (service: Self)
        ensures
            service.spec_registry() == registry@,
    {
        MetaService { registry }
    }

    /// Another handle on the same service, for another connection.
    pub fn new_service(&self) -> (service: Self)
        ensures
            service.spec_registry() == self.spec_registry(),
    {
        MetaService { registry: Arc::clone(&self.registry) }
    }

    /// Routes one request.
    ///
    /// Where a handler is registered for the request's method, it is to be
    /// invoked, once, with the request's payload and controller. Where none
    /// is, the caller is told so: the response carries the request's
    /// correlation id, the code of an unknown method and a text, and no
    /// payload.
    pub fn call(&self, req: RequestPackage) -> (action: Dispatch<'_, H>)
        ensures
            match spec_route(self.spec_registry(), req.0@) {
                Some(h) => action matches Dispatch::Invoke {
                    handler,
                    correlation_id,
                    body,
                    controller,
                } && *handler == h && correlation_id == req.0@.correlation_id && body == req.2
                    && controller == req.1,
                None => action matches Dispatch::Reply(response) && response.0@
                    == spec_refusal_meta(
                    req.0@.correlation_id,
                    ERROR_UNKNOWN_METHOD,
                    spec_unknown_method_text(),
                ) && response.0@.error_text->0.len() > 0 && response.1@ == spec_fresh_controller()
                    && bytes_seq(response.2) == Seq::<u8>::empty(),
            },
    {
        let (meta, controller, body) = req;
        match self.registry.get_method(meta.service_name.as_str(), meta.method_name.as_str()) {
            Some(handler) => Dispatch::Invoke {
                handler,
                correlation_id: meta.correlation_id,
                body,
                controller,
            },
            None => {
                proof {
                    reveal_strlit("unknown method");
                }
                Dispatch::Reply(
                    refusal(meta.correlation_id, ERROR_UNKNOWN_METHOD, "unknown method"),
                )
            },
        }
    }
}

/// What a request that arrived on a connection leads to.
pub enum Inbound {
    /// The calls under way have reached the connection's cap: nothing is
    /// taken off the buffer until one of them has ended.
    Saturated,
    /// No whole frame is there yet.
    Incomplete,
    /// A request, to be routed by [`MetaService::call`].
    Request(RequestPackage),
    /// A response to send at once: the request's meta was unreadable, but
    /// said which call it belongs to.
    Reject(ResponsePackage),
    /// The connection is to be closed.
    Close(ConnectionError),
}

/// Takes the next request off the bytes received on a connection.
///
/// While the calls under way have reached the connection's cap, nothing is
/// done. Otherwise one pull is made on the framer. If it hands out a frame,
/// the frame's meta is decoded and the request entered into the connection's
/// record, with a fresh controller. A frame error, a meta that does not name
/// its call, and a correlation id that is already under way close the
/// connection.
pub fn receive_request(
    framer: &mut BrpcFramer,
    connection: &mut Connection,
    buf: &mut BytesMut,
    now: u64,
) -> (inbound: Inbound)
    ensures
        final(framer).spec_max_frame_size() == old(framer).spec_max_frame_size(),
        old(connection)@.in_flight.len() >= old(connection)@.max_in_flight ==> {
            &&& inbound is Saturated
            &&& final(framer).spec_state() == old(framer).spec_state()
            &&& buf_seq(*final(buf)) == buf_seq(*old(buf))
            &&& final(connection)@ == old(connection)@
        },
        old(connection)@.in_flight.len() < old(connection)@.max_in_flight ==> ({
            let pull = spec_pull(
                old(framer).spec_state(),
                old(framer).spec_max_frame_size(),
                buf_seq(*old(buf)),
            );
            &&& final(framer).spec_state() == pull.state
            &&& buf_seq(*final(buf)) == pull.rest
            &&& match pull.outcome {
                Err(e) => inbound matches Inbound::Close(reason) && reason
                    == ConnectionError::Frame(e) && final(connection)@ == old(connection)@,
                Ok(None) => inbound is Incomplete && final(connection)@ == old(connection)@,
                Ok(Some(frame)) => spec_admitted(
                    old(connection)@,
                    frame,
                    now,
                    inbound,
                    final(connection)@,
                ),
            }
        }),
{
    if !connection.wants_frames() {
        return Inbound::Saturated;
    }
    let frame = match framer.decode(buf) {
        Err(e) => {
            return Inbound::Close(ConnectionError::Frame(e));
        },
        Ok(None) => {
            return Inbound::Incomplete;
        },
        Ok(Some(frame)) => frame,
    };
    match decode_request(bytes_as_slice(&frame.meta)) {
        Err(e) => match e.correlation_id {
            None => Inbound::Close(ConnectionError::BadMeta),
            Some(id) => {
                connection.touch(now);
                Inbound::Reject(refusal(id, ERROR_PARSE, "malformed request meta"))
            },
        },
        Ok(meta) => match connection.request_received(now, meta.correlation_id) {
            Err(e) => Inbound::Close(e),
            Ok(()) => Inbound::Request((meta, Controller::new(), frame.payload)),
        },
    }
}

/// What becomes of a frame that arrived at `now` on a connection in the
/// state `before`.
pub open spec fn spec_admitted(
    before: ConnectionView,
    frame: FrameView,
    now: u64,
    inbound: Inbound,
    after: ConnectionView,
) -> bool {
    match spec_decode_request(frame.meta) {
        Err(MetaError { correlation_id: None }) => inbound matches Inbound::Close(reason)
            && reason == ConnectionError::BadMeta && after == before,
        Err(MetaError { correlation_id: Some(id) }) => inbound matches Inbound::Reject(response)
            && response.0@ == spec_refusal_meta(id, ERROR_PARSE, spec_parse_error_text())
            && response.1@ == spec_fresh_controller() && bytes_seq(response.2) == Seq::<
            u8,
        >::empty() && after == (ConnectionView { last_activity: now, ..before }),
        Ok(meta) => if before.in_flight.contains(meta.correlation_id) {
            inbound matches Inbound::Close(reason) && reason
                == ConnectionError::DuplicateCorrelation && after == before
        } else {
            inbound matches Inbound::Request(request) && request.0@ == meta && request.1@
                == spec_fresh_controller() && bytes_seq(request.2) == frame.payload && after
                == before.after_request(now, meta.correlation_id)
        },
    }
}

/// Writes a response to the bytes to be sent on a connection, as one frame,
/// and notes in the connection's record that its call has ended.
///
/// A response too large for one frame is refused: nothing is written, and
/// the call stays under way.
pub fn send_response(
    connection: &mut Connection,
    response: &ResponsePackage,
    now: u64,
    max: u32,
    dst: &mut BytesMut,
) -> (r: Result<(), FrameError>)
    requires
        buf_seq(*old(dst)).len() + 12 + spec_encode_response(response.0@).len() + bytes_seq(
            response.2,
        ).len() <= usize::MAX,
    ensures
        r is Ok <==> spec_encode_response(response.0@).len() + bytes_seq(response.2).len() <= max,
        r is Ok ==> {
            &&& buf_seq(*final(dst)) == buf_seq(*old(dst)) + spec_frame(
                spec_encode_response(response.0@),
                bytes_seq(response.2),
            )
            &&& final(connection)@ == old(connection)@.after_response(
                now,
                response.0@.correlation_id,
            )
        },
        r is Err ==> {
            &&& r->Err_0 == FrameError::FrameTooLarge
            &&& buf_seq(*final(dst)) == buf_seq(*old(dst))
            &&& final(connection)@ == old(connection)@
        },
{
    let meta = bytes_from_vec(encode_response(&response.0));
    match emit_frame(&meta, &response.2, max, dst) {
        Err(e) => Err(e),
        Ok(()) => {
            let _ = connection.response_sent(now, response.0.correlation_id);
            Ok(())
        },
    }
}

/// A server in the making. Settings are chained on it; what is not set
/// takes its default when the server is built.
pub struct ServerBuilder<'a, H> {
    services: ServiceRegistry<H>,
    addr: &'a str,
    threads: Option<usize>,
    protocols: Option<Vec<Protocol>>,
    idle_secs: Option<u64>,
    remote: Option<Remote>,
    throughput: Option<Arc<AtomicUsize>>,
}

/// The settings of a server in the making.
pub struct ServerBuilderView<H> {
    pub services: Map<MethodKey, H>,
    pub addr: Seq<char>,
    pub threads: Option<usize>,
    pub protocols: Option<Seq<Protocol>>,
    pub idle_secs: Option<u64>,
    /// Whether throughput is to be published.
    pub monitored: bool,
    /// The place where throughput is to be published, if one was given.
    pub published: Option<Arc<AtomicUsize>>,
}

/// The settings of a server.
pub struct ServerView<H> {
    pub services: Map<MethodKey, H>,
    pub address: SocketAddress,
    pub threads: usize,
    pub protocols: Seq<Protocol>,
    pub idle_secs: u64,
    /// Whether throughput is published.
    pub monitored: bool,
}

/// The carriers of a server that was not told which to speak.
pub open spec fn spec_default_protocols() -> Seq<Protocol> {
    seq![Protocol::Brpc, Protocol::Http]
}

/// The server that a builder with the settings `b` gives, where `address` is
/// what its address text was read as.
pub open spec fn spec_build<H>(b: ServerBuilderView<H>, address: Option<SocketAddress>) -> Result<
    ServerView<H>,
    ServerBuildError,
> {
    match address {
        None => Err(ServerBuildError::AddressParse),
        Some(address) => Ok(
            ServerView {
                services: b.services,
                address,
                threads: match b.threads {
                    Some(n) => n,
                    None => 1,
                },
                protocols: match b.protocols {
                    Some(p) => p,
                    None => spec_default_protocols(),
                },
                idle_secs: match b.idle_secs {
                    Some(s) => s,
                    None => DEFAULT_IDLE_SECS,
                },
                monitored: b.monitored,
            },
        ),
    }
}

/// The number of event loops that a server asked for `threads` runs on a
/// machine with `cpus` processors: at least one, and no more than there are
/// processors.
pub open spec fn spec_reactor_threads(threads: usize, cpus: usize) -> usize {
    if threads < 1 || cpus < 1 {
        1
    } else if threads > cpus {
        cpus
    } else {
        threads
    }
}

impl<'a, H> View for ServerBuilder<'a, H> {
    type V = ServerBuilderView<H>;

    closed spec fn view(&self) -> ServerBuilderView<H> {
        ServerBuilderView {
            services: self.services@,
            addr: self.addr@,
            threads: self.threads,
            protocols: match self.protocols {
                Some(p) => Some(p@),
                None => None,
            },
            idle_secs: self.idle_secs,
            monitored: self.remote is Some,
            published: self.throughput,
        }
    }
}

impl<'a, H> ServerBuilder<'a, H> {
    /// A server that will listen on `addr` and offer `services`.
    pub fn new(addr: &'a str, services: ServiceRegistry<H>) -> (builder: Self)
        ensures
            builder@ == (ServerBuilderView {
                services: services@,
                addr: addr@,
                threads: None,
                protocols: None,
                idle_secs: None,
                monitored: false,
                published: None,
            }),
    {
        ServerBuilder {
            services,
            addr,
            threads: None,
            protocols: None,
            idle_secs: None,
            remote: None,
            throughput: None,
        }
    }

    /// Sets the number of event loops. It defaults to one.
    pub fn threads(self, threads: usize) -> (builder: Self)
        ensures
            builder@ == (ServerBuilderView { threads: Some(threads), ..self@ }),
    {
        ServerBuilder { threads: Some(threads), ..self }
    }

    /// Sets the carriers that the server speaks. It defaults to all.
    pub fn protocols(self, protocols: Vec<Protocol>) -> (builder: Self)
        ensures
            builder@ == (ServerBuilderView { protocols: Some(protocols@), ..self@ }),
    {
        ServerBuilder { protocols: Some(protocols), ..self }
    }

    /// Sets the seconds for which an unused connection is kept. It defaults
    /// to sixty.
    pub fn idle_secs(self, idle: u64) -> (builder: Self)
        ensures
            builder@ == (ServerBuilderView { idle_secs: Some(idle), ..self@ }),
    {
        ServerBuilder { idle_secs: Some(idle), ..self }
    }

    /// Has the server publish its throughput in `throughput`, from a task
    /// on the event loop behind `remote`.
    pub fn throughput(self, throughput: Arc<AtomicUsize>, remote: Remote) -> (builder: Self)
        ensures
            builder@ == (ServerBuilderView {
                monitored: true,
                published: Some(throughput),
                ..self@
            }),
    {
        ServerBuilder { throughput: Some(throughput), remote: Some(remote), ..self }
    }

    /// The text of the address that the server is to listen on.
    pub fn addr(&self) -> (addr: &'a str)
        ensures
            addr@ == self@.addr,
    {
        self.addr
    }

    /// Builds the server. `address` is what the address text was read as:
    /// nothing, where it is not a socket address, which fails the build.
    ///
    /// The server publishes its throughput in the place that the builder was
    /// given, and in a place of its own where it was given none.
    pub fn build(self, address: Option<SocketAddress>) -> (r: Result<Server<H>, ServerBuildError>)
        ensures
            match r {
                Ok(server) => spec_build(self@, address) == Ok::<ServerView<H>, ServerBuildError>(
                    server@,
                ) && (self@.published is Some ==> server.spec_published() == self@.published->0),
                Err(e) => spec_build(self@, address) == Err::<ServerView<H>, ServerBuildError>(e),
            },
    {
        let address = match address {
            Some(address) => address,
            None => {
                return Err(ServerBuildError::AddressParse);
            },
        };
        let threads: usize = match self.threads {
            Some(n) => n,
            None => 1,
        };
        let protocols = match self.protocols {
            Some(p) => p,
            None => {
                let mut all: Vec<Protocol> = Vec::new();
                all.push(Protocol::Brpc);
                all.push(Protocol::Http);
                assert(all@ == spec_default_protocols());
                all
            },
        };
        let idle_secs: u64 = match self.idle_secs {
            Some(s) => s,
            None => DEFAULT_IDLE_SECS,
        };
        let throughput = match self.throughput {
            Some(shared) => shared,
            None => Arc::new(AtomicUsize::new(0)),
        };
        Ok(
            Server {
                services: Arc::new(self.services),
                address,
                threads,
                protocols,
                idle_secs,
                finished: Arc::new(AtomicUsize::new(0)),
                throughput,
                remote: self.remote,
            },
        )
    }
}

/// A server that is ready to run.
pub struct Server<H> {
    services: Arc<ServiceRegistry<H>>,
    address: SocketAddress,
    threads: usize,
    protocols: Vec<Protocol>,
    idle_secs: u64,
    finished: Arc<AtomicUsize>,
    throughput: Arc<AtomicUsize>,
    remote: Option<Remote>,
}

impl<H> View for Server<H> {
    type V = ServerView<H>;

    closed spec fn view(&self) -> ServerView<H> {
        ServerView {
            services: self.services@,
            address: self.address,
            threads: self.threads,
            protocols: self.protocols@,
            idle_secs: self.idle_secs,
            monitored: self.remote is Some,
        }
    }
}

impl<H> Server<H> {
    /// The counter of completed responses.
    pub closed spec fn spec_finished(self) -> Arc<AtomicUsize> {
        self.finished
    }

    /// The place where throughput is published.
    pub closed spec fn spec_published(self) -> Arc<AtomicUsize> {
        self.throughput
    }

    /// The service that runs on each connection.
    pub fn service(&self) -> (service: MetaService<H>)
        ensures
            service.spec_registry() == self@.services,
    {
        MetaService::new(Arc::clone(&self.services))
    }

    /// Where the server listens.
    pub fn address(&self) -> (address: SocketAddress)
        ensures
            address == self@.address,
    {
        self.address
    }

    /// The number of event loops to run on a machine with `cpus`
    /// processors.
    pub fn reactor_threads(&self, cpus: usize) -> (n: usize)
        ensures
            n == spec_reactor_threads(self@.threads, cpus),
            1 <= n,
            cpus >= 1 ==> n <= cpus,
    {
        if self.threads < 1 || cpus < 1 {
            1
        } else if self.threads > cpus {
            cpus
        } else {
            self.threads
        }
    }

    /// Whether the server speaks `protocol`.
    pub fn speaks(&self, protocol: Protocol) -> (spoken: bool)
        ensures
            spoken == self@.protocols.contains(protocol),
    {
        let mut i: usize = 0;
        while i < self.protocols.len()
            invariant
                i <= self.protocols@.len(),
                forall|k: int| 0 <= k < i ==> self.protocols@[k] != protocol,
            decreases self.protocols@.len() - i,
        {
            if self.protocols[i] == protocol {
                return true;
            }
            i += 1;
        }
        false
    }

    /// Seconds for which an unused connection is kept.
    pub fn idle_secs(&self) -> (secs: u64)
        ensures
            secs == self@.idle_secs,
    {
        self.idle_secs
    }

    /// The record of a connection that this server accepted at `now`.
    pub fn accept(&self, now: u64, max_in_flight: usize) -> (connection: Connection)
        ensures
            connection@ == (ConnectionView {
                last_activity: now,
                idle_secs: self@.idle_secs,
                max_in_flight,
                in_flight: Set::empty(),
            }),
    {
        Connection::new(now, self.idle_secs, max_in_flight)
    }

    /// Another handle on the counter of completed responses: the same
    /// counter every time.
    pub fn finished(&self) -> (counter: Arc<AtomicUsize>)
        ensures
            counter == self.spec_finished(),
    {
        Arc::clone(&self.finished)
    }

    /// Another handle on the place where throughput is published: the one
    /// that the builder was given, where it was given one.
    pub fn throughput(&self) -> (place: Arc<AtomicUsize>)
        ensures
            place == self.spec_published(),
    {
        Arc::clone(&self.throughput)
    }

    /// The event loop that the throughput monitor runs on, if throughput is
    /// published.
    pub fn remote(&self) -> (remote: Option<&Remote>)
        ensures
            remote is Some <==> self@.monitored,
    {
        self.remote.as_ref()
    }
}

} // verus!
