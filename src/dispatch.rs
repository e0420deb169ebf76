//! Per-connection HTTP proxy dispatch: what to do with each request read from
//! a client connection, and with the outcome of the backend work it asked for.
//!
//! The caller performs each `Action` (answers, opens a tunnel, forwards) and
//! reports the outcome back to the `Session`.
use vstd::prelude::*;
use vstd::string::StringExecFns;
use crate::render::address_text;
use crate::target::Address;

verus! {

pub const STATUS_OK: u16 = 200;

pub const STATUS_BAD_REQUEST: u16 = 400;

pub const STATUS_INTERNAL_SERVER_ERROR: u16 = 500;

/// A response produced by the proxy itself.
#[derive(Clone, Debug, PartialEq, Eq)]
pub struct Reply {
    pub status: u16,
    pub headers: Vec<(String, String)>,
    pub body: String,
}

pub open spec fn headers_view(h: Seq<(String, String)>) -> Seq<(Seq<char>, Seq<char>)> {
    h.map_values(|p: (String, String)| (p.0@, p.1@))
}

/// The answer to a target that names no destination.
pub open spec fn is_bad_request(r: Reply) -> bool {
    &&& r.status == 400
    &&& r.headers@.len() == 0
    &&& r.body@ == "URI must be a valid Address"@
}

/// The answer that opens a tunnel: `200`, an empty body and a
/// `Proxy-Agent: ShadowSocks/<version>` header.
pub open spec fn is_tunnel_established(r: Reply, version: Seq<char>) -> bool {
    &&& r.status == 200
    &&& headers_view(r.headers@) == seq![("Proxy-Agent"@, "ShadowSocks/"@ + version)]
    &&& r.body@.len() == 0
}

/// The answer to a forwarded request that the backend could not carry.
pub open spec fn is_relay_failed(r: Reply, destination: Address) -> bool {
    &&& r.status == 500
    &&& r.headers@.len() == 0
    &&& r.body@ == "Relay failed to "@ + address_text(destination@)
}

/// `400` with a short body.
pub fn bad_request() -> (r: Reply)
    ensures
        is_bad_request(r),
{
    Reply {
        status: STATUS_BAD_REQUEST,
        headers: Vec::new(),
        body: String::from_str("URI must be a valid Address"),
    }
}

/// `200` with an empty body and the proxy's identification.
pub fn tunnel_established(version: &str) -> (r: Reply)
    ensures
        is_tunnel_established(r, version@),
{
    let agent = String::from_str("ShadowSocks/").concat(version);
    let mut headers: Vec<(String, String)> = Vec::new();
    headers.push((String::from_str("Proxy-Agent"), agent));
    assert(headers_view(headers@) =~= seq![("Proxy-Agent"@, "ShadowSocks/"@ + version@)]);
    Reply { status: STATUS_OK, headers, body: String::new() }
}

/// `500` naming the destination.
pub fn relay_failed(destination: &Address) -> (r: Reply)
    ensures
        is_relay_failed(r, *destination),
{
    let text = destination.to_text();
    Reply {
        status: STATUS_INTERNAL_SERVER_ERROR,
        headers: Vec::new(),
        body: String::from_str("Relay failed to ").concat(text.as_str()),
    }
}

/// Where a client connection stands.
#[derive(Clone, Debug, PartialEq, Eq)]
pub enum SessionState {
    /// Waiting for the next request.
    Ready,
    /// A `CONNECT` is opening its tunnel.
    Tunneling,
    /// A request is being forwarded.
    Forwarding,
    /// The connection was handed over to a tunnel relay.
    Upgraded,
    /// The connection has failed and takes no more requests.
    Closed,
}

/// What the caller does next.
#[derive(Clone, Debug, PartialEq, Eq)]
pub enum Action {
    /// Send this response; the connection stays usable.
    Respond(Reply),
    /// Open a tunnel to the address through the assigned backend, then report
    /// with `on_tunnel`. No response is sent meanwhile.
    OpenTunnel(Address),
    /// Send the request through the backend's client, then report with
    /// `on_forwarded`.
    Forward(Address),
    /// Send the upstream response as it came.
    PassThrough,
    /// Send this response; once the client upgrades the connection, relay it
    /// through the tunnel as a detached task.
    RespondThenRelay(Reply),
    /// Fail the whole connection with the backend error.
    Fail,
}

/// What answering a request does, as `Session::on_request` performs it.
pub open spec fn request_step(is_connect: bool, target: Option<Address>, r: Action) -> bool {
    match target {
        None => r matches Action::Respond(reply) && is_bad_request(reply),
        Some(a) => if is_connect {
            r == Action::OpenTunnel(a)
        } else {
            r == Action::Forward(a)
        },
    }
}

pub open spec fn state_after_request(is_connect: bool, target: Option<Address>) -> SessionState {
    match target {
        None => SessionState::Ready,
        Some(_) => if is_connect {
            SessionState::Tunneling
        } else {
            SessionState::Forwarding
        },
    }
}

/// What the outcome of opening a tunnel does, as `Session::on_tunnel`
/// performs it.
pub open spec fn tunnel_step(opened: bool, version: Seq<char>, r: Action) -> bool {
    if opened {
        r matches Action::RespondThenRelay(reply) && is_tunnel_established(reply, version)
    } else {
        r == Action::Fail
    }
}

pub open spec fn state_after_tunnel(opened: bool) -> SessionState {
    if opened {
        SessionState::Upgraded
    } else {
        SessionState::Closed
    }
}

/// What the outcome of a forwarded request does, as
/// `Session::on_forwarded` performs it.
pub open spec fn forwarded_step(delivered: bool, destination: Address, r: Action) -> bool {
    if delivered {
        r == Action::PassThrough
    } else {
        r matches Action::Respond(reply) && is_relay_failed(reply, destination)
    }
}

/// Whether the action sends a response on the client connection.
pub open spec fn answers(r: Action) -> bool {
    r is Respond || r is RespondThenRelay || r is PassThrough
}

/// Whether the action contacts the backend.
pub open spec fn contacts_backend(r: Action) -> bool {
    r is OpenTunnel || r is Forward
}

/// The dispatch state of one client connection.
pub struct Session {
    pub state: SessionState,
}

impl Session {
    pub fn new() -> (r: Session)
        ensures
            r.state == SessionState::Ready,
    {
        Session { state: SessionState::Ready }
    }

    /// A request arrived with `target` resolved from its URI (`None` when the
    /// target names no destination). A `CONNECT` opens a tunnel; any other
    /// method is forwarded; an unresolved target is answered `400` at once,
    /// and no backend is contacted.
    pub fn on_request(&mut self, is_connect: bool, target: Option<Address>) -> (r: Action)
        requires
            old(self).state == SessionState::Ready,
        ensures
            request_step(is_connect, target, r),
            final(self).state == state_after_request(is_connect, target),
    {
        match target {
            None => Action::Respond(bad_request()),
            Some(a) => if is_connect {
                self.state = SessionState::Tunneling;
                Action::OpenTunnel(a)
            } else {
                self.state = SessionState::Forwarding;
                Action::Forward(a)
            },
        }
    }

    /// The tunnel of a `CONNECT` was opened (`opened`) or failed. On success
    /// the client gets the `200` answer before any tunnel byte; on failure the
    /// connection ends.
    pub fn on_tunnel(&mut self, opened: bool, version: &str) -> (r: Action)
        requires
            old(self).state == SessionState::Tunneling,
        ensures
            tunnel_step(opened, version@, r),
            final(self).state == state_after_tunnel(opened),
    {
        if opened {
            self.state = SessionState::Upgraded;
            Action::RespondThenRelay(tunnel_established(version))
        } else {
            self.state = SessionState::Closed;
            Action::Fail
        }
    }

    /// A forwarded request came back (`delivered`) or failed; `destination`
    /// is the address that `Action::Forward` named. A failure is answered
    /// `500` naming the destination. Either way the connection takes the next request.
    pub fn on_forwarded(&mut self, delivered: bool, destination: &Address) -> (r: Action)
        requires
            old(self).state == SessionState::Forwarding,
        ensures
            forwarded_step(delivered, *destination, r),
            final(self).state == SessionState::Ready,
    {
        self.state = SessionState::Ready;
        if delivered {
            Action::PassThrough
        } else {
            Action::Respond(relay_failed(destination))
        }
    }
}

/// A target that names no destination is answered `400` on the spot, never
/// reaches the backend, and leaves the connection ready for the next request.
pub proof fn malformed_target_is_refused(is_connect: bool, r: Action)
    requires
        request_step(is_connect, None, r),
    ensures
        r matches Action::Respond(reply) && is_bad_request(reply),
        !contacts_backend(r),
        state_after_request(is_connect, None) == SessionState::Ready,
{
}

/// A `CONNECT` to a resolved address sends nothing until the tunnel is open;
/// once it is, the one answer is `200` with an empty body and a `Proxy-Agent`
/// header, sent before the relay starts, and the connection carries no
/// further requests.
pub proof fn connect_answers_once(a: Address, version: Seq<char>, first: Action, second: Action)
    requires
        request_step(true, Some(a), first),
        tunnel_step(true, version, second),
    ensures
        first == Action::OpenTunnel(a),
        !answers(first),
        second matches Action::RespondThenRelay(reply) && is_tunnel_established(reply, version),
        state_after_request(true, Some(a)) == SessionState::Tunneling,
        state_after_tunnel(true) == SessionState::Upgraded,
{
}

/// A forwarded request that the backend cannot carry is answered `500`
/// naming the destination, and the connection is ready for the next request.
pub proof fn forward_failure_keeps_connection(a: Address, first: Action, second: Action)
    requires
        request_step(false, Some(a), first),
        forwarded_step(false, a, second),
    ensures
        first == Action::Forward(a),
        !answers(first),
        second matches Action::Respond(reply) && is_relay_failed(reply, a),
        state_after_request(false, Some(a)) == SessionState::Forwarding,
{
}

} // verus!
