use vstd::prelude::*;
use vstd::pervasive::unreached;
use crate::bytes::copy_bytes;
use crate::error::ClientError;
use crate::uri::{plan_matches, plan_stream, spec_target_port, StreamPlan, UriParts};

verus! {

/// The phase of one request's dispatch. A dispatch is strictly linear:
/// connect, upgrade to TLS when the secure scheme demands it, perform the
/// HTTP/1.1 handshake, send, then stop — no retries and no reuse of the
/// stream.
pub enum DispatchState {
    /// The anonymous connection to the planned host and port is being made.
    Connecting {
        /// The plan the stream is built to.
        plan: StreamPlan,
    },
    /// The raw stream is being upgraded to TLS (secure scheme only).
    Upgrading {
        /// The plan the stream is built to.
        plan: StreamPlan,
    },
    /// The HTTP/1.1 handshake over the finished stream is in progress.
    Handshaking,
    /// The request is being framed and sent; the response is awaited.
    Sending,
    /// The response arrived with this status; the stream is abandoned.
    Complete {
        /// Status code of the received response.
        status: u16,
    },
    /// The exchange failed; nothing further is attempted.
    Failed {
        /// The failure surfaced to the caller.
        error: ClientError,
    },
}

/// What the driver observed of the outside work the last action asked for.
pub enum DispatchEvent {
    /// The anonymous connection is established.
    ConnectOk,
    /// The overlay network could not connect.
    ConnectFailed,
    /// The TLS handshake succeeded.
    TlsOk,
    /// The TLS handshake failed.
    TlsFailed,
    /// The HTTP/1.1 handshake succeeded and the connection is being driven.
    HandshakeOk,
    /// The HTTP/1.1 handshake failed.
    HandshakeFailed,
    /// The response arrived with this status.
    SendOk {
        /// Status code of the received response.
        status: u16,
    },
    /// The request could not be framed, sent, or answered.
    SendFailed,
}

/// The next piece of outside work the driver must perform.
pub enum DispatchAction {
    /// Connect anonymously to this host and port.
    Connect {
        /// Host to connect to.
        host: Vec<u8>,
        /// Port to connect to.
        port: u16,
    },
    /// Upgrade the raw stream to TLS against this server name.
    UpgradeTls {
        /// Server name the certificate must be validated against.
        host: Vec<u8>,
    },
    /// Perform the HTTP/1.1 handshake and spawn the connection driver.
    Handshake,
    /// Normalize the headers, send the request, and await the response.
    SendRequest,
    /// Hand the received response to the caller.
    Deliver {
        /// Status code of the received response.
        status: u16,
    },
    /// Surface this error to the caller.
    Fail {
        /// The failure surfaced to the caller.
        error: ClientError,
    },
}

/// Which events a state can observe: exactly the reports of the work its
/// pending action asked for. Terminal states observe nothing, so a finished
/// or failed dispatch can never be driven further.
pub open spec fn accepts(s: DispatchState, e: DispatchEvent) -> bool {
    match s {
        DispatchState::Connecting { .. } => e is ConnectOk || e is ConnectFailed,
        DispatchState::Upgrading { .. } => e is TlsOk || e is TlsFailed,
        DispatchState::Handshaking => e is HandshakeOk || e is HandshakeFailed,
        DispatchState::Sending => e is SendOk || e is SendFailed,
        DispatchState::Complete { .. } => false,
        DispatchState::Failed { .. } => false,
    }
}

/// The transition relation of a dispatch: from state `s`, observing `e`,
/// the machine moves to `s2` and asks the driver for `a`. Each failure
/// event fails the dispatch with the error of its own layer.
pub open spec fn step_matches(
    s: DispatchState,
    e: DispatchEvent,
    s2: DispatchState,
    a: DispatchAction,
) -> bool {
    match (s, e) {
        (DispatchState::Connecting { plan }, DispatchEvent::ConnectOk) => {
            if plan.use_tls {
                &&& s2 matches DispatchState::Upgrading { plan: p2 } && p2 == plan
                &&& a matches DispatchAction::UpgradeTls { host } && host@ == plan.host@
            } else {
                &&& s2 is Handshaking
                &&& a is Handshake
            }
        },
        (DispatchState::Connecting { plan }, DispatchEvent::ConnectFailed) => {
            &&& s2 matches DispatchState::Failed { error } && error == ClientError::Transport
            &&& a matches DispatchAction::Fail { error } && error == ClientError::Transport
        },
        (DispatchState::Upgrading { plan }, DispatchEvent::TlsOk) => {
            &&& s2 is Handshaking
            &&& a is Handshake
        },
        (DispatchState::Upgrading { plan }, DispatchEvent::TlsFailed) => {
            &&& s2 matches DispatchState::Failed { error } && error == ClientError::Tls
            &&& a matches DispatchAction::Fail { error } && error == ClientError::Tls
        },
        (DispatchState::Handshaking, DispatchEvent::HandshakeOk) => {
            &&& s2 is Sending
            &&& a is SendRequest
        },
        (DispatchState::Handshaking, DispatchEvent::HandshakeFailed) => {
            &&& s2 matches DispatchState::Failed { error } && error == ClientError::Http
            &&& a matches DispatchAction::Fail { error } && error == ClientError::Http
        },
        (DispatchState::Sending, DispatchEvent::SendOk { status }) => {
            &&& s2 == DispatchState::Complete { status }
            &&& a == DispatchAction::Deliver { status }
        },
        (DispatchState::Sending, DispatchEvent::SendFailed) => {
            &&& s2 matches DispatchState::Failed { error } && error == ClientError::Http
            &&& a matches DispatchAction::Fail { error } && error == ClientError::Http
        },
        _ => false,
    }
}

/// Starts one dispatch: validates the URI and decides the stream plan.
/// Fails with `InvalidUri` exactly when the URI has no host — before any
/// transport work is asked for; otherwise the dispatch begins connecting
/// and the one and only `Connect` action of this request is issued.
pub fn begin_dispatch(uri: &UriParts) -> (r: Result<(DispatchState, DispatchAction), ClientError>)
    ensures
        r is Ok <==> uri.host is Some,
        r matches Err(e) ==> e == ClientError::InvalidUri,
        r matches Ok(p) ==> {
            &&& p.0 matches DispatchState::Connecting { plan } && plan_matches(*uri, plan)
            &&& p.1 matches DispatchAction::Connect { host, port } && (uri.host matches Some(h)
                && host@ == h@) && port == spec_target_port(uri.port, uri.secure)
        },
{
    match plan_stream(uri) {
        Err(e) => Err(e),
        Ok(plan) => {
            let host = copy_bytes(&plan.host);
            let port = plan.port;
            Ok((DispatchState::Connecting { plan }, DispatchAction::Connect { host, port }))
        },
    }
}

/// Advances one dispatch by the event the driver observed, handing back the
/// next state and the next piece of outside work.
pub fn dispatch_step(s: DispatchState, e: DispatchEvent) -> (r: (DispatchState, DispatchAction))
    requires
        accepts(s, e),
    ensures
        step_matches(s, e, r.0, r.1),
{
    match (s, e) {
        (DispatchState::Connecting { plan }, DispatchEvent::ConnectOk) => {
            if plan.use_tls {
                let host = copy_bytes(&plan.host);
                (DispatchState::Upgrading { plan }, DispatchAction::UpgradeTls { host })
            } else {
                (DispatchState::Handshaking, DispatchAction::Handshake)
            }
        },
        (DispatchState::Connecting { .. }, DispatchEvent::ConnectFailed) => (
            DispatchState::Failed { error: ClientError::Transport },
            DispatchAction::Fail { error: ClientError::Transport },
        ),
        (DispatchState::Upgrading { .. }, DispatchEvent::TlsOk) => (
            DispatchState::Handshaking,
            DispatchAction::Handshake,
        ),
        (DispatchState::Upgrading { .. }, DispatchEvent::TlsFailed) => (
            DispatchState::Failed { error: ClientError::Tls },
            DispatchAction::Fail { error: ClientError::Tls },
        ),
        (DispatchState::Handshaking, DispatchEvent::HandshakeOk) => (
            DispatchState::Sending,
            DispatchAction::SendRequest,
        ),
        (DispatchState::Handshaking, DispatchEvent::HandshakeFailed) => (
            DispatchState::Failed { error: ClientError::Http },
            DispatchAction::Fail { error: ClientError::Http },
        ),
        (DispatchState::Sending, DispatchEvent::SendOk { status }) => (
            DispatchState::Complete { status },
            DispatchAction::Deliver { status },
        ),
        (DispatchState::Sending, DispatchEvent::SendFailed) => (
            DispatchState::Failed { error: ClientError::Http },
            DispatchAction::Fail { error: ClientError::Http },
        ),
        _ => unreached(),
    }
}

/// A run of one dispatch: `states[0]` is where it began, `events[k]` is
/// what the driver observed in `states[k]`, and `actions[k]` is the work
/// the machine asked for in response.
pub open spec fn valid_trace(
    states: Seq<DispatchState>,
    events: Seq<DispatchEvent>,
    actions: Seq<DispatchAction>,
) -> bool {
    &&& states.len() == events.len() + 1
    &&& actions.len() == events.len()
    &&& forall|k: int| 0 <= k < events.len() ==> accepts(#[trigger] states[k], events[k])
    &&& forall|k: int|
        0 <= k < events.len() ==> step_matches(
            states[k],
            events[k],
            states[k + 1],
            #[trigger] actions[k],
        )
}

/// Law: no step of a running dispatch ever asks for another anonymous
/// connection; the one stream of a request is created for the `Connect`
/// action of `begin_dispatch` alone.
pub proof fn lemma_step_never_connects(
    s: DispatchState,
    e: DispatchEvent,
    s2: DispatchState,
    a: DispatchAction,
)
    requires
        step_matches(s, e, s2, a),
    ensures
        !(a is Connect),
{
}

/// Law: a running dispatch never returns to the connecting phase.
pub proof fn lemma_step_never_reconnects(
    s: DispatchState,
    e: DispatchEvent,
    s2: DispatchState,
    a: DispatchAction,
)
    requires
        step_matches(s, e, s2, a),
    ensures
        !(s2 is Connecting),
{
}

/// Law: a TLS upgrade is requested only when the secure scheme demanded
/// it, and only straight after the anonymous connection succeeded.
pub proof fn lemma_upgrade_only_secure(
    s: DispatchState,
    e: DispatchEvent,
    s2: DispatchState,
    a: DispatchAction,
)
    requires
        step_matches(s, e, s2, a),
        a is UpgradeTls || s2 is Upgrading,
    ensures
        s matches DispatchState::Connecting { plan } && plan.use_tls,
        e is ConnectOk,
{
}

/// Law: when the anonymous transport fails, the dispatch surfaces
/// `Transport` and observes nothing further — in particular, no TLS
/// upgrade and no HTTP handshake is requested afterwards.
pub proof fn lemma_transport_failure_ends_dispatch(
    states: Seq<DispatchState>,
    events: Seq<DispatchEvent>,
    actions: Seq<DispatchAction>,
    k: int,
)
    requires
        valid_trace(states, events, actions),
        0 <= k < events.len(),
        events[k] is ConnectFailed,
    ensures
        k == events.len() - 1,
        actions[k] matches DispatchAction::Fail { error } && error == ClientError::Transport,
        states[k + 1] matches DispatchState::Failed { error } && error == ClientError::Transport,
{
    if k + 1 < events.len() {
        assert(accepts(states[k + 1], events[k + 1]));
        assert(false);
    }
}

/// Law: when the TLS upgrade fails, the dispatch surfaces `Tls` and
/// observes nothing further — the HTTP handshake is never requested.
pub proof fn lemma_tls_failure_ends_dispatch(
    states: Seq<DispatchState>,
    events: Seq<DispatchEvent>,
    actions: Seq<DispatchAction>,
    k: int,
)
    requires
        valid_trace(states, events, actions),
        0 <= k < events.len(),
        events[k] is TlsFailed,
    ensures
        k == events.len() - 1,
        actions[k] matches DispatchAction::Fail { error } && error == ClientError::Tls,
        states[k + 1] matches DispatchState::Failed { error } && error == ClientError::Tls,
{
    if k + 1 < events.len() {
        assert(accepts(states[k + 1], events[k + 1]));
        assert(false);
    }
}

/// Law: a delivered response ends the dispatch with its status pinned, so
/// one stream serves exactly one request/response exchange.
pub proof fn lemma_delivery_ends_dispatch(
    states: Seq<DispatchState>,
    events: Seq<DispatchEvent>,
    actions: Seq<DispatchAction>,
    k: int,
)
    requires
        valid_trace(states, events, actions),
        0 <= k < events.len(),
        events[k] matches DispatchEvent::SendOk { status },
    ensures
        k == events.len() - 1,
        actions[k] == (DispatchAction::Deliver { status: events[k]->status }),
        states[k + 1] == (DispatchState::Complete { status: events[k]->status }),
{
    if k + 1 < events.len() {
        assert(accepts(states[k + 1], events[k + 1]));
        assert(false);
    }
}

/// Law: a dispatch begun for a plain-scheme URI never requests a TLS
/// upgrade at any point of its run.
pub proof fn lemma_plain_scheme_never_upgrades(
    states: Seq<DispatchState>,
    events: Seq<DispatchEvent>,
    actions: Seq<DispatchAction>,
    plan: StreamPlan,
)
    requires
        valid_trace(states, events, actions),
        states[0] == (DispatchState::Connecting { plan }),
        !plan.use_tls,
    ensures
        forall|k: int| 0 <= k < actions.len() ==> !(#[trigger] actions[k] is UpgradeTls),
{
    assert forall|k: int| 0 <= k < actions.len() implies !(#[trigger] actions[k] is UpgradeTls) by {
        if actions[k] is UpgradeTls {
            lemma_upgrade_only_secure(states[k], events[k], states[k + 1], actions[k]);
            if k > 0 {
                lemma_step_never_reconnects(states[k - 1], events[k - 1], states[k], actions[k - 1]);
            }
        }
    }
}

} // verus!
