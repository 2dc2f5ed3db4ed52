use vstd::prelude::*;

use crate::error::ErrorKind;

verus! {

/// How long the accept loop pauses after a persistent accept error, in
/// milliseconds. The pause bounds the rate of busy-looping against a socket
/// that keeps failing, without terminating the listener.
pub const BACKOFF_MILLIS: u64 = 500;

/// Whether an accept-time error represents a race with a peer that
/// disconnected before or during the accept handshake. Such an error is
/// fully recovered locally: the loop continues immediately, with no delay.
pub fn is_transient_error(kind: &ErrorKind) -> (r: bool)
    ensures
        r == kind.is_transient(),
{
    match kind {
        ErrorKind::ConnectionRefused => true,
        ErrorKind::ConnectionAborted => true,
        ErrorKind::ConnectionReset => true,
        _ => false,
    }
}

/// What one turn of the accept loop observed from the listening socket.
pub enum AcceptEvent {
    /// A raw TCP connection was accepted.
    Accepted,
    /// Accepting failed with an error of the given kind.
    Failed(ErrorKind),
    /// The socket's stream of connections ended.
    Ended,
}

/// What the accept loop does next after one observation.
pub enum AcceptAction {
    /// Dispatch an independent, concurrently-scheduled handler for the
    /// accepted connection and keep accepting at once.
    Dispatch,
    /// Keep accepting at once, with no delay.
    Continue,
    /// Pause for the given number of milliseconds, then keep accepting.
    Backoff(u64),
    /// Leave the loop.
    Stop,
}

/// The decision of one turn of the accept loop: dispatch every accepted
/// connection; on a transient accept error continue immediately; on any
/// other accept error pause for the fixed backoff interval, and never
/// otherwise; stop only when the socket's stream of connections ends.
pub fn accept_step(event: &AcceptEvent) -> (r: AcceptAction)
    ensures
        *event is Accepted ==> r is Dispatch,
        event matches AcceptEvent::Failed(kind) && kind.is_transient() ==> r is Continue,
        event matches AcceptEvent::Failed(kind) && !kind.is_transient() ==> (r matches
            AcceptAction::Backoff(ms) && ms == BACKOFF_MILLIS),
        *event is Ended ==> r is Stop,
{
    match event {
        AcceptEvent::Accepted => AcceptAction::Dispatch,
        AcceptEvent::Failed(kind) => {
            if is_transient_error(kind) {
                AcceptAction::Continue
            } else {
                AcceptAction::Backoff(BACKOFF_MILLIS)
            }
        },
        AcceptEvent::Ended => AcceptAction::Stop,
    }
}

/// The outcome of TLS negotiation on one accepted connection, as the
/// per-connection handler reads it.
pub enum NegotiationOutcome {
    /// Negotiation succeeded and yielded a decrypted stream meant for the
    /// HTTP layer.
    Session,
    /// Negotiation succeeded but the connection is not for the HTTP layer:
    /// a custom strategy kept it for itself.
    NotForUs,
    /// Negotiation failed.
    Failed,
}

/// What the per-connection handler does after negotiation.
pub enum HandlerAction {
    /// Wrap the decrypted stream and hand it to the HTTP layer, with the
    /// connection's scheme marked secure.
    Serve,
    /// End the handler silently: the connection was intentionally not
    /// promoted to an HTTP connection.
    DropSilently,
    /// Log the negotiation error and end the handler; the failure never
    /// reaches the accept loop or another connection.
    LogAndDrop,
}

/// The decision of the per-connection handler: serve exactly the
/// negotiations that yielded a stream for the HTTP layer, drop "not for us"
/// connections silently, and log failed negotiations before dropping them.
pub fn negotiation_step(outcome: &NegotiationOutcome) -> (r: HandlerAction)
    ensures
        *outcome is Session ==> r is Serve,
        *outcome is NotForUs ==> r is DropSilently,
        *outcome is Failed ==> r is LogAndDrop,
{
    match outcome {
        NegotiationOutcome::Session => HandlerAction::Serve,
        NegotiationOutcome::NotForUs => HandlerAction::DropSilently,
        NegotiationOutcome::Failed => HandlerAction::LogAndDrop,
    }
}

} // verus!
