use tide_rustls::accept_step;
use tide_rustls::is_transient_error;
use tide_rustls::negotiation_step;
use tide_rustls::AcceptAction;
use tide_rustls::AcceptEvent;
use tide_rustls::ErrorKind;
use tide_rustls::HandlerAction;
use tide_rustls::NegotiationOutcome;
use tide_rustls::BACKOFF_MILLIS;

#[test]
fn transient_kinds_are_transient() {
    assert!(is_transient_error(&ErrorKind::ConnectionRefused));
    assert!(is_transient_error(&ErrorKind::ConnectionAborted));
    assert!(is_transient_error(&ErrorKind::ConnectionReset));
}

#[test]
fn other_kinds_are_not_transient() {
    assert!(!is_transient_error(&ErrorKind::InvalidInput));
    assert!(!is_transient_error(&ErrorKind::Other));
}

#[test]
fn accepted_connection_is_dispatched() {
    assert!(matches!(accept_step(&AcceptEvent::Accepted), AcceptAction::Dispatch));
}

#[test]
fn transient_error_never_backs_off() {
    for kind in [
        ErrorKind::ConnectionRefused,
        ErrorKind::ConnectionAborted,
        ErrorKind::ConnectionReset,
    ] {
        let action = accept_step(&AcceptEvent::Failed(kind));
        assert!(matches!(action, AcceptAction::Continue));
    }
}

#[test]
fn persistent_error_backs_off_500_millis() {
    for kind in [ErrorKind::InvalidInput, ErrorKind::Other] {
        let action = accept_step(&AcceptEvent::Failed(kind));
        assert!(matches!(action, AcceptAction::Backoff(500)));
    }
    assert_eq!(BACKOFF_MILLIS, 500);
}

#[test]
fn ended_stream_stops_the_loop() {
    assert!(matches!(accept_step(&AcceptEvent::Ended), AcceptAction::Stop));
}

#[test]
fn negotiated_session_is_served() {
    assert!(matches!(negotiation_step(&NegotiationOutcome::Session), HandlerAction::Serve));
}

#[test]
fn not_for_us_is_dropped_silently() {
    assert!(matches!(
        negotiation_step(&NegotiationOutcome::NotForUs),
        HandlerAction::DropSilently
    ));
}

#[test]
fn failed_negotiation_is_logged_and_dropped() {
    assert!(matches!(
        negotiation_step(&NegotiationOutcome::Failed),
        HandlerAction::LogAndDrop
    ));
}
