//! Runtime handshake options, results and errors of the Hyphae QUIC
//! handshake, with the verified decisions of its entry points: how a
//! completed connection's peer identity becomes a handshake result, and which
//! lifecycle hook fires and which outcome follows each event of a
//! `client_connect` or `server_accept` run.

mod api;
mod extract;
mod flow;
mod laws;
mod text;

pub use api::{
    bytes_view, key_view, HandshakeError, HandshakeErrorView, HandshakeOptions, HandshakeResult,
    HandshakeResultView, HandshakeStage, DEFAULT_MAX_PAYLOAD_LEN, DEFAULT_TIMEOUT_SECS,
};
pub use extract::{
    apply_downgrade_verdict, extract_result, extraction_outcome, hash_length_message,
    identity_outcome, outcome_view, payload_too_large_message, reported_pattern, reported_payload,
    static_length_message, HyphaePeerIdentity, PeerIdentityLookup, PeerIdentityLookupView,
    PeerIdentityView, KEY_LEN, V1_PATTERN,
};
pub use flow::{
    expects, finish_step, opening_stage, transition, FlowEvent, FlowEventView, FlowNext,
    FlowNextView, FlowPhase, FlowStep, FlowStepView, HandshakeFlow, HandshakeRole,
};
pub use laws::{
    accepted_identity_is_reported_unchanged, accepted_payload_is_unchanged,
    accepted_payload_is_within_limit, accepted_run, bad_handshake_hash_is_key_error,
    bad_static_key_is_key_error, decimal_denotes_its_number, default_options_values,
    digits_value, empty_payload_is_reported_as_none, error_rendering,
    extraction_outcome_is_returned_unchanged, only_possible_events_are_expected,
    pinning_without_static_key_is_refused, possible_events_are_expected,
    progress_events_advance_the_run, transport_failure_is_io_error,
    unusable_identity_is_io_error, ends_in_success,
    extraction_succeeds_iff_checks_pass, finished_run_takes_no_event, fired_hooks,
    hooks_fire_in_lifecycle_order, lifecycle, oversize_payload_is_refused, passes_checks,
    pinned_key_is_peer_static, pinned_key_mismatch_is_refused, progress,
    reported_pattern_is_never_empty, run_steps, success_iff_all_hooks_fired,
    timeout_ends_run_with_timeout_error,
};
pub use text::{decimal, digit_char, push_decimal};
