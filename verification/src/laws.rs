use vstd::prelude::*;

use crate::api::{HandshakeErrorView, HandshakeResultView, HandshakeStage};
use crate::api::HandshakeOptions;
use crate::extract::{
    extraction_outcome, reported_pattern, PeerIdentityLookupView, PeerIdentityView, V1_PATTERN,
};
use crate::flow::{
    expects, transition, FlowEventView, FlowNextView, FlowPhase, FlowStepView, HandshakeRole,
};
use crate::text::decimal;

verus! {

/// Whether a lookup passes every check of extraction.
pub open spec fn passes_checks(
    lookup: PeerIdentityLookupView,
    max_payload_len: nat,
    pinned: Option<Seq<u8>>,
) -> bool {
    match lookup {
        PeerIdentityLookupView::Found(id) => {
            &&& id.final_handshake_hash is Some
            &&& id.final_handshake_hash->0.len() == 32
            &&& id.remote_public is Some ==> id.remote_public->0.len() == 32
            &&& pinned is Some ==> id.remote_public == pinned
            &&& id.msg1_payload is Some ==> id.msg1_payload->0.len() <= max_payload_len
        },
        _ => false,
    }
}

/// Extraction succeeds exactly when the connection reported a Hyphae peer
/// identity whose handshake hash is present and 32 bytes long, whose static
/// key (if any) is 32 bytes long and equals the pinned key (if one is set),
/// and whose message-1 payload (if any) is within the limit. A successful
/// result carries the identity's hash and static key unchanged, and its
/// payload unchanged unless it is empty, which is reported as `None`.
pub proof fn extraction_succeeds_iff_checks_pass(
    lookup: PeerIdentityLookupView,
    max_payload_len: nat,
    pinned: Option<Seq<u8>>,
)
    ensures
        extraction_outcome(lookup, max_payload_len, pinned) is Ok <==> passes_checks(
            lookup,
            max_payload_len,
            pinned,
        ),
        extraction_outcome(lookup, max_payload_len, pinned) is Ok ==> ({
            let r = extraction_outcome(lookup, max_payload_len, pinned)->Ok_0;
            let id = lookup->Found_0;
            &&& r.handshake_hash == id.final_handshake_hash->0
            &&& r.handshake_hash.len() == 32
            &&& r.peer_static == id.remote_public
            &&& (id.msg1_payload is Some && id.msg1_payload->0.len() > 0) ==> r.msg1_payload
                == id.msg1_payload
            &&& (id.msg1_payload is None || id.msg1_payload->0.len() == 0) ==> r.msg1_payload
                is None
            &&& id.negotiated_pattern.len() > 0 ==> r.negotiated_pattern == id.negotiated_pattern
            &&& id.negotiated_pattern.len() == 0 ==> r.negotiated_pattern
                == "Noise_XX_25519_ChaChaPoly_BLAKE2s"@
        }),
{
    reveal_strlit("Noise_XX_25519_ChaChaPoly_BLAKE2s");
}

/// With a pinned key, every accepted handshake authenticated exactly that
/// key: the result's peer static key is the pinned key.
pub proof fn pinned_key_is_peer_static(
    lookup: PeerIdentityLookupView,
    max_payload_len: nat,
    pinned: Seq<u8>,
)
    ensures
        extraction_outcome(lookup, max_payload_len, Some(pinned)) is Ok ==> extraction_outcome(
            lookup,
            max_payload_len,
            Some(pinned),
        )->Ok_0.peer_static == Some(pinned),
{
}

/// A pinned key that differs from the peer's static key is refused with
/// `Key("peer key mismatch")`, once the hash and key lengths are valid.
pub proof fn pinned_key_mismatch_is_refused(
    lookup: PeerIdentityLookupView,
    max_payload_len: nat,
    pinned: Seq<u8>,
)
    requires
        lookup is Found,
        lookup->Found_0.final_handshake_hash is Some,
        lookup->Found_0.final_handshake_hash->0.len() == 32,
        lookup->Found_0.remote_public is Some,
        lookup->Found_0.remote_public->0.len() == 32,
        lookup->Found_0.remote_public->0 != pinned,
    ensures
        extraction_outcome(lookup, max_payload_len, Some(pinned)) == Err::<
            HandshakeResultView,
            HandshakeErrorView,
        >(HandshakeErrorView::Key("peer key mismatch"@)),
{
}

/// An accepted handshake whose initiator sent an empty message-1 payload
/// reports no payload.
pub proof fn empty_payload_is_reported_as_none(
    lookup: PeerIdentityLookupView,
    max_payload_len: nat,
    pinned: Option<Seq<u8>>,
)
    requires
        lookup is Found,
        lookup->Found_0.msg1_payload == Some(Seq::<u8>::empty()),
    ensures
        extraction_outcome(lookup, max_payload_len, pinned) is Ok ==> extraction_outcome(
            lookup,
            max_payload_len,
            pinned,
        )->Ok_0.msg1_payload is None,
{
}

/// No accepted handshake carries a message-1 payload longer than the limit,
/// nor an empty one.
pub proof fn accepted_payload_is_within_limit(
    lookup: PeerIdentityLookupView,
    max_payload_len: nat,
    pinned: Option<Seq<u8>>,
)
    ensures
        ({
            let out = extraction_outcome(lookup, max_payload_len, pinned);
            out is Ok && out->Ok_0.msg1_payload is Some ==> 0 < out->Ok_0.msg1_payload->0.len()
                <= max_payload_len
        }),
{
}

/// A message-1 payload over the limit, carried by an identity that passes
/// the hash, key-length and pinning checks, is refused with a `Payload`
/// error that names both lengths.
pub proof fn oversize_payload_is_refused(
    lookup: PeerIdentityLookupView,
    max_payload_len: nat,
    pinned: Option<Seq<u8>>,
)
    requires
        lookup is Found,
        lookup->Found_0.final_handshake_hash is Some,
        lookup->Found_0.final_handshake_hash->0.len() == 32,
        lookup->Found_0.remote_public is Some ==> lookup->Found_0.remote_public->0.len() == 32,
        pinned is Some ==> lookup->Found_0.remote_public == pinned,
        lookup->Found_0.msg1_payload is Some,
        lookup->Found_0.msg1_payload->0.len() > max_payload_len,
    ensures
        extraction_outcome(lookup, max_payload_len, pinned) == Err::<
            HandshakeResultView,
            HandshakeErrorView,
        >(
            HandshakeErrorView::Payload(
                "msg1 payload too large: "@ + decimal(lookup->Found_0.msg1_payload->0.len())
                    + " > "@ + decimal(max_payload_len),
            ),
        ),
{
}

/// The reported pattern is never empty: an identity that names no pattern
/// reports the V1 pattern.
pub proof fn reported_pattern_is_never_empty(pattern: Seq<char>)
    ensures
        reported_pattern(pattern).len() > 0,
        pattern.len() > 0 ==> reported_pattern(pattern) == pattern,
{
    reveal_strlit("Noise_XX_25519_ChaChaPoly_BLAKE2s");
    assert(V1_PATTERN@ == "Noise_XX_25519_ChaChaPoly_BLAKE2s"@);
}


/// The lifecycle stages of a run of `role`, in the order they fire.
pub open spec fn lifecycle(role: HandshakeRole) -> Seq<HandshakeStage> {
    let opening = match role {
        HandshakeRole::Client => HandshakeStage::ClientConnecting,
        HandshakeRole::Server => HandshakeStage::ServerAccepted,
    };
    seq![opening, HandshakeStage::ConnectionEstablished, HandshakeStage::HandshakeComplete]
}

/// How far into the lifecycle a phase stands.
pub open spec fn progress(phase: FlowPhase) -> nat {
    match phase {
        FlowPhase::Opening => 0,
        FlowPhase::Awaiting => 1,
        FlowPhase::Extracting => 2,
        FlowPhase::Done => 3,
    }
}

/// Whether every event of `events` is expected when it arrives, starting
/// from `phase`.
pub open spec fn accepted_run(role: HandshakeRole, phase: FlowPhase, events: Seq<FlowEventView>) -> bool
    decreases events.len(),
{
    events.len() == 0 || (expects(role, phase, events[0]) && accepted_run(
        role,
        transition(role, phase, events[0]).0,
        events.drop_first(),
    ))
}

/// The phase reached and the steps taken when `events` arrive from `phase`.
pub open spec fn run_steps(role: HandshakeRole, phase: FlowPhase, events: Seq<FlowEventView>) -> (
    FlowPhase,
    Seq<FlowStepView>,
)
    decreases events.len(),
{
    if events.len() == 0 {
        (phase, Seq::empty())
    } else {
        let (next_phase, step) = transition(role, phase, events[0]);
        let (last, rest) = run_steps(role, next_phase, events.drop_first());
        (last, seq![step] + rest)
    }
}

/// The hooks fired by a sequence of steps, in order.
pub open spec fn fired_hooks(steps: Seq<FlowStepView>) -> Seq<HandshakeStage>
    decreases steps.len(),
{
    if steps.len() == 0 {
        Seq::empty()
    } else {
        let rest = fired_hooks(steps.drop_first());
        match steps[0].hook {
            Some(stage) => seq![stage] + rest,
            None => rest,
        }
    }
}

/// Whether a sequence of steps ends by returning a successful result.
pub open spec fn ends_in_success(steps: Seq<FlowStepView>) -> bool {
    steps.len() > 0 && steps.last().next is Finish && steps.last().next->Finish_0 is Ok
}

proof fn run_from_phase(role: HandshakeRole, phase: FlowPhase, events: Seq<FlowEventView>)
    requires
        accepted_run(role, phase, events),
    ensures
        events.len() + progress(phase) <= 3,
        run_steps(role, phase, events).1.len() == events.len(),
        fired_hooks(run_steps(role, phase, events).1) =~= lifecycle(role).subrange(
            progress(phase) as int,
            progress(phase) + fired_hooks(run_steps(role, phase, events).1).len() as int,
        ),
        progress(phase) + fired_hooks(run_steps(role, phase, events).1).len() <= 3,
        events.len() > 0 ==> (ends_in_success(run_steps(role, phase, events).1) <==> progress(
            phase,
        ) + fired_hooks(run_steps(role, phase, events).1).len() == 3),
    decreases events.len(),
{
    if events.len() > 0 {
        let (next_phase, step) = transition(role, phase, events[0]);
        let rest_events = events.drop_first();
        run_from_phase(role, next_phase, rest_events);
        let (last, rest) = run_steps(role, next_phase, rest_events);
        let steps = seq![step] + rest;
        assert(steps.drop_first() =~= rest);
        assert(steps[0] == step);
        if rest_events.len() > 0 {
            assert(events.last() == rest_events.last());
            assert(steps.last() == rest.last());
        } else {
            assert(steps.last() == step);
        }
    }
}

/// Every run of `client_connect` or `server_accept` fires its lifecycle
/// hooks in order and only in order (opening stage, connection established,
/// handshake complete), possibly stopping early, and takes at most three
/// decisions.
pub proof fn hooks_fire_in_lifecycle_order(role: HandshakeRole, events: Seq<FlowEventView>)
    requires
        accepted_run(role, FlowPhase::Opening, events),
    ensures
        events.len() <= 3,
        fired_hooks(run_steps(role, FlowPhase::Opening, events).1).len() <= 3,
        fired_hooks(run_steps(role, FlowPhase::Opening, events).1) =~= lifecycle(role).take(
            fired_hooks(run_steps(role, FlowPhase::Opening, events).1).len() as int,
        ),
{
    run_from_phase(role, FlowPhase::Opening, events);
}

/// A run returns a successful result exactly when it has fired all three
/// lifecycle hooks; in particular `HandshakeComplete` never fires for a
/// failed handshake.
pub proof fn success_iff_all_hooks_fired(role: HandshakeRole, events: Seq<FlowEventView>)
    requires
        accepted_run(role, FlowPhase::Opening, events),
        events.len() > 0,
    ensures
        ends_in_success(run_steps(role, FlowPhase::Opening, events).1) <==> fired_hooks(
            run_steps(role, FlowPhase::Opening, events).1,
        ) =~= lifecycle(role),
{
    run_from_phase(role, FlowPhase::Opening, events);
    let hooks = fired_hooks(run_steps(role, FlowPhase::Opening, events).1);
    assert(lifecycle(role).subrange(0, 3) =~= lifecycle(role));
    if hooks =~= lifecycle(role) {
        assert(hooks.len() == 3);
    }
}

/// Whenever the timeout elapses while the run waits, the run ends with
/// `HandshakeError::Timeout` and fires no hook.
pub proof fn timeout_ends_run_with_timeout_error(role: HandshakeRole, phase: FlowPhase)
    requires
        expects(role, phase, FlowEventView::TimedOut),
    ensures
        transition(role, phase, FlowEventView::TimedOut) == (
            FlowPhase::Done,
            FlowStepView {
                hook: None,
                next: FlowNextView::Finish(Err(HandshakeErrorView::Timeout)),
            },
        ),
{
}

/// A run that has produced its outcome takes no further event.
pub proof fn finished_run_takes_no_event(role: HandshakeRole, event: FlowEventView)
    ensures
        !expects(role, FlowPhase::Done, event),
{
}


/// A connection that reports no peer identity, or one of another type, is
/// refused with an `Io` error naming what was wrong.
pub proof fn unusable_identity_is_io_error(max_payload_len: nat, pinned: Option<Seq<u8>>)
    ensures
        extraction_outcome(PeerIdentityLookupView::Missing, max_payload_len, pinned) == Err::<
            HandshakeResultView,
            HandshakeErrorView,
        >(HandshakeErrorView::Io("missing peer identity"@)),
        extraction_outcome(PeerIdentityLookupView::UnexpectedType, max_payload_len, pinned)
            == Err::<HandshakeResultView, HandshakeErrorView>(
            HandshakeErrorView::Io("unexpected peer identity type"@),
        ),
{
}

/// The handshake hash is checked first: a missing hash, or one that is not
/// 32 bytes long, is refused with a `Key` error that says so (giving the
/// length found), whatever the rest of the identity holds.
pub proof fn bad_handshake_hash_is_key_error(
    id: PeerIdentityView,
    max_payload_len: nat,
    pinned: Option<Seq<u8>>,
)
    ensures
        id.final_handshake_hash is None ==> extraction_outcome(
            PeerIdentityLookupView::Found(id),
            max_payload_len,
            pinned,
        ) == Err::<HandshakeResultView, HandshakeErrorView>(
            HandshakeErrorView::Key("missing final handshake hash"@),
        ),
        (id.final_handshake_hash is Some && id.final_handshake_hash->0.len() != 32)
            ==> extraction_outcome(PeerIdentityLookupView::Found(id), max_payload_len, pinned)
            == Err::<HandshakeResultView, HandshakeErrorView>(
            HandshakeErrorView::Key(
                "expected 32-byte handshake hash, got "@ + decimal(
                    id.final_handshake_hash->0.len(),
                ) + " bytes"@,
            ),
        ),
{
}

/// With a valid hash, a peer static key that is not 32 bytes long is
/// refused with a `Key` error giving its length.
pub proof fn bad_static_key_is_key_error(
    id: PeerIdentityView,
    max_payload_len: nat,
    pinned: Option<Seq<u8>>,
)
    requires
        id.final_handshake_hash is Some,
        id.final_handshake_hash->0.len() == 32,
        id.remote_public is Some,
        id.remote_public->0.len() != 32,
    ensures
        extraction_outcome(PeerIdentityLookupView::Found(id), max_payload_len, pinned) == Err::<
            HandshakeResultView,
            HandshakeErrorView,
        >(
            HandshakeErrorView::Key(
                "expected 32-byte peer static key, got "@ + decimal(id.remote_public->0.len())
                    + " bytes"@,
            ),
        ),
{
}

/// With a valid hash, a pinned key cannot be checked against a peer that
/// presented no static key: the handshake is refused with a `Key` error.
pub proof fn pinning_without_static_key_is_refused(
    id: PeerIdentityView,
    max_payload_len: nat,
    pinned: Seq<u8>,
)
    requires
        id.final_handshake_hash is Some,
        id.final_handshake_hash->0.len() == 32,
        id.remote_public is None,
    ensures
        extraction_outcome(PeerIdentityLookupView::Found(id), max_payload_len, Some(pinned))
            == Err::<HandshakeResultView, HandshakeErrorView>(
            HandshakeErrorView::Key("peer provides no static key for pinning"@),
        ),
{
}

/// An identity that passes every check yields exactly the result built from
/// its parts: its hash, its static key, its non-empty payload byte for byte
/// (an empty or absent payload as `None`), and its pattern (the V1 pattern
/// when it names none).
pub proof fn accepted_identity_is_reported_unchanged(
    id: PeerIdentityView,
    max_payload_len: nat,
    pinned: Option<Seq<u8>>,
)
    requires
        passes_checks(PeerIdentityLookupView::Found(id), max_payload_len, pinned),
    ensures
        extraction_outcome(PeerIdentityLookupView::Found(id), max_payload_len, pinned) == Ok::<
            HandshakeResultView,
            HandshakeErrorView,
        >(
            HandshakeResultView {
                handshake_hash: id.final_handshake_hash->0,
                peer_static: id.remote_public,
                msg1_payload: if id.msg1_payload is Some && id.msg1_payload->0.len() > 0 {
                    id.msg1_payload
                } else {
                    None
                },
                negotiated_pattern: if id.negotiated_pattern.len() > 0 {
                    id.negotiated_pattern
                } else {
                    "Noise_XX_25519_ChaChaPoly_BLAKE2s"@
                },
            },
        ),
{
    reveal_strlit("Noise_XX_25519_ChaChaPoly_BLAKE2s");
    let out = extraction_outcome(PeerIdentityLookupView::Found(id), max_payload_len, pinned);
    assert(out is Ok);
    assert(out->Ok_0.msg1_payload =~~= (if id.msg1_payload is Some && id.msg1_payload->0.len()
        > 0 {
        id.msg1_payload
    } else {
        None
    }));
}

/// An accepted extraction carries the identity's non-empty message-1
/// payload unchanged.
pub proof fn accepted_payload_is_unchanged(
    id: PeerIdentityView,
    max_payload_len: nat,
    pinned: Option<Seq<u8>>,
    payload: Seq<u8>,
)
    requires
        id.msg1_payload == Some(payload),
        payload.len() > 0,
        extraction_outcome(PeerIdentityLookupView::Found(id), max_payload_len, pinned) is Ok,
    ensures
        extraction_outcome(
            PeerIdentityLookupView::Found(id),
            max_payload_len,
            pinned,
        )->Ok_0.msg1_payload == Some(payload),
{
}

/// A successful extraction is returned as it is: in every role and phase,
/// `Extracted(Ok(r))` ends the run with exactly `Ok(r)` after firing
/// `HandshakeComplete`, and `Extracted(Err(e))` ends it with exactly
/// `Err(e)` and no hook.
pub proof fn extraction_outcome_is_returned_unchanged(
    role: HandshakeRole,
    phase: FlowPhase,
    r: HandshakeResultView,
    e: HandshakeErrorView,
)
    ensures
        transition(role, phase, FlowEventView::Extracted(Ok(r))) == (
            FlowPhase::Done,
            FlowStepView {
                hook: Some(HandshakeStage::HandshakeComplete),
                next: FlowNextView::Finish(Ok(r)),
            },
        ),
        transition(role, phase, FlowEventView::Extracted(Err(e))) == (
            FlowPhase::Done,
            FlowStepView { hook: None, next: FlowNextView::Finish(Err(e)) },
        ),
{
}

/// Transport failures end the run with an `Io` error carrying the
/// transport's message, in every role and phase: a refused connect, a
/// failed connection, and (with a fixed message) a closed endpoint.
pub proof fn transport_failure_is_io_error(role: HandshakeRole, phase: FlowPhase, m: Seq<char>)
    ensures
        transition(role, phase, FlowEventView::ConnectionFailed(m)) == (
            FlowPhase::Done,
            FlowStepView { hook: None, next: FlowNextView::Finish(Err(HandshakeErrorView::Io(m))) },
        ),
        transition(role, phase, FlowEventView::OpenFailed(m)) == (
            FlowPhase::Done,
            FlowStepView { hook: None, next: FlowNextView::Finish(Err(HandshakeErrorView::Io(m))) },
        ),
        transition(role, phase, FlowEventView::EndpointClosed) == (
            FlowPhase::Done,
            FlowStepView {
                hook: None,
                next: FlowNextView::Finish(
                    Err(HandshakeErrorView::Io("endpoint closed before incoming connection"@)),
                ),
            },
        ),
        transition(role, phase, FlowEventView::TimedOut) == (
            FlowPhase::Done,
            FlowStepView { hook: None, next: FlowNextView::Finish(Err(HandshakeErrorView::Timeout)) },
        ),
{
}

/// Progress events move the run forward one lifecycle stage: an opened
/// connection fires the role's opening stage and awaits the connection; an
/// established connection fires `ConnectionEstablished` and extracts the
/// result.
pub proof fn progress_events_advance_the_run(role: HandshakeRole, phase: FlowPhase)
    ensures
        transition(role, phase, FlowEventView::Opened) == (
            FlowPhase::Awaiting,
            FlowStepView {
                hook: Some(
                    if role == HandshakeRole::Client {
                        HandshakeStage::ClientConnecting
                    } else {
                        HandshakeStage::ServerAccepted
                    },
                ),
                next: FlowNextView::AwaitConnection,
            },
        ),
        transition(role, phase, FlowEventView::Established) == (
            FlowPhase::Extracting,
            FlowStepView {
                hook: Some(HandshakeStage::ConnectionEstablished),
                next: FlowNextView::ExtractResult,
            },
        ),
{
}

/// Every event that can really happen at a point of a run is accepted
/// there: opening takes `Opened` and the client's refused connect, or the
/// server's closed endpoint and timeout; waiting takes an established
/// connection, a failed one and the timeout, in both roles; extracting takes
/// any extraction outcome.
pub proof fn possible_events_are_expected(
    role: HandshakeRole,
    m: Seq<char>,
    outcome: Result<HandshakeResultView, HandshakeErrorView>,
)
    ensures
        expects(role, FlowPhase::Opening, FlowEventView::Opened),
        role == HandshakeRole::Client ==> expects(
            role,
            FlowPhase::Opening,
            FlowEventView::OpenFailed(m),
        ),
        role == HandshakeRole::Server ==> expects(
            role,
            FlowPhase::Opening,
            FlowEventView::EndpointClosed,
        ),
        role == HandshakeRole::Server ==> expects(role, FlowPhase::Opening, FlowEventView::TimedOut),
        expects(role, FlowPhase::Awaiting, FlowEventView::Established),
        expects(role, FlowPhase::Awaiting, FlowEventView::ConnectionFailed(m)),
        expects(role, FlowPhase::Awaiting, FlowEventView::TimedOut),
        expects(role, FlowPhase::Extracting, FlowEventView::Extracted(outcome)),
{
}

/// Only the events that can happen at a point of a run are accepted there.
pub proof fn only_possible_events_are_expected(
    role: HandshakeRole,
    phase: FlowPhase,
    event: FlowEventView,
)
    requires
        expects(role, phase, event),
    ensures
        phase == FlowPhase::Opening ==> (event is Opened || (role == HandshakeRole::Client
            && event is OpenFailed) || (role == HandshakeRole::Server && (event is EndpointClosed
            || event is TimedOut))),
        phase == FlowPhase::Awaiting ==> (event is Established || event is ConnectionFailed
            || event is TimedOut),
        phase == FlowPhase::Extracting ==> event is Extracted,
        phase != FlowPhase::Done,
{
}

/// Default options wait ten seconds, admit message-1 payloads of up to
/// 4096 bytes and pin no key.
pub proof fn default_options_values(o: HandshakeOptions)
    requires
        o.is_default(),
    ensures
        o.timeout == crate::api::duration_of_secs(10),
        o.max_payload_len == 4096,
        o.pinned_peer_key is None,
{
}

/// The rendering of an error names its category before its description.
pub proof fn error_rendering(m: Seq<char>)
    ensures
        HandshakeErrorView::Pattern(m).display() == "pattern: "@ + m,
        HandshakeErrorView::Key(m).display() == "key: "@ + m,
        HandshakeErrorView::Io(m).display() == "io: "@ + m,
        HandshakeErrorView::Payload(m).display() == "payload: "@ + m,
        HandshakeErrorView::Timeout.display() == "timeout"@,
        HandshakeErrorView::Crypto(m).display() == "crypto: "@ + m,
{
}

/// The number that a string of decimal digits denotes.
pub open spec fn digits_value(s: Seq<char>) -> int
    decreases s.len(),
{
    if s.len() == 0 {
        0
    } else {
        digits_value(s.drop_last()) * 10 + (s.last() as int - 48)
    }
}

/// The decimal rendering of `n` is a non-empty string of digits, without a
/// leading zero unless `n` is zero, that denotes `n`.
pub proof fn decimal_denotes_its_number(n: nat)
    ensures
        decimal(n).len() > 0,
        forall|i: int| 0 <= i < decimal(n).len() ==> '0' <= #[trigger] decimal(n)[i] <= '9',
        n > 0 ==> decimal(n)[0] != '0',
        n == 0 ==> decimal(n) == seq!['0'],
        digits_value(decimal(n)) == n,
    decreases n,
{
    if n >= 10 {
        decimal_denotes_its_number(n / 10);
        let s = decimal(n);
        assert(s == decimal(n / 10).push(((48 + n % 10) as char)));
        assert(s.drop_last() =~= decimal(n / 10));
        assert(forall|i: int| 0 <= i < decimal(n / 10).len() ==> s[i] == decimal(n / 10)[i]);
        assert((n / 10) * 10 + n % 10 == n) by (nonlinear_arith);
        assert(s.last() as int == 48 + n % 10);
        assert(digits_value(s) == digits_value(s.drop_last()) * 10 + (s.last() as int - 48));
        assert(digits_value(s) == (n / 10) * 10 + n % 10);
    } else {
        let s = decimal(n);
        assert(s.drop_last() =~= Seq::<char>::empty());
        assert(s.last() as int == 48 + n);
        assert(digits_value(s) == digits_value(s.drop_last()) * 10 + (s.last() as int - 48));
        assert(digits_value(s.drop_last()) == 0);
    }
}

} // verus!
