use vstd::prelude::*;

use crate::api::{
    bytes_view, key_view, HandshakeError, HandshakeErrorView, HandshakeOptions, HandshakeResult,
    HandshakeResultView,
};
use crate::text::{decimal, push_decimal};

verus! {

/// The Noise protocol string of the hardened V1 profile, reported when the
/// peer identity does not name the negotiated pattern.
pub const V1_PATTERN: &'static str = "Noise_XX_25519_ChaChaPoly_BLAKE2s";

/// Length in bytes of handshake hashes and static keys in the V1 profile.
pub const KEY_LEN: usize = 32;

/// What the QUIC crypto session reports about the peer once the handshake
/// has completed.
pub struct HyphaePeerIdentity {
    /// The peer's static public key, if the pattern transmitted one.
    pub remote_public: Option<Vec<u8>>,
    /// The final Noise handshake hash.
    pub final_handshake_hash: Option<Vec<u8>>,
    /// The Noise protocol string that was negotiated (may be empty).
    pub negotiated_pattern: String,
    /// The payload of Noise message 1, if one was carried.
    pub msg1_payload: Option<Vec<u8>>,
}

/// Abstract value of a peer identity.
pub struct PeerIdentityView {
    pub remote_public: Option<Seq<u8>>,
    pub final_handshake_hash: Option<Seq<u8>>,
    pub negotiated_pattern: Seq<char>,
    pub msg1_payload: Option<Seq<u8>>,
}

impl View for HyphaePeerIdentity {
    type V = PeerIdentityView;

    open spec fn view(&self) -> PeerIdentityView {
        PeerIdentityView {
            remote_public: bytes_view(self.remote_public),
            final_handshake_hash: bytes_view(self.final_handshake_hash),
            negotiated_pattern: self.negotiated_pattern@,
            msg1_payload: bytes_view(self.msg1_payload),
        }
    }
}

/// What a connection yielded when asked for its peer identity.
pub enum PeerIdentityLookup {
    /// The connection reported no peer identity.
    Missing,
    /// The connection reported a peer identity of another type.
    UnexpectedType,
    /// The connection reported a Hyphae peer identity.
    Found(HyphaePeerIdentity),
}

/// Abstract value of a peer identity lookup.
pub enum PeerIdentityLookupView {
    Missing,
    UnexpectedType,
    Found(PeerIdentityView),
}

impl View for PeerIdentityLookup {
    type V = PeerIdentityLookupView;

    open spec fn view(&self) -> PeerIdentityLookupView {
        match self {
            PeerIdentityLookup::Missing => PeerIdentityLookupView::Missing,
            PeerIdentityLookup::UnexpectedType => PeerIdentityLookupView::UnexpectedType,
            PeerIdentityLookup::Found(id) => PeerIdentityLookupView::Found(id@),
        }
    }
}

/// Abstract value of an extraction outcome.
pub open spec fn outcome_view(r: Result<HandshakeResult, HandshakeError>) -> Result<
    HandshakeResultView,
    HandshakeErrorView,
> {
    match r {
        Ok(res) => Ok(res@),
        Err(e) => Err(e@),
    }
}

/// Description of a handshake hash of the wrong length.
pub open spec fn hash_length_message(len: nat) -> Seq<char> {
    "expected 32-byte handshake hash, got "@ + decimal(len) + " bytes"@
}

/// Description of a peer static key of the wrong length.
pub open spec fn static_length_message(len: nat) -> Seq<char> {
    "expected 32-byte peer static key, got "@ + decimal(len) + " bytes"@
}

/// Description of a message-1 payload over the limit.
pub open spec fn payload_too_large_message(len: nat, max: nat) -> Seq<char> {
    "msg1 payload too large: "@ + decimal(len) + " > "@ + decimal(max)
}

/// The pattern reported for a peer identity: its own, or the V1 pattern
/// where it names none.
pub open spec fn reported_pattern(pattern: Seq<char>) -> Seq<char> {
    if pattern.len() == 0 {
        V1_PATTERN@
    } else {
        pattern
    }
}

/// The message-1 payload reported for a peer identity: `None` when the
/// initiator sent none or an empty one.
pub open spec fn reported_payload(payload: Option<Seq<u8>>) -> Option<Seq<u8>> {
    match payload {
        Some(p) => if p.len() == 0 {
            None
        } else {
            Some(p)
        },
        None => None,
    }
}

/// The outcome of validating a Hyphae peer identity against the limit on
/// message-1 payloads and the optional pinned peer key. The checks run in
/// order: handshake hash present, hash length, static key length, pinning,
/// payload size.
pub open spec fn identity_outcome(
    id: PeerIdentityView,
    max_payload_len: nat,
    pinned: Option<Seq<u8>>,
) -> Result<HandshakeResultView, HandshakeErrorView> {
    match id.final_handshake_hash {
        None => Err(HandshakeErrorView::Key("missing final handshake hash"@)),
        Some(hash) => {
            if hash.len() != KEY_LEN {
                Err(HandshakeErrorView::Key(hash_length_message(hash.len())))
            } else if id.remote_public is Some && id.remote_public->0.len() != KEY_LEN {
                Err(HandshakeErrorView::Key(static_length_message(id.remote_public->0.len())))
            } else if pinned is Some && id.remote_public is None {
                Err(HandshakeErrorView::Key("peer provides no static key for pinning"@))
            } else if pinned is Some && id.remote_public is Some && id.remote_public->0
                != pinned->0 {
                Err(HandshakeErrorView::Key("peer key mismatch"@))
            } else if id.msg1_payload is Some && id.msg1_payload->0.len() > max_payload_len {
                Err(
                    HandshakeErrorView::Payload(
                        payload_too_large_message(id.msg1_payload->0.len(), max_payload_len),
                    ),
                )
            } else {
                Ok(
                    HandshakeResultView {
                        handshake_hash: hash,
                        peer_static: id.remote_public,
                        msg1_payload: reported_payload(id.msg1_payload),
                        negotiated_pattern: reported_pattern(id.negotiated_pattern),
                    },
                )
            }
        },
    }
}

/// The outcome of extracting a handshake result from what a connection
/// reported about its peer.
pub open spec fn extraction_outcome(
    lookup: PeerIdentityLookupView,
    max_payload_len: nat,
    pinned: Option<Seq<u8>>,
) -> Result<HandshakeResultView, HandshakeErrorView> {
    match lookup {
        PeerIdentityLookupView::Missing => Err(HandshakeErrorView::Io("missing peer identity"@)),
        PeerIdentityLookupView::UnexpectedType => Err(
            HandshakeErrorView::Io("unexpected peer identity type"@),
        ),
        PeerIdentityLookupView::Found(id) => identity_outcome(id, max_payload_len, pinned),
    }
}

/// Copies a 32-byte vector into a key array.
fn to_key(v: &Vec<u8>) -> (k: [u8; 32])
    requires
        v@.len() == KEY_LEN,
    ensures
        k@ == v@,
{
    let mut k = [0u8; 32];
    let mut i: usize = 0;
    while i < KEY_LEN
        invariant
            i <= KEY_LEN,
            v@.len() == KEY_LEN,
            k@.len() == KEY_LEN,
            forall|j: int| 0 <= j < i ==> k@[j] == v@[j],
        decreases KEY_LEN - i,
    {
        k[i] = v[i];
        i = i + 1;
    }
    assert(k@ =~= v@);
    k
}

/// Whether two keys hold the same bytes.
fn keys_equal(a: &[u8; 32], b: &[u8; 32]) -> (eq: bool)
    ensures
        eq == (a@ == b@),
{
    let mut i: usize = 0;
    while i < KEY_LEN
        invariant
            i <= KEY_LEN,
            a@.len() == KEY_LEN,
            b@.len() == KEY_LEN,
            forall|j: int| 0 <= j < i ==> a@[j] == b@[j],
        decreases KEY_LEN - i,
    {
        if a[i] != b[i] {
            return false;
        }
        i = i + 1;
    }
    assert(a@ =~= b@);
    true
}

/// Renders `prefix`, the decimal `n` and `suffix`.
fn length_message(prefix: &str, n: usize, suffix: &str) -> (s: String)
    ensures
        s@ == prefix@ + decimal(n as nat) + suffix@,
{
    let mut s = prefix.to_owned();
    push_decimal(&mut s, n);
    s.append(suffix);
    s
}

/// Validates what a connection reported about its peer and builds the
/// normalised handshake result.
///
/// The pattern defaults to the V1 pattern when the peer identity names none;
/// the handshake hash and any peer static key must be 32 bytes; a pinned key
/// must equal the peer's static key; a message-1 payload may not exceed
/// `options.max_payload_len`, and an empty one is reported as `None`.
pub fn extract_result(lookup: PeerIdentityLookup, options: &HandshakeOptions) -> (r: Result<
    HandshakeResult,
    HandshakeError,
>)
    ensures
        outcome_view(r) == extraction_outcome(
            lookup@,
            options.max_payload_len as nat,
            key_view(options.pinned_peer_key),
        ),
{
    let identity = match lookup {
        PeerIdentityLookup::Missing => {
            return Err(HandshakeError::Io("missing peer identity".to_owned()));
        },
        PeerIdentityLookup::UnexpectedType => {
            return Err(HandshakeError::Io("unexpected peer identity type".to_owned()));
        },
        PeerIdentityLookup::Found(id) => id,
    };
    let ghost id = identity@;
    let HyphaePeerIdentity { remote_public, final_handshake_hash, negotiated_pattern, msg1_payload } =
        identity;

    let negotiated_pattern = if negotiated_pattern.as_str().is_empty() {
        V1_PATTERN.to_owned()
    } else {
        negotiated_pattern
    };

    let hash = match &final_handshake_hash {
        None => {
            return Err(HandshakeError::Key("missing final handshake hash".to_owned()));
        },
        Some(h) => h,
    };
    if hash.len() != KEY_LEN {
        return Err(
            HandshakeError::Key(
                length_message("expected 32-byte handshake hash, got ", hash.len(), " bytes"),
            ),
        );
    }
    let handshake_hash = to_key(hash);

    let peer_static = match &remote_public {
        Some(raw) => {
            if raw.len() != KEY_LEN {
                return Err(
                    HandshakeError::Key(
                        length_message(
                            "expected 32-byte peer static key, got ",
                            raw.len(),
                            " bytes",
                        ),
                    ),
                );
            }
            Some(to_key(raw))
        },
        None => None,
    };

    if let Some(pinned) = &options.pinned_peer_key {
        match &peer_static {
            Some(actual) => {
                if !keys_equal(actual, pinned) {
                    return Err(HandshakeError::Key("peer key mismatch".to_owned()));
                }
            },
            None => {
                return Err(
                    HandshakeError::Key("peer provides no static key for pinning".to_owned()),
                );
            },
        }
    }

    if let Some(payload) = &msg1_payload {
        if payload.len() > options.max_payload_len {
            let mut msg = length_message("msg1 payload too large: ", payload.len(), " > ");
            push_decimal(&mut msg, options.max_payload_len);
            return Err(HandshakeError::Payload(msg));
        }
    }

    let msg1_payload = match msg1_payload {
        Some(payload) => if payload.len() == 0 {
            None
        } else {
            Some(payload)
        },
        None => None,
    };

    Ok(HandshakeResult::new(handshake_hash, peer_static, msg1_payload, negotiated_pattern))
}

/// Applies the verdict of a downgrade check to an extracted result: the
/// result stands when the check passed, and the check's error is returned
/// when it refused the connection.
pub fn apply_downgrade_verdict(result: HandshakeResult, verdict: Result<(), HandshakeError>) -> (r:
    Result<HandshakeResult, HandshakeError>)
    ensures
        match verdict {
            Ok(()) => r == Ok::<HandshakeResult, HandshakeError>(result),
            Err(e) => r == Err::<HandshakeResult, HandshakeError>(e),
        },
{
    match verdict {
        Ok(()) => Ok(result),
        Err(e) => Err(e),
    }
}

} // verus!
