use std::time::Duration;
use vstd::prelude::*;

verus! {

/// Non-sensitive stages of the handshake lifecycle.
///
/// Hooks receive these stages for observability and metrics.
#[derive(Debug, Clone, Copy, PartialEq, Eq, Structural)]
#[non_exhaustive]
pub enum HandshakeStage {
    /// Client connect has been initiated.
    ClientConnecting,
    /// Server has accepted a new incoming connection.
    ServerAccepted,
    /// QUIC connection established, before extracting handshake result.
    ConnectionEstablished,
    /// Handshake result successfully extracted.
    HandshakeComplete,
}

/// Default handshake timeout, in seconds.
pub const DEFAULT_TIMEOUT_SECS: u64 = 10;

/// Default limit on the initiator payload carried in Noise message 1.
pub const DEFAULT_MAX_PAYLOAD_LEN: usize = 4096;

/// The duration that `Duration::from_secs` builds from a number of seconds.
pub uninterp spec fn duration_of_secs(secs: u64) -> Duration;

/// Calls `std::time::Duration::from_secs`; the contract only names the result
/// as a function of `secs`.
#[verifier::external_body]
fn duration_from_secs(secs: u64) -> (d: Duration)
    ensures
        d == duration_of_secs(secs),
{
    Duration::from_secs(secs)
}

/// Runtime options for a single handshake.
#[derive(Clone, Copy)]
#[non_exhaustive]
pub struct HandshakeOptions {
    /// Maximum time to wait for the handshake. Default: 10 seconds.
    pub timeout: Duration,
    /// Maximum size (bytes) of the initiator payload carried in Noise
    /// message 1. Larger payloads are rejected with
    /// `HandshakeError::Payload`. Default: 4096.
    pub max_payload_len: usize,
    /// If set, the peer's static key must match this value exactly.
    /// Default: `None`.
    pub pinned_peer_key: Option<[u8; 32]>,
}

impl HandshakeOptions {
    /// The options that `default` and `new` produce.
    pub open spec fn is_default(self) -> bool {
        &&& self.timeout == duration_of_secs(DEFAULT_TIMEOUT_SECS)
        &&& self.max_payload_len == DEFAULT_MAX_PAYLOAD_LEN
        &&& self.pinned_peer_key is None
    }

    /// Create options with all defaults.
    pub fn new() -> (o: Self)
        ensures
            o.is_default(),
    {
        Self::default()
    }
}

impl Default for HandshakeOptions {
    fn default() -> (o: Self)
        ensures
            o.is_default(),
    {
        HandshakeOptions {
            timeout: duration_from_secs(DEFAULT_TIMEOUT_SECS),
            max_payload_len: DEFAULT_MAX_PAYLOAD_LEN,
            pinned_peer_key: None,
        }
    }
}


/// Abstract value of a handshake result: byte strings and the pattern name.
pub struct HandshakeResultView {
    pub handshake_hash: Seq<u8>,
    pub peer_static: Option<Seq<u8>>,
    pub msg1_payload: Option<Seq<u8>>,
    pub negotiated_pattern: Seq<char>,
}

/// Abstract value of an optional 32-byte key.
pub open spec fn key_view(k: Option<[u8; 32]>) -> Option<Seq<u8>> {
    match k {
        Some(a) => Some(a@),
        None => None,
    }
}

/// Abstract value of an optional byte vector.
pub open spec fn bytes_view(v: Option<Vec<u8>>) -> Option<Seq<u8>> {
    match v {
        Some(b) => Some(b@),
        None => None,
    }
}

/// Normalised result of a completed handshake.
///
/// Every field is either fixed-size or optional so that future protocol
/// versions can add data without breaking the struct layout.
#[derive(Debug, Clone)]
#[non_exhaustive]
pub struct HandshakeResult {
    /// Final Noise handshake hash (always 32 bytes for the hardened V1
    /// profile).
    pub handshake_hash: [u8; 32],
    /// Peer's long-term static public key, if the Noise pattern
    /// authenticated the peer.
    pub peer_static: Option<[u8; 32]>,
    /// Payload carried in Noise message 1 (the initiator's first handshake
    /// message). `None` if the initiator sent an empty payload.
    pub msg1_payload: Option<Vec<u8>>,
    /// The Noise protocol string that was negotiated for this handshake.
    pub negotiated_pattern: String,
}

impl View for HandshakeResult {
    type V = HandshakeResultView;

    open spec fn view(&self) -> HandshakeResultView {
        HandshakeResultView {
            handshake_hash: self.handshake_hash@,
            peer_static: key_view(self.peer_static),
            msg1_payload: bytes_view(self.msg1_payload),
            negotiated_pattern: self.negotiated_pattern@,
        }
    }
}

impl HandshakeResult {
    /// Create a handshake result from its parts.
    pub fn new(
        handshake_hash: [u8; 32],
        peer_static: Option<[u8; 32]>,
        msg1_payload: Option<Vec<u8>>,
        negotiated_pattern: String,
    ) -> (r: Self)
        ensures
            r.handshake_hash == handshake_hash,
            r.peer_static == peer_static,
            r.msg1_payload == msg1_payload,
            r.negotiated_pattern == negotiated_pattern,
    {
        HandshakeResult { handshake_hash, peer_static, msg1_payload, negotiated_pattern }
    }
}

/// Abstract value of a handshake error: its category and description.
pub enum HandshakeErrorView {
    Pattern(Seq<char>),
    Key(Seq<char>),
    Io(Seq<char>),
    Payload(Seq<char>),
    Timeout,
    Crypto(Seq<char>),
}

impl HandshakeErrorView {
    /// The human-readable rendering of an error: its category, a colon and
    /// its description, or just "timeout".
    pub open spec fn display(self) -> Seq<char> {
        match self {
            HandshakeErrorView::Pattern(m) => "pattern: "@ + m,
            HandshakeErrorView::Key(m) => "key: "@ + m,
            HandshakeErrorView::Io(m) => "io: "@ + m,
            HandshakeErrorView::Payload(m) => "payload: "@ + m,
            HandshakeErrorView::Timeout => "timeout"@,
            HandshakeErrorView::Crypto(m) => "crypto: "@ + m,
        }
    }
}

/// Layered handshake error.
///
/// Each variant carries a human-readable description. Callers can match on
/// the variant to decide recovery strategy.
#[derive(Debug, Clone)]
#[non_exhaustive]
pub enum HandshakeError {
    /// The requested or negotiated pattern is not allowed.
    Pattern(String),
    /// Key extraction or validation failed.
    Key(String),
    /// An I/O or transport-level error occurred.
    Io(String),
    /// Payload validation failed (e.g. too large).
    Payload(String),
    /// The handshake timed out.
    Timeout,
    /// A lower-level cryptographic error occurred.
    Crypto(String),
}

impl View for HandshakeError {
    type V = HandshakeErrorView;

    open spec fn view(&self) -> HandshakeErrorView {
        match self {
            HandshakeError::Pattern(m) => HandshakeErrorView::Pattern(m@),
            HandshakeError::Key(m) => HandshakeErrorView::Key(m@),
            HandshakeError::Io(m) => HandshakeErrorView::Io(m@),
            HandshakeError::Payload(m) => HandshakeErrorView::Payload(m@),
            HandshakeError::Timeout => HandshakeErrorView::Timeout,
            HandshakeError::Crypto(m) => HandshakeErrorView::Crypto(m@),
        }
    }
}

/// Renders `prefix` followed by `msg`.
fn prefixed(prefix: &str, msg: &String) -> (s: String)
    ensures
        s@ == prefix@ + msg@,
{
    let mut s = prefix.to_owned();
    s.append(msg.as_str());
    s
}

impl HandshakeError {
    /// The human-readable rendering of the error, as `Display` writes it:
    /// `"<category>: <description>"`, or `"timeout"`.
    pub fn to_string(&self) -> (s: String)
        ensures
            s@ == self@.display(),
    {
        match self {
            HandshakeError::Pattern(m) => prefixed("pattern: ", m),
            HandshakeError::Key(m) => prefixed("key: ", m),
            HandshakeError::Io(m) => prefixed("io: ", m),
            HandshakeError::Payload(m) => prefixed("payload: ", m),
            HandshakeError::Timeout => "timeout".to_owned(),
            HandshakeError::Crypto(m) => prefixed("crypto: ", m),
        }
    }
}

} // verus!
