use vstd::prelude::*;

verus! {

/// Fatal errors surfaced by a connection; once returned by an advance they are
/// recorded and every later advance reports them again.
#[derive(Clone, Copy, Debug, PartialEq, Eq, Structural)]
pub enum Error {
    /// A record header names an unknown content type or protocol version.
    CorruptMessage,
    /// A record announces a body longer than the largest allowed record.
    RecordTooLarge,
    /// A handshake message is badly framed or its body is malformed.
    InvalidHandshakeMessage,
    /// A record arrived that the handshake does not allow at this point.
    InappropriateMessage,
    /// The peer's certificate is not trusted by the configured verifier.
    InvalidCertificate,
    /// The peers share no protocol version.
    PeerIncompatible,
    /// The peer sent a fatal alert with this description code.
    AlertReceived(u8),
    /// Early data beyond the advertised budget was received.
    PeerSentTooMuchEarlyData,
    /// The random source failed.
    FailedToGetRandomBytes,
    /// The server name is not a syntactically valid DNS name or IP literal.
    InvalidServerName,
    /// The configuration enables no protocol version.
    NoVersionsEnabled,
    /// A server configuration's certificate or ticket key has an unusable length.
    InvalidConfiguration,
}

/// Provided buffer was too small.
#[derive(Clone, Copy, Debug, PartialEq, Eq, Structural)]
pub struct InsufficientSizeError {
    /// The buffer must be at least this size.
    pub required_size: usize,
}

/// Errors that may arise when encoding a handshake record.
#[derive(Clone, Copy, Debug, PartialEq, Eq, Structural)]
pub enum EncodeError {
    /// Provided buffer was too small.
    InsufficientSize(InsufficientSizeError),
    /// The handshake record has already been encoded; do not call `encode` again.
    AlreadyEncoded,
}

impl From<InsufficientSizeError> for EncodeError {
    fn from(v: InsufficientSizeError) -> (r: Self)
        ensures
            r == EncodeError::InsufficientSize(v),
    {
        EncodeError::InsufficientSize(v)
    }
}

impl vstd::std_specs::convert::FromSpecImpl<InsufficientSizeError> for EncodeError {
    open spec fn obeys_from_spec() -> bool {
        true
    }

    open spec fn from_spec(v: InsufficientSizeError) -> Self {
        EncodeError::InsufficientSize(v)
    }
}

/// Errors that may arise when encrypting application data.
#[derive(Clone, Copy, Debug, PartialEq, Eq, Structural)]
pub enum EncryptError {
    /// Provided buffer was too small.
    InsufficientSize(InsufficientSizeError),
    /// The record sequence space of this direction is used up.
    EncryptExhausted,
}

impl From<InsufficientSizeError> for EncryptError {
    fn from(v: InsufficientSizeError) -> (r: Self)
        ensures
            r == EncryptError::InsufficientSize(v),
    {
        EncryptError::InsufficientSize(v)
    }
}

impl vstd::std_specs::convert::FromSpecImpl<InsufficientSizeError> for EncryptError {
    open spec fn obeys_from_spec() -> bool {
        true
    }

    open spec fn from_spec(v: InsufficientSizeError) -> Self {
        EncryptError::InsufficientSize(v)
    }
}

/// Errors that may arise when encrypting early (0-RTT) data.
#[derive(Clone, Copy, Debug, PartialEq, Eq, Structural)]
pub enum EarlyDataError {
    /// The payload is larger than what the server still accepts as early data.
    ExceededAllowedEarlyData,
    /// Encryption failed.
    Encrypt(EncryptError),
}

/// The decimal digit `d`.
pub open spec fn digit_char(d: nat) -> char {
    if d == 0 {
        '0'
    } else if d == 1 {
        '1'
    } else if d == 2 {
        '2'
    } else if d == 3 {
        '3'
    } else if d == 4 {
        '4'
    } else if d == 5 {
        '5'
    } else if d == 6 {
        '6'
    } else if d == 7 {
        '7'
    } else if d == 8 {
        '8'
    } else {
        '9'
    }
}

/// `n` written in decimal, without leading zeros.
pub open spec fn decimal(n: nat) -> Seq<char>
    decreases n,
{
    if n < 10 {
        seq![digit_char(n)]
    } else {
        decimal(n / 10).push(digit_char(n % 10))
    }
}

/// Relies on `format!` and std's `Display` for `usize`, which writes the
/// number in decimal: the result is `prefix`, then `n`, then `suffix`.
#[verifier::external_body]
fn with_number(prefix: &str, n: usize, suffix: &str) -> (r: String)
    ensures
        r@ == prefix@ + decimal(n as nat) + suffix@,
{
    format!("{prefix}{n}{suffix}")
}

pub open spec fn encode_message(e: EncodeError) -> Seq<char> {
    match e {
        EncodeError::InsufficientSize(i) => "cannot encode due to insufficient size, "@ + decimal(
            i.required_size as nat,
        ) + " bytes are required"@,
        EncodeError::AlreadyEncoded => "cannot encode, data has already been encoded"@,
    }
}

pub open spec fn encrypt_message(e: EncryptError) -> Seq<char> {
    match e {
        EncryptError::InsufficientSize(i) => "cannot encrypt due to insufficient size, "@ + decimal(
            i.required_size as nat,
        ) + " bytes are required"@,
        EncryptError::EncryptExhausted => "encrypter has been exhausted"@,
    }
}

impl EncodeError {
    /// A description of the error for people.
    pub fn message(&self) -> (r: String)
        ensures
            r@ == encode_message(*self),
    {
        match self {
            EncodeError::InsufficientSize(i) => with_number(
                "cannot encode due to insufficient size, ",
                i.required_size,
                " bytes are required",
            ),
            EncodeError::AlreadyEncoded => "cannot encode, data has already been encoded".to_owned(),
        }
    }
}

impl EncryptError {
    /// A description of the error for people.
    pub fn message(&self) -> (r: String)
        ensures
            r@ == encrypt_message(*self),
    {
        match self {
            EncryptError::InsufficientSize(i) => with_number(
                "cannot encrypt due to insufficient size, ",
                i.required_size,
                " bytes are required",
            ),
            EncryptError::EncryptExhausted => "encrypter has been exhausted".to_owned(),
        }
    }
}

} // verus!
