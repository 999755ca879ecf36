//! Per-connection configuration.
use vstd::prelude::*;

use crate::error::Error;
use crate::conn::HS_CLIENT_HELLO;
use crate::provider::{random_bytes, ServerCertVerifier};
use crate::record::{handshake_bytes, record_bytes, CONTENT_CHANGE_CIPHER_SPEC, CONTENT_HANDSHAKE};

verus! {

/// A protocol version that a connection may negotiate.
#[derive(Clone, Copy, Debug, PartialEq, Eq, Structural)]
pub enum ProtocolVersion {
    TLSv1_2,
    TLSv1_3,
}

/// Every version this library speaks, newest last.
pub fn all_versions() -> (r: Vec<ProtocolVersion>)
    ensures
        r@ == seq![ProtocolVersion::TLSv1_2, ProtocolVersion::TLSv1_3],
{
    let r = vec![ProtocolVersion::TLSv1_2, ProtocolVersion::TLSv1_3];
    assert(r@ =~= seq![ProtocolVersion::TLSv1_2, ProtocolVersion::TLSv1_3]);
    r
}

/// Largest certificate a server may present.
pub const MAX_CERT_LEN: usize = 16000;

/// Length of a server's ticket key, and so of the tickets it issues minus one.
pub const TICKET_KEY_LEN: usize = 16;

/// Length of the random value in each hello message.
pub const RANDOM_LEN: usize = 32;

/// Largest session ticket a client keeps.
pub const MAX_TICKET_LEN: usize = 255;

/// A session ticket kept by a client for resuming with the same server.
#[derive(Clone, Debug)]
pub struct StoredTicket {
    pub ticket: Vec<u8>,
    /// How many bytes of early data the server accepts with this ticket.
    pub max_early_data_size: u32,
}

/// The configuration of a client connection.
#[derive(Clone, Debug)]
pub struct ClientConfig {
    pub verifier: ServerCertVerifier,
    pub enable_tls12: bool,
    pub enable_tls13: bool,
    /// Offer early (0-RTT) data when a ticket allows it.
    pub enable_early_data: bool,
    /// The ticket to resume with, if any.
    pub resumption: Option<StoredTicket>,
}

impl ClientConfig {
    /// A configuration that enables the listed versions and trusts `verifier`.
    pub fn new(verifier: ServerCertVerifier, versions: &[ProtocolVersion]) -> (r: Self)
        ensures
            r.enable_tls12 == versions@.contains(ProtocolVersion::TLSv1_2),
            r.enable_tls13 == versions@.contains(ProtocolVersion::TLSv1_3),
            !r.enable_early_data,
            r.resumption is None,
            r.verifier == verifier,
    {
        let mut enable_tls12 = false;
        let mut enable_tls13 = false;
        let mut i: usize = 0;
        while i < versions.len()
            invariant
                i <= versions@.len(),
                enable_tls12 == exists|j: int| 0 <= j < i && versions@[j] == ProtocolVersion::TLSv1_2,
                enable_tls13 == exists|j: int| 0 <= j < i && versions@[j] == ProtocolVersion::TLSv1_3,
            decreases versions@.len() - i,
        {
            match versions[i] {
                ProtocolVersion::TLSv1_2 => enable_tls12 = true,
                ProtocolVersion::TLSv1_3 => enable_tls13 = true,
            }
            i += 1;
        }
        ClientConfig { verifier, enable_tls12, enable_tls13, enable_early_data: false, resumption: None }
    }
}

/// The configuration of a server connection.
#[derive(Clone, Debug)]
pub struct ServerConfig {
    /// The certificate presented to clients.
    pub cert: Vec<u8>,
    /// How many bytes of early data a resumed client may send; zero refuses it.
    pub max_early_data_size: u32,
    /// How many session tickets to issue after a TLS 1.3 handshake.
    pub send_tls13_tickets: u8,
    /// Secret that the tickets issued by this configuration start with.
    pub ticket_key: Vec<u8>,
}

pub open spec fn server_config_valid(c: ServerConfig) -> bool {
    &&& c.cert@.len() <= MAX_CERT_LEN
    &&& c.ticket_key@.len() == TICKET_KEY_LEN
}

impl ServerConfig {
    /// A configuration presenting `cert`, with a fresh ticket key.
    pub fn new(cert: Vec<u8>) -> (r: Result<Self, Error>)
        ensures
            cert@.len() > MAX_CERT_LEN ==> (r matches Err(e) && e == Error::InvalidConfiguration),
            r matches Ok(c) ==> {
                &&& server_config_valid(c)
                &&& c.cert@ == cert@
                &&& c.max_early_data_size == 0
                &&& c.send_tls13_tickets == 4
            },
            cert@.len() <= MAX_CERT_LEN ==> (r is Ok || (r matches Err(e) && e == Error::FailedToGetRandomBytes)),
    {
        if cert.len() > MAX_CERT_LEN {
            return Err(Error::InvalidConfiguration);
        }
        let ticket_key = random_bytes(TICKET_KEY_LEN)?;
        Ok(ServerConfig { cert, max_early_data_size: 0, send_tls13_tickets: 4, ticket_key })
    }
}

/// The client offers to resume with its stored ticket: it speaks TLS 1.3 and
/// the ticket is short enough to send.
pub open spec fn offers_resumption(config: ClientConfig) -> bool {
    &&& config.enable_tls13
    &&& config.resumption is Some
    &&& config.resumption->Some_0.ticket@.len() <= MAX_TICKET_LEN
}

/// The client offers early data: it resumes, early data is enabled, and the
/// ticket allows some.
pub open spec fn offers_early_data(config: ClientConfig) -> bool {
    &&& offers_resumption(config)
    &&& config.enable_early_data
    &&& config.resumption->Some_0.max_early_data_size > 0
}

pub open spec fn flag(b: bool) -> u8 {
    if b {
        1
    } else {
        0
    }
}

/// The ClientHello body: the TLS 1.2, TLS 1.3 and early-data flags, the
/// random value, then the ticket when resuming.
pub open spec fn client_hello_body(config: ClientConfig, random: Seq<u8>) -> Seq<u8> {
    seq![flag(config.enable_tls12), flag(config.enable_tls13), flag(offers_early_data(config))] + random + (
    if offers_resumption(config) {
        config.resumption->Some_0.ticket@
    } else {
        Seq::empty()
    })
}

/// The records a client queues before it has heard from the server: the
/// ClientHello, followed by a ChangeCipherSpec when early data is offered.
pub open spec fn first_flight(config: ClientConfig, random: Seq<u8>) -> Seq<Seq<u8>> {
    let hello = record_bytes(CONTENT_HANDSHAKE, handshake_bytes(HS_CLIENT_HELLO, client_hello_body(config, random)));
    if offers_early_data(config) {
        seq![hello, record_bytes(CONTENT_CHANGE_CIPHER_SPEC, seq![1u8])]
    } else {
        seq![hello]
    }
}

/// A byte that may stand in a DNS name or an IP literal.
pub open spec fn name_byte(b: u8) -> bool {
    ||| 0x30 <= b <= 0x39
    ||| 0x41 <= b <= 0x5a
    ||| 0x61 <= b <= 0x7a
    ||| b == 0x2d
    ||| b == 0x2e
    ||| b == 0x3a
}

/// Largest server name.
pub const MAX_SERVER_NAME_LEN: usize = 253;

/// `name` is a syntactically acceptable server name: letters, digits, `-`,
/// `.` and `:` only, not empty, not starting or ending with a dot, and at most
/// 253 bytes long.
pub open spec fn valid_server_name(name: Seq<u8>) -> bool {
    &&& 0 < name.len() <= MAX_SERVER_NAME_LEN
    &&& name[0] != 0x2e
    &&& name[name.len() - 1] != 0x2e
    &&& forall|i: int| 0 <= i < name.len() ==> name_byte(#[trigger] name[i])
}

/// Checks `valid_server_name`.
pub fn check_server_name(name: &[u8]) -> (r: bool)
    ensures
        r == valid_server_name(name@),
{
    let n = name.len();
    if n == 0 || n > MAX_SERVER_NAME_LEN || name[0] == 0x2e || name[n - 1] == 0x2e {
        return false;
    }
    let mut i: usize = 0;
    while i < n
        invariant
            i <= n == name@.len(),
            forall|j: int| 0 <= j < i ==> name_byte(#[trigger] name@[j]),
        decreases n - i,
    {
        let b = name[i];
        if !((0x30 <= b && b <= 0x39) || (0x41 <= b && b <= 0x5a) || (0x61 <= b && b <= 0x7a) || b == 0x2d
            || b == 0x2e || b == 0x3a) {
            assert(!name_byte(name@[i as int]));
            return false;
        }
        i += 1;
    }
    true
}

} // verus!
