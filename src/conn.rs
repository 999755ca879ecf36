//! The handshake engine: the TLS 1.2 and TLS 1.3 message flows of both roles,
//! driven one record at a time. It orders the messages, decides what each
//! peer may send next, and keeps the queues and flags that the dispatcher
//! reads. It applies no record protection and no key schedule: records travel
//! as framed plaintext, Finished messages carry no verify data, and session
//! tickets carry the server's ticket key in the clear.
use vstd::prelude::*;

use crate::config::{
    flag, client_hello_body, first_flight, offers_early_data, offers_resumption, ClientConfig,
    ServerConfig, StoredTicket, MAX_CERT_LEN, MAX_TICKET_LEN, RANDOM_LEN, TICKET_KEY_LEN,
};
use crate::error::Error;
use crate::provider::is_trusted;
use crate::record::{
    framed, handshake_bytes, record_bytes, Record, CONTENT_ALERT, CONTENT_APPLICATION_DATA,
    CONTENT_CHANGE_CIPHER_SPEC, CONTENT_HANDSHAKE,
};

verus! {

pub const HS_CLIENT_HELLO: u8 = 1;

pub const HS_SERVER_HELLO: u8 = 2;

pub const HS_NEW_SESSION_TICKET: u8 = 4;

pub const HS_END_OF_EARLY_DATA: u8 = 5;

pub const HS_ENCRYPTED_EXTENSIONS: u8 = 8;

pub const HS_CERTIFICATE: u8 = 11;

pub const HS_SERVER_KEY_EXCHANGE: u8 = 12;

pub const HS_SERVER_HELLO_DONE: u8 = 14;

pub const HS_CERTIFICATE_VERIFY: u8 = 15;

pub const HS_CLIENT_KEY_EXCHANGE: u8 = 16;

pub const HS_FINISHED: u8 = 20;

pub const ALERT_LEVEL_FATAL: u8 = 2;

pub const ALERT_CLOSE_NOTIFY: u8 = 0;

/// Minor version byte of TLS 1.2 and TLS 1.3 on the wire.
pub const MINOR_TLS12: u8 = 3;

pub const MINOR_TLS13: u8 = 4;


/// Largest handshake message body.
pub const MAX_HANDSHAKE_BODY: usize = 18428;


/// Where the handshake stands: which message each role expects next.
#[derive(Clone, Copy, Debug, PartialEq, Eq, Structural)]
pub enum HandshakeState {
    ClientExpectServerHello,
    ClientTls12ExpectCertificate,
    ClientTls12ExpectServerKx,
    ClientTls12ExpectServerDone,
    ClientTls13ExpectEncryptedExtensions { resumed: bool },
    ClientTls13ExpectCertificate,
    ClientTls13ExpectCertificateVerify,
    ClientTls13ExpectFinished,
    ServerExpectClientHello,
    ServerTls12ExpectClientKx,
    ServerTls13ExpectEndOfEarlyData,
    ServerTls13ExpectFinished { skip_early_data: bool },
    Tls12ExpectChangeCipherSpec,
    Tls12ExpectFinished,
    Traffic { tls13: bool },
}

/// A client's progress with early (0-RTT) data.
#[derive(Clone, Copy, Debug, PartialEq, Eq, Structural)]
pub enum EarlyDataState {
    Disabled,
    /// Offered in the ClientHello; the server has not answered yet.
    Ready,
    Accepted,
    Rejected,
}

pub struct ClientSide {
    pub config: ClientConfig,
    pub server_name: Vec<u8>,
    pub early_data: EarlyDataState,
    pub early_data_left: usize,
    pub sent_fake_ccs: bool,
    pub offered_resumption: bool,
    pub received_ticket: Option<StoredTicket>,
}

pub struct ServerSide {
    pub config: ServerConfig,
    /// The random value of this server's hello, drawn when the connection was made.
    pub random: Vec<u8>,
    pub early_data_left: usize,
}

pub enum Side {
    Client(ClientSide),
    Server(ServerSide),
}

/// The queues and flags that the engine shares with the dispatcher.
pub struct CommonState {
    pub may_send_application_data: bool,
    pub has_received_close_notify: bool,
    /// Encoded records waiting to be copied out, oldest first.
    pub sendable_tls: Vec<Record>,
    /// Received application data, oldest first.
    pub received_plaintext: Vec<Vec<u8>>,
    /// Received early data, oldest first (servers only).
    pub early_data: Vec<Vec<u8>>,
    /// Sequence number of the next record this side protects.
    pub write_seq: u64,
}

pub open spec fn is_prefix<T>(a: Seq<T>, b: Seq<T>) -> bool {
    &&& a.len() <= b.len()
    &&& forall|i: int| 0 <= i < a.len() ==> #[trigger] b[i] == a[i]
}

/// What the engine owes the dispatcher on every record: the permission and
/// close flags only turn on, and the queues only grow at their back.
pub open spec fn grows(a: CommonState, b: CommonState) -> bool {
    &&& a.may_send_application_data ==> b.may_send_application_data
    &&& a.has_received_close_notify ==> b.has_received_close_notify
    &&& b.write_seq == a.write_seq
    &&& is_prefix(a.sendable_tls@, b.sendable_tls@)
    &&& is_prefix(a.received_plaintext@, b.received_plaintext@)
    &&& is_prefix(a.early_data@, b.early_data@)
}


impl CommonState {
    pub fn new() -> (r: Self)
        ensures
            !r.may_send_application_data,
            !r.has_received_close_notify,
            r.sendable_tls@.len() == 0,
            r.received_plaintext@.len() == 0,
            r.early_data@.len() == 0,
            r.write_seq == 0,
    {
        CommonState {
            may_send_application_data: false,
            has_received_close_notify: false,
            sendable_tls: Vec::new(),
            received_plaintext: Vec::new(),
            early_data: Vec::new(),
            write_seq: 0,
        }
    }

    /// Queues a handshake message for sending.
    pub fn queue_handshake(&mut self, typ: u8, body: &[u8])
        requires
            body@.len() <= MAX_HANDSHAKE_BODY,
        ensures
            final(self).sendable_tls@ == old(self).sendable_tls@.push(final(self).sendable_tls@.last()),
            final(self).sendable_tls@.last().typ == CONTENT_HANDSHAKE,
            final(self).sendable_tls@.last().payload@ == handshake_bytes(typ, body@),
            grows(*old(self), *final(self)),
            final(self).may_send_application_data == old(self).may_send_application_data,
            final(self).has_received_close_notify == old(self).has_received_close_notify,
            final(self).received_plaintext == old(self).received_plaintext,
            final(self).early_data == old(self).early_data,
            common_view(*final(self)) == common_view(*old(self)).send(handshake_record(typ, body@)),
    {
        let n = body.len();
        let mut payload: Vec<u8> = Vec::new();
        payload.push(typ);
        payload.push(0);
        payload.push((n / 256) as u8);
        payload.push((n % 256) as u8);
        let mut i: usize = 0;
        while i < n
            invariant
                i <= n == body@.len(),
                payload@ == seq![typ, 0u8, (n / 256) as u8, (n % 256) as u8] + body@.subrange(0, i as int),
            decreases n - i,
        {
            payload.push(body[i]);
            assert(payload@ =~= seq![typ, 0u8, (n / 256) as u8, (n % 256) as u8] + body@.subrange(0, i + 1));
            i += 1;
        }
        assert(payload@ =~= handshake_bytes(typ, body@));
        let ghost before = self.sendable_tls@;
        self.sendable_tls.push(Record { typ: CONTENT_HANDSHAKE, payload });
        assert(framed(self.sendable_tls@) =~= framed(before).push(handshake_record(typ, body@)));
    }

    /// Queues the one-byte ChangeCipherSpec record.
    pub fn queue_change_cipher_spec(&mut self)
        ensures
            final(self).sendable_tls@ == old(self).sendable_tls@.push(final(self).sendable_tls@.last()),
            final(self).sendable_tls@.last().typ == CONTENT_CHANGE_CIPHER_SPEC,
            final(self).sendable_tls@.last().payload@ == seq![1u8],
            grows(*old(self), *final(self)),
            final(self).may_send_application_data == old(self).may_send_application_data,
            final(self).has_received_close_notify == old(self).has_received_close_notify,
            final(self).received_plaintext == old(self).received_plaintext,
            final(self).early_data == old(self).early_data,
            common_view(*final(self)) == common_view(*old(self)).send(ccs_record()),
    {
        let body: Vec<u8> = vec![1u8];
        assert(body@ =~= seq![1u8]);
        let ghost before = self.sendable_tls@;
        self.sendable_tls.push(Record { typ: CONTENT_CHANGE_CIPHER_SPEC, payload: body });
        assert(framed(self.sendable_tls@) =~= framed(before).push(ccs_record()));
    }
}

/// Splits a handshake record's payload into its type and body.
pub fn parse_handshake(payload: &[u8]) -> (r: Result<(u8, Vec<u8>), Error>)
    ensures
        r matches Ok((t, body)) ==> payload@ == handshake_bytes(t, body@),
        r is Err ==> r == Err::<(u8, Vec<u8>), Error>(Error::InvalidHandshakeMessage),
        match parse_handshake_spec(payload@) {
            Some((t, body)) => r matches Ok((t2, b2)) && t2 == t && b2@ == body,
            None => r is Err,
        },
{
    if payload.len() < 4 || payload[1] != 0 {
        return Err(Error::InvalidHandshakeMessage);
    }
    let n = (payload[2] as usize) * 256 + payload[3] as usize;
    if payload.len() - 4 != n {
        return Err(Error::InvalidHandshakeMessage);
    }
    let body = crate::record::copy_range(payload, 4, payload.len());
    assert(payload@ =~= handshake_bytes(payload@[0], body@));
    assert(body@ =~= payload@.skip(4));
    Ok((payload[0], body))
}


/// The ChangeCipherSpec record.
pub open spec fn ccs_record() -> Seq<u8> {
    record_bytes(CONTENT_CHANGE_CIPHER_SPEC, seq![1u8])
}

/// The record carrying one handshake message.
pub open spec fn handshake_record(typ: u8, body: Seq<u8>) -> Seq<u8> {
    record_bytes(CONTENT_HANDSHAKE, handshake_bytes(typ, body))
}

/// The type and body of the one handshake message `p` holds, if it is well framed.
pub open spec fn parse_handshake_spec(p: Seq<u8>) -> Option<(u8, Seq<u8>)> {
    if p.len() < 4 || p[1] != 0 || p.len() - 4 != p[2] as int * 256 + p[3] as int {
        None
    } else {
        Some((p[0], p.skip(4)))
    }
}

/// The queues and flags shared with the dispatcher, as values.
pub struct CommonView {
    pub may_send_application_data: bool,
    pub has_received_close_notify: bool,
    pub sendable: Seq<Seq<u8>>,
    pub received: Seq<Seq<u8>>,
    pub early: Seq<Seq<u8>>,
    pub write_seq: u64,
}

impl CommonView {
    /// Queues `rec` for sending.
    pub open spec fn send(self, rec: Seq<u8>) -> CommonView {
        CommonView { sendable: self.sendable.push(rec), ..self }
    }

    pub open spec fn send_all(self, recs: Seq<Seq<u8>>) -> CommonView {
        CommonView { sendable: self.sendable + recs, ..self }
    }
}

pub open spec fn common_view(c: CommonState) -> CommonView {
    CommonView {
        may_send_application_data: c.may_send_application_data,
        has_received_close_notify: c.has_received_close_notify,
        sendable: framed(c.sendable_tls@),
        received: c.received_plaintext@.map_values(|v: Vec<u8>| v@),
        early: c.early_data@.map_values(|v: Vec<u8>| v@),
        write_seq: c.write_seq,
    }
}

/// What a client's engine remembers between records.
pub struct ClientVars {
    pub early_data: EarlyDataState,
    pub early_data_left: nat,
    pub sent_fake_ccs: bool,
    pub offered_resumption: bool,
    pub received_ticket: Option<(Seq<u8>, u32)>,
}

pub open spec fn client_vars(cs: ClientSide) -> ClientVars {
    ClientVars {
        early_data: cs.early_data,
        early_data_left: cs.early_data_left as nat,
        sent_fake_ccs: cs.sent_fake_ccs,
        offered_resumption: cs.offered_resumption,
        received_ticket: match cs.received_ticket {
            Some(t) => Some((t.ticket@, t.max_early_data_size)),
            None => None,
        },
    }
}

/// One role's engine, as values: its configuration and what it remembers.
pub enum SideView {
    Client { config: ClientConfig, vars: ClientVars },
    Server { config: ServerConfig, random: Seq<u8>, early_data_left: nat },
}

pub open spec fn side_view(s: Side) -> SideView {
    match s {
        Side::Client(cs) => SideView::Client { config: cs.config, vars: client_vars(cs) },
        Side::Server(ss) => SideView::Server {
            config: ss.config,
            random: ss.random@,
            early_data_left: ss.early_data_left as nat,
        },
    }
}

/// A big-endian `u32` as four bytes.
pub open spec fn be32(x: u32) -> Seq<u8> {
    seq![(x / 16777216) as u8, ((x / 65536) % 256) as u8, ((x / 256) % 256) as u8, (x % 256) as u8]
}

/// The value of the big-endian `u32` in the first four bytes of `b`.
pub open spec fn u32_at(b: Seq<u8>) -> u32 {
    (((b[0] as int * 256 + b[1] as int) * 256 + b[2] as int) * 256 + b[3] as int) as u32
}

/// The first `n` NewSessionTicket records a server with `config` issues.
pub open spec fn ticket_records(config: ServerConfig, n: nat) -> Seq<Seq<u8>>
    decreases n,
{
    if n == 0 {
        Seq::empty()
    } else {
        ticket_records(config, (n - 1) as nat).push(
            handshake_record(
                HS_NEW_SESSION_TICKET,
                be32(config.max_early_data_size) + config.ticket_key@ + seq![(n - 1) as u8],
            ),
        )
    }
}

/// The states in which a TLS 1.3 handshake is under way.
pub open spec fn tls13_handshaking(s: HandshakeState) -> bool {
    ||| s is ClientTls13ExpectEncryptedExtensions
    ||| s is ClientTls13ExpectCertificate
    ||| s is ClientTls13ExpectCertificateVerify
    ||| s is ClientTls13ExpectFinished
    ||| s is ServerTls13ExpectEndOfEarlyData
    ||| s is ServerTls13ExpectFinished
}

/// What a client does with the handshake message `typ`/`body` in `state`.
pub open spec fn client_handshake_step(
    cfg: ClientConfig,
    v: ClientVars,
    c: CommonView,
    state: HandshakeState,
    typ: u8,
    body: Seq<u8>,
) -> Result<(ClientVars, CommonView, HandshakeState), Error> {
    match state {
        HandshakeState::ClientExpectServerHello => if typ != HS_SERVER_HELLO {
            Err(Error::InappropriateMessage)
        } else if body.len() != 2 + RANDOM_LEN {
            Err(Error::InvalidHandshakeMessage)
        } else if body[0] == MINOR_TLS12 && cfg.enable_tls12 {
            let early = if v.early_data == EarlyDataState::Ready {
                EarlyDataState::Rejected
            } else {
                v.early_data
            };
            Ok((ClientVars { early_data: early, ..v }, c, HandshakeState::ClientTls12ExpectCertificate))
        } else if body[0] == MINOR_TLS13 && cfg.enable_tls13 {
            let c2 = if v.sent_fake_ccs {
                c
            } else {
                c.send(ccs_record())
            };
            Ok((
                ClientVars { sent_fake_ccs: true, ..v },
                c2,
                HandshakeState::ClientTls13ExpectEncryptedExtensions { resumed: body[1] == 1 && v.offered_resumption },
            ))
        } else {
            Err(Error::PeerIncompatible)
        },
        HandshakeState::ClientTls12ExpectCertificate => if typ != HS_CERTIFICATE {
            Err(Error::InappropriateMessage)
        } else if !is_trusted(cfg.verifier.roots.roots@, body) {
            Err(Error::InvalidCertificate)
        } else {
            Ok((v, c, HandshakeState::ClientTls12ExpectServerKx))
        },
        HandshakeState::ClientTls12ExpectServerKx => if typ != HS_SERVER_KEY_EXCHANGE {
            Err(Error::InappropriateMessage)
        } else {
            Ok((v, c, HandshakeState::ClientTls12ExpectServerDone))
        },
        HandshakeState::ClientTls12ExpectServerDone => if typ != HS_SERVER_HELLO_DONE {
            Err(Error::InappropriateMessage)
        } else {
            Ok((
                v,
                c.send(handshake_record(HS_CLIENT_KEY_EXCHANGE, Seq::empty())).send(ccs_record()).send(
                    handshake_record(HS_FINISHED, Seq::empty()),
                ),
                HandshakeState::Tls12ExpectChangeCipherSpec,
            ))
        },
        HandshakeState::Tls12ExpectFinished => if typ != HS_FINISHED {
            Err(Error::InappropriateMessage)
        } else {
            Ok((v, CommonView { may_send_application_data: true, ..c }, HandshakeState::Traffic { tls13: false }))
        },
        HandshakeState::ClientTls13ExpectEncryptedExtensions { resumed } => if typ != HS_ENCRYPTED_EXTENSIONS {
            Err(Error::InappropriateMessage)
        } else if body.len() != 1 {
            Err(Error::InvalidHandshakeMessage)
        } else {
            let early = if v.early_data == EarlyDataState::Ready {
                if body[0] == 1 {
                    EarlyDataState::Accepted
                } else {
                    EarlyDataState::Rejected
                }
            } else {
                v.early_data
            };
            let next = if resumed {
                HandshakeState::ClientTls13ExpectFinished
            } else {
                HandshakeState::ClientTls13ExpectCertificate
            };
            Ok((ClientVars { early_data: early, ..v }, c, next))
        },
        HandshakeState::ClientTls13ExpectCertificate => if typ != HS_CERTIFICATE {
            Err(Error::InappropriateMessage)
        } else if !is_trusted(cfg.verifier.roots.roots@, body) {
            Err(Error::InvalidCertificate)
        } else {
            Ok((v, c, HandshakeState::ClientTls13ExpectCertificateVerify))
        },
        HandshakeState::ClientTls13ExpectCertificateVerify => if typ != HS_CERTIFICATE_VERIFY {
            Err(Error::InappropriateMessage)
        } else {
            Ok((v, c, HandshakeState::ClientTls13ExpectFinished))
        },
        HandshakeState::ClientTls13ExpectFinished => if typ != HS_FINISHED {
            Err(Error::InappropriateMessage)
        } else {
            let c1 = if v.early_data == EarlyDataState::Accepted {
                c.send(handshake_record(HS_END_OF_EARLY_DATA, Seq::empty()))
            } else {
                c
            };
            Ok((
                ClientVars { early_data: EarlyDataState::Disabled, ..v },
                CommonView { may_send_application_data: true, ..c1.send(handshake_record(HS_FINISHED, Seq::empty())) },
                HandshakeState::Traffic { tls13: true },
            ))
        },
        HandshakeState::Traffic { tls13: true } => if typ != HS_NEW_SESSION_TICKET {
            Err(Error::InappropriateMessage)
        } else if body.len() < 4 || body.len() - 4 > MAX_TICKET_LEN {
            Err(Error::InvalidHandshakeMessage)
        } else {
            Ok((ClientVars { received_ticket: Some((body.skip(4), u32_at(body))), ..v }, c, state))
        },
        _ => Err(Error::InappropriateMessage),
    }
}

/// What a server does with the handshake message `typ`/`body` in `state`;
/// `random` is its hello random and `left` its remaining early-data budget.
pub open spec fn server_handshake_step(
    cfg: ServerConfig,
    random: Seq<u8>,
    left: nat,
    c: CommonView,
    state: HandshakeState,
    typ: u8,
    body: Seq<u8>,
) -> Result<(nat, CommonView, HandshakeState), Error> {
    match state {
        HandshakeState::ServerExpectClientHello => if typ != HS_CLIENT_HELLO {
            Err(Error::InappropriateMessage)
        } else if body.len() < 3 + RANDOM_LEN {
            Err(Error::InvalidHandshakeMessage)
        } else if cfg.cert@.len() > MAX_CERT_LEN || cfg.ticket_key@.len() != TICKET_KEY_LEN
            || random.len() != RANDOM_LEN {
            Err(Error::InvalidConfiguration)
        } else if body[1] == 1 {
            let ticket = body.skip(3 + RANDOM_LEN);
            let resumed = ticket.len() == cfg.ticket_key@.len() + 1 && ticket.take(
                cfg.ticket_key@.len() as int,
            ) == cfg.ticket_key@;
            let offered_early = body[2] == 1;
            let accept_early = resumed && offered_early && cfg.max_early_data_size > 0;
            let c1 = c.send(handshake_record(HS_SERVER_HELLO, seq![MINOR_TLS13, flag(resumed)] + random)).send(
                ccs_record(),
            ).send(handshake_record(HS_ENCRYPTED_EXTENSIONS, seq![flag(accept_early)]));
            let c2 = if resumed {
                c1
            } else {
                c1.send(handshake_record(HS_CERTIFICATE, cfg.cert@)).send(
                    handshake_record(HS_CERTIFICATE_VERIFY, Seq::empty()),
                )
            };
            let c3 = c2.send(handshake_record(HS_FINISHED, Seq::empty()));
            if accept_early {
                Ok((cfg.max_early_data_size as nat, c3, HandshakeState::ServerTls13ExpectEndOfEarlyData))
            } else {
                Ok((left, c3, HandshakeState::ServerTls13ExpectFinished { skip_early_data: offered_early }))
            }
        } else if body[0] == 1 {
            Ok((
                left,
                c.send(handshake_record(HS_SERVER_HELLO, seq![MINOR_TLS12, 0u8] + random)).send(
                    handshake_record(HS_CERTIFICATE, cfg.cert@),
                ).send(handshake_record(HS_SERVER_KEY_EXCHANGE, Seq::empty())).send(
                    handshake_record(HS_SERVER_HELLO_DONE, Seq::empty()),
                ),
                HandshakeState::ServerTls12ExpectClientKx,
            ))
        } else {
            Err(Error::PeerIncompatible)
        },
        HandshakeState::ServerTls12ExpectClientKx => if typ != HS_CLIENT_KEY_EXCHANGE {
            Err(Error::InappropriateMessage)
        } else {
            Ok((left, c, HandshakeState::Tls12ExpectChangeCipherSpec))
        },
        HandshakeState::Tls12ExpectFinished => if typ != HS_FINISHED {
            Err(Error::InappropriateMessage)
        } else {
            Ok((
                left,
                CommonView {
                    may_send_application_data: true,
                    ..c.send(ccs_record()).send(handshake_record(HS_FINISHED, Seq::empty()))
                },
                HandshakeState::Traffic { tls13: false },
            ))
        },
        HandshakeState::ServerTls13ExpectEndOfEarlyData => if typ != HS_END_OF_EARLY_DATA {
            Err(Error::InappropriateMessage)
        } else {
            Ok((left, c, HandshakeState::ServerTls13ExpectFinished { skip_early_data: false }))
        },
        HandshakeState::ServerTls13ExpectFinished { .. } => if typ != HS_FINISHED {
            Err(Error::InappropriateMessage)
        } else if cfg.ticket_key@.len() != TICKET_KEY_LEN {
            Err(Error::InvalidConfiguration)
        } else {
            Ok((
                left,
                CommonView {
                    may_send_application_data: true,
                    ..c.send_all(ticket_records(cfg, cfg.send_tls13_tickets as nat))
                },
                HandshakeState::Traffic { tls13: true },
            ))
        },
        _ => Err(Error::InappropriateMessage),
    }
}

/// What the engine does with one record of type `typ` carrying `payload`:
/// the new engine and handshake state, or the error it rejects the record with
/// (and then it changes nothing).
pub open spec fn engine_step(
    side: SideView,
    c: CommonView,
    state: HandshakeState,
    typ: u8,
    payload: Seq<u8>,
) -> Result<(SideView, CommonView, HandshakeState), Error> {
    if typ == CONTENT_ALERT {
        if payload.len() != 2 {
            Err(Error::CorruptMessage)
        } else if payload[1] == ALERT_CLOSE_NOTIFY {
            Ok((side, CommonView { has_received_close_notify: true, ..c }, state))
        } else if payload[0] == ALERT_LEVEL_FATAL {
            Err(Error::AlertReceived(payload[1]))
        } else {
            Ok((side, c, state))
        }
    } else if typ == CONTENT_CHANGE_CIPHER_SPEC {
        if payload.len() != 1 || payload[0] != 1 {
            Err(Error::CorruptMessage)
        } else if state == HandshakeState::Tls12ExpectChangeCipherSpec {
            Ok((side, c, HandshakeState::Tls12ExpectFinished))
        } else if tls13_handshaking(state) {
            Ok((side, c, state))
        } else {
            Err(Error::InappropriateMessage)
        }
    } else if typ == CONTENT_APPLICATION_DATA {
        match state {
            HandshakeState::Traffic { .. } => Ok((side, CommonView { received: c.received.push(payload), ..c }, state)),
            HandshakeState::ServerTls13ExpectEndOfEarlyData => match side {
                SideView::Server { config, random, early_data_left } => if payload.len() > early_data_left {
                    Err(Error::PeerSentTooMuchEarlyData)
                } else {
                    Ok((
                        SideView::Server { config, random, early_data_left: (early_data_left - payload.len()) as nat },
                        CommonView { early: c.early.push(payload), ..c },
                        state,
                    ))
                },
                SideView::Client { .. } => Err(Error::InappropriateMessage),
            },
            HandshakeState::ServerTls13ExpectFinished { skip_early_data: true } => Ok((side, c, state)),
            _ => Err(Error::InappropriateMessage),
        }
    } else if typ == CONTENT_HANDSHAKE {
        match parse_handshake_spec(payload) {
            None => Err(Error::InvalidHandshakeMessage),
            Some((t, body)) => match side {
                SideView::Client { config, vars } => match client_handshake_step(config, vars, c, state, t, body) {
                    Ok((v2, c2, s2)) => Ok((SideView::Client { config, vars: v2 }, c2, s2)),
                    Err(e) => Err(e),
                },
                SideView::Server { config, random, early_data_left } => match server_handshake_step(
                    config,
                    random,
                    early_data_left,
                    c,
                    state,
                    t,
                    body,
                ) {
                    Ok((l2, c2, s2)) => Ok((SideView::Server { config, random, early_data_left: l2 }, c2, s2)),
                    Err(e) => Err(e),
                },
            },
        }
    } else {
        Err(Error::CorruptMessage)
    }
}

/// Reads a big-endian `u32` from the first four bytes of `b`.
fn read_u32(b: &[u8]) -> (r: u32)
    requires
        b@.len() >= 4,
    ensures
        r as int == ((b@[0] as int * 256 + b@[1] as int) * 256 + b@[2] as int) * 256 + b@[3] as int,
{
    let hi = (b[0] as u32) * 256 + b[1] as u32;
    let lo = (b[2] as u32) * 256 + b[3] as u32;
    assert(hi * 65536 + lo <= u32::MAX) by (nonlinear_arith)
        requires
            hi <= 65535,
            lo <= 65535,
    ;
    hi * 65536 + lo
}

/// `b` is the key of a server followed by one byte: a ticket that server issued.
fn ticket_matches(key: &[u8], ticket: &[u8]) -> (r: bool)
    ensures
        r == (ticket@.len() == key@.len() + 1 && ticket@.subrange(0, key@.len() as int) == key@),
{
    if ticket.len() == 0 || ticket.len() - 1 != key.len() {
        return false;
    }
    let mut i: usize = 0;
    while i < key.len()
        invariant
            i <= key@.len(),
            ticket@.len() == key@.len() + 1,
            forall|j: int| 0 <= j < i ==> ticket@[j] == key@[j],
        decreases key@.len() - i,
    {
        if ticket[i] != key[i] {
            assert(ticket@.subrange(0, key@.len() as int)[i as int] != key@[i as int]);
            return false;
        }
        i += 1;
    }
    assert(ticket@.subrange(0, key@.len() as int) =~= key@);
    true
}

/// Concatenates `a` and `b`.
fn concat(a: &[u8], b: &[u8]) -> (r: Vec<u8>)
    ensures
        r@ == a@ + b@,
{
    let mut r: Vec<u8> = crate::record::copy_range(a, 0, a.len());
    let mut i: usize = 0;
    while i < b.len()
        invariant
            i <= b@.len(),
            r@ == a@ + b@.subrange(0, i as int),
        decreases b@.len() - i,
    {
        r.push(b[i]);
        assert(r@ =~= a@ + b@.subrange(0, i + 1));
        i += 1;
    }
    assert(a@.subrange(0, a@.len() as int) =~= a@);
    assert(r@ =~= a@ + b@);
    r
}

/// Starts a client handshake with the hello random `random`: queues the
/// ClientHello (and, when early data is offered, the compatibility
/// ChangeCipherSpec that follows it).
pub fn start_client(config: ClientConfig, server_name: Vec<u8>, random: &[u8]) -> (r: (ClientSide, CommonState))
    requires
        random@.len() == RANDOM_LEN,
    ensures
        framed(r.1.sendable_tls@) == first_flight(config, random@),
        !r.1.may_send_application_data,
        !r.1.has_received_close_notify,
        r.1.received_plaintext@.len() == 0,
        r.1.early_data@.len() == 0,
        r.1.write_seq == 0,
        r.0.config == config,
{
    let ghost resumes = offers_resumption(config);
    let ghost early = offers_early_data(config);
    let mut offered_resumption = false;
    let mut early_data = EarlyDataState::Disabled;
    let mut early_data_left: usize = 0;
    let mut ticket: Vec<u8> = Vec::new();
    if config.enable_tls13 {
        match &config.resumption {
            Some(t) => {
                if t.ticket.len() <= MAX_TICKET_LEN {
                    offered_resumption = true;
                    ticket = crate::record::copy_range(t.ticket.as_slice(), 0, t.ticket.len());
                    if config.enable_early_data && t.max_early_data_size > 0 {
                        early_data = EarlyDataState::Ready;
                        early_data_left = t.max_early_data_size as usize;
                    }
                }
            },
            None => {},
        }
    }
    assert(offered_resumption == resumes);
    assert((early_data == EarlyDataState::Ready) == early);
    assert(resumes ==> ticket@ == config.resumption->Some_0.ticket@);
    let flags: Vec<u8> = vec![
        if config.enable_tls12 { 1u8 } else { 0u8 },
        if config.enable_tls13 { 1u8 } else { 0u8 },
        if early_data == EarlyDataState::Ready { 1u8 } else { 0u8 },
    ];
    let head = concat(flags.as_slice(), random);
    let body = concat(head.as_slice(), ticket.as_slice());
    assert(body@ =~= client_hello_body(config, random@));
    let mut common = CommonState::new();
    common.queue_handshake(HS_CLIENT_HELLO, body.as_slice());
    let mut sent_fake_ccs = false;
    if early_data == EarlyDataState::Ready {
        common.queue_change_cipher_spec();
        sent_fake_ccs = true;
    }
    assert(framed(common.sendable_tls@) =~= first_flight(config, random@));
    let cs = ClientSide {
        config,
        server_name,
        early_data,
        early_data_left,
        sent_fake_ccs,
        offered_resumption,
        received_ticket: None,
    };
    (cs, common)
}

/// Handles one handshake message on the client side.
fn client_handshake(
    cs: &mut ClientSide,
    common: &mut CommonState,
    state: HandshakeState,
    typ: u8,
    body: &[u8],
) -> (r: Result<HandshakeState, Error>)
    ensures
        grows(*old(common), *final(common)),
        final(common).early_data@ == old(common).early_data@,
        !old(common).may_send_application_data && final(common).may_send_application_data ==> typ == HS_FINISHED,
        final(cs).config == old(cs).config,
        match client_handshake_step(old(cs).config, client_vars(*old(cs)), common_view(*old(common)), state, typ, body@) {
            Ok((v, cv, s)) => {
                &&& r == Ok::<HandshakeState, Error>(s)
                &&& client_vars(*final(cs)) == v
                &&& common_view(*final(common)) == cv
            },
            Err(e) => {
                &&& r == Err::<HandshakeState, Error>(e)
                &&& client_vars(*final(cs)) == client_vars(*old(cs))
                &&& common_view(*final(common)) == common_view(*old(common))
            },
        },
{
    match state {
        HandshakeState::ClientExpectServerHello => {
            if typ != HS_SERVER_HELLO {
                return Err(Error::InappropriateMessage);
            }
            if body.len() != 2 + RANDOM_LEN {
                return Err(Error::InvalidHandshakeMessage);
            }
            if body[0] == MINOR_TLS12 && cs.config.enable_tls12 {
                if cs.early_data == EarlyDataState::Ready {
                    cs.early_data = EarlyDataState::Rejected;
                }
                Ok(HandshakeState::ClientTls12ExpectCertificate)
            } else if body[0] == MINOR_TLS13 && cs.config.enable_tls13 {
                if !cs.sent_fake_ccs {
                    common.queue_change_cipher_spec();
                    cs.sent_fake_ccs = true;
                }
                let resumed = body[1] == 1 && cs.offered_resumption;
                Ok(HandshakeState::ClientTls13ExpectEncryptedExtensions { resumed })
            } else {
                Err(Error::PeerIncompatible)
            }
        },
        HandshakeState::ClientTls12ExpectCertificate => {
            if typ != HS_CERTIFICATE {
                return Err(Error::InappropriateMessage);
            }
            cs.config.verifier.verify_server_cert(body)?;
            Ok(HandshakeState::ClientTls12ExpectServerKx)
        },
        HandshakeState::ClientTls12ExpectServerKx => {
            if typ != HS_SERVER_KEY_EXCHANGE {
                return Err(Error::InappropriateMessage);
            }
            Ok(HandshakeState::ClientTls12ExpectServerDone)
        },
        HandshakeState::ClientTls12ExpectServerDone => {
            if typ != HS_SERVER_HELLO_DONE {
                return Err(Error::InappropriateMessage);
            }
            let empty: Vec<u8> = Vec::new();
            assert(empty@ =~= Seq::<u8>::empty());
            common.queue_handshake(HS_CLIENT_KEY_EXCHANGE, empty.as_slice());
            common.queue_change_cipher_spec();
            common.queue_handshake(HS_FINISHED, empty.as_slice());
            Ok(HandshakeState::Tls12ExpectChangeCipherSpec)
        },
        HandshakeState::Tls12ExpectFinished => {
            if typ != HS_FINISHED {
                return Err(Error::InappropriateMessage);
            }
            common.may_send_application_data = true;
            Ok(HandshakeState::Traffic { tls13: false })
        },
        HandshakeState::ClientTls13ExpectEncryptedExtensions { resumed } => {
            if typ != HS_ENCRYPTED_EXTENSIONS {
                return Err(Error::InappropriateMessage);
            }
            if body.len() != 1 {
                return Err(Error::InvalidHandshakeMessage);
            }
            if cs.early_data == EarlyDataState::Ready {
                cs.early_data = if body[0] == 1 {
                    EarlyDataState::Accepted
                } else {
                    EarlyDataState::Rejected
                };
            }
            if resumed {
                Ok(HandshakeState::ClientTls13ExpectFinished)
            } else {
                Ok(HandshakeState::ClientTls13ExpectCertificate)
            }
        },
        HandshakeState::ClientTls13ExpectCertificate => {
            if typ != HS_CERTIFICATE {
                return Err(Error::InappropriateMessage);
            }
            cs.config.verifier.verify_server_cert(body)?;
            Ok(HandshakeState::ClientTls13ExpectCertificateVerify)
        },
        HandshakeState::ClientTls13ExpectCertificateVerify => {
            if typ != HS_CERTIFICATE_VERIFY {
                return Err(Error::InappropriateMessage);
            }
            Ok(HandshakeState::ClientTls13ExpectFinished)
        },
        HandshakeState::ClientTls13ExpectFinished => {
            if typ != HS_FINISHED {
                return Err(Error::InappropriateMessage);
            }
            let empty: Vec<u8> = Vec::new();
            assert(empty@ =~= Seq::<u8>::empty());
            if cs.early_data == EarlyDataState::Accepted {
                common.queue_handshake(HS_END_OF_EARLY_DATA, empty.as_slice());
            }
            cs.early_data = EarlyDataState::Disabled;
            common.queue_handshake(HS_FINISHED, empty.as_slice());
            common.may_send_application_data = true;
            Ok(HandshakeState::Traffic { tls13: true })
        },
        HandshakeState::Traffic { tls13: true } => {
            if typ != HS_NEW_SESSION_TICKET {
                return Err(Error::InappropriateMessage);
            }
            if body.len() < 4 || body.len() - 4 > MAX_TICKET_LEN {
                return Err(Error::InvalidHandshakeMessage);
            }
            let max_early_data_size = read_u32(body);
            assert(max_early_data_size == u32_at(body@));
            let ticket = crate::record::copy_range(body, 4, body.len());
            assert(ticket@ =~= body@.skip(4));
            cs.received_ticket = Some(StoredTicket { ticket, max_early_data_size });
            Ok(state)
        },
        _ => Err(Error::InappropriateMessage),
    }
}

/// Handles one handshake message on the server side.
fn server_handshake(
    ss: &mut ServerSide,
    common: &mut CommonState,
    state: HandshakeState,
    typ: u8,
    body: &[u8],
) -> (r: Result<HandshakeState, Error>)
    ensures
        grows(*old(common), *final(common)),
        !old(common).may_send_application_data && final(common).may_send_application_data ==> typ == HS_FINISHED,
        final(ss).config == old(ss).config,
        final(ss).random == old(ss).random,
        match server_handshake_step(
            old(ss).config,
            old(ss).random@,
            old(ss).early_data_left as nat,
            common_view(*old(common)),
            state,
            typ,
            body@,
        ) {
            Ok((l, cv, s)) => {
                &&& r == Ok::<HandshakeState, Error>(s)
                &&& final(ss).early_data_left == l
                &&& common_view(*final(common)) == cv
            },
            Err(e) => {
                &&& r == Err::<HandshakeState, Error>(e)
                &&& final(ss).early_data_left == old(ss).early_data_left
                &&& common_view(*final(common)) == common_view(*old(common))
            },
        },
{
    match state {
        HandshakeState::ServerExpectClientHello => {
            if typ != HS_CLIENT_HELLO {
                return Err(Error::InappropriateMessage);
            }
            if body.len() < 3 + RANDOM_LEN {
                return Err(Error::InvalidHandshakeMessage);
            }
            if ss.config.cert.len() > MAX_CERT_LEN || ss.config.ticket_key.len() != TICKET_KEY_LEN
                || ss.random.len() != RANDOM_LEN {
                return Err(Error::InvalidConfiguration);
            }
            let random = ss.random.as_slice();
            let empty: Vec<u8> = Vec::new();
            assert(empty@ =~= Seq::<u8>::empty());
            if body[1] == 1 {
                let ticket = crate::record::copy_range(body, 3 + RANDOM_LEN, body.len());
                assert(ticket@ =~= body@.skip(3 + RANDOM_LEN));
                let resumed = ticket_matches(ss.config.ticket_key.as_slice(), ticket.as_slice());
                let offered_early = body[2] == 1;
                let accept_early = resumed && offered_early && ss.config.max_early_data_size > 0;
                let hello_head: Vec<u8> = vec![MINOR_TLS13, if resumed { 1u8 } else { 0u8 }];
                assert(hello_head@ =~= seq![MINOR_TLS13, flag(resumed)]);
                let hello = concat(hello_head.as_slice(), random);
                common.queue_handshake(HS_SERVER_HELLO, hello.as_slice());
                common.queue_change_cipher_spec();
                let extensions: Vec<u8> = vec![if accept_early { 1u8 } else { 0u8 }];
                assert(extensions@ =~= seq![flag(accept_early)]);
                common.queue_handshake(HS_ENCRYPTED_EXTENSIONS, extensions.as_slice());
                if !resumed {
                    common.queue_handshake(HS_CERTIFICATE, ss.config.cert.as_slice());
                    common.queue_handshake(HS_CERTIFICATE_VERIFY, empty.as_slice());
                }
                common.queue_handshake(HS_FINISHED, empty.as_slice());
                if accept_early {
                    ss.early_data_left = ss.config.max_early_data_size as usize;
                    Ok(HandshakeState::ServerTls13ExpectEndOfEarlyData)
                } else {
                    Ok(HandshakeState::ServerTls13ExpectFinished { skip_early_data: offered_early })
                }
            } else if body[0] == 1 {
                let hello_head: Vec<u8> = vec![MINOR_TLS12, 0u8];
                assert(hello_head@ =~= seq![MINOR_TLS12, 0u8]);
                let hello = concat(hello_head.as_slice(), random);
                common.queue_handshake(HS_SERVER_HELLO, hello.as_slice());
                common.queue_handshake(HS_CERTIFICATE, ss.config.cert.as_slice());
                common.queue_handshake(HS_SERVER_KEY_EXCHANGE, empty.as_slice());
                common.queue_handshake(HS_SERVER_HELLO_DONE, empty.as_slice());
                Ok(HandshakeState::ServerTls12ExpectClientKx)
            } else {
                Err(Error::PeerIncompatible)
            }
        },
        HandshakeState::ServerTls12ExpectClientKx => {
            if typ != HS_CLIENT_KEY_EXCHANGE {
                return Err(Error::InappropriateMessage);
            }
            Ok(HandshakeState::Tls12ExpectChangeCipherSpec)
        },
        HandshakeState::Tls12ExpectFinished => {
            if typ != HS_FINISHED {
                return Err(Error::InappropriateMessage);
            }
            let empty: Vec<u8> = Vec::new();
            assert(empty@ =~= Seq::<u8>::empty());
            common.queue_change_cipher_spec();
            common.queue_handshake(HS_FINISHED, empty.as_slice());
            common.may_send_application_data = true;
            Ok(HandshakeState::Traffic { tls13: false })
        },
        HandshakeState::ServerTls13ExpectEndOfEarlyData => {
            if typ != HS_END_OF_EARLY_DATA {
                return Err(Error::InappropriateMessage);
            }
            Ok(HandshakeState::ServerTls13ExpectFinished { skip_early_data: false })
        },
        HandshakeState::ServerTls13ExpectFinished { .. } => {
            if typ != HS_FINISHED {
                return Err(Error::InappropriateMessage);
            }
            if ss.config.ticket_key.len() != TICKET_KEY_LEN {
                return Err(Error::InvalidConfiguration);
            }
            let count = ss.config.send_tls13_tickets;
            let mut i: u8 = 0;
            assert(common_view(*old(common)).send_all(ticket_records(ss.config, 0)).sendable =~= common_view(*old(common)).sendable);
            while i < count
                invariant
                    i <= count == ss.config.send_tls13_tickets,
                    grows(*old(common), *common),
                    ss.config.ticket_key@.len() == TICKET_KEY_LEN,
                    common_view(*common) == common_view(*old(common)).send_all(ticket_records(ss.config, i as nat)),
                decreases count - i,
            {
                let mut body: Vec<u8> = Vec::new();
                let size = ss.config.max_early_data_size;
                body.push((size / 16777216) as u8);
                body.push(((size / 65536) % 256) as u8);
                body.push(((size / 256) % 256) as u8);
                body.push((size % 256) as u8);
                let key_part = concat(body.as_slice(), ss.config.ticket_key.as_slice());
                let index: Vec<u8> = vec![i];
                let message = concat(key_part.as_slice(), index.as_slice());
                assert(body@ =~= be32(size));
                assert(message@ =~= be32(ss.config.max_early_data_size) + ss.config.ticket_key@ + seq![i]);
                let ghost prev = common_view(*common);
                common.queue_handshake(HS_NEW_SESSION_TICKET, message.as_slice());
                proof {
                    let recs = ticket_records(ss.config, i as nat);
                    let next = ticket_records(ss.config, (i + 1) as nat);
                    assert(next == recs.push(handshake_record(HS_NEW_SESSION_TICKET, message@)));
                    assert(common_view(*old(common)).send_all(next).sendable =~= prev.send(
                        handshake_record(HS_NEW_SESSION_TICKET, message@),
                    ).sendable);
                }
                i += 1;
            }
            common.may_send_application_data = true;
            Ok(HandshakeState::Traffic { tls13: true })
        },
        _ => Err(Error::InappropriateMessage),
    }
}

/// Feeds one record to the handshake engine and returns the next handshake state.
pub fn process_msg(side: &mut Side, common: &mut CommonState, state: HandshakeState, rec: Record) -> (r: Result<HandshakeState, Error>)
    ensures
        grows(*old(common), *final(common)),
        rec.typ == CONTENT_ALERT && rec.payload@.len() == 2 && rec.payload@[1] == ALERT_CLOSE_NOTIFY ==> {
            &&& r == Ok::<HandshakeState, Error>(state)
            &&& final(common).has_received_close_notify
            &&& final(common).sendable_tls@ == old(common).sendable_tls@
            &&& final(common).received_plaintext@ == old(common).received_plaintext@
            &&& final(common).early_data@ == old(common).early_data@
        },
        rec.typ == CONTENT_ALERT && rec.payload@.len() == 2 && rec.payload@[1] != ALERT_CLOSE_NOTIFY
            && rec.payload@[0] == ALERT_LEVEL_FATAL ==> r == Err::<HandshakeState, Error>(
            Error::AlertReceived(rec.payload@[1]),
        ),
        rec.typ == CONTENT_APPLICATION_DATA && state is Traffic ==> {
            &&& r == Ok::<HandshakeState, Error>(state)
            &&& final(common).received_plaintext@ == old(common).received_plaintext@.push(rec.payload)
            &&& final(common).sendable_tls@ == old(common).sendable_tls@
            &&& final(common).early_data@ == old(common).early_data@
        },
        *old(side) is Client ==> final(common).early_data@ == old(common).early_data@,
        (*final(side) is Client) == (*old(side) is Client),
        !old(common).may_send_application_data && final(common).may_send_application_data ==> {
            &&& rec.typ == CONTENT_HANDSHAKE
            &&& rec.payload@.len() > 0
            &&& rec.payload@[0] == HS_FINISHED
        },
        match engine_step(side_view(*old(side)), common_view(*old(common)), state, rec.typ, rec.payload@) {
            Ok((sv, cv, s)) => {
                &&& r == Ok::<HandshakeState, Error>(s)
                &&& side_view(*final(side)) == sv
                &&& common_view(*final(common)) == cv
            },
            Err(e) => {
                &&& r == Err::<HandshakeState, Error>(e)
                &&& side_view(*final(side)) == side_view(*old(side))
                &&& common_view(*final(common)) == common_view(*old(common))
            },
        },
{
    let ghost old_common = common_view(*common);
    let payload = rec.payload.as_slice();
    if rec.typ == CONTENT_ALERT {
        if payload.len() != 2 {
            return Err(Error::CorruptMessage);
        }
        if payload[1] == ALERT_CLOSE_NOTIFY {
            common.has_received_close_notify = true;
            return Ok(state);
        }
        if payload[0] == ALERT_LEVEL_FATAL {
            return Err(Error::AlertReceived(payload[1]));
        }
        return Ok(state);
    }
    let tls13_handshaking = match state {
        HandshakeState::ClientTls13ExpectEncryptedExtensions { .. }
        | HandshakeState::ClientTls13ExpectCertificate
        | HandshakeState::ClientTls13ExpectCertificateVerify
        | HandshakeState::ClientTls13ExpectFinished
        | HandshakeState::ServerTls13ExpectEndOfEarlyData
        | HandshakeState::ServerTls13ExpectFinished { .. } => true,
        _ => false,
    };
    if rec.typ == CONTENT_CHANGE_CIPHER_SPEC {
        if payload.len() != 1 || payload[0] != 1 {
            return Err(Error::CorruptMessage);
        }
        if state == HandshakeState::Tls12ExpectChangeCipherSpec {
            return Ok(HandshakeState::Tls12ExpectFinished);
        }
        if tls13_handshaking {
            return Ok(state);
        }
        return Err(Error::InappropriateMessage);
    }
    if rec.typ == CONTENT_APPLICATION_DATA {
        match state {
            HandshakeState::Traffic { .. } => {
                let ghost p = rec.payload@;
                common.received_plaintext.push(rec.payload);
                assert(common_view(*common).received =~= old_common.received.push(p));
                Ok(state)
            },
            HandshakeState::ServerTls13ExpectEndOfEarlyData => {
                match side {
                    Side::Server(ss) => {
                        if rec.payload.len() > ss.early_data_left {
                            return Err(Error::PeerSentTooMuchEarlyData);
                        }
                        ss.early_data_left = ss.early_data_left - rec.payload.len();
                        let ghost p = rec.payload@;
                        common.early_data.push(rec.payload);
                        assert(common_view(*common).early =~= old_common.early.push(p));
                        Ok(state)
                    },
                    Side::Client(_) => Err(Error::InappropriateMessage),
                }
            },
            HandshakeState::ServerTls13ExpectFinished { skip_early_data: true } => Ok(state),
            _ => Err(Error::InappropriateMessage),
        }
    } else if rec.typ == CONTENT_HANDSHAKE {
        let (typ, body) = parse_handshake(payload)?;
        match side {
            Side::Client(cs) => client_handshake(cs, common, state, typ, body.as_slice()),
            Side::Server(ss) => server_handshake(ss, common, state, typ, body.as_slice()),
        }
    } else {
        Err(Error::CorruptMessage)
    }
}

} // verus!
