//! The unbuffered connection: one advance at a time over caller-owned buffers,
//! each advance ending in a status whose guard exposes only what is legal next.
use vstd::prelude::*;

use crate::config::{
    check_server_name, first_flight, server_config_valid, valid_server_name, ClientConfig, ServerConfig, StoredTicket, MAX_CERT_LEN,
    RANDOM_LEN, TICKET_KEY_LEN,
};
use crate::provider::random_bytes;
use crate::conn::{
    common_view, engine_step, side_view, ClientVars, CommonView, SideView,
    ALERT_CLOSE_NOTIFY,
    process_msg, start_client, CommonState, EarlyDataState, HandshakeState,
    ServerSide, Side,
};
use crate::error::{EarlyDataError, EncodeError, EncryptError, Error, InsufficientSizeError};
use crate::record::{
    copy_into, copy_range, fragment_count, fragments, frame_fragments, header_error,
    lemma_whole_records_append, push_record, read_record, record_bytes, starts_with_record,
    whole_records, encode_record, framed, record_len, Record, CONTENT_ALERT, CONTENT_APPLICATION_DATA,
    announced_len, HEADER_LEN, MAX_FRAGMENT_LEN,
};

verus! {

/// Marks a connection in the client role.
pub struct ClientConnectionData;

/// Marks a connection in the server role.
pub struct ServerConnectionData;

/// A connection, in the role that `Data` names.
pub struct UnbufferedConnectionCommon<Data> {
    side: Side,
    state: Result<HandshakeState, Error>,
    common: CommonState,
    wants_write: bool,
    data: Data,
}

pub type UnbufferedClientConnection = UnbufferedConnectionCommon<ClientConnectionData>;

pub type UnbufferedServerConnection = UnbufferedConnectionCommon<ServerConnectionData>;

/// Bound on record sequence numbers: a write succeeds only if every record it
/// protects gets a number below this one.
pub const SEQ_HARD_LIMIT: u64 = 0xffff_ffff_ffff_fffe;

pub open spec fn chunks(q: Seq<Vec<u8>>) -> Seq<Seq<u8>> {
    q.map_values(|c: Vec<u8>| c@)
}

impl<Data> UnbufferedConnectionCommon<Data> {
    /// Encoded bytes were handed out and still have to be transmitted.
    pub closed spec fn wants_write(&self) -> bool {
        self.wants_write
    }

    /// Application data may be sent.
    pub closed spec fn may_send_application_data(&self) -> bool {
        self.common.may_send_application_data
    }

    /// The peer's close-notify alert has been processed.
    pub closed spec fn has_received_close_notify(&self) -> bool {
        self.common.has_received_close_notify
    }

    /// The error this connection is poisoned with, if any.
    pub closed spec fn poisoned(&self) -> Option<Error> {
        match self.state {
            Err(e) => Some(e),
            Ok(_) => None,
        }
    }

    /// Encoded records waiting to be copied out, oldest first.
    pub closed spec fn pending_tls(&self) -> Seq<Seq<u8>> {
        framed(self.common.sendable_tls@)
    }

    /// Received application data waiting to be read, oldest first.
    pub closed spec fn pending_plaintext(&self) -> Seq<Seq<u8>> {
        chunks(self.common.received_plaintext@)
    }

    /// Received early data waiting to be read, oldest first.
    pub closed spec fn pending_early_data(&self) -> Seq<Seq<u8>> {
        chunks(self.common.early_data@)
    }

    /// Sequence number of the next record this side protects.
    pub closed spec fn write_seq(&self) -> u64 {
        self.common.write_seq
    }

    /// The connection as values.
    pub closed spec fn view(&self) -> ConnView {
        ConnView {
            side: side_view(self.side),
            state: self.state,
            common: common_view(self.common),
            wants_write: self.wants_write,
        }
    }

    /// The handshake engine of the two connections is in the same state: same
    /// role, configuration, progress and poisoning.
    pub closed spec fn same_engine(&self, other: &Self) -> bool {
        &&& self.side == other.side
        &&& self.state == other.state
    }

    /// The configuration of a client connection.
    pub closed spec fn client_config(&self) -> Option<ClientConfig> {
        match self.side {
            Side::Client(cs) => Some(cs.config),
            Side::Server(_) => None,
        }
    }

    /// The configuration of a server connection.
    pub closed spec fn server_config(&self) -> Option<ServerConfig> {
        match self.side {
            Side::Server(ss) => Some(ss.config),
            Side::Client(_) => None,
        }
    }

    /// The hello random of a server connection.
    pub closed spec fn server_random(&self) -> Option<Seq<u8>> {
        match self.side {
            Side::Server(ss) => Some(ss.random@),
            Side::Client(_) => None,
        }
    }

    /// The connection plays the client role.
    pub closed spec fn is_client(&self) -> bool {
        self.side is Client
    }

    /// The handshake is complete and records are exchanged under traffic keys.
    pub closed spec fn in_traffic(&self) -> bool {
        self.state matches Ok(HandshakeState::Traffic { .. })
    }

    /// Nothing differs between the two connections but the write flag.
    pub open spec fn agrees_but_wants_write(&self, other: &Self) -> bool {
        &&& self.same_engine(other)
        &&& self.may_send_application_data() == other.may_send_application_data()
        &&& self.has_received_close_notify() == other.has_received_close_notify()
        &&& self.write_seq() == other.write_seq()
        &&& self.pending_tls() == other.pending_tls()
        &&& self.pending_plaintext() == other.pending_plaintext()
        &&& self.pending_early_data() == other.pending_early_data()
    }

    /// Nothing differs between the two connections but the sequence number.
    pub open spec fn agrees_but_write_seq(&self, other: &Self) -> bool {
        &&& self.same_engine(other)
        &&& self.wants_write() == other.wants_write()
        &&& self.may_send_application_data() == other.may_send_application_data()
        &&& self.has_received_close_notify() == other.has_received_close_notify()
        &&& self.pending_tls() == other.pending_tls()
        &&& self.pending_plaintext() == other.pending_plaintext()
        &&& self.pending_early_data() == other.pending_early_data()
    }
}

/// The result of one advance.
pub struct UnbufferedStatus<'c, 'i, Data> {
    /// Number of bytes to remove from the front of the incoming buffer once the
    /// state has been handled, and before the next advance.
    pub discard: usize,
    /// What the caller must do next.
    pub state: Result<ConnectionState<'c, 'i, Data>, Error>,
}

/// What an advance asks of the caller; each variant's guard borrows the
/// connection, so no other advance can start while it is held.
pub enum ConnectionState<'c, 'i, Data> {
    /// A received application-data record can be read.
    AppDataAvailable(AppDataAvailable<'c, 'i, Data>),
    /// The peer closed the connection cleanly.
    ConnectionClosed,
    /// A received early-data record can be read (servers only).
    EarlyDataAvailable(EarlyDataAvailable<'c, 'i, Data>),
    /// A handshake record must be encoded into the outgoing buffer.
    MustEncodeTlsData(MustEncodeTlsData<'c, Data>),
    /// The encoded records must be transmitted, then `done` called.
    MustTransmitTlsData(MustTransmitTlsData<'c, Data>),
    /// More bytes from the peer are needed. `num_bytes` is never set.
    NeedsMoreTlsData { num_bytes: Option<usize> },
    /// The handshake is complete; application data may flow both ways.
    TrafficTransit(MayEncryptAppData<'c, Data>),
}

/// The name of a `ConnectionState` variant, with the hint of `NeedsMoreTlsData`.
#[derive(Clone, Copy, Debug, PartialEq, Eq, Structural)]
pub enum StateKind {
    AppDataAvailable,
    ConnectionClosed,
    EarlyDataAvailable,
    MustEncodeTlsData,
    MustTransmitTlsData,
    NeedsMoreTlsData { num_bytes: Option<usize> },
    TrafficTransit,
}

impl<'c, 'i, Data> ConnectionState<'c, 'i, Data> {
    pub open spec fn spec_kind(&self) -> StateKind {
        match self {
            ConnectionState::AppDataAvailable(_) => StateKind::AppDataAvailable,
            ConnectionState::ConnectionClosed => StateKind::ConnectionClosed,
            ConnectionState::EarlyDataAvailable(_) => StateKind::EarlyDataAvailable,
            ConnectionState::MustEncodeTlsData(_) => StateKind::MustEncodeTlsData,
            ConnectionState::MustTransmitTlsData(_) => StateKind::MustTransmitTlsData,
            ConnectionState::NeedsMoreTlsData { num_bytes } => StateKind::NeedsMoreTlsData { num_bytes: *num_bytes },
            ConnectionState::TrafficTransit(_) => StateKind::TrafficTransit,
        }
    }

    /// Which variant this is.
    pub fn kind(&self) -> (r: StateKind)
        ensures
            r == self.spec_kind(),
    {
        match self {
            ConnectionState::AppDataAvailable(_) => StateKind::AppDataAvailable,
            ConnectionState::ConnectionClosed => StateKind::ConnectionClosed,
            ConnectionState::EarlyDataAvailable(_) => StateKind::EarlyDataAvailable,
            ConnectionState::MustEncodeTlsData(_) => StateKind::MustEncodeTlsData,
            ConnectionState::MustTransmitTlsData(_) => StateKind::MustTransmitTlsData,
            ConnectionState::NeedsMoreTlsData { num_bytes } => StateKind::NeedsMoreTlsData { num_bytes: *num_bytes },
            ConnectionState::TrafficTransit(_) => StateKind::TrafficTransit,
        }
    }

    /// The connection as the returned guard holds it; `None` for the variants
    /// that hold no guard.
    pub open spec fn guarded(&self) -> Option<UnbufferedConnectionCommon<Data>> {
        match self {
            ConnectionState::AppDataAvailable(g) => Some(g.connection()),
            ConnectionState::EarlyDataAvailable(g) => Some(g.connection()),
            ConnectionState::MustEncodeTlsData(g) => Some(g.connection()),
            ConnectionState::MustTransmitTlsData(g) => Some(g.connection()),
            ConnectionState::TrafficTransit(g) => Some(g.connection()),
            _ => None,
        }
    }
}

/// The connection right after an advance: as its guard holds it, or as the
/// advance left it when no guard was returned.
pub open spec fn after_advance<'c, 'i, Data>(
    r: &UnbufferedStatus<'c, 'i, Data>,
    conn: UnbufferedConnectionCommon<Data>,
) -> UnbufferedConnectionCommon<Data> {
    match &r.state {
        Ok(st) => match st.guarded() {
            Some(c) => c,
            None => conn,
        },
        Err(_) => conn,
    }
}

/// A decrypted application-data record.
pub struct AppDataRecord<'i> {
    /// Number of additional bytes to discard, added to the status's `discard`.
    pub discard: usize,
    /// The payload of the record.
    pub payload: &'i [u8],
}

/// Application data is available.
pub struct AppDataAvailable<'c, 'i, Data> {
    conn: &'c mut UnbufferedConnectionCommon<Data>,
    incoming_tls: &'i mut [u8],
    chunk: Vec<u8>,
    taken: bool,
}

impl<'c, 'i, Data> AppDataAvailable<'c, 'i, Data> {
    pub closed spec fn connection(&self) -> UnbufferedConnectionCommon<Data> {
        *self.conn
    }

    /// The incoming buffer as the guard holds it.
    pub closed spec fn incoming(&self) -> Seq<u8> {
        self.incoming_tls@
    }

    /// The payload this guard hands out.
    pub closed spec fn payload(&self) -> Seq<u8> {
        self.chunk@
    }

    /// The payload has been handed out.
    pub closed spec fn taken(&self) -> bool {
        self.taken
    }

    fn new(
        conn: &'c mut UnbufferedConnectionCommon<Data>,
        incoming_tls: &'i mut [u8],
        chunk: Vec<u8>,
    ) -> (r: Self)
        ensures
            r.connection() == *old(conn),
            r.incoming() == old(incoming_tls)@,
            r.payload() == chunk@,
            !r.taken(),
    {
        AppDataAvailable { conn, incoming_tls, chunk, taken: false }
    }

    /// Returns the next available record: the payload once, then `None`.
    pub fn next_record(&mut self) -> (r: Option<Result<AppDataRecord<'_>, Error>>)
        ensures
            old(self).taken() ==> r is None,
            !old(self).taken() ==> (r matches Some(Ok(rec)) && rec.discard == 0 && rec.payload@ == old(self).payload()),
            final(self).taken(),
            final(self).payload() == old(self).payload(),
            final(self).connection() == old(self).connection(),
    {
        if self.taken {
            None
        } else {
            self.taken = true;
            Some(Ok(AppDataRecord { discard: 0, payload: self.chunk.as_slice() }))
        }
    }

    /// The payload size of the next record, `None` when there is none left.
    pub fn peek_len(&self) -> (r: Option<usize>)
        ensures
            r == (if self.taken() || self.payload().len() == 0 {
                None
            } else {
                Some(self.payload().len() as usize)
            }),
    {
        if self.taken || self.chunk.len() == 0 {
            None
        } else {
            Some(self.chunk.len())
        }
    }
}

/// Early (0-RTT) application data is available.
pub struct EarlyDataAvailable<'c, 'i, Data> {
    conn: &'c mut UnbufferedConnectionCommon<Data>,
    incoming_tls: &'i mut [u8],
    chunk: Vec<u8>,
    taken: bool,
}

impl<'c, 'i, Data> EarlyDataAvailable<'c, 'i, Data> {
    pub closed spec fn connection(&self) -> UnbufferedConnectionCommon<Data> {
        *self.conn
    }

    /// The incoming buffer as the guard holds it.
    pub closed spec fn incoming(&self) -> Seq<u8> {
        self.incoming_tls@
    }

    /// The payload this guard hands out.
    pub closed spec fn payload(&self) -> Seq<u8> {
        self.chunk@
    }

    /// The payload has been handed out.
    pub closed spec fn taken(&self) -> bool {
        self.taken
    }

    fn new(
        conn: &'c mut UnbufferedConnectionCommon<Data>,
        incoming_tls: &'i mut [u8],
        chunk: Vec<u8>,
    ) -> (r: Self)
        ensures
            r.connection() == *old(conn),
            r.incoming() == old(incoming_tls)@,
            r.payload() == chunk@,
            !r.taken(),
    {
        EarlyDataAvailable { conn, incoming_tls, chunk, taken: false }
    }
}

impl<'c, 'i> EarlyDataAvailable<'c, 'i, ServerConnectionData> {
    /// Returns the next available early-data record: the payload once, then `None`.
    pub fn next_record(&mut self) -> (r: Option<Result<AppDataRecord<'_>, Error>>)
        ensures
            old(self).taken() ==> r is None,
            !old(self).taken() ==> (r matches Some(Ok(rec)) && rec.discard == 0 && rec.payload@ == old(self).payload()),
            final(self).taken(),
            final(self).payload() == old(self).payload(),
            final(self).connection() == old(self).connection(),
    {
        if self.taken {
            None
        } else {
            self.taken = true;
            Some(Ok(AppDataRecord { discard: 0, payload: self.chunk.as_slice() }))
        }
    }

    /// The payload size of the next record, `None` when there is none left.
    pub fn peek_len(&self) -> (r: Option<usize>)
        ensures
            r == (if self.taken() || self.payload().len() == 0 {
                None
            } else {
                Some(self.payload().len() as usize)
            }),
    {
        if self.taken || self.chunk.len() == 0 {
            None
        } else {
            Some(self.chunk.len())
        }
    }
}

/// The bytes of a close-notify alert record.
pub open spec fn close_notify_bytes() -> Seq<u8> {
    record_bytes(CONTENT_ALERT, seq![1u8, 0u8])
}

/// What `encode` returns for the pending record `pending` and a buffer of `out_len` bytes.
pub open spec fn encode_outcome(pending: Option<Seq<u8>>, out_len: nat) -> Result<usize, EncodeError> {
    match pending {
        None => Err(EncodeError::AlreadyEncoded),
        Some(c) => if c.len() > out_len {
            Err(EncodeError::InsufficientSize(InsufficientSizeError { required_size: c.len() as usize }))
        } else {
            Ok(c.len() as usize)
        },
    }
}

/// What sealing `bytes`, which take `records` sequence numbers, into a buffer of
/// `out_len` bytes returns when the next sequence number is `write_seq`.
pub open spec fn seal_outcome(write_seq: u64, records: nat, bytes: Seq<u8>, out_len: nat) -> Result<usize, EncryptError> {
    if write_seq + records > SEQ_HARD_LIMIT {
        Err(EncryptError::EncryptExhausted)
    } else if bytes.len() > out_len {
        Err(EncryptError::InsufficientSize(InsufficientSizeError { required_size: bytes.len() as usize }))
    } else {
        Ok(bytes.len() as usize)
    }
}

/// What `encrypt` returns for `data` and a buffer of `out_len` bytes.
pub open spec fn encrypt_outcome(write_seq: u64, data: Seq<u8>, out_len: nat) -> Result<usize, EncryptError> {
    seal_outcome(write_seq, fragment_count(data.len()), fragments(CONTENT_APPLICATION_DATA, data), out_len)
}

/// What `queue_close_notify` returns for a buffer of `out_len` bytes.
pub open spec fn close_notify_outcome(write_seq: u64, out_len: nat) -> Result<usize, EncryptError> {
    seal_outcome(write_seq, 1, close_notify_bytes(), out_len)
}

impl<Data> UnbufferedConnectionCommon<Data> {
    /// Writes `bytes`, which take `records` sequence numbers, to the front of `out`.
    fn seal_into(&mut self, records: usize, bytes: &[u8], out: &mut [u8]) -> (r: Result<usize, EncryptError>)
        ensures
            r == seal_outcome(old(self).write_seq(), records as nat, bytes@, old(out)@.len()),
            r is Ok ==> {
                &&& final(out)@ == bytes@ + old(out)@.subrange(bytes@.len() as int, old(out)@.len() as int)
                &&& final(self).write_seq() == old(self).write_seq() + records
                &&& final(self).agrees_but_write_seq(old(self))
            },
            r is Err ==> final(out)@ == old(out)@ && *final(self) == *old(self),
    {
        let seq = self.common.write_seq;
        if records as u64 > SEQ_HARD_LIMIT || seq > SEQ_HARD_LIMIT - records as u64 {
            return Err(EncryptError::EncryptExhausted);
        }
        if bytes.len() > out.len() {
            return Err(EncryptError::from(InsufficientSizeError { required_size: bytes.len() }));
        }
        copy_into(out, bytes);
        self.common.write_seq = seq + records as u64;
        Ok(bytes.len())
    }

    /// Ends the transmit phase.
    fn clear_wants_write(&mut self)
        ensures
            !final(self).wants_write(),
            final(self).agrees_but_wants_write(old(self)),
    {
        self.wants_write = false;
    }
}

/// Allows encrypting application data.
pub struct MayEncryptAppData<'c, Data> {
    conn: &'c mut UnbufferedConnectionCommon<Data>,
}

impl<'c, Data> MayEncryptAppData<'c, Data> {
    pub closed spec fn connection(&self) -> UnbufferedConnectionCommon<Data> {
        *self.conn
    }

    /// Writes `application_data` into the front of `outgoing_tls` as
    /// application-data records, one per fragment, and returns the number of
    /// bytes written. The records are framed without protection: this library
    /// applies no record encryption. On error `outgoing_tls` and the
    /// connection are left as they were.
    pub fn encrypt(&mut self, application_data: &[u8], outgoing_tls: &mut [u8]) -> (r: Result<usize, EncryptError>)
        ensures
            r == encrypt_outcome(old(self).connection().write_seq(), application_data@, old(outgoing_tls)@.len()),
            r is Ok ==> {
                let bytes = fragments(CONTENT_APPLICATION_DATA, application_data@);
                &&& final(outgoing_tls)@ == bytes + old(outgoing_tls)@.subrange(bytes.len() as int, old(outgoing_tls)@.len() as int)
                &&& final(self).connection().write_seq() == old(self).connection().write_seq() + fragment_count(application_data@.len())
                &&& final(self).connection().agrees_but_write_seq(&old(self).connection())
            },
            r is Err ==> final(outgoing_tls)@ == old(outgoing_tls)@ && final(self).connection() == old(self).connection(),
    {
        let (bytes, records) = frame_fragments(CONTENT_APPLICATION_DATA, application_data);
        self.conn.seal_into(records, bytes.as_slice(), outgoing_tls)
    }

    /// Writes a close-notify alert record (framed without protection) into the
    /// front of `outgoing_tls` and returns the number of bytes written. On
    /// error `outgoing_tls` and the connection are left as they were.
    pub fn queue_close_notify(&mut self, outgoing_tls: &mut [u8]) -> (r: Result<usize, EncryptError>)
        ensures
            r == close_notify_outcome(old(self).connection().write_seq(), old(outgoing_tls)@.len()),
            r is Ok ==> {
                &&& final(outgoing_tls)@ == close_notify_bytes() + old(outgoing_tls)@.subrange(close_notify_bytes().len() as int, old(outgoing_tls)@.len() as int)
                &&& final(self).connection().write_seq() == old(self).connection().write_seq() + 1
                &&& final(self).connection().agrees_but_write_seq(&old(self).connection())
            },
            r is Err ==> final(outgoing_tls)@ == old(outgoing_tls)@ && final(self).connection() == old(self).connection(),
    {
        let alert: Vec<u8> = vec![1u8, 0u8];
        let mut bytes: Vec<u8> = Vec::new();
        push_record(&mut bytes, CONTENT_ALERT, alert.as_slice());
        assert(bytes@ =~= close_notify_bytes());
        let r = self.conn.seal_into(1, bytes.as_slice(), outgoing_tls);
        r
    }
}

/// A handshake record must be encoded.
pub struct MustEncodeTlsData<'c, Data> {
    conn: &'c mut UnbufferedConnectionCommon<Data>,
    chunk: Option<Vec<u8>>,
}

impl<'c, Data> MustEncodeTlsData<'c, Data> {
    pub closed spec fn connection(&self) -> UnbufferedConnectionCommon<Data> {
        *self.conn
    }

    /// The record still to be encoded, `None` once it has been.
    pub closed spec fn pending(&self) -> Option<Seq<u8>> {
        match self.chunk {
            Some(c) => Some(c@),
            None => None,
        }
    }

    fn new(conn: &'c mut UnbufferedConnectionCommon<Data>, chunk: Vec<u8>) -> (r: Self)
        ensures
            r.connection() == *old(conn),
            r.pending() == Some(chunk@),
    {
        MustEncodeTlsData { conn, chunk: Some(chunk) }
    }

    /// Copies the pending handshake record to the front of `outgoing_tls` and
    /// returns its length. The record is used up only on success; on error
    /// `outgoing_tls` and the connection are left as they were.
    pub fn encode(&mut self, outgoing_tls: &mut [u8]) -> (r: Result<usize, EncodeError>)
        ensures
            r == encode_outcome(old(self).pending(), old(outgoing_tls)@.len()),
            r is Ok ==> {
                let c = old(self).pending()->Some_0;
                &&& final(outgoing_tls)@ == c + old(outgoing_tls)@.subrange(c.len() as int, old(outgoing_tls)@.len() as int)
                &&& final(self).pending() is None
                &&& final(self).connection().wants_write()
                &&& final(self).connection().agrees_but_wants_write(&old(self).connection())
            },
            r is Err ==> {
                &&& final(outgoing_tls)@ == old(outgoing_tls)@
                &&& final(self).pending() == old(self).pending()
                &&& final(self).connection() == old(self).connection()
            },
    {
        let chunk = match self.chunk.take() {
            Some(chunk) => chunk,
            None => return Err(EncodeError::AlreadyEncoded),
        };
        let required_size = chunk.len();
        if required_size > outgoing_tls.len() {
            self.chunk = Some(chunk);
            Err(EncodeError::from(InsufficientSizeError { required_size }))
        } else {
            copy_into(outgoing_tls, chunk.as_slice());
            self.conn.wants_write = true;
            Ok(required_size)
        }
    }
}

/// Previously encoded records must be transmitted.
pub struct MustTransmitTlsData<'c, Data> {
    conn: &'c mut UnbufferedConnectionCommon<Data>,
}

impl<'c, Data> MustTransmitTlsData<'c, Data> {
    pub closed spec fn connection(&self) -> UnbufferedConnectionCommon<Data> {
        *self.conn
    }

    /// Signals that the encoded records have been transmitted.
    pub fn done(self) {
        self.conn.clear_wants_write();
    }

    /// A guard to encrypt application data alongside the handshake records,
    /// when that is allowed at this stage.
    pub fn may_encrypt_app_data(&mut self) -> (r: Option<MayEncryptAppData<'_, Data>>)
        ensures
            r is Some <==> old(self).connection().may_send_application_data(),
            r matches Some(g) ==> g.connection() == old(self).connection(),
            r is None ==> final(self).connection() == old(self).connection(),
    {
        if self.conn.common.may_send_application_data {
            Some(MayEncryptAppData { conn: &mut *self.conn })
        } else {
            None
        }
    }
}

impl<Data> UnbufferedConnectionCommon<Data> {
    /// The client offered early data that the server has not refused, and the
    /// handshake has not finished.
    pub closed spec fn may_send_early_data(&self) -> bool {
        match self.side {
            Side::Client(cs) => cs.early_data == EarlyDataState::Ready || cs.early_data == EarlyDataState::Accepted,
            Side::Server(_) => false,
        }
    }

    /// How many more bytes of early data the server accepts.
    pub closed spec fn early_data_left(&self) -> nat {
        match self.side {
            Side::Client(cs) => cs.early_data_left as nat,
            Side::Server(_) => 0,
        }
    }
}

impl<'c> MustTransmitTlsData<'c, ClientConnectionData> {
    /// A guard to encrypt early data alongside the ClientHello, when the
    /// client offered it and the handshake has not finished.
    pub fn may_encrypt_early_data(&mut self) -> (r: Option<MayEncryptEarlyData<'_>>)
        ensures
            r is Some <==> old(self).connection().may_send_early_data(),
            r matches Some(g) ==> g.connection() == old(self).connection(),
            r is None ==> final(self).connection() == old(self).connection(),
    {
        let allowed = match &self.conn.side {
            Side::Client(cs) => cs.early_data == EarlyDataState::Ready || cs.early_data == EarlyDataState::Accepted,
            Side::Server(_) => false,
        };
        if allowed {
            Some(MayEncryptEarlyData { conn: &mut *self.conn })
        } else {
            None
        }
    }
}

/// `v` after writing `n` bytes of early data in `records` records: the
/// budget shrinks by `n`, the sequence number grows by `records`, and nothing
/// else changes.
pub open spec fn spend_early_data(v: ConnView, n: nat, records: nat) -> ConnView {
    ConnView {
        side: match v.side {
            SideView::Client { config, vars } => SideView::Client {
                config,
                vars: ClientVars { early_data_left: (vars.early_data_left - n) as nat, ..vars },
            },
            other => other,
        },
        common: CommonView { write_seq: (v.common.write_seq + records) as u64, ..v.common },
        ..v
    }
}

/// What `MayEncryptEarlyData::encrypt` returns.
pub open spec fn early_encrypt_outcome(left: nat, write_seq: u64, data: Seq<u8>, out_len: nat) -> Result<usize, EarlyDataError> {
    if data.len() > left {
        Err(EarlyDataError::ExceededAllowedEarlyData)
    } else {
        match encrypt_outcome(write_seq, data, out_len) {
            Ok(n) => Ok(n),
            Err(e) => Err(EarlyDataError::Encrypt(e)),
        }
    }
}

/// Allows encrypting early (0-RTT) data.
pub struct MayEncryptEarlyData<'c> {
    conn: &'c mut UnbufferedConnectionCommon<ClientConnectionData>,
}

impl<'c> MayEncryptEarlyData<'c> {
    pub closed spec fn connection(&self) -> UnbufferedConnectionCommon<ClientConnectionData> {
        *self.conn
    }

    /// Writes `early_data` into the front of `outgoing_tls` as application-data
    /// records (framed without protection) and returns the number of bytes
    /// written; refuses data beyond what the server accepts. On error
    /// `outgoing_tls` and the connection are left as they were.
    pub fn encrypt(&mut self, early_data: &[u8], outgoing_tls: &mut [u8]) -> (r: Result<usize, EarlyDataError>)
        ensures
            r == early_encrypt_outcome(
                old(self).connection().early_data_left(),
                old(self).connection().write_seq(),
                early_data@,
                old(outgoing_tls)@.len(),
            ),
            r is Ok ==> {
                let bytes = fragments(CONTENT_APPLICATION_DATA, early_data@);
                &&& final(outgoing_tls)@ == bytes + old(outgoing_tls)@.subrange(bytes.len() as int, old(outgoing_tls)@.len() as int)
                &&& final(self).connection().early_data_left() == old(self).connection().early_data_left() - early_data@.len()
                &&& final(self).connection().write_seq() == old(self).connection().write_seq() + fragment_count(early_data@.len())
                &&& final(self).connection().view() == spend_early_data(
                    old(self).connection().view(),
                    early_data@.len(),
                    fragment_count(early_data@.len()),
                )
            },
            r is Err ==> final(outgoing_tls)@ == old(outgoing_tls)@ && final(self).connection() == old(self).connection(),
    {
        let left = match &self.conn.side {
            Side::Client(cs) => cs.early_data_left,
            Side::Server(_) => 0,
        };
        if early_data.len() > left {
            return Err(EarlyDataError::ExceededAllowedEarlyData);
        }
        let (bytes, records) = frame_fragments(CONTENT_APPLICATION_DATA, early_data);
        match self.conn.seal_into(records, bytes.as_slice(), outgoing_tls) {
            Ok(n) => {
                match &mut self.conn.side {
                    Side::Client(cs) => {
                        cs.early_data_left = left - early_data.len();
                    },
                    Side::Server(_) => {},
                }
                Ok(n)
            },
            Err(e) => Err(EarlyDataError::Encrypt(e)),
        }
    }
}

impl<Data> UnbufferedConnectionCommon<Data> {
    /// Nothing differs between the two connections but the three queues.
    pub open spec fn agrees_but_queues(&self, other: &Self) -> bool {
        &&& self.same_engine(other)
        &&& self.wants_write() == other.wants_write()
        &&& self.may_send_application_data() == other.may_send_application_data()
        &&& self.has_received_close_notify() == other.has_received_close_notify()
        &&& self.write_seq() == other.write_seq()
    }

    /// This is `before` with its oldest early-data chunk taken out.
    pub open spec fn popped_early_data(&self, before: &Self) -> bool {
        &&& self.agrees_but_queues(before)
        &&& self.pending_early_data() == before.pending_early_data().drop_first()
        &&& self.pending_plaintext() == before.pending_plaintext()
        &&& self.pending_tls() == before.pending_tls()
    }

    /// This is `before` with its oldest plaintext chunk taken out.
    pub open spec fn popped_plaintext(&self, before: &Self) -> bool {
        &&& self.agrees_but_queues(before)
        &&& self.pending_early_data() == before.pending_early_data()
        &&& self.pending_plaintext() == before.pending_plaintext().drop_first()
        &&& self.pending_tls() == before.pending_tls()
    }

    /// This is `before` with its oldest encoded record taken out.
    pub open spec fn popped_tls(&self, before: &Self) -> bool {
        &&& self.agrees_but_queues(before)
        &&& self.pending_early_data() == before.pending_early_data()
        &&& self.pending_plaintext() == before.pending_plaintext()
        &&& self.pending_tls() == before.pending_tls().drop_first()
    }

    /// No queue holds anything.
    pub open spec fn queues_empty(&self) -> bool {
        &&& self.pending_early_data().len() == 0
        &&& self.pending_plaintext().len() == 0
        &&& self.pending_tls().len() == 0
    }
}

/// The status an advance returns when no queue holds anything and no record
/// can be read: transmit, closed, traffic or more bytes, in that order.
pub open spec fn waiting_kind<Data>(c: UnbufferedConnectionCommon<Data>) -> StateKind {
    if c.wants_write() {
        StateKind::MustTransmitTlsData
    } else if c.has_received_close_notify() {
        StateKind::ConnectionClosed
    } else if c.may_send_application_data() {
        StateKind::TrafficTransit
    } else {
        StateKind::NeedsMoreTlsData { num_bytes: None }
    }
}

/// Nothing is queued, the connection is in traffic and not closed, and the
/// buffer starts with a complete application-data record.
pub open spec fn delivers_application_data<Data>(c: UnbufferedConnectionCommon<Data>, incoming: Seq<u8>) -> bool {
    &&& c.poisoned() is None
    &&& c.queues_empty()
    &&& !c.has_received_close_notify()
    &&& c.in_traffic()
    &&& starts_with_record(incoming)
    &&& incoming[0] == CONTENT_APPLICATION_DATA
}

/// Nothing is queued, the connection is not closed, and the buffer starts
/// with a complete close-notify alert record.
pub open spec fn delivers_close_notify<Data>(c: UnbufferedConnectionCommon<Data>, incoming: Seq<u8>) -> bool {
    &&& c.poisoned() is None
    &&& c.queues_empty()
    &&& !c.has_received_close_notify()
    &&& starts_with_record(incoming)
    &&& incoming[0] == CONTENT_ALERT
    &&& record_len(incoming) == HEADER_LEN + 2
    &&& incoming[HEADER_LEN + 1] == ALERT_CLOSE_NOTIFY
}

/// The buffer an advance was handed is left as it was; a guard that holds it
/// holds it unchanged.
pub open spec fn buffer_kept<'c, 'i, Data>(
    before: Seq<u8>,
    r: &UnbufferedStatus<'c, 'i, Data>,
    after: Seq<u8>,
) -> bool {
    match &r.state {
        Ok(ConnectionState::AppDataAvailable(g)) => g.incoming() == before,
        Ok(ConnectionState::EarlyDataAvailable(g)) => g.incoming() == before,
        _ => after == before,
    }
}

/// A connection as values: the engine, the handshake state (or the error the
/// connection is poisoned with), the queues and flags, and the write flag.
pub struct ConnView {
    pub side: SideView,
    pub state: Result<HandshakeState, Error>,
    pub common: CommonView,
    pub wants_write: bool,
}

/// What an advance hands out.
pub enum Outcome {
    Failed(Error),
    EarlyData(Seq<u8>),
    AppData(Seq<u8>),
    Encode(Seq<u8>),
    /// No chunk: the status is the waiting one the flags select.
    Waiting,
}

/// The waiting status that the flags of `v` select, in this order:
/// transmit, closed, traffic, more bytes.
pub open spec fn view_waiting_kind(v: ConnView) -> StateKind {
    if v.wants_write {
        StateKind::MustTransmitTlsData
    } else if v.common.has_received_close_notify {
        StateKind::ConnectionClosed
    } else if v.common.may_send_application_data {
        StateKind::TrafficTransit
    } else {
        StateKind::NeedsMoreTlsData { num_bytes: None }
    }
}

/// One advance of the connection `v` over `incoming`, of which the first
/// `discard` bytes are already consumed: hand out the oldest queued early
/// data, else application data, else outbound record; otherwise read the
/// next record and run it through `engine_step`, and go on; stop waiting
/// when no complete record is left or the peer has closed. Returns the
/// connection after it, the bytes consumed and what is handed out.
pub open spec fn advance_model(v: ConnView, incoming: Seq<u8>, discard: nat) -> (ConnView, nat, Outcome)
    decreases incoming.len() - discard,
{
    match v.state {
        Err(e) => (v, discard, Outcome::Failed(e)),
        Ok(hs) => if v.common.early.len() > 0 {
            (
                ConnView { common: CommonView { early: v.common.early.drop_first(), ..v.common }, ..v },
                discard,
                Outcome::EarlyData(v.common.early[0]),
            )
        } else if v.common.received.len() > 0 {
            (
                ConnView { common: CommonView { received: v.common.received.drop_first(), ..v.common }, ..v },
                discard,
                Outcome::AppData(v.common.received[0]),
            )
        } else if v.common.sendable.len() > 0 {
            (
                ConnView { common: CommonView { sendable: v.common.sendable.drop_first(), ..v.common }, ..v },
                discard,
                Outcome::Encode(v.common.sendable[0]),
            )
        } else if v.common.has_received_close_notify || discard > incoming.len() {
            (v, discard, Outcome::Waiting)
        } else {
            let b = incoming.subrange(discard as int, incoming.len() as int);
            match header_error(b) {
                Some(e) => (ConnView { state: Err(e), ..v }, discard, Outcome::Failed(e)),
                None => if !starts_with_record(b) {
                    (v, discard, Outcome::Waiting)
                } else {
                    let n = record_len(b);
                    match engine_step(v.side, v.common, hs, b[0], b.subrange(HEADER_LEN as int, n)) {
                        Err(e) => (ConnView { state: Err(e), ..v }, (discard + n) as nat, Outcome::Failed(e)),
                        Ok((side, common, next)) => advance_model(
                            ConnView { side, common, state: Ok(next), ..v },
                            incoming,
                            (discard + n) as nat,
                        ),
                    }
                },
            }
        },
    }
}

/// `r` hands out what `o` says, on a connection that ends as `v`.
pub open spec fn outcome_matches<'c, 'i, Data>(r: &UnbufferedStatus<'c, 'i, Data>, o: Outcome, v: ConnView) -> bool {
    match o {
        Outcome::Failed(e) => r.state is Err && r.state->Err_0 == e,
        Outcome::EarlyData(p) => r.state matches Ok(ConnectionState::EarlyDataAvailable(g)) && g.payload() == p
            && !g.taken(),
        Outcome::AppData(p) => r.state matches Ok(ConnectionState::AppDataAvailable(g)) && g.payload() == p
            && !g.taken(),
        Outcome::Encode(p) => r.state matches Ok(ConnectionState::MustEncodeTlsData(g)) && g.pending() == Some(p),
        Outcome::Waiting => r.state is Ok && r.state->Ok_0.spec_kind() == view_waiting_kind(v),
    }
}

/// What one advance does. `before` and `after` are the connection before the
/// call and once its borrow has ended; `incoming` is the buffer passed in.
pub open spec fn advance_spec<'c, 'i, Data>(
    before: UnbufferedConnectionCommon<Data>,
    incoming: Seq<u8>,
    r: &UnbufferedStatus<'c, 'i, Data>,
    after: UnbufferedConnectionCommon<Data>,
) -> bool {
    let now = after_advance(r, after);
    let rest = incoming.subrange(r.discard as int, incoming.len() as int);
    let model = advance_model(before.view(), incoming, 0);
    &&& now.view() == model.0
    &&& r.discard == model.1
    &&& outcome_matches(r, model.2, model.0)
    &&& r.discard <= incoming.len()
    &&& whole_records(incoming.subrange(0, r.discard as int))
    &&& before.may_send_application_data() ==> now.may_send_application_data()
    &&& before.has_received_close_notify() ==> now.has_received_close_notify()
    &&& now.is_client() == before.is_client()
    &&& before.is_client() && before.pending_early_data().len() == 0 ==> {
        &&& now.pending_early_data().len() == 0
        &&& !(r.state matches Ok(ConnectionState::EarlyDataAvailable(_)))
    }
    &&& match before.poisoned() {
        Some(e) => {
            &&& r.discard == 0
            &&& r.state matches Err(x) && x == e
            &&& after == before
        },
        None => {
            &&& r.state matches Err(e) ==> after.poisoned() == Some(e)
            &&& r.state is Ok ==> now.poisoned() is None
            &&& before.pending_early_data().len() > 0 ==> {
                &&& r.discard == 0
                &&& r.state matches Ok(ConnectionState::EarlyDataAvailable(g)) && {
                    &&& g.payload() == before.pending_early_data()[0]
                    &&& !g.taken()
                    &&& g.connection().popped_early_data(&before)
                }
            }
            &&& before.pending_early_data().len() == 0 && before.pending_plaintext().len() > 0 ==> {
                &&& r.discard == 0
                &&& r.state matches Ok(ConnectionState::AppDataAvailable(g)) && {
                    &&& g.payload() == before.pending_plaintext()[0]
                    &&& !g.taken()
                    &&& g.connection().popped_plaintext(&before)
                }
            }
            &&& before.pending_early_data().len() == 0 && before.pending_plaintext().len() == 0
                && before.pending_tls().len() > 0 ==> {
                &&& r.discard == 0
                &&& r.state matches Ok(ConnectionState::MustEncodeTlsData(g)) && {
                    &&& g.pending() == Some(before.pending_tls()[0])
                    &&& g.connection().popped_tls(&before)
                }
            }
            &&& before.queues_empty() && (before.has_received_close_notify() || (header_error(incoming) is None
                && !starts_with_record(incoming))) ==> {
                &&& r.discard == 0
                &&& r.state is Ok
                &&& r.state->Ok_0.spec_kind() == waiting_kind(before)
                &&& now == before
            }
            &&& before.queues_empty() && !before.has_received_close_notify() && header_error(incoming) is Some ==> {
                &&& r.discard == 0
                &&& r.state is Err
                &&& header_error(incoming) == Some(r.state->Err_0)
            }
            &&& r.state matches Ok(ConnectionState::AppDataAvailable(g)) ==> !g.taken()
            &&& r.state matches Ok(ConnectionState::EarlyDataAvailable(g)) ==> !g.taken()
            &&& r.state matches Ok(ConnectionState::MustEncodeTlsData(g)) ==> g.pending() is Some && g.pending()->Some_0.len() > 0
            &&& r.state matches Ok(ConnectionState::MustTransmitTlsData(g)) ==> {
                &&& g.connection().wants_write()
                &&& g.connection().queues_empty()
                &&& !g.connection().has_received_close_notify() ==> header_error(rest) is None
                    && !starts_with_record(rest)
            }
            &&& r.state matches Ok(ConnectionState::EarlyDataAvailable(g)) ==> exists|mid: UnbufferedConnectionCommon<Data>|
                {
                    &&& mid.pending_early_data().len() > 0
                    &&& g.payload() == mid.pending_early_data()[0]
                    &&& #[trigger] g.connection().popped_early_data(&mid)
                }
            &&& r.state matches Ok(ConnectionState::AppDataAvailable(g)) ==> exists|mid: UnbufferedConnectionCommon<Data>|
                {
                    &&& mid.pending_early_data().len() == 0
                    &&& mid.pending_plaintext().len() > 0
                    &&& g.payload() == mid.pending_plaintext()[0]
                    &&& #[trigger] g.connection().popped_plaintext(&mid)
                }
            &&& r.state matches Ok(ConnectionState::MustEncodeTlsData(g)) ==> exists|mid: UnbufferedConnectionCommon<Data>|
                {
                    &&& mid.pending_early_data().len() == 0
                    &&& mid.pending_plaintext().len() == 0
                    &&& mid.pending_tls().len() > 0
                    &&& g.pending() == Some(mid.pending_tls()[0])
                    &&& #[trigger] g.connection().popped_tls(&mid)
                }
            &&& r.state is Err ==> header_error(rest) == Some(r.state->Err_0) || r.discard > 0
            &&& delivers_application_data(before, incoming) ==> {
                &&& r.discard == record_len(incoming)
                &&& r.state matches Ok(ConnectionState::AppDataAvailable(g)) && {
                    &&& g.payload() == incoming.subrange(HEADER_LEN as int, record_len(incoming))
                    &&& g.connection().in_traffic()
                    &&& g.connection().queues_empty()
                }
            }
            &&& delivers_close_notify(before, incoming) ==> {
                &&& r.discard == record_len(incoming)
                &&& now.has_received_close_notify()
                &&& r.state is Ok
                &&& r.state->Ok_0.spec_kind() == (if before.wants_write() {
                    StateKind::MustTransmitTlsData
                } else {
                    StateKind::ConnectionClosed
                })
            }
            &&& r.state matches Ok(ConnectionState::ConnectionClosed) ==> {
                &&& after.has_received_close_notify()
                &&& !after.wants_write()
                &&& after.queues_empty()
            }
            &&& r.state matches Ok(ConnectionState::TrafficTransit(g)) ==> {
                &&& g.connection().may_send_application_data()
                &&& !g.connection().has_received_close_notify()
                &&& !g.connection().wants_write()
                &&& g.connection().queues_empty()
                &&& header_error(rest) is None
                &&& !starts_with_record(rest)
            }
            &&& r.state matches Ok(ConnectionState::NeedsMoreTlsData { num_bytes }) ==> {
                &&& num_bytes is None
                &&& !after.may_send_application_data()
                &&& !after.has_received_close_notify()
                &&& !after.wants_write()
                &&& after.queues_empty()
                &&& header_error(rest) is None
                &&& !starts_with_record(rest)
            }
        },
    }
}

impl<Data> UnbufferedConnectionCommon<Data> {
    #[verifier::rlimit(100)]
    #[verifier::spinoff_prover]
    fn process_tls_records_common<'c, 'i>(&'c mut self, incoming_tls: &'i mut [u8]) -> (r: UnbufferedStatus<'c, 'i, Data>)
        ensures
            advance_spec(*old(self), old(incoming_tls)@, &r, *final(self)),
            buffer_kept(old(incoming_tls)@, &r, final(incoming_tls)@),
    {
        match self.state {
            Err(e) => {
                assert(old(incoming_tls)@.subrange(0, 0) =~= Seq::<u8>::empty());
                return UnbufferedStatus { discard: 0, state: Err(e) };
            },
            Ok(_) => {},
        }
        let mut discard: usize = 0;
        let incoming_len = incoming_tls.len();
        assert(incoming_tls@.subrange(0, 0) =~= Seq::<u8>::empty());
        loop
            invariant
                incoming_len == incoming_tls@.len(),
                discard <= incoming_tls@.len(),
                advance_model(old(self).view(), incoming_tls@, 0) == advance_model(self.view(), incoming_tls@, discard as nat),
                whole_records(incoming_tls@.subrange(0, discard as int)),
                incoming_tls@ == old(incoming_tls)@,
                self.state is Ok,
                old(self).state is Ok,
                discard == 0 ==> *self == *old(self),
                discard > 0 ==> old(self).queues_empty(),
                discard > 0 ==> !old(self).common.has_received_close_notify && starts_with_record(incoming_tls@),
                old(self).common.may_send_application_data ==> self.common.may_send_application_data,
                old(self).common.has_received_close_notify ==> self.common.has_received_close_notify,
                self.is_client() == old(self).is_client(),
                old(self).is_client() ==> self.common.early_data@ == old(self).common.early_data@,
                discard > 0 && delivers_application_data(*old(self), incoming_tls@) ==> {
                    &&& discard == record_len(incoming_tls@)
                    &&& self.in_traffic()
                    &&& self.common.early_data@.len() == 0
                    &&& self.common.sendable_tls@.len() == 0
                    &&& self.common.received_plaintext@.len() == 1
                    &&& self.common.received_plaintext@[0]@ == incoming_tls@.subrange(HEADER_LEN as int, record_len(incoming_tls@))
                },
                discard > 0 && delivers_close_notify(*old(self), incoming_tls@) ==> {
                    &&& discard == record_len(incoming_tls@)
                    &&& self.common.has_received_close_notify
                    &&& self.common.early_data@.len() == 0
                    &&& self.common.sendable_tls@.len() == 0
                    &&& self.common.received_plaintext@.len() == 0
                    &&& self.wants_write == old(self).wants_write
                },
            decreases incoming_tls@.len() - discard,
        {
            // Queued work is handed out before any new record is read: early
            // data, then application data, then handshake records to encode.
            if self.common.early_data.len() > 0 {
                let ghost before = *self;
                let chunk = self.common.early_data.remove(0);
                assert(self.pending_early_data() =~= before.pending_early_data().drop_first());
                assert(self.popped_early_data(&before));
                assert(self.view().common.early =~= before.view().common.early.drop_first());
                assert(self.view() == ConnView { common: CommonView { early: before.view().common.early.drop_first(), ..before.view().common }, ..before.view() });
                return UnbufferedStatus {
                    discard,
                    state: Ok(ConnectionState::EarlyDataAvailable(EarlyDataAvailable::new(self, incoming_tls, chunk))),
                };
            }
            if self.common.received_plaintext.len() > 0 {
                let ghost before = *self;
                let chunk = self.common.received_plaintext.remove(0);
                assert(self.pending_plaintext() =~= before.pending_plaintext().drop_first());
                assert(self.popped_plaintext(&before));
                assert(self.view().common.received =~= before.view().common.received.drop_first());
                assert(self.view() == ConnView { common: CommonView { received: before.view().common.received.drop_first(), ..before.view().common }, ..before.view() });
                assert(self.pending_plaintext() =~= Seq::<Seq<u8>>::empty() || !delivers_application_data(*old(self), incoming_tls@) || discard == 0);
                return UnbufferedStatus {
                    discard,
                    state: Ok(ConnectionState::AppDataAvailable(AppDataAvailable::new(self, incoming_tls, chunk))),
                };
            }
            if self.common.sendable_tls.len() > 0 {
                let ghost before = *self;
                let rec = self.common.sendable_tls.remove(0);
                assert(self.pending_tls() =~= before.pending_tls().drop_first());
                assert(self.popped_tls(&before));
                assert(self.view().common.sendable =~= before.view().common.sendable.drop_first());
                assert(self.view() == ConnView { common: CommonView { sendable: before.view().common.sendable.drop_first(), ..before.view().common }, ..before.view() });
                let chunk = encode_record(rec.typ, rec.payload.as_slice());
                return UnbufferedStatus {
                    discard,
                    state: Ok(ConnectionState::MustEncodeTlsData(MustEncodeTlsData::new(self, chunk))),
                };
            }
            proof {
                if discard == 0 {
                    assert(incoming_tls@.subrange(0, incoming_tls@.len() as int) =~= incoming_tls@);
                }
            }
            let deframed = if self.common.has_received_close_notify {
                None
            } else {
                match read_record(incoming_tls, discard) {
                    Err(e) => {
                        self.state = Err(e);
                        return UnbufferedStatus { discard, state: Err(e) };
                    },
                    Ok(d) => d,
                }
            };
            match deframed {
                Some((rec, n)) => {
                    assert(n <= incoming_tls@.len() - discard);
                    proof {
                        let b = incoming_tls@.subrange(discard as int, incoming_tls@.len() as int);
                        let c = incoming_tls@.subrange(discard as int, discard + n);
                        assert(c[0] == b[0] && c[1] == b[1] && c[2] == b[2] && c[3] == b[3] && c[4] == b[4]);
                        lemma_whole_records_append(incoming_tls@.subrange(0, discard as int), c);
                        assert(incoming_tls@.subrange(0, discard as int) + c =~= incoming_tls@.subrange(0, discard + n));
                    }
                    discard = discard + n;
                    let hs = match self.state {
                        Ok(hs) => hs,
                        Err(e) => {
                            return UnbufferedStatus { discard, state: Err(e) };
                        },
                    };
                    match process_msg(&mut self.side, &mut self.common, hs, rec) {
                        Ok(next) => {
                            self.state = Ok(next);
                        },
                        Err(e) => {
                            self.state = Err(e);
                            return UnbufferedStatus { discard, state: Err(e) };
                        },
                    }
                },
                None => {
                    // No complete record is left: say what the caller must do.
                    if self.wants_write {
                        return UnbufferedStatus {
                            discard,
                            state: Ok(ConnectionState::MustTransmitTlsData(MustTransmitTlsData { conn: self })),
                        };
                    } else if self.common.has_received_close_notify {
                        return UnbufferedStatus { discard, state: Ok(ConnectionState::ConnectionClosed) };
                    } else if self.common.may_send_application_data {
                        return UnbufferedStatus {
                            discard,
                            state: Ok(ConnectionState::TrafficTransit(MayEncryptAppData { conn: self })),
                        };
                    } else {
                        return UnbufferedStatus {
                            discard,
                            state: Ok(ConnectionState::NeedsMoreTlsData { num_bytes: None }),
                        };
                    }
                },
            }
        }
    }
}

impl<Data> UnbufferedConnectionCommon<Data> {
    /// A client never holds early data to hand out.
    pub open spec fn well_formed(&self) -> bool {
        self.is_client() ==> self.pending_early_data().len() == 0
    }

    /// A connection that has not received or sent anything but what `pending_tls` holds.
    pub open spec fn is_fresh(&self) -> bool {
        &&& self.well_formed()
        &&& self.poisoned() is None
        &&& !self.wants_write()
        &&& !self.may_send_application_data()
        &&& !self.has_received_close_notify()
        &&& self.pending_plaintext().len() == 0
        &&& self.pending_early_data().len() == 0
        &&& self.write_seq() == 0
    }
}

impl UnbufferedConnectionCommon<ClientConnectionData> {
    /// A client connection to `server_name` whose hello carries `random`; its
    /// first flight is queued at once. Refused only when no version is enabled.
    pub fn new_with_random(config: ClientConfig, server_name: Vec<u8>, random: &[u8]) -> (r: Result<Self, Error>)
        requires
            random@.len() == RANDOM_LEN,
        ensures
            !config.enable_tls12 && !config.enable_tls13 ==> (r matches Err(e) && e == Error::NoVersionsEnabled),
            (config.enable_tls12 || config.enable_tls13) && !valid_server_name(server_name@) ==> (r matches Err(e)
                && e == Error::InvalidServerName),
            r is Ok <==> (config.enable_tls12 || config.enable_tls13) && valid_server_name(server_name@),
            r matches Ok(c) ==> {
                &&& c.is_fresh()
                &&& c.is_client()
                &&& c.client_config() == Some(config)
                &&& c.pending_tls() == first_flight(config, random@)
            },
    {
        if !config.enable_tls12 && !config.enable_tls13 {
            return Err(Error::NoVersionsEnabled);
        }
        if !check_server_name(server_name.as_slice()) {
            return Err(Error::InvalidServerName);
        }
        let (cs, common) = start_client(config, server_name, random);
        let r = UnbufferedConnectionCommon {
            side: Side::Client(cs),
            state: Ok(HandshakeState::ClientExpectServerHello),
            common,
            wants_write: false,
            data: ClientConnectionData,
        };
        assert(r.pending_plaintext() =~= Seq::<Seq<u8>>::empty());
        assert(r.pending_early_data() =~= Seq::<Seq<u8>>::empty());
        Ok(r)
    }

    /// A client connection to `server_name`, with a fresh hello random drawn
    /// from the provider; its first flight is queued at once.
    pub fn new(config: ClientConfig, server_name: Vec<u8>) -> (r: Result<Self, Error>)
        ensures
            !config.enable_tls12 && !config.enable_tls13 ==> (r matches Err(e) && e == Error::NoVersionsEnabled),
            (config.enable_tls12 || config.enable_tls13) && !valid_server_name(server_name@) ==> (r matches Err(e)
                && e == Error::InvalidServerName),
            (config.enable_tls12 || config.enable_tls13) && valid_server_name(server_name@) ==> (r is Ok || (r matches Err(
                e,
            ) && e == Error::FailedToGetRandomBytes)),
            r matches Ok(c) ==> exists|random: Seq<u8>|
                {
                    &&& random.len() == RANDOM_LEN
                    &&& c.is_fresh()
                    &&& c.is_client()
                    &&& c.client_config() == Some(config)
                    &&& #[trigger] first_flight(config, random) == c.pending_tls()
                },
    {
        if !config.enable_tls12 && !config.enable_tls13 {
            return Err(Error::NoVersionsEnabled);
        }
        if !check_server_name(server_name.as_slice()) {
            return Err(Error::InvalidServerName);
        }
        let random = random_bytes(RANDOM_LEN)?;
        Self::new_with_random(config, server_name, random.as_slice())
    }

    /// Processes the records in `incoming_tls` until the next status is reached.
    pub fn process_tls_records<'c, 'i>(&'c mut self, incoming_tls: &'i mut [u8]) -> (r: UnbufferedStatus<'c, 'i, ClientConnectionData>)
        ensures
            advance_spec(*old(self), old(incoming_tls)@, &r, *final(self)),
            buffer_kept(old(incoming_tls)@, &r, final(incoming_tls)@),
    {
        self.process_tls_records_common(incoming_tls)
    }

    /// The latest session ticket the server issued on this connection, with the
    /// early-data size it allows.
    pub closed spec fn issued_ticket(&self) -> Option<(Seq<u8>, u32)> {
        match self.side {
            Side::Client(cs) => match cs.received_ticket {
                Some(t) => Some((t.ticket@, t.max_early_data_size)),
                None => None,
            },
            Side::Server(_) => None,
        }
    }

    /// The latest session ticket the server issued on this connection, to
    /// resume a later connection with.
    pub fn resumption_ticket(&self) -> (r: Option<StoredTicket>)
        ensures
            r is Some <==> self.issued_ticket() is Some,
            r matches Some(t) ==> self.issued_ticket() == Some((t.ticket@, t.max_early_data_size)),
    {
        match &self.side {
            Side::Client(cs) => match &cs.received_ticket {
                Some(t) => Some(
                    StoredTicket {
                        ticket: copy_range(t.ticket.as_slice(), 0, t.ticket.len()),
                        max_early_data_size: t.max_early_data_size,
                    },
                ),
                None => None,
            },
            Side::Server(_) => None,
        }
    }
}

impl UnbufferedConnectionCommon<ServerConnectionData> {
    /// A server connection awaiting a ClientHello, whose hello will carry
    /// `random`. Refused only when the configuration is unusable.
    pub fn new_with_random(config: ServerConfig, random: &[u8]) -> (r: Result<Self, Error>)
        requires
            random@.len() == RANDOM_LEN,
        ensures
            r matches Ok(c) ==> {
                &&& c.is_fresh()
                &&& !c.is_client()
                &&& c.server_config() == Some(config)
                &&& c.server_random() == Some(random@)
                &&& c.pending_tls().len() == 0
            },
            r is Err <==> !server_config_valid(config),
            r matches Err(e) ==> e == Error::InvalidConfiguration,
    {
        if config.cert.len() > MAX_CERT_LEN || config.ticket_key.len() != TICKET_KEY_LEN {
            return Err(Error::InvalidConfiguration);
        }
        let common = CommonState::new();
        let random = copy_range(random, 0, random.len());
        let side = Side::Server(ServerSide { config, random, early_data_left: 0 });
        let r = UnbufferedConnectionCommon {
            side,
            state: Ok(HandshakeState::ServerExpectClientHello),
            common,
            wants_write: false,
            data: ServerConnectionData,
        };
        assert(r.pending_tls() =~= Seq::<Seq<u8>>::empty());
        assert(r.pending_plaintext() =~= Seq::<Seq<u8>>::empty());
        assert(r.pending_early_data() =~= Seq::<Seq<u8>>::empty());
        Ok(r)
    }

    /// A server connection awaiting a ClientHello, with a fresh hello random
    /// drawn from the provider.
    pub fn new(config: ServerConfig) -> (r: Result<Self, Error>)
        ensures
            !server_config_valid(config) ==> (r matches Err(e) && e == Error::InvalidConfiguration),
            server_config_valid(config) ==> (r is Ok || (r matches Err(e) && e == Error::FailedToGetRandomBytes)),
            r matches Ok(c) ==> exists|random: Seq<u8>|
                {
                    &&& random.len() == RANDOM_LEN
                    &&& c.is_fresh()
                    &&& !c.is_client()
                    &&& c.server_config() == Some(config)
                    &&& #[trigger] c.server_random() == Some(random)
                    &&& c.pending_tls().len() == 0
                },
    {
        if config.cert.len() > MAX_CERT_LEN || config.ticket_key.len() != TICKET_KEY_LEN {
            return Err(Error::InvalidConfiguration);
        }
        let random = random_bytes(RANDOM_LEN)?;
        Self::new_with_random(config, random.as_slice())
    }

    /// Processes the records in `incoming_tls` until the next status is reached.
    pub fn process_tls_records<'c, 'i>(&'c mut self, incoming_tls: &'i mut [u8]) -> (r: UnbufferedStatus<'c, 'i, ServerConnectionData>)
        ensures
            advance_spec(*old(self), old(incoming_tls)@, &r, *final(self)),
            buffer_kept(old(incoming_tls)@, &r, final(incoming_tls)@),
    {
        self.process_tls_records_common(incoming_tls)
    }
}

/// An advance hands back a discard count no larger than the buffer it was
/// given, and the bytes it asks to discard are whole records.
pub proof fn discard_within_buffer<'c, 'i, Data>(
    before: UnbufferedConnectionCommon<Data>,
    incoming: Seq<u8>,
    r: &UnbufferedStatus<'c, 'i, Data>,
    after: UnbufferedConnectionCommon<Data>,
)
    requires
        advance_spec(before, incoming, r, after),
    ensures
        r.discard <= incoming.len(),
        whole_records(incoming.subrange(0, r.discard as int)),
{
}

/// Permission to send application data, once granted, is never withdrawn: not
/// by an advance, nor by any operation of a guard.
pub proof fn traffic_permission_is_kept<'c, 'i, Data>(
    before: UnbufferedConnectionCommon<Data>,
    incoming: Seq<u8>,
    r: &UnbufferedStatus<'c, 'i, Data>,
    after: UnbufferedConnectionCommon<Data>,
)
    requires
        advance_spec(before, incoming, r, after),
    ensures
        before.may_send_application_data() ==> after_advance(r, after).may_send_application_data(),
{
}

/// The guard operations (`encode`, `done`, `encrypt`, `queue_close_notify`
/// and the pops of an advance) leave the traffic permission and the close flag
/// as they found them.
pub proof fn guard_steps_keep_flags<Data>(a: UnbufferedConnectionCommon<Data>, b: UnbufferedConnectionCommon<Data>)
    requires
        b.agrees_but_wants_write(&a) || b.agrees_but_write_seq(&a) || b.popped_early_data(&a)
            || b.popped_plaintext(&a) || b.popped_tls(&a),
    ensures
        b.may_send_application_data() == a.may_send_application_data(),
        b.has_received_close_notify() == a.has_received_close_notify(),
        b.poisoned() == a.poisoned(),
{
}

/// Encoding into an empty buffer reports the exact size needed; with at least
/// that much room the same record is then written whole.
pub proof fn encode_retry_after_insufficient_size(record: Seq<u8>, out_len: nat)
    requires
        record.len() > 0,
        record.len() <= usize::MAX,
    ensures
        encode_outcome(Some(record), 0) == Err::<usize, EncodeError>(
            EncodeError::InsufficientSize(InsufficientSizeError { required_size: record.len() as usize }),
        ),
        out_len >= record.len() ==> encode_outcome(Some(record), out_len) == Ok::<usize, EncodeError>(record.len() as usize),
{
}

/// Framed data, even empty data, takes more than zero bytes.
proof fn fragments_not_empty(typ: u8, data: Seq<u8>)
    ensures
        fragments(typ, data).len() > 0,
{
}

/// Encrypting into an empty buffer reports the exact size needed; with at
/// least that much room the same data is then written in exactly that size.
pub proof fn encrypt_retry_after_insufficient_size(write_seq: u64, data: Seq<u8>, out_len: nat)
    requires
        write_seq + fragment_count(data.len()) <= SEQ_HARD_LIMIT,
        fragments(CONTENT_APPLICATION_DATA, data).len() <= usize::MAX,
    ensures
        ({
            let required = fragments(CONTENT_APPLICATION_DATA, data).len();
            &&& required > 0
            &&& encrypt_outcome(write_seq, data, 0) == Err::<usize, EncryptError>(
                EncryptError::InsufficientSize(InsufficientSizeError { required_size: required as usize }),
            )
            &&& out_len >= required ==> encrypt_outcome(write_seq, data, out_len) == Ok::<usize, EncryptError>(required as usize)
        }),
{
    fragments_not_empty(CONTENT_APPLICATION_DATA, data);
}

/// Queueing a close-notify into an empty buffer reports the exact size needed;
/// with at least that much room the alert is then written in exactly that size.
pub proof fn close_notify_retry_after_insufficient_size(write_seq: u64, out_len: nat)
    requires
        write_seq + 1 <= SEQ_HARD_LIMIT,
    ensures
        close_notify_bytes().len() == 7,
        close_notify_outcome(write_seq, 0) == Err::<usize, EncryptError>(
            EncryptError::InsufficientSize(InsufficientSizeError { required_size: 7 }),
        ),
        out_len >= 7 ==> close_notify_outcome(write_seq, out_len) == Ok::<usize, EncryptError>(7),
{
}

/// Once the sequence space of the sending direction is used up, every write of
/// application data, early data or a close-notify fails with `EncryptExhausted`;
/// as a failed write changes nothing, this stays so.
pub proof fn exhaustion_is_terminal(write_seq: u64, data: Seq<u8>, out_len: nat, left: nat)
    requires
        write_seq >= SEQ_HARD_LIMIT,
    ensures
        encrypt_outcome(write_seq, data, out_len) == Err::<usize, EncryptError>(EncryptError::EncryptExhausted),
        close_notify_outcome(write_seq, out_len) == Err::<usize, EncryptError>(EncryptError::EncryptExhausted),
        data.len() <= left ==> early_encrypt_outcome(left, write_seq, data, out_len) == Err::<usize, EarlyDataError>(
            EarlyDataError::Encrypt(EncryptError::EncryptExhausted),
        ),
{
}

/// Once an advance has reported an error, the next advance reports the same
/// error, whatever bytes it is handed, and changes nothing.
pub proof fn errors_are_sticky<'c, 'i, 'd, 'j, Data>(
    before: UnbufferedConnectionCommon<Data>,
    incoming: Seq<u8>,
    r: &UnbufferedStatus<'c, 'i, Data>,
    after: UnbufferedConnectionCommon<Data>,
    next_incoming: Seq<u8>,
    next: &UnbufferedStatus<'d, 'j, Data>,
    next_after: UnbufferedConnectionCommon<Data>,
)
    requires
        advance_spec(before, incoming, r, after),
        advance_spec(after, next_incoming, next, next_after),
        r.state is Err,
    ensures
        next.state is Err,
        next.state->Err_0 == r.state->Err_0,
        next.discard == 0,
        next_after == after,
{
}

/// `ConnectionClosed` comes only once every received plaintext chunk has been
/// handed out: application data pending when the advance starts is delivered
/// first, and none is left behind.
pub proof fn close_reported_after_plaintext<'c, 'i, Data>(
    before: UnbufferedConnectionCommon<Data>,
    incoming: Seq<u8>,
    r: &UnbufferedStatus<'c, 'i, Data>,
    after: UnbufferedConnectionCommon<Data>,
)
    requires
        advance_spec(before, incoming, r, after),
        r.state matches Ok(ConnectionState::ConnectionClosed),
    ensures
        before.pending_plaintext().len() == 0,
        before.pending_early_data().len() == 0,
        after.pending_plaintext().len() == 0,
        after.has_received_close_notify(),
{
}

/// Once the peer's close-notify has been processed and everything queued has
/// been handed out and transmitted, every advance reports `ConnectionClosed`,
/// consumes nothing and changes nothing.
pub proof fn close_is_sticky<'c, 'i, Data>(
    before: UnbufferedConnectionCommon<Data>,
    incoming: Seq<u8>,
    r: &UnbufferedStatus<'c, 'i, Data>,
    after: UnbufferedConnectionCommon<Data>,
)
    requires
        advance_spec(before, incoming, r, after),
        before.poisoned() is None,
        before.has_received_close_notify(),
        before.queues_empty(),
        !before.wants_write(),
    ensures
        r.state matches Ok(ConnectionState::ConnectionClosed),
        r.discard == 0,
        after == before,
{
}

/// A client never hands out early data: its early-data queue starts empty
/// and stays so, and no advance returns `EarlyDataAvailable`.
pub proof fn client_never_receives_early_data<'c, 'i>(
    before: UnbufferedClientConnection,
    incoming: Seq<u8>,
    r: &UnbufferedStatus<'c, 'i, ClientConnectionData>,
    after: UnbufferedClientConnection,
)
    requires
        advance_spec(before, incoming, r, after),
        before.is_client(),
        before.pending_early_data().len() == 0,
    ensures
        !(r.state matches Ok(ConnectionState::EarlyDataAvailable(_))),
        after_advance(r, after).is_client(),
        after_advance(r, after).pending_early_data().len() == 0,
{
}

/// A single-record payload that one side encrypts is handed, unchanged and
/// whole, to a peer in traffic that advances over those bytes (whatever
/// follows them in its buffer).
pub proof fn encrypted_data_reaches_peer<'c, 'i, Data>(
    payload: Seq<u8>,
    tail: Seq<u8>,
    peer: UnbufferedConnectionCommon<Data>,
    r: &UnbufferedStatus<'c, 'i, Data>,
    after: UnbufferedConnectionCommon<Data>,
)
    requires
        payload.len() <= MAX_FRAGMENT_LEN,
        peer.poisoned() is None,
        peer.queues_empty(),
        !peer.has_received_close_notify(),
        peer.in_traffic(),
        advance_spec(peer, fragments(CONTENT_APPLICATION_DATA, payload) + tail, r, after),
    ensures
        r.discard == fragments(CONTENT_APPLICATION_DATA, payload).len(),
        r.state matches Ok(ConnectionState::AppDataAvailable(g)) && g.payload() == payload,
{
    let bytes = fragments(CONTENT_APPLICATION_DATA, payload);
    let incoming = bytes + tail;
    let n = payload.len();
    assert(((n / 256) as u8) as int * 256 + ((n % 256) as u8) as int == n);
    assert(incoming.subrange(0, HEADER_LEN + n as int) =~= bytes);
    assert(announced_len(incoming) == n);
    assert(starts_with_record(incoming));
    assert(incoming.subrange(HEADER_LEN as int, record_len(incoming)) =~= payload);
}

/// A close-notify that one side queues makes a peer that advances over those
/// bytes record the close, and report `ConnectionClosed` unless it still has
/// records of its own to transmit.
pub proof fn close_notify_reaches_peer<'c, 'i, Data>(
    tail: Seq<u8>,
    peer: UnbufferedConnectionCommon<Data>,
    r: &UnbufferedStatus<'c, 'i, Data>,
    after: UnbufferedConnectionCommon<Data>,
)
    requires
        peer.poisoned() is None,
        peer.queues_empty(),
        !peer.has_received_close_notify(),
        advance_spec(peer, close_notify_bytes() + tail, r, after),
    ensures
        r.discard == close_notify_bytes().len(),
        after_advance(r, after).has_received_close_notify(),
        !peer.wants_write() ==> r.state matches Ok(ConnectionState::ConnectionClosed),
{
    let incoming = close_notify_bytes() + tail;
    assert(incoming.subrange(0, 7) =~= close_notify_bytes());
    assert(starts_with_record(incoming));
}

/// Advances keep a connection well formed, and so do the guard operations.
pub proof fn advance_keeps_well_formed<'c, 'i, Data>(
    before: UnbufferedConnectionCommon<Data>,
    incoming: Seq<u8>,
    r: &UnbufferedStatus<'c, 'i, Data>,
    after: UnbufferedConnectionCommon<Data>,
)
    requires
        advance_spec(before, incoming, r, after),
        before.well_formed(),
    ensures
        after_advance(r, after).well_formed(),
{
}

/// The guard operations that change the connection keep it well formed.
pub proof fn guard_steps_keep_well_formed<Data>(a: UnbufferedConnectionCommon<Data>, b: UnbufferedConnectionCommon<Data>)
    requires
        a.well_formed(),
        b.agrees_but_wants_write(&a) || b.agrees_but_write_seq(&a),
    ensures
        b.well_formed(),
{
}

} // verus!
