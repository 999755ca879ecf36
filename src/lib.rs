//! A sans-I/O TLS connection core: the caller owns the byte buffers and the
//! I/O loop, and advances the connection one suspension point at a time.

pub mod error;
pub mod record;
pub mod provider;
pub mod config;
mod conn;
pub mod unbuffered;

pub use error::{EarlyDataError, EncodeError, EncryptError, Error, InsufficientSizeError};
pub use config::{all_versions, ClientConfig, ProtocolVersion, ServerConfig, StoredTicket};
pub use provider::{GetRandomFailed, Provider, RootCertStore, ServerCertVerifier};
pub use unbuffered::{
    AppDataAvailable, AppDataRecord, ClientConnectionData, ConnectionState, EarlyDataAvailable,
    MayEncryptAppData, MayEncryptEarlyData, MustEncodeTlsData, MustTransmitTlsData,
    ServerConnectionData, StateKind, UnbufferedClientConnection, UnbufferedConnectionCommon,
    UnbufferedServerConnection, UnbufferedStatus,
};
