//! The uniform error value of the crate.

use vstd::prelude::*;

verus! {

/// The broad class an error belongs to.
#[derive(Clone, Copy, Debug, PartialEq, Eq, Structural)]
pub enum ErrorKind {
    /// A malformed fingerprint, address or path.
    Configuration,
    /// The directory is missing, or does not list the relay.
    Directory,
    /// A TCP connection timed out or was refused.
    Connectivity,
    /// A link or a circuit could not be launched, or a handshake failed.
    Protocol,
    /// TLS, read timeout or stream failure.
    Application,
}

/// Every failure the crate reports.
#[derive(Clone, Copy, Debug, PartialEq, Eq, Structural)]
pub enum CircuitError {
    /// The fingerprint is not 40 hex digits once whitespace is removed.
    InvalidFingerprint,
    /// The relay address could not be understood.
    InvalidAddress,
    /// The connect target has no `scheme://` prefix.
    MissingScheme,
    /// No directory snapshot has been set yet.
    NoDirectoryAvailable,
    /// The directory does not list a relay of that identity.
    RelayNotFound,
    /// The TCP connection did not complete in time.
    ConnectTimeout,
    /// The TCP connection was refused or broke.
    ConnectFailed,
    /// A link to the relay could not be launched.
    ChannelLaunchFailed,
    /// The circuit shell could not be opened on the link.
    CircuitLaunchFailed,
    /// The hop handshake failed.
    HandshakeFailed,
    /// `extend` was called before any circuit was built.
    NoCircuitToExtend,
    /// No circuit has been built yet.
    NoCircuit,
    /// A build step is already waiting for its outcome.
    BuildInProgress,
    /// An outcome was reported although no build step was waiting for it.
    UnexpectedEvent,
    /// The connector has not been initialised.
    NotInitialized,
    /// The server name is no onion name, so its certificate is not trusted.
    CertificateRejected,
    /// The TLS session could not be set up.
    TlsFailed,
    /// One read did not complete within its timeout.
    ReadTimeout,
    /// The stream failed while reading.
    StreamReadError,
}

impl CircuitError {
    /// The class of this error.
    pub open spec fn spec_kind(self) -> ErrorKind {
        match self {
            CircuitError::InvalidFingerprint
            | CircuitError::InvalidAddress
            | CircuitError::MissingScheme => ErrorKind::Configuration,
            CircuitError::NoDirectoryAvailable
            | CircuitError::RelayNotFound => ErrorKind::Directory,
            CircuitError::ConnectTimeout | CircuitError::ConnectFailed => ErrorKind::Connectivity,
            CircuitError::ChannelLaunchFailed
            | CircuitError::CircuitLaunchFailed
            | CircuitError::HandshakeFailed
            | CircuitError::NoCircuitToExtend
            | CircuitError::NoCircuit
            | CircuitError::BuildInProgress
            | CircuitError::UnexpectedEvent => ErrorKind::Protocol,
            CircuitError::NotInitialized
            | CircuitError::TlsFailed
            | CircuitError::CertificateRejected
            | CircuitError::ReadTimeout
            | CircuitError::StreamReadError => ErrorKind::Application,
        }
    }

    /// The class of this error.
    pub fn kind(self) -> (k: ErrorKind)
        ensures
            k == self.spec_kind(),
    {
        match self {
            CircuitError::InvalidFingerprint
            | CircuitError::InvalidAddress
            | CircuitError::MissingScheme => ErrorKind::Configuration,
            CircuitError::NoDirectoryAvailable
            | CircuitError::RelayNotFound => ErrorKind::Directory,
            CircuitError::ConnectTimeout | CircuitError::ConnectFailed => ErrorKind::Connectivity,
            CircuitError::ChannelLaunchFailed
            | CircuitError::CircuitLaunchFailed
            | CircuitError::HandshakeFailed
            | CircuitError::NoCircuitToExtend
            | CircuitError::NoCircuit
            | CircuitError::BuildInProgress
            | CircuitError::UnexpectedEvent => ErrorKind::Protocol,
            CircuitError::NotInitialized
            | CircuitError::TlsFailed
            | CircuitError::CertificateRejected
            | CircuitError::ReadTimeout
            | CircuitError::StreamReadError => ErrorKind::Application,
        }
    }
}

} // verus!
