//! KWP2000 service identifiers, session types and negative response codes
//! used by this project, tied to their definitions in `automotive_diag`.
use vstd::prelude::*;
use automotive_diag::kwp2000::{KwpCommand, KwpError, KwpSessionType};

verus! {

/// The KWP2000 services this project sends or serves.
#[derive(Clone, Copy, PartialEq, Eq, Structural)]
pub enum KwpService {
    StartDiagnosticSession,
    EcuReset,
    ReadEcuIdentification,
    ReadDataByLocalIdentifier,
    ReadMemoryByAddress,
    InputOutputControlByLocalIdentifier,
    StartRoutineByLocalIdentifier,
    RequestRoutineResultsByLocalIdentifier,
    RequestDownload,
    TransferData,
}

impl KwpService {
    /// The service identifier byte.
    pub open spec fn spec_sid(&self) -> u8 {
        match self {
            KwpService::StartDiagnosticSession => 0x10,
            KwpService::EcuReset => 0x11,
            KwpService::ReadEcuIdentification => 0x1A,
            KwpService::ReadDataByLocalIdentifier => 0x21,
            KwpService::ReadMemoryByAddress => 0x23,
            KwpService::InputOutputControlByLocalIdentifier => 0x30,
            KwpService::StartRoutineByLocalIdentifier => 0x31,
            KwpService::RequestRoutineResultsByLocalIdentifier => 0x33,
            KwpService::RequestDownload => 0x34,
            KwpService::TransferData => 0x36,
        }
    }
}

/// The service a request byte names, among [`KwpService`].
pub open spec fn service_of_byte(b: u8) -> Option<KwpService> {
    if b == 0x10 {
        Some(KwpService::StartDiagnosticSession)
    } else if b == 0x11 {
        Some(KwpService::EcuReset)
    } else if b == 0x1A {
        Some(KwpService::ReadEcuIdentification)
    } else if b == 0x21 {
        Some(KwpService::ReadDataByLocalIdentifier)
    } else if b == 0x23 {
        Some(KwpService::ReadMemoryByAddress)
    } else if b == 0x30 {
        Some(KwpService::InputOutputControlByLocalIdentifier)
    } else if b == 0x31 {
        Some(KwpService::StartRoutineByLocalIdentifier)
    } else if b == 0x33 {
        Some(KwpService::RequestRoutineResultsByLocalIdentifier)
    } else if b == 0x34 {
        Some(KwpService::RequestDownload)
    } else if b == 0x36 {
        Some(KwpService::TransferData)
    } else {
        None
    }
}

/// The identifier byte of a service: `u8::from` of the matching
/// `automotive_diag::kwp2000::KwpCommand`, whose byte values the crate
/// declares as the enum's `repr(u8)` discriminants.
#[verifier::external_body]
pub(crate) fn kwp_sid(s: KwpService) -> (r: u8)
    ensures
        r == s.spec_sid(),
{
    let c = match s {
        KwpService::StartDiagnosticSession => KwpCommand::StartDiagnosticSession,
        KwpService::EcuReset => KwpCommand::ECUReset,
        KwpService::ReadEcuIdentification => KwpCommand::ReadECUIdentification,
        KwpService::ReadDataByLocalIdentifier => KwpCommand::ReadDataByLocalIdentifier,
        KwpService::ReadMemoryByAddress => KwpCommand::ReadMemoryByAddress,
        KwpService::InputOutputControlByLocalIdentifier => KwpCommand::InputOutputControlByLocalIdentifier,
        KwpService::StartRoutineByLocalIdentifier => KwpCommand::StartRoutineByLocalIdentifier,
        KwpService::RequestRoutineResultsByLocalIdentifier => KwpCommand::RequestRoutineResultsByLocalIdentifier,
        KwpService::RequestDownload => KwpCommand::RequestDownload,
        KwpService::TransferData => KwpCommand::TransferData,
    };
    u8::from(c)
}

/// The service a request byte names: `KwpCommand::try_from` of
/// `automotive_diag` (which looks the byte up among the enum's
/// discriminants), kept when it is one of [`KwpService`].
#[verifier::external_body]
pub(crate) fn kwp_service_of(b: u8) -> (r: Option<KwpService>)
    ensures
        r == service_of_byte(b),
{
    match KwpCommand::try_from(b) {
        Ok(KwpCommand::StartDiagnosticSession) => Some(KwpService::StartDiagnosticSession),
        Ok(KwpCommand::ECUReset) => Some(KwpService::EcuReset),
        Ok(KwpCommand::ReadECUIdentification) => Some(KwpService::ReadEcuIdentification),
        Ok(KwpCommand::ReadDataByLocalIdentifier) => Some(KwpService::ReadDataByLocalIdentifier),
        Ok(KwpCommand::ReadMemoryByAddress) => Some(KwpService::ReadMemoryByAddress),
        Ok(KwpCommand::InputOutputControlByLocalIdentifier) => Some(KwpService::InputOutputControlByLocalIdentifier),
        Ok(KwpCommand::StartRoutineByLocalIdentifier) => Some(KwpService::StartRoutineByLocalIdentifier),
        Ok(KwpCommand::RequestRoutineResultsByLocalIdentifier) => Some(KwpService::RequestRoutineResultsByLocalIdentifier),
        Ok(KwpCommand::RequestDownload) => Some(KwpService::RequestDownload),
        Ok(KwpCommand::TransferData) => Some(KwpService::TransferData),
        Ok(_) => None,
        Err(_) => None,
    }
}

/// KWP2000 diagnostic session types.
#[derive(Clone, Copy, PartialEq, Eq, Structural)]
pub enum KwpSession {
    Normal,
    Reprogramming,
    Standby,
    Passive,
    ExtendedDiagnostics,
}

impl KwpSession {
    /// The session byte.
    pub open spec fn spec_byte(&self) -> u8 {
        match self {
            KwpSession::Normal => 0x81,
            KwpSession::Reprogramming => 0x85,
            KwpSession::Standby => 0x89,
            KwpSession::Passive => 0x90,
            KwpSession::ExtendedDiagnostics => 0x92,
        }
    }
}

/// The session a byte names.
pub open spec fn session_of_byte(b: u8) -> Option<KwpSession> {
    if b == 0x81 {
        Some(KwpSession::Normal)
    } else if b == 0x85 {
        Some(KwpSession::Reprogramming)
    } else if b == 0x89 {
        Some(KwpSession::Standby)
    } else if b == 0x90 {
        Some(KwpSession::Passive)
    } else if b == 0x92 {
        Some(KwpSession::ExtendedDiagnostics)
    } else {
        None
    }
}

/// The byte of a session: `u8::from` of the matching
/// `automotive_diag::kwp2000::KwpSessionType` (its `repr(u8)`
/// discriminant).
#[verifier::external_body]
pub(crate) fn kwp_session_byte(s: KwpSession) -> (r: u8)
    ensures
        r == s.spec_byte(),
{
    let t = match s {
        KwpSession::Normal => KwpSessionType::Normal,
        KwpSession::Reprogramming => KwpSessionType::Reprogramming,
        KwpSession::Standby => KwpSessionType::Standby,
        KwpSession::Passive => KwpSessionType::Passive,
        KwpSession::ExtendedDiagnostics => KwpSessionType::ExtendedDiagnostics,
    };
    u8::from(t)
}

/// The session a byte names: `KwpSessionType::try_from` of
/// `automotive_diag`, which accepts exactly the five discriminants.
#[verifier::external_body]
pub(crate) fn kwp_session_of(b: u8) -> (r: Option<KwpSession>)
    ensures
        r == session_of_byte(b),
{
    match KwpSessionType::try_from(b) {
        Ok(KwpSessionType::Normal) => Some(KwpSession::Normal),
        Ok(KwpSessionType::Reprogramming) => Some(KwpSession::Reprogramming),
        Ok(KwpSessionType::Standby) => Some(KwpSession::Standby),
        Ok(KwpSessionType::Passive) => Some(KwpSession::Passive),
        Ok(KwpSessionType::ExtendedDiagnostics) => Some(KwpSession::ExtendedDiagnostics),
        Err(_) => None,
    }
}

/// Negative response codes this project sends or expects.
#[derive(Clone, Copy, PartialEq, Eq, Structural)]
pub enum KwpNrc {
    ServiceNotSupported,
    SubFunctionNotSupportedInvalidFormat,
    ConditionsNotCorrectRequestSequenceError,
    RoutineNotComplete,
    RequestOutOfRange,
}

impl KwpNrc {
    /// The response code byte.
    pub open spec fn spec_byte(&self) -> u8 {
        match self {
            KwpNrc::ServiceNotSupported => 0x11,
            KwpNrc::SubFunctionNotSupportedInvalidFormat => 0x12,
            KwpNrc::ConditionsNotCorrectRequestSequenceError => 0x22,
            KwpNrc::RoutineNotComplete => 0x23,
            KwpNrc::RequestOutOfRange => 0x31,
        }
    }
}

/// The byte of a response code: `u8::from` of the matching
/// `automotive_diag::kwp2000::KwpError` (its `repr(u8)` discriminant).
#[verifier::external_body]
pub(crate) fn kwp_nrc_byte(e: KwpNrc) -> (r: u8)
    ensures
        r == e.spec_byte(),
{
    let k = match e {
        KwpNrc::ServiceNotSupported => KwpError::ServiceNotSupported,
        KwpNrc::SubFunctionNotSupportedInvalidFormat => KwpError::SubFunctionNotSupportedInvalidFormat,
        KwpNrc::ConditionsNotCorrectRequestSequenceError => KwpError::ConditionsNotCorrectRequestSequenceError,
        KwpNrc::RoutineNotComplete => KwpError::RoutineNotComplete,
        KwpNrc::RequestOutOfRange => KwpError::RequestOutOfRange,
    };
    u8::from(k)
}

impl KwpService {
    /// The service identifier byte.
    pub fn sid(self) -> (r: u8)
        ensures
            r == self.spec_sid(),
    {
        kwp_sid(self)
    }

    /// The service that request byte `b` names, if it is one of these.
    pub fn from_byte(b: u8) -> (r: Option<KwpService>)
        ensures
            r == service_of_byte(b),
    {
        kwp_service_of(b)
    }
}

impl KwpSession {
    /// The session byte.
    pub fn byte(self) -> (r: u8)
        ensures
            r == self.spec_byte(),
    {
        kwp_session_byte(self)
    }

    /// The session that byte `b` names, if any.
    pub fn from_byte(b: u8) -> (r: Option<KwpSession>)
        ensures
            r == session_of_byte(b),
    {
        kwp_session_of(b)
    }
}

impl KwpNrc {
    /// The response code byte.
    pub fn byte(self) -> (r: u8)
        ensures
            r == self.spec_byte(),
    {
        kwp_nrc_byte(self)
    }
}

/// A session byte names the session it was made from, and a service
/// byte the service.
pub proof fn lemma_kwp_bytes_roundtrip(s: KwpSession, c: KwpService)
    ensures
        session_of_byte(s.spec_byte()) == Some(s),
        service_of_byte(c.spec_sid()) == Some(c),
{
}

} // verus!
