//! Negative-response codes of the diagnostic protocol and the
//! classification of raw ECU replies.

use vstd::prelude::*;

verus! {

/// A negative-response code the ECU can answer with.
#[derive(Debug, Copy, Clone, PartialEq, Eq, PartialOrd, Ord, Structural)]
pub enum UdsError {
    /// NRC 0x10: the ECU rejected the request with no specific reason.
    GeneralReject,
    /// NRC 0x11: the service is not supported by the ECU.
    ServiceNotSupported,
    /// NRC 0x12: the sub-function is not supported by the ECU.
    SubFunctionNotSupported,
    /// NRC 0x13: the request had an invalid length or format.
    IncorrectMessageLengthOrInvalidFormat,
    /// NRC 0x14: the response would not fit the transport.
    ResponseTooLong,
    /// NRC 0x21: the ECU is busy; the request should be repeated.
    BusyRepeatRequest,
    /// NRC 0x22: prerequisite conditions are not met.
    ConditionsNotCorrect,
    /// NRC 0x24: the request arrived in the wrong order.
    RequestSequenceError,
    /// NRC 0x25: a vehicle component behind the ECU timed out.
    NoResponseFromSubnetComponent,
    /// NRC 0x26: an active failure prevents the action.
    FailurePreventsExecutionOfRequestedAction,
    /// NRC 0x31: the request carries data outside the valid range.
    RequestOutOfRange,
    /// NRC 0x33: security access was denied.
    SecurityAccessDenied,
    /// NRC 0x35: the security key was wrong.
    InvalidKey,
    /// NRC 0x36: too many wrong keys were tried.
    ExceedNumberOfAttempts,
    /// NRC 0x37: the seed was requested again too quickly.
    RequiredTimeDelayNotExpired,
    /// NRC 0x70: an upload or download request was refused.
    UploadDownloadNotAccepted,
    /// NRC 0x71: a data transfer was halted.
    TransferDataSuspended,
    /// NRC 0x72: reprogramming failed.
    GeneralProgrammingFailure,
    /// NRC 0x73: the block sequence counter was wrong.
    WrongBlockSequenceCounter,
    /// NRC 0x78: the request was accepted but the reply is still pending.
    RequestCorrectlyReceivedResponsePending,
    /// NRC 0x7E: the sub-function is not supported in the active session.
    SubFunctionNotSupportedInActiveSession,
    /// NRC 0x7F: the service is not supported in the active session.
    ServiceNotSupportedInActiveSession,
    /// NRC 0x81: engine speed is too high.
    RpmTooHigh,
    /// NRC 0x82: engine speed is too low.
    RpmTooLow,
    /// NRC 0x83: the engine is running.
    EngineIsRunning,
    /// NRC 0x84: the engine is not running.
    EngineIsNotRunning,
    /// NRC 0x85: the engine has not been running long enough.
    EngineRunTimeTooLow,
    /// NRC 0x86: coolant temperature is too high.
    TemperatureTooHigh,
    /// NRC 0x87: coolant temperature is too low.
    TemperatureTooLow,
    /// NRC 0x88: vehicle speed is too high.
    VehicleSpeedTooHigh,
    /// NRC 0x89: vehicle speed is too low.
    VehicleSpeedTooLow,
    /// NRC 0x8A: throttle or pedal value is too high.
    ThrottleTooHigh,
    /// NRC 0x8B: throttle or pedal value is too low.
    ThrottleTooLow,
    /// NRC 0x8C: the transmission is not in neutral.
    TransmissionRangeNotInNeutral,
    /// NRC 0x8D: the transmission is not in gear.
    TransmissionRangeNotInGear,
    /// NRC 0x8F: the brake is not applied.
    BrakeSwitchNotClosed,
    /// NRC 0x90: the shifter lever is not in park.
    ShifterLeverNotInPark,
    /// NRC 0x91: the torque converter clutch is locked.
    TorqueConverterClutchLocked,
    /// NRC 0x92: supply voltage is too high.
    VoltageTooHigh,
    /// NRC 0x93: supply voltage is too low.
    VoltageTooLow,
}

/// The wire byte of each negative-response code.
pub open spec fn nrc_byte(e: UdsError) -> u8 {
    match e {
        UdsError::GeneralReject => 0x10,
        UdsError::ServiceNotSupported => 0x11,
        UdsError::SubFunctionNotSupported => 0x12,
        UdsError::IncorrectMessageLengthOrInvalidFormat => 0x13,
        UdsError::ResponseTooLong => 0x14,
        UdsError::BusyRepeatRequest => 0x21,
        UdsError::ConditionsNotCorrect => 0x22,
        UdsError::RequestSequenceError => 0x24,
        UdsError::NoResponseFromSubnetComponent => 0x25,
        UdsError::FailurePreventsExecutionOfRequestedAction => 0x26,
        UdsError::RequestOutOfRange => 0x31,
        UdsError::SecurityAccessDenied => 0x33,
        UdsError::InvalidKey => 0x35,
        UdsError::ExceedNumberOfAttempts => 0x36,
        UdsError::RequiredTimeDelayNotExpired => 0x37,
        UdsError::UploadDownloadNotAccepted => 0x70,
        UdsError::TransferDataSuspended => 0x71,
        UdsError::GeneralProgrammingFailure => 0x72,
        UdsError::WrongBlockSequenceCounter => 0x73,
        UdsError::RequestCorrectlyReceivedResponsePending => 0x78,
        UdsError::SubFunctionNotSupportedInActiveSession => 0x7E,
        UdsError::ServiceNotSupportedInActiveSession => 0x7F,
        UdsError::RpmTooHigh => 0x81,
        UdsError::RpmTooLow => 0x82,
        UdsError::EngineIsRunning => 0x83,
        UdsError::EngineIsNotRunning => 0x84,
        UdsError::EngineRunTimeTooLow => 0x85,
        UdsError::TemperatureTooHigh => 0x86,
        UdsError::TemperatureTooLow => 0x87,
        UdsError::VehicleSpeedTooHigh => 0x88,
        UdsError::VehicleSpeedTooLow => 0x89,
        UdsError::ThrottleTooHigh => 0x8A,
        UdsError::ThrottleTooLow => 0x8B,
        UdsError::TransmissionRangeNotInNeutral => 0x8C,
        UdsError::TransmissionRangeNotInGear => 0x8D,
        UdsError::BrakeSwitchNotClosed => 0x8F,
        UdsError::ShifterLeverNotInPark => 0x90,
        UdsError::TorqueConverterClutchLocked => 0x91,
        UdsError::VoltageTooHigh => 0x92,
        UdsError::VoltageTooLow => 0x93,
    }
}

/// Whether a byte is a negative-response code this client recognises.
pub open spec fn is_known_nrc(b: u8) -> bool {
    b == 0x10 || b == 0x11 || b == 0x12 || b == 0x13 || b == 0x14 || b == 0x21 || b == 0x22 || b == 0x24 || b == 0x25 || b == 0x26 || b == 0x31 || b == 0x33 || b == 0x35 || b == 0x36 || b == 0x37 || b == 0x70 || b == 0x71 || b == 0x72 || b == 0x73 || b == 0x78 || b == 0x7E || b == 0x7F || b == 0x81 || b == 0x82 || b == 0x83 || b == 0x84 || b == 0x85 || b == 0x86 || b == 0x87 || b == 0x88 || b == 0x89 || b == 0x8A || b == 0x8B || b == 0x8C || b == 0x8D || b == 0x8F || b == 0x90 || b == 0x91 || b == 0x92 || b == 0x93
}

impl UdsError {
    /// The wire byte of this negative-response code.
    pub fn to_byte(&self) -> (r: u8)
        ensures
            r == nrc_byte(*self),
    {
        match *self {
            UdsError::GeneralReject => 0x10,
            UdsError::ServiceNotSupported => 0x11,
            UdsError::SubFunctionNotSupported => 0x12,
            UdsError::IncorrectMessageLengthOrInvalidFormat => 0x13,
            UdsError::ResponseTooLong => 0x14,
            UdsError::BusyRepeatRequest => 0x21,
            UdsError::ConditionsNotCorrect => 0x22,
            UdsError::RequestSequenceError => 0x24,
            UdsError::NoResponseFromSubnetComponent => 0x25,
            UdsError::FailurePreventsExecutionOfRequestedAction => 0x26,
            UdsError::RequestOutOfRange => 0x31,
            UdsError::SecurityAccessDenied => 0x33,
            UdsError::InvalidKey => 0x35,
            UdsError::ExceedNumberOfAttempts => 0x36,
            UdsError::RequiredTimeDelayNotExpired => 0x37,
            UdsError::UploadDownloadNotAccepted => 0x70,
            UdsError::TransferDataSuspended => 0x71,
            UdsError::GeneralProgrammingFailure => 0x72,
            UdsError::WrongBlockSequenceCounter => 0x73,
            UdsError::RequestCorrectlyReceivedResponsePending => 0x78,
            UdsError::SubFunctionNotSupportedInActiveSession => 0x7E,
            UdsError::ServiceNotSupportedInActiveSession => 0x7F,
            UdsError::RpmTooHigh => 0x81,
            UdsError::RpmTooLow => 0x82,
            UdsError::EngineIsRunning => 0x83,
            UdsError::EngineIsNotRunning => 0x84,
            UdsError::EngineRunTimeTooLow => 0x85,
            UdsError::TemperatureTooHigh => 0x86,
            UdsError::TemperatureTooLow => 0x87,
            UdsError::VehicleSpeedTooHigh => 0x88,
            UdsError::VehicleSpeedTooLow => 0x89,
            UdsError::ThrottleTooHigh => 0x8A,
            UdsError::ThrottleTooLow => 0x8B,
            UdsError::TransmissionRangeNotInNeutral => 0x8C,
            UdsError::TransmissionRangeNotInGear => 0x8D,
            UdsError::BrakeSwitchNotClosed => 0x8F,
            UdsError::ShifterLeverNotInPark => 0x90,
            UdsError::TorqueConverterClutchLocked => 0x91,
            UdsError::VoltageTooHigh => 0x92,
            UdsError::VoltageTooLow => 0x93,
        }
    }

    /// Decodes a negative-response byte; unknown bytes yield nothing.
    pub fn from_u8(value: u8) -> (r: Option<UdsError>)
        ensures
            r is Some <==> is_known_nrc(value),
            r matches Some(e) ==> nrc_byte(e) == value,
    {
        match value {
            0x10 => Some(UdsError::GeneralReject),
            0x11 => Some(UdsError::ServiceNotSupported),
            0x12 => Some(UdsError::SubFunctionNotSupported),
            0x13 => Some(UdsError::IncorrectMessageLengthOrInvalidFormat),
            0x14 => Some(UdsError::ResponseTooLong),
            0x21 => Some(UdsError::BusyRepeatRequest),
            0x22 => Some(UdsError::ConditionsNotCorrect),
            0x24 => Some(UdsError::RequestSequenceError),
            0x25 => Some(UdsError::NoResponseFromSubnetComponent),
            0x26 => Some(UdsError::FailurePreventsExecutionOfRequestedAction),
            0x31 => Some(UdsError::RequestOutOfRange),
            0x33 => Some(UdsError::SecurityAccessDenied),
            0x35 => Some(UdsError::InvalidKey),
            0x36 => Some(UdsError::ExceedNumberOfAttempts),
            0x37 => Some(UdsError::RequiredTimeDelayNotExpired),
            0x70 => Some(UdsError::UploadDownloadNotAccepted),
            0x71 => Some(UdsError::TransferDataSuspended),
            0x72 => Some(UdsError::GeneralProgrammingFailure),
            0x73 => Some(UdsError::WrongBlockSequenceCounter),
            0x78 => Some(UdsError::RequestCorrectlyReceivedResponsePending),
            0x7E => Some(UdsError::SubFunctionNotSupportedInActiveSession),
            0x7F => Some(UdsError::ServiceNotSupportedInActiveSession),
            0x81 => Some(UdsError::RpmTooHigh),
            0x82 => Some(UdsError::RpmTooLow),
            0x83 => Some(UdsError::EngineIsRunning),
            0x84 => Some(UdsError::EngineIsNotRunning),
            0x85 => Some(UdsError::EngineRunTimeTooLow),
            0x86 => Some(UdsError::TemperatureTooHigh),
            0x87 => Some(UdsError::TemperatureTooLow),
            0x88 => Some(UdsError::VehicleSpeedTooHigh),
            0x89 => Some(UdsError::VehicleSpeedTooLow),
            0x8A => Some(UdsError::ThrottleTooHigh),
            0x8B => Some(UdsError::ThrottleTooLow),
            0x8C => Some(UdsError::TransmissionRangeNotInNeutral),
            0x8D => Some(UdsError::TransmissionRangeNotInGear),
            0x8F => Some(UdsError::BrakeSwitchNotClosed),
            0x90 => Some(UdsError::ShifterLeverNotInPark),
            0x91 => Some(UdsError::TorqueConverterClutchLocked),
            0x92 => Some(UdsError::VoltageTooHigh),
            0x93 => Some(UdsError::VoltageTooLow),
            _ => None,
        }
    }
}


/// Client-side failures of the diagnostic layer.
#[derive(Debug, Clone, Copy, PartialEq, Eq, Structural)]
pub enum UdsClientError {
    /// The ECU answered with a negative-response code.
    NegativeResponse(u8),
    /// The reply's first byte matched no outcome of the request.
    WrongResponseSid,
    /// The reply had the wrong length for the requested data.
    InvalidResponseLength,
    /// The ECU did not answer at all.
    EmptyResponse,
    /// A parameter handed to the client was invalid.
    ParameterInvalid,
    /// The client does not support the request.
    NotSupported,
    /// The feature is recognised but not implemented.
    NotImplemented,
    /// The transport layer failed underneath the request.
    Transport(crate::isotp::IsoTpError),
}

/// How a raw reply relates to the request it answers.
#[derive(Debug, Clone, Copy, PartialEq, Eq, Structural)]
pub enum ReplyClass {
    /// The first byte echoes the service identifier plus 0x40.
    Positive,
    /// A well-formed negative reply; carries the negative-response code.
    Negative(u8),
    /// No bytes came back.
    Empty,
    /// The reply matches neither a positive nor a negative answer to
    /// this request.
    Unexpected,
}

/// Whether a reply is the positive answer to a service: its first byte
/// equals the service identifier plus 0x40.
pub open spec fn is_positive_reply(sid: u8, resp: Seq<u8>) -> bool {
    resp.len() > 0 && resp[0] == sid + 0x40
}

/// Whether a reply is a well-formed negative answer to a service:
/// 0x7F, the echoed service identifier, then the negative-response
/// code.
pub open spec fn is_negative_reply(sid: u8, resp: Seq<u8>) -> bool {
    resp.len() >= 3 && resp[0] == 0x7F && resp[1] == sid
}

/// Classifies an ECU reply against the service identifier that was
/// requested. `sid` holds the request bytes beginning with the service
/// identifier; `resp` is the reply. A reply is positive exactly when
/// its first byte is the service identifier plus 0x40.
pub fn process_ecu_response(sid: &[u8], resp: &[u8]) -> (r: ReplyClass)
    requires
        sid@.len() >= 1,
        sid@[0] <= 0xBF,
    ensures
        r is Positive <==> is_positive_reply(sid@[0], resp@),
        resp@.len() == 0 <==> r is Empty,
        r matches ReplyClass::Negative(nrc) ==> is_negative_reply(sid@[0], resp@) && nrc
            == resp@[2],
        !is_positive_reply(sid@[0], resp@) && is_negative_reply(sid@[0], resp@) ==> r
            == ReplyClass::Negative(resp@[2]),
{
    if resp.len() == 0 {
        return ReplyClass::Empty;
    }
    if resp[0] == sid[0] + 0x40 {
        ReplyClass::Positive
    } else if resp.len() >= 3 && resp[0] == 0x7F && resp[1] == sid[0] {
        ReplyClass::Negative(resp[2])
    } else {
        ReplyClass::Unexpected
    }
}

/// Every positive reply's first byte equals the service identifier
/// plus 0x40; a reply whose first byte differs is never classified
/// positive.
pub proof fn lemma_positive_reply_first_byte(sid: u8, resp: Seq<u8>)
    requires
        is_positive_reply(sid, resp),
    ensures
        resp[0] == sid + 0x40,
{
}

} // verus!
