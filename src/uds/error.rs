//! Negative response codes and UDS error kinds.
use vstd::prelude::*;

verus! {

/// Negative response codes returned by an ECU, as defined in ISO 14229.
#[derive(Debug, Copy, Clone, PartialEq, Eq, Structural)]
pub enum NegativeResponseCode {
    GeneralReject,
    ServiceNotSupported,
    SubFunctionNotSupported,
    IncorrectMessageLengthOrInvalidFormat,
    ResponseTooLong,
    BusyRepeatRequest,
    ConditionsNotCorrect,
    RequestSequenceError,
    NoResponseFromSubnetComponent,
    FailurePreventsExecutionOfRequestedAction,
    RequestOutOfRange,
    SecurityAccessDenied,
    InvalidKey,
    ExeedNumberOfAttempts,
    RequiredTimeDelayNotExpired,
    UploadDownloadNotAccepted,
    TransferDataSuspended,
    GeneralProgrammingFailure,
    WrongBlockSequenceCounter,
    RequestCorrectlyReceivedResponsePending,
    SubFunctionNotSupportedInActiveSession,
    ServiceNotSupportedInActiveSession,
    NonStandard(u8),
}

/// The negative response code with this value; codes that the standard
/// does not define are `NonStandard`.
pub open spec fn nrc_of(val: u8) -> NegativeResponseCode {
    if val == 0x10 {
        NegativeResponseCode::GeneralReject
    } else if val == 0x11 {
        NegativeResponseCode::ServiceNotSupported
    } else if val == 0x12 {
        NegativeResponseCode::SubFunctionNotSupported
    } else if val == 0x13 {
        NegativeResponseCode::IncorrectMessageLengthOrInvalidFormat
    } else if val == 0x14 {
        NegativeResponseCode::ResponseTooLong
    } else if val == 0x21 {
        NegativeResponseCode::BusyRepeatRequest
    } else if val == 0x22 {
        NegativeResponseCode::ConditionsNotCorrect
    } else if val == 0x24 {
        NegativeResponseCode::RequestSequenceError
    } else if val == 0x25 {
        NegativeResponseCode::NoResponseFromSubnetComponent
    } else if val == 0x26 {
        NegativeResponseCode::FailurePreventsExecutionOfRequestedAction
    } else if val == 0x31 {
        NegativeResponseCode::RequestOutOfRange
    } else if val == 0x33 {
        NegativeResponseCode::SecurityAccessDenied
    } else if val == 0x35 {
        NegativeResponseCode::InvalidKey
    } else if val == 0x36 {
        NegativeResponseCode::ExeedNumberOfAttempts
    } else if val == 0x37 {
        NegativeResponseCode::RequiredTimeDelayNotExpired
    } else if val == 0x70 {
        NegativeResponseCode::UploadDownloadNotAccepted
    } else if val == 0x71 {
        NegativeResponseCode::TransferDataSuspended
    } else if val == 0x72 {
        NegativeResponseCode::GeneralProgrammingFailure
    } else if val == 0x73 {
        NegativeResponseCode::WrongBlockSequenceCounter
    } else if val == 0x78 {
        NegativeResponseCode::RequestCorrectlyReceivedResponsePending
    } else if val == 0x7e {
        NegativeResponseCode::SubFunctionNotSupportedInActiveSession
    } else if val == 0x7f {
        NegativeResponseCode::ServiceNotSupportedInActiveSession
    } else {
        NegativeResponseCode::NonStandard(val)
    }
}

impl From<u8> for NegativeResponseCode {
    fn from(val: u8) -> (r: NegativeResponseCode) {
        match val {
            0x10 => NegativeResponseCode::GeneralReject,
            0x11 => NegativeResponseCode::ServiceNotSupported,
            0x12 => NegativeResponseCode::SubFunctionNotSupported,
            0x13 => NegativeResponseCode::IncorrectMessageLengthOrInvalidFormat,
            0x14 => NegativeResponseCode::ResponseTooLong,
            0x21 => NegativeResponseCode::BusyRepeatRequest,
            0x22 => NegativeResponseCode::ConditionsNotCorrect,
            0x24 => NegativeResponseCode::RequestSequenceError,
            0x25 => NegativeResponseCode::NoResponseFromSubnetComponent,
            0x26 => NegativeResponseCode::FailurePreventsExecutionOfRequestedAction,
            0x31 => NegativeResponseCode::RequestOutOfRange,
            0x33 => NegativeResponseCode::SecurityAccessDenied,
            0x35 => NegativeResponseCode::InvalidKey,
            0x36 => NegativeResponseCode::ExeedNumberOfAttempts,
            0x37 => NegativeResponseCode::RequiredTimeDelayNotExpired,
            0x70 => NegativeResponseCode::UploadDownloadNotAccepted,
            0x71 => NegativeResponseCode::TransferDataSuspended,
            0x72 => NegativeResponseCode::GeneralProgrammingFailure,
            0x73 => NegativeResponseCode::WrongBlockSequenceCounter,
            0x78 => NegativeResponseCode::RequestCorrectlyReceivedResponsePending,
            0x7e => NegativeResponseCode::SubFunctionNotSupportedInActiveSession,
            0x7f => NegativeResponseCode::ServiceNotSupportedInActiveSession,
            _ => NegativeResponseCode::NonStandard(val),
        }
    }
}

impl vstd::std_specs::convert::FromSpecImpl<u8> for NegativeResponseCode {
    open spec fn obeys_from_spec() -> bool {
        true
    }

    open spec fn from_spec(val: u8) -> NegativeResponseCode {
        nrc_of(val)
    }
}

/// UDS error kinds.
#[derive(Debug, Copy, Clone, PartialEq, Eq, Structural)]
pub enum Error {
    InvalidServiceId(u8),
    InvalidSubFunction(u8),
    InvalidDataIdentifier(u16),
    InvalidRoutineIdentifier(u16),
    InvalidBlockSequenceCounter(u8),
    InvalidResponseLength,
    NegativeResponse(NegativeResponseCode),
}

} // verus!
