//! Errors of the card host layer.

use vstd::prelude::*;

verus! {

/// Error of a card or host operation.
#[derive(Debug, Clone, Copy, PartialEq, Eq, Structural)]
pub enum MCIHostError {
    Fail,
    ReadOnly,
    OutOfRange,
    InvalidArgument,
    Timeout,
    NoTransferInProgress,
    Busy,
    NoData,
    NotSupportYet,
    TransferFailed,
    SetCardBlockSizeFailed,
    HostNotSupport,
    CardNotSupport,
    AllSendCidFailed,
    SendRelativeAddressFailed,
    SendCsdFailed,
    SelectCardFailed,
    SendScrFailed,
    SetDataBusWidthFailed,
    GoIdleFailed,
    HandShakeOperationConditionFailed,
    SendApplicationCommandFailed,
    SwitchFailed,
    StopTransmissionFailed,
    WaitWriteCompleteFailed,
    SetBlockCountFailed,
    SetRelativeAddressFailed,
    SwitchBusTimingFailed,
    SendExtendedCsdFailed,
    ConfigureBootFailed,
    ConfigureExtendedCsdFailed,
    EnableHighCapacityEraseFailed,
    SendTestPatternFailed,
    ReceiveTestPatternFailed,
    SdioResponseError,
    SdioInvalidArgument,
    SdioSendOperationConditionFail,
    InvalidVoltage,
    SdioSwitchHighSpeedFail,
    SdioReadCISFail,
    SdioInvalidCard,
    TuningFail,
    SwitchVoltageFail,
    SwitchVoltage18VFail33VSuccess,
    ReTuningRequest,
    SetDriverStrengthFail,
    SetPowerClassFail,
    HostNotReady,
    CardDetectFailed,
    AuSizeNotSetProperly,
    PollingCardIdleFailed,
    DeselectCardFailed,
    CardStatusIdle,
    CardStatusBusy,
    CardInitFailed,
}

/// Outcome of a card or host operation.
pub type MCIHostStatus = Result<(), MCIHostError>;

/// The outcome is the error `e`.
pub fn is_error(r: &MCIHostStatus, e: MCIHostError) -> (b: bool)
    ensures
        b == (*r == Err::<(), MCIHostError>(e)),
{
    match r {
        Err(x) => *x == e,
        Ok(_) => false,
    }
}

} // verus!
