//! Driver status codes as a closed set of error kinds.

use vstd::prelude::*;

verus! {

/// The kinds of failure that the driver reports.
#[derive(Debug, Clone, Copy, PartialEq, Eq, Structural)]
pub enum PcanError {
    XmtFull,
    Overrun,
    BusLight,
    BusHeavy,
    BusPassive,
    BusOff,
    AnyBusErr,
    QrcvEmpty,
    QOverrun,
    QxmtFull,
    RegTest,
    NoDriver,
    HwInUse,
    NetInUse,
    IllHw,
    IllNet,
    IllClient,
    Resource,
    IllParamType,
    IllParamVal,
    Unknown,
    IllData,
    IllMode,
    Caution,
    Initialize,
    IllOperation,
}

/// A driver status: success, or one kind of failure.
#[derive(Debug, Clone, Copy, PartialEq, Eq, Structural)]
pub enum PcanOkError {
    Success,
    Failure(PcanError),
}

/// The status code of success.
pub const PCAN_ERROR_OK: u32 = 0x00000;

/// What a driver status code means. Codes that name no kind are `Unknown`.
pub open spec fn status_of(code: u32) -> PcanOkError {
    match code {
        0x00000 => PcanOkError::Success,
        0x00001 => PcanOkError::Failure(PcanError::XmtFull),
        0x00002 => PcanOkError::Failure(PcanError::Overrun),
        0x00004 => PcanOkError::Failure(PcanError::BusLight),
        0x00008 => PcanOkError::Failure(PcanError::BusHeavy),
        0x40000 => PcanOkError::Failure(PcanError::BusPassive),
        0x00010 => PcanOkError::Failure(PcanError::BusOff),
        0x4001C => PcanOkError::Failure(PcanError::AnyBusErr),
        0x00020 => PcanOkError::Failure(PcanError::QrcvEmpty),
        0x00040 => PcanOkError::Failure(PcanError::QOverrun),
        0x00080 => PcanOkError::Failure(PcanError::QxmtFull),
        0x00100 => PcanOkError::Failure(PcanError::RegTest),
        0x00200 => PcanOkError::Failure(PcanError::NoDriver),
        0x00400 => PcanOkError::Failure(PcanError::HwInUse),
        0x00800 => PcanOkError::Failure(PcanError::NetInUse),
        0x01400 => PcanOkError::Failure(PcanError::IllHw),
        0x01800 => PcanOkError::Failure(PcanError::IllNet),
        0x01C00 => PcanOkError::Failure(PcanError::IllClient),
        0x02000 => PcanOkError::Failure(PcanError::Resource),
        0x04000 => PcanOkError::Failure(PcanError::IllParamType),
        0x08000 => PcanOkError::Failure(PcanError::IllParamVal),
        0x20000 => PcanOkError::Failure(PcanError::IllData),
        0x80000 => PcanOkError::Failure(PcanError::IllMode),
        0x2000000 => PcanOkError::Failure(PcanError::Caution),
        0x4000000 => PcanOkError::Failure(PcanError::Initialize),
        0x8000000 => PcanOkError::Failure(PcanError::IllOperation),
        _ => PcanOkError::Failure(PcanError::Unknown),
    }
}

impl PcanOkError {
    /// Translates a driver status code.
    pub fn from_code(code: u32) -> (r: PcanOkError)
        ensures
            r == status_of(code),
    {
        match code {
            0x00000 => PcanOkError::Success,
            0x00001 => PcanOkError::Failure(PcanError::XmtFull),
            0x00002 => PcanOkError::Failure(PcanError::Overrun),
            0x00004 => PcanOkError::Failure(PcanError::BusLight),
            0x00008 => PcanOkError::Failure(PcanError::BusHeavy),
            0x40000 => PcanOkError::Failure(PcanError::BusPassive),
            0x00010 => PcanOkError::Failure(PcanError::BusOff),
            0x4001C => PcanOkError::Failure(PcanError::AnyBusErr),
            0x00020 => PcanOkError::Failure(PcanError::QrcvEmpty),
            0x00040 => PcanOkError::Failure(PcanError::QOverrun),
            0x00080 => PcanOkError::Failure(PcanError::QxmtFull),
            0x00100 => PcanOkError::Failure(PcanError::RegTest),
            0x00200 => PcanOkError::Failure(PcanError::NoDriver),
            0x00400 => PcanOkError::Failure(PcanError::HwInUse),
            0x00800 => PcanOkError::Failure(PcanError::NetInUse),
            0x01400 => PcanOkError::Failure(PcanError::IllHw),
            0x01800 => PcanOkError::Failure(PcanError::IllNet),
            0x01C00 => PcanOkError::Failure(PcanError::IllClient),
            0x02000 => PcanOkError::Failure(PcanError::Resource),
            0x04000 => PcanOkError::Failure(PcanError::IllParamType),
            0x08000 => PcanOkError::Failure(PcanError::IllParamVal),
            0x20000 => PcanOkError::Failure(PcanError::IllData),
            0x80000 => PcanOkError::Failure(PcanError::IllMode),
            0x2000000 => PcanOkError::Failure(PcanError::Caution),
            0x4000000 => PcanOkError::Failure(PcanError::Initialize),
            0x8000000 => PcanOkError::Failure(PcanError::IllOperation),
            _ => PcanOkError::Failure(PcanError::Unknown),
        }
    }

    /// The status as a `Result`: success, or the kind of failure.
    pub fn into_result(self) -> (r: Result<(), PcanError>)
        ensures
            r is Ok <==> self is Success,
            self is Failure ==> r == Err::<(), PcanError>(self->Failure_0),
    {
        match self {
            PcanOkError::Success => Ok(()),
            PcanOkError::Failure(e) => Err(e),
        }
    }
}

/// Only the success code means success; every other code is one error kind.
pub proof fn lemma_status_total(code: u32)
    ensures
        status_of(code) is Success <==> code == PCAN_ERROR_OK,
{
}

} // verus!
