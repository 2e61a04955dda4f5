//! The closed error taxonomy shared by every operation of the layer, and its
//! stable numeric encoding.
use vstd::prelude::*;

verus! {

/// Raw status word exchanged with driver entry points: zero for success,
/// a negative code for a failure.
pub type HalStatus = i32;

/// Outcome codes of the layer; `Success` is the code of a call that succeeded.
#[derive(Debug, Clone, Copy, PartialEq, Eq, Structural)]
pub enum HalError {
    Success,
    InvalidArg,
    NotSupported,
    DeviceBusy,
    NoMemory,
    Timeout,
    DeviceFailed,
    PermissionDenied,
}

/// Result of an operation of the layer.
pub type HalResult<T> = core::result::Result<T, HalError>;

/// The status word that stands for an error.
pub open spec fn status_of(e: HalError) -> HalStatus {
    match e {
        HalError::Success => 0i32,
        HalError::InvalidArg => -1i32,
        HalError::NotSupported => -2i32,
        HalError::DeviceBusy => -3i32,
        HalError::NoMemory => -4i32,
        HalError::Timeout => -5i32,
        HalError::DeviceFailed => -6i32,
        HalError::PermissionDenied => -7i32,
    }
}

/// The error that a status word stands for; a word outside the taxonomy
/// reads as a device failure.
pub open spec fn error_of(status: HalStatus) -> HalError {
    if status == 0 {
        HalError::Success
    } else if status == -1 {
        HalError::InvalidArg
    } else if status == -2 {
        HalError::NotSupported
    } else if status == -3 {
        HalError::DeviceBusy
    } else if status == -4 {
        HalError::NoMemory
    } else if status == -5 {
        HalError::Timeout
    } else if status == -7 {
        HalError::PermissionDenied
    } else {
        HalError::DeviceFailed
    }
}

impl From<HalStatus> for HalError {
    fn from(status: HalStatus) -> (r: HalError) {
        match status {
            0 => HalError::Success,
            -1 => HalError::InvalidArg,
            -2 => HalError::NotSupported,
            -3 => HalError::DeviceBusy,
            -4 => HalError::NoMemory,
            -5 => HalError::Timeout,
            -6 => HalError::DeviceFailed,
            -7 => HalError::PermissionDenied,
            _ => HalError::DeviceFailed,
        }
    }
}

impl vstd::std_specs::convert::FromSpecImpl<HalStatus> for HalError {
    open spec fn obeys_from_spec() -> bool {
        true
    }

    open spec fn from_spec(status: HalStatus) -> HalError {
        error_of(status)
    }
}

impl From<HalError> for HalStatus {
    fn from(e: HalError) -> (r: HalStatus) {
        match e {
            HalError::Success => 0,
            HalError::InvalidArg => -1,
            HalError::NotSupported => -2,
            HalError::DeviceBusy => -3,
            HalError::NoMemory => -4,
            HalError::Timeout => -5,
            HalError::DeviceFailed => -6,
            HalError::PermissionDenied => -7,
        }
    }
}

impl vstd::std_specs::convert::FromSpecImpl<HalError> for HalStatus {
    open spec fn obeys_from_spec() -> bool {
        true
    }

    open spec fn from_spec(e: HalError) -> HalStatus {
        status_of(e)
    }
}

impl HalError {
    /// Human-readable description of the code.
    pub fn message(&self) -> (r: &'static str)
        ensures
            r@ == message_of(*self),
    {
        match self {
            HalError::Success => "Success",
            HalError::InvalidArg => "Invalid argument",
            HalError::NotSupported => "Not supported",
            HalError::DeviceBusy => "Device busy",
            HalError::NoMemory => "Out of memory",
            HalError::Timeout => "Timeout",
            HalError::DeviceFailed => "Device failed",
            HalError::PermissionDenied => "Permission denied",
        }
    }
}

/// The description of each code.
pub open spec fn message_of(e: HalError) -> Seq<char> {
    match e {
        HalError::Success => "Success"@,
        HalError::InvalidArg => "Invalid argument"@,
        HalError::NotSupported => "Not supported"@,
        HalError::DeviceBusy => "Device busy"@,
        HalError::NoMemory => "Out of memory"@,
        HalError::Timeout => "Timeout"@,
        HalError::DeviceFailed => "Device failed"@,
        HalError::PermissionDenied => "Permission denied"@,
    }
}

/// Every code of the taxonomy survives the trip through its status word.
pub proof fn lemma_status_round_trip(e: HalError)
    ensures
        error_of(status_of(e)) == e,
{
}

} // verus!
