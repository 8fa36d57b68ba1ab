//! Status codes and the classification that separates internal defects from
//! ordinary, recoverable conditions.

use vstd::prelude::*;

verus! {

/// Lowest code of the invariant-violation range.
pub const INVARIANT_VIOLATION_MIN_CODE: u64 = 2000;

/// Highest code of the invariant-violation range.
pub const INVARIANT_VIOLATION_MAX_CODE: u64 = 2999;

/// Status reported when two registrations name the same native function; a
/// fault of the host configuration, classed as an invariant violation.
pub const DUPLICATE_NATIVE_FUNCTION: u64 = 2022;

/// The broad class a status code belongs to.
#[derive(Clone, Copy, Debug, PartialEq, Eq, Structural)]
pub enum StatusType {
    Validation,
    Verification,
    InvariantViolation,
    Deserialization,
    Execution,
    Unknown,
}

/// The class of a status code, decided by the range the code falls in.
pub open spec fn status_type_of(code: u64) -> StatusType {
    if code <= 999 {
        StatusType::Validation
    } else if code <= 1999 {
        StatusType::Verification
    } else if code <= 2999 {
        StatusType::InvariantViolation
    } else if code <= 3999 {
        StatusType::Deserialization
    } else if code <= 4999 {
        StatusType::Execution
    } else {
        StatusType::Unknown
    }
}

/// The class of a status code.
pub fn status_type(code: u64) -> (r: StatusType)
    ensures
        r == status_type_of(code),
{
    if code <= 999 {
        StatusType::Validation
    } else if code <= 1999 {
        StatusType::Verification
    } else if code <= INVARIANT_VIOLATION_MAX_CODE {
        StatusType::InvariantViolation
    } else if code <= 3999 {
        StatusType::Deserialization
    } else if code <= 4999 {
        StatusType::Execution
    } else {
        StatusType::Unknown
    }
}

/// An error raised below the level of a whole VM session, tagged with its
/// major status code.
#[derive(Clone, Copy, Debug, PartialEq, Eq, Structural)]
pub struct PartialVMError {
    pub major_status: u64,
}

/// Whether an error signals an internal consistency failure of the VM.
pub open spec fn is_invariant_violation(e: PartialVMError) -> bool {
    status_type_of(e.major_status) == StatusType::InvariantViolation
}

impl PartialVMError {
    /// An error with the given major status code.
    pub fn new(major_status: u64) -> (r: PartialVMError)
        ensures
            r.major_status == major_status,
    {
        PartialVMError { major_status }
    }

    /// The major status code.
    pub fn major_status(&self) -> (r: u64)
        ensures
            r == self.major_status,
    {
        self.major_status
    }

    /// Whether this error is an internal consistency failure, which must
    /// abort the whole execution rather than be handled locally.
    pub fn is_invariant_violation(&self) -> (r: bool)
        ensures
            r == is_invariant_violation(*self),
    {
        status_type(self.major_status) == StatusType::InvariantViolation
    }
}

} // verus!
