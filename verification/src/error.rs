//! Status codes of the host kernel and the error type built on them.
//!
//! The host reports the outcome of every operation as a 32-bit status code.
//! Zero is success; every other code that this library hands out is a failure.
//! An [`Error`] is exactly one such code: the named constructors below cover the
//! codes the library itself produces, and [`Error::from_ntstatus`] carries any
//! other code through unchanged.

use vstd::prelude::*;

verus! {

/// A status code of the host kernel.
pub type NTSTATUS = i32;

/// The operation succeeded.
pub const STATUS_SUCCESS: NTSTATUS = 0;
/// The host's code for: a guard page was touched.
pub const STATUS_GUARD_PAGE_VIOLATION: NTSTATUS = -2147483647;
/// The host's code for: a misaligned access was made.
pub const STATUS_DATATYPE_MISALIGNMENT: NTSTATUS = -2147483646;
/// The host's code for: a breakpoint was reached.
pub const STATUS_BREAKPOINT: NTSTATUS = -2147483645;
/// The host's code for: a single step completed.
pub const STATUS_SINGLE_STEP: NTSTATUS = -2147483644;
/// The host's code for: a frame consolidation was executed.
pub const STATUS_UNWIND_CONSOLIDATE: NTSTATUS = -2147483607;
/// The host's code for: the operation failed for no more specific reason.
pub const STATUS_UNSUCCESSFUL: NTSTATUS = -1073741823;
/// The host's code for: the operation is not implemented.
pub const STATUS_NOT_IMPLEMENTED: NTSTATUS = -1073741822;
/// The host's code for: memory was accessed that may not be accessed.
pub const STATUS_ACCESS_VIOLATION: NTSTATUS = -1073741819;
/// The host's code for: a page could not be brought in.
pub const STATUS_IN_PAGE_ERROR: NTSTATUS = -1073741818;
/// The host's code for: a handle is not valid.
pub const STATUS_INVALID_HANDLE: NTSTATUS = -1073741816;
/// The host's code for: an argument is not valid.
pub const STATUS_INVALID_PARAMETER: NTSTATUS = -1073741811;
/// The host's code for: the end of the file was reached.
pub const STATUS_END_OF_FILE: NTSTATUS = -1073741807;
/// The host's code for: not enough memory is available.
pub const STATUS_NO_MEMORY: NTSTATUS = -1073741801;
/// The host's code for: an illegal instruction was executed.
pub const STATUS_ILLEGAL_INSTRUCTION: NTSTATUS = -1073741795;
/// The host's code for: execution cannot continue after an exception.
pub const STATUS_NONCONTINUABLE_EXCEPTION: NTSTATUS = -1073741787;
/// The host's code for: an exception handler returned an invalid disposition.
pub const STATUS_INVALID_DISPOSITION: NTSTATUS = -1073741786;
/// The host's code for: an array index is out of bounds.
pub const STATUS_ARRAY_BOUNDS_EXCEEDED: NTSTATUS = -1073741684;
/// The host's code for: an operand is denormal.
pub const STATUS_FLOAT_DENORMAL_OPERAND: NTSTATUS = -1073741683;
/// The host's code for: a real number was divided by zero.
pub const STATUS_FLOAT_DIVIDE_BY_ZERO: NTSTATUS = -1073741682;
/// The host's code for: a result cannot be represented exactly.
pub const STATUS_FLOAT_INEXACT_RESULT: NTSTATUS = -1073741681;
/// The host's code for: an arithmetic operation on real numbers is invalid.
pub const STATUS_FLOAT_INVALID_OPERATION: NTSTATUS = -1073741680;
/// The host's code for: an exponent is too large.
pub const STATUS_FLOAT_OVERFLOW: NTSTATUS = -1073741679;
/// The host's code for: the arithmetic register stack over- or underflowed.
pub const STATUS_FLOAT_STACK_CHECK: NTSTATUS = -1073741678;
/// The host's code for: an exponent is too small.
pub const STATUS_FLOAT_UNDERFLOW: NTSTATUS = -1073741677;
/// The host's code for: an integer was divided by zero.
pub const STATUS_INTEGER_DIVIDE_BY_ZERO: NTSTATUS = -1073741676;
/// The host's code for: an integer operation overflowed.
pub const STATUS_INTEGER_OVERFLOW: NTSTATUS = -1073741675;
/// The host's code for: a privileged instruction was executed.
pub const STATUS_PRIVILEGED_INSTRUCTION: NTSTATUS = -1073741674;
/// The host's code for: the system lacks the resources for the operation.
pub const STATUS_INSUFFICIENT_RESOURCES: NTSTATUS = -1073741670;
/// The host's code for: a buffer handed in by the caller is not usable.
pub const STATUS_INVALID_USER_BUFFER: NTSTATUS = -1073741592;
/// The host's code for: the stack overflowed.
pub const STATUS_STACK_OVERFLOW: NTSTATUS = -1073741571;

/// A failure, identified by the host's status code for it.
///
/// The library never builds an `Error` that holds [`STATUS_SUCCESS`], but the
/// type does not forbid it: [`Error::from_ntstatus`] passes every code through.
#[derive(Clone, Copy, Debug, PartialEq, Eq, Structural)]
pub struct Error(pub NTSTATUS);

impl Error {
    /// The error for: a guard page was touched.
    pub fn guard_page_violation() -> (e: Error)
        ensures
            e == Error(STATUS_GUARD_PAGE_VIOLATION),
    {
        Error(STATUS_GUARD_PAGE_VIOLATION)
    }

    /// The error for: a misaligned access was made.
    pub fn datatype_misalignment() -> (e: Error)
        ensures
            e == Error(STATUS_DATATYPE_MISALIGNMENT),
    {
        Error(STATUS_DATATYPE_MISALIGNMENT)
    }

    /// The error for: a breakpoint was reached.
    pub fn breakpoint() -> (e: Error)
        ensures
            e == Error(STATUS_BREAKPOINT),
    {
        Error(STATUS_BREAKPOINT)
    }

    /// The error for: a single step completed.
    pub fn single_step() -> (e: Error)
        ensures
            e == Error(STATUS_SINGLE_STEP),
    {
        Error(STATUS_SINGLE_STEP)
    }

    /// The error for: a frame consolidation was executed.
    pub fn unwind_consolidate() -> (e: Error)
        ensures
            e == Error(STATUS_UNWIND_CONSOLIDATE),
    {
        Error(STATUS_UNWIND_CONSOLIDATE)
    }

    /// The error for: the operation failed for no more specific reason.
    pub fn unsuccessful() -> (e: Error)
        ensures
            e == Error(STATUS_UNSUCCESSFUL),
    {
        Error(STATUS_UNSUCCESSFUL)
    }

    /// The error for: the operation is not implemented.
    pub fn not_implemented() -> (e: Error)
        ensures
            e == Error(STATUS_NOT_IMPLEMENTED),
    {
        Error(STATUS_NOT_IMPLEMENTED)
    }

    /// The error for: memory was accessed that may not be accessed.
    pub fn access_violation() -> (e: Error)
        ensures
            e == Error(STATUS_ACCESS_VIOLATION),
    {
        Error(STATUS_ACCESS_VIOLATION)
    }

    /// The error for: a page could not be brought in.
    pub fn in_page_error() -> (e: Error)
        ensures
            e == Error(STATUS_IN_PAGE_ERROR),
    {
        Error(STATUS_IN_PAGE_ERROR)
    }

    /// The error for: a handle is not valid.
    pub fn invalid_handle() -> (e: Error)
        ensures
            e == Error(STATUS_INVALID_HANDLE),
    {
        Error(STATUS_INVALID_HANDLE)
    }

    /// The error for: an argument is not valid.
    pub fn invalid_parameter() -> (e: Error)
        ensures
            e == Error(STATUS_INVALID_PARAMETER),
    {
        Error(STATUS_INVALID_PARAMETER)
    }

    /// The error for: the end of the file was reached.
    pub fn end_of_file() -> (e: Error)
        ensures
            e == Error(STATUS_END_OF_FILE),
    {
        Error(STATUS_END_OF_FILE)
    }

    /// The error for: not enough memory is available.
    pub fn no_memory() -> (e: Error)
        ensures
            e == Error(STATUS_NO_MEMORY),
    {
        Error(STATUS_NO_MEMORY)
    }

    /// The error for: an illegal instruction was executed.
    pub fn illegal_instruction() -> (e: Error)
        ensures
            e == Error(STATUS_ILLEGAL_INSTRUCTION),
    {
        Error(STATUS_ILLEGAL_INSTRUCTION)
    }

    /// The error for: execution cannot continue after an exception.
    pub fn noncontinuable_exception() -> (e: Error)
        ensures
            e == Error(STATUS_NONCONTINUABLE_EXCEPTION),
    {
        Error(STATUS_NONCONTINUABLE_EXCEPTION)
    }

    /// The error for: an exception handler returned an invalid disposition.
    pub fn invalid_disposition() -> (e: Error)
        ensures
            e == Error(STATUS_INVALID_DISPOSITION),
    {
        Error(STATUS_INVALID_DISPOSITION)
    }

    /// The error for: an array index is out of bounds.
    pub fn array_bounds_exceeded() -> (e: Error)
        ensures
            e == Error(STATUS_ARRAY_BOUNDS_EXCEEDED),
    {
        Error(STATUS_ARRAY_BOUNDS_EXCEEDED)
    }

    /// The error for: an operand is denormal.
    pub fn float_denormal_operand() -> (e: Error)
        ensures
            e == Error(STATUS_FLOAT_DENORMAL_OPERAND),
    {
        Error(STATUS_FLOAT_DENORMAL_OPERAND)
    }

    /// The error for: a real number was divided by zero.
    pub fn float_divide_by_zero() -> (e: Error)
        ensures
            e == Error(STATUS_FLOAT_DIVIDE_BY_ZERO),
    {
        Error(STATUS_FLOAT_DIVIDE_BY_ZERO)
    }

    /// The error for: a result cannot be represented exactly.
    pub fn float_inexact_result() -> (e: Error)
        ensures
            e == Error(STATUS_FLOAT_INEXACT_RESULT),
    {
        Error(STATUS_FLOAT_INEXACT_RESULT)
    }

    /// The error for: an arithmetic operation on real numbers is invalid.
    pub fn float_invalid_operation() -> (e: Error)
        ensures
            e == Error(STATUS_FLOAT_INVALID_OPERATION),
    {
        Error(STATUS_FLOAT_INVALID_OPERATION)
    }

    /// The error for: an exponent is too large.
    pub fn float_overflow() -> (e: Error)
        ensures
            e == Error(STATUS_FLOAT_OVERFLOW),
    {
        Error(STATUS_FLOAT_OVERFLOW)
    }

    /// The error for: the arithmetic register stack over- or underflowed.
    pub fn float_stack_check() -> (e: Error)
        ensures
            e == Error(STATUS_FLOAT_STACK_CHECK),
    {
        Error(STATUS_FLOAT_STACK_CHECK)
    }

    /// The error for: an exponent is too small.
    pub fn float_underflow() -> (e: Error)
        ensures
            e == Error(STATUS_FLOAT_UNDERFLOW),
    {
        Error(STATUS_FLOAT_UNDERFLOW)
    }

    /// The error for: an integer was divided by zero.
    pub fn integer_divide_by_zero() -> (e: Error)
        ensures
            e == Error(STATUS_INTEGER_DIVIDE_BY_ZERO),
    {
        Error(STATUS_INTEGER_DIVIDE_BY_ZERO)
    }

    /// The error for: an integer operation overflowed.
    pub fn integer_overflow() -> (e: Error)
        ensures
            e == Error(STATUS_INTEGER_OVERFLOW),
    {
        Error(STATUS_INTEGER_OVERFLOW)
    }

    /// The error for: a privileged instruction was executed.
    pub fn privileged_instruction() -> (e: Error)
        ensures
            e == Error(STATUS_PRIVILEGED_INSTRUCTION),
    {
        Error(STATUS_PRIVILEGED_INSTRUCTION)
    }

    /// The error for: the system lacks the resources for the operation.
    pub fn insufficient_resources() -> (e: Error)
        ensures
            e == Error(STATUS_INSUFFICIENT_RESOURCES),
    {
        Error(STATUS_INSUFFICIENT_RESOURCES)
    }

    /// The error for: a buffer handed in by the caller is not usable.
    pub fn invalid_user_buffer() -> (e: Error)
        ensures
            e == Error(STATUS_INVALID_USER_BUFFER),
    {
        Error(STATUS_INVALID_USER_BUFFER)
    }

    /// The error for: the stack overflowed.
    pub fn stack_overflow() -> (e: Error)
        ensures
            e == Error(STATUS_STACK_OVERFLOW),
    {
        Error(STATUS_STACK_OVERFLOW)
    }

    /// Wraps a status code of the host, whatever it is.
    pub fn from_ntstatus(status: NTSTATUS) -> (e: Error)
        ensures
            e == Error(status),
    {
        Error(status)
    }

    /// The status code of the host that this error stands for.
    pub fn to_ntstatus(&self) -> (status: NTSTATUS)
        ensures
            status == self.0,
    {
        self.0
    }
}

/// What a status code says about the operation that returned it.
pub open spec fn status_result(status: NTSTATUS) -> Result<(), Error> {
    if status == STATUS_SUCCESS {
        Ok(())
    } else {
        Err(Error(status))
    }
}

/// Conversion of a raw outcome of the host into a `Result`.
pub trait IntoResult {
    fn into_result(self) -> Result<(), Error>;
}

impl IntoResult for NTSTATUS {
    /// Success for [`STATUS_SUCCESS`], and for every other code the error that
    /// carries it.
    fn into_result(self) -> (r: Result<(), Error>)
        ensures
            r == status_result(self),
    {
        if self == STATUS_SUCCESS {
            Ok(())
        } else {
            Err(Error::from_ntstatus(self))
        }
    }
}

} // verus!
