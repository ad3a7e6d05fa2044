//! Status-tagged results of native calls and their translation.

use vstd::prelude::*;

verus! {

/// Outcome tag that the native reader attaches to every call.
///
/// The code `0` means success; every other code names a distinct category of
/// native exception.
#[derive(Clone, Copy, Debug, PartialEq, Eq, Structural)]
pub struct Status(pub u32);

impl Status {
    /// The one status that means success.
    pub open spec fn spec_ok() -> Status {
        Status(0)
    }

    /// The one status that means success.
    #[verifier::when_used_as_spec(spec_ok)]
    pub fn ok() -> (r: Status)
        ensures
            r == Status::spec_ok(),
    {
        Status(0)
    }

    /// Whether this status is the success status.
    pub open spec fn spec_is_ok(self) -> bool {
        self.0 == 0
    }

    /// Whether this status is the success status.
    #[verifier::when_used_as_spec(spec_is_ok)]
    pub fn is_ok(self) -> (r: bool)
        ensures
            r == self.spec_is_ok(),
            r == (self == Status::spec_ok()),
    {
        self.0 == 0
    }
}

/// What a native call hands back: a status and, alongside it, a payload slot.
///
/// The payload is meaningful only when the status is success.
#[derive(Debug)]
pub struct StatusResult<T> {
    pub status: Status,
    pub res: T,
}

/// Result of a native call without payload.
pub type VoidResult = StatusResult<()>;

/// Result of a native call that yields a boolean.
pub type BoolResult = StatusResult<bool>;

/// Result of a native call that yields an 8-bit integer.
pub type CharResult = StatusResult<i8>;

/// Result of a native call that yields a 16-bit integer.
pub type ShortResult = StatusResult<i16>;

/// Result of a native call that yields a 32-bit integer.
pub type IntResult = StatusResult<i32>;

/// Result of a native call that yields a 64-bit float, held as its IEEE 754
/// bit pattern so that the payload passes through bit for bit.
pub type DoubleResult = StatusResult<u64>;

impl<T> StatusResult<T> {
    /// The outcome that a caller may observe: the payload on success, the
    /// status otherwise. The payload slot of a failed call is never exposed.
    pub open spec fn outcome(self) -> Result<T, Status> {
        if self.status.spec_is_ok() {
            Ok(self.res)
        } else {
            Err(self.status)
        }
    }

    /// Translates the result into a payload or a typed failure.
    pub fn translate(self) -> (r: Result<T, Status>)
        ensures
            r == self.outcome(),
            self.status.spec_is_ok() ==> r == Ok::<T, Status>(self.res),
            !self.status.spec_is_ok() ==> r == Err::<T, Status>(self.status),
    {
        if self.status.is_ok() {
            Ok(self.res)
        } else {
            Err(self.status)
        }
    }

    /// Unwraps the payload of a successful call, unchanged.
    pub fn into_value(self) -> (r: T)
        requires
            self.status.spec_is_ok(),
        ensures
            r == self.res,
    {
        self.res
    }
}

/// A failed call never looks like a successful one: whatever the payload
/// slots hold, the outcome of a result with a non-success status differs from
/// the outcome of every result with the success status.
pub proof fn failure_is_distinguishable<T>(failed: StatusResult<T>, succeeded: StatusResult<T>)
    requires
        !failed.status.spec_is_ok(),
        succeeded.status.spec_is_ok(),
    ensures
        failed.outcome() is Err,
        succeeded.outcome() == Ok::<T, Status>(succeeded.res),
        failed.outcome() != succeeded.outcome(),
{
}

/// The outcome of a failed call does not depend on its payload slot.
pub proof fn failure_hides_payload<T>(first: StatusResult<T>, second: StatusResult<T>)
    requires
        !first.status.spec_is_ok(),
        first.status == second.status,
    ensures
        first.outcome() == second.outcome(),
{
}

} // verus!
