//! The status algebra.
//!
//! Every fallible accessor of a shared handle reports through
//! `FlagRefOption`: success carries the requested value, and the three
//! failure variants tell apart a borrow conflict, an unbound handle, and an
//! operation whose precondition on the logical flag was not met.

use vstd::pervasive::unreached;
use vstd::prelude::*;

verus! {

/// The tagged result of a fallible handle operation.
#[derive(Debug)]
pub enum FlagRefOption<T> {
    /// The operation succeeded and produced a value.
    Success(T),
    /// The runtime borrow discipline rejected the request.
    Conflict,
    /// The handle is unbound: it points at no block.
    Empty,
    /// The operation's precondition on the logical flag was not met.
    Disabled,
}

impl<T> FlagRefOption<T> {
    /// The plain optional this status stands for: success carries the
    /// value, every failure is absent.
    pub open spec fn as_option(self) -> Option<T> {
        match self {
            FlagRefOption::Success(v) => Some(v),
            _ => None,
        }
    }

    /// Unwraps a successful status.
    pub fn unwrap(self) -> (r: T)
        requires
            self is Success,
        ensures
            self matches FlagRefOption::Success(v) && r == v,
    {
        match self {
            FlagRefOption::Success(v) => v,
            _ => unreached(),
        }
    }

    /// Converts the status to a plain `Option`: success becomes present,
    /// every failure becomes absent.
    pub fn into_option(self) -> (r: Option<T>)
        ensures
            r == self.as_option(),
    {
        match self {
            FlagRefOption::Success(v) => Some(v),
            _ => None,
        }
    }

    /// Applies `f` to the carried value of a successful status; a failure
    /// keeps its variant.
    pub fn map<U, F: FnOnce(T) -> U>(self, f: F) -> (r: FlagRefOption<U>)
        requires
            self matches FlagRefOption::Success(v) ==> f.requires((v,)),
        ensures
            self matches FlagRefOption::Success(v) ==> (r matches FlagRefOption::Success(u)
                && f.ensures((v,), u)),
            self is Conflict ==> r is Conflict,
            self is Empty ==> r is Empty,
            self is Disabled ==> r is Disabled,
    {
        match self {
            FlagRefOption::Success(v) => FlagRefOption::Success(f(v)),
            FlagRefOption::Conflict => FlagRefOption::Conflict,
            FlagRefOption::Empty => FlagRefOption::Empty,
            FlagRefOption::Disabled => FlagRefOption::Disabled,
        }
    }

    /// Turns the result of a runtime borrow attempt into a status: a granted
    /// borrow is success, a refused one is a conflict.
    pub(crate) fn from_borrow(opt: Option<T>) -> (r: Self)
        ensures
            opt matches Some(v) ==> r == FlagRefOption::Success(v),
            opt is None ==> r is Conflict,
    {
        match opt {
            Some(v) => FlagRefOption::Success(v),
            None => FlagRefOption::Conflict,
        }
    }
}

} // verus!
