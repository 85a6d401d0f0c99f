//! Unwrapping a container under a reachability claim.
//!
//! Each operation takes the claim as its precondition. The branch for the
//! other variant ends in `unreached`, whose precondition no caller can meet,
//! so the verifier proves that branch dead at every call site. A caller
//! outside verification that breaks the claim gets a panic, never a made-up
//! value.

use vstd::prelude::*;

verus! {

/// Containers that may hold a value.
pub trait OptionExt {
    type Ok;

    /// The value held, or `None` for a container without one.
    spec fn held(self) -> Option<Self::Ok>;

    /// Takes the value out, claiming that the container holds one.
    ///
    /// Where the claim is left to the compiled build, it is a static
    /// reachability assertion: see [`crate::mode::BuildMode::static_assertion`].
    fn unwrap_static(self) -> (value: Self::Ok)
        requires
            self.held() is Some,
        ensures
            self.held() == Some(value),
    ;

    /// Takes the value out, claiming that the container holds one.
    ///
    /// Where the claim is left to the compiled build, it is an unchecked
    /// reachability hint: see [`crate::mode::BuildMode::unchecked_hint`].
    fn unwrap_unchecked(self) -> (value: Self::Ok)
        requires
            self.held() is Some,
        ensures
            self.held() == Some(value),
    ;
}

/// Containers that may hold an error.
pub trait ResultExt {
    type Err;

    /// The error held, or `None` for a container without one.
    spec fn held_err(self) -> Option<Self::Err>;

    /// Takes the error out, claiming that the container holds one.
    ///
    /// Where the claim is left to the compiled build, it is a static
    /// reachability assertion: see [`crate::mode::BuildMode::static_assertion`].
    fn unwrap_err_static(self) -> (error: Self::Err)
        requires
            self.held_err() is Some,
        ensures
            self.held_err() == Some(error),
    ;

    /// Takes the error out, claiming that the container holds one.
    ///
    /// Where the claim is left to the compiled build, it is an unchecked
    /// reachability hint: see [`crate::mode::BuildMode::unchecked_hint`].
    fn unwrap_err_unchecked(self) -> (error: Self::Err)
        requires
            self.held_err() is Some,
        ensures
            self.held_err() == Some(error),
    ;
}

impl<T> OptionExt for Option<T> {
    type Ok = T;

    open spec fn held(self) -> Option<T> {
        self
    }

    #[inline(always)]
    fn unwrap_static(self) -> (value: T)
        ensures
            self == Some(value),
    {
        match self {
            None => vstd::pervasive::unreached(),
            Some(v) => v,
        }
    }

    #[inline(always)]
    fn unwrap_unchecked(self) -> (value: T)
        ensures
            self == Some(value),
    {
        match self {
            None => vstd::pervasive::unreached(),
            Some(v) => v,
        }
    }
}

impl<T, E> OptionExt for Result<T, E> {
    type Ok = T;

    open spec fn held(self) -> Option<T> {
        match self {
            Ok(v) => Some(v),
            Err(_) => None,
        }
    }

    #[inline(always)]
    fn unwrap_static(self) -> (value: T)
        ensures
            self == Ok::<T, E>(value),
    {
        match self {
            Err(_) => vstd::pervasive::unreached(),
            Ok(v) => v,
        }
    }

    #[inline(always)]
    fn unwrap_unchecked(self) -> (value: T)
        ensures
            self == Ok::<T, E>(value),
    {
        match self {
            Err(_) => vstd::pervasive::unreached(),
            Ok(v) => v,
        }
    }
}

impl<T, E> ResultExt for Result<T, E> {
    type Err = E;

    open spec fn held_err(self) -> Option<E> {
        match self {
            Ok(_) => None,
            Err(e) => Some(e),
        }
    }

    #[inline(always)]
    fn unwrap_err_static(self) -> (error: E)
        ensures
            self == Err::<T, E>(error),
    {
        match self {
            Ok(_) => vstd::pervasive::unreached(),
            Err(e) => e,
        }
    }

    #[inline(always)]
    fn unwrap_err_unchecked(self) -> (error: E)
        ensures
            self == Err::<T, E>(error),
    {
        match self {
            Ok(_) => vstd::pervasive::unreached(),
            Err(e) => e,
        }
    }
}

} // verus!
