//! The thread-affinity wrapper.
//!
//! A toolkit object may only be touched by the thread that created it, while
//! a combinator pipeline moves values to whatever thread it likes. The
//! wrapper tags a value with the thread that wrapped it. It can travel
//! freely; its payload is handed out to the owning thread only.
//!
//! Verified code cannot ask the operating system which thread is running, so
//! every operation that depends on it takes the identity of the calling
//! thread as an argument.

use vstd::pervasive::cloned;
use vstd::prelude::*;

verus! {

/// Identity of a thread.
#[derive(Debug, Clone, Copy, PartialEq, Eq, Structural, Hash)]
pub struct ThreadTag {
    pub id: u64,
}

/// A thread reached for a payload that another thread owns.
#[derive(Debug, Clone, Copy, PartialEq, Eq, Structural, Hash)]
pub struct InvalidThreadAccess {
    /// The thread that made the attempt.
    pub caller: ThreadTag,
    /// The thread that wrapped the value.
    pub owner: ThreadTag,
}

/// A value together with the identity of the thread that wrapped it.
#[derive(Debug)]
pub struct Fragile<T> {
    owner: ThreadTag,
    value: T,
}

/// What an access by `caller` to a payload `value` owned by `owner` yields.
pub open spec fn access<T>(owner: ThreadTag, value: T, caller: ThreadTag) -> Result<
    T,
    InvalidThreadAccess,
> {
    if caller == owner {
        Ok(value)
    } else {
        Err(InvalidThreadAccess { caller, owner })
    }
}

impl<T> Fragile<T> {
    /// The thread that wrapped the value.
    pub closed spec fn owner(&self) -> ThreadTag {
        self.owner
    }

    /// The wrapped value.
    pub closed spec fn payload(&self) -> T {
        self.value
    }

    /// Wraps `value` for the thread `current`, which is the calling thread.
    pub fn new(value: T, current: ThreadTag) -> (wrapped: Self)
        ensures
            wrapped.owner() == current,
            wrapped.payload() == value,
    {
        Fragile { owner: current, value }
    }

    /// The thread that wrapped the value. Any thread may ask.
    pub fn owner_tag(&self) -> (owner: ThreadTag)
        ensures
            owner == self.owner(),
    {
        self.owner
    }

    /// Whether `caller` is the thread that may reach the payload.
    pub fn is_valid(&self, caller: ThreadTag) -> (valid: bool)
        ensures
            valid == (caller == self.owner()),
    {
        caller.id == self.owner.id
    }

    /// The payload, for the owning thread.
    pub fn get(&self, caller: ThreadTag) -> (value: &T)
        requires
            caller == self.owner(),
        ensures
            *value == self.payload(),
    {
        &self.value
    }

    /// The payload if `caller` owns it, the violation otherwise.
    pub fn try_get(&self, caller: ThreadTag) -> (outcome: Result<&T, InvalidThreadAccess>)
        ensures
            match outcome {
                Ok(value) => access(self.owner(), self.payload(), caller) == Ok::<
                    T,
                    InvalidThreadAccess,
                >(*value),
                Err(violation) => access(self.owner(), self.payload(), caller) == Err::<
                    T,
                    InvalidThreadAccess,
                >(violation),
            },
    {
        if self.is_valid(caller) {
            Ok(&self.value)
        } else {
            Err(InvalidThreadAccess { caller, owner: self.owner })
        }
    }

    /// Unwraps the payload, for the owning thread.
    pub fn into_inner(self, caller: ThreadTag) -> (value: T)
        requires
            caller == self.owner(),
        ensures
            value == self.payload(),
    {
        self.value
    }

    /// Unwraps the payload if `caller` owns it, and hands the wrapper back
    /// untouched otherwise.
    pub fn try_into_inner(self, caller: ThreadTag) -> (outcome: Result<T, Self>)
        ensures
            match outcome {
                Ok(value) => caller == self.owner() && value == self.payload(),
                Err(wrapped) => caller != self.owner() && wrapped == self,
            },
    {
        if self.is_valid(caller) {
            Ok(self.value)
        } else {
            Err(self)
        }
    }
}

impl<T: Clone> Clone for Fragile<T> {
    /// The copy belongs to the same thread. Any thread may make one.
    fn clone(&self) -> (copy: Self)
        ensures
            copy.owner() == self.owner(),
            cloned(self.payload(), copy.payload()),
    {
        Fragile { owner: self.owner, value: self.value.clone() }
    }
}

/// Wraps a stream value for the thread `current`, which is the calling
/// thread.
pub fn wrap_fragile<T>(value: T, current: ThreadTag) -> (wrapped: Fragile<T>)
    ensures
        wrapped.owner() == current,
        wrapped.payload() == value,
{
    Fragile::new(value, current)
}

/// Takes a stream value out of its wrapper, on the owning thread.
pub fn unwrap_fragile<T>(wrapped: Fragile<T>, caller: ThreadTag) -> (value: T)
    requires
        caller == wrapped.owner(),
    ensures
        value == wrapped.payload(),
{
    wrapped.into_inner(caller)
}

/// A payload wrapped on one thread is handed out, equal to what was wrapped,
/// to that thread, and refused to every other thread.
pub proof fn law_only_the_owner_gets<T>(value: T, owner: ThreadTag, caller: ThreadTag)
    ensures
        caller == owner ==> access(owner, value, caller) == Ok::<T, InvalidThreadAccess>(value),
        caller != owner ==> access(owner, value, caller) is Err,
        caller != owner ==> access(owner, value, caller)->Err_0 == (InvalidThreadAccess {
            caller,
            owner,
        }),
{
}

} // verus!
