//! A slot that is filled at most once and read only after it was filled.

use vstd::prelude::*;

verus! {

/// Why a slot refused an operation.
#[derive(Clone, Copy, Debug, PartialEq, Eq, Structural)]
pub enum SingletonError {
    /// `set` was called on a slot that already holds a value.
    AlreadyInitialized,
    /// `get` was called on a slot that holds nothing yet.
    NotInitialized,
}

impl SingletonError {
    /// The message that goes with the error.
    pub fn message(&self) -> (text: &'static str)
        ensures
            text@ == match *self {
                SingletonError::AlreadyInitialized => "already initialized"@,
                SingletonError::NotInitialized => "not initialized"@,
            },
    {
        match self {
            SingletonError::AlreadyInitialized => "already initialized",
            SingletonError::NotInitialized => "not initialized",
        }
    }
}

/// A one-time-initialize-then-read slot for a long-lived shared resource.
///
/// Its view is `None` while empty and `Some(value)` once set; the only
/// transition is from the first to the second.
#[derive(Debug)]
pub struct GlobalSingleton<T> {
    slot: Option<T>,
}

impl<T> View for GlobalSingleton<T> {
    type V = Option<T>;

    closed spec fn view(&self) -> Option<T> {
        self.slot
    }
}

impl<T> GlobalSingleton<T> {
    /// An empty slot.
    pub fn new() -> (s: Self)
        ensures
            s@ is None,
    {
        GlobalSingleton { slot: None }
    }

    /// Whether the slot holds a value.
    pub fn is_set(&self) -> (b: bool)
        ensures
            b == (self@ is Some),
    {
        self.slot.is_some()
    }

    /// Fills an empty slot. A filled slot keeps its value and refuses.
    pub fn set(&mut self, value: T) -> (r: Result<(), SingletonError>)
        ensures
            final(self)@ == spec_set(old(self)@, value).0,
            r == spec_set(old(self)@, value).1,
    {
        if self.slot.is_some() {
            Err(SingletonError::AlreadyInitialized)
        } else {
            self.slot = Some(value);
            Ok(())
        }
    }

    /// The value, once one was set.
    pub fn get(&self) -> (r: Result<&T, SingletonError>)
        ensures
            match spec_get(self@) {
                Ok(value) => r == Ok::<&T, SingletonError>(&value),
                Err(e) => r == Err::<&T, SingletonError>(e),
            },
    {
        match &self.slot {
            Some(value) => Ok(value),
            None => Err(SingletonError::NotInitialized),
        }
    }
}

/// Setting a slot twice: the second call is refused with
/// `AlreadyInitialized`, and what the slot holds afterwards is the first
/// value, never the second.
pub proof fn law_second_set_is_refused<T>(first: T, second: T)
    ensures
        ({
            let after_first = spec_set::<T>(None, first);
            let after_second = spec_set::<T>(after_first.0, second);
            &&& after_first.1 is Ok
            &&& after_second.1 == Err::<(), SingletonError>(SingletonError::AlreadyInitialized)
            &&& spec_get(after_second.0) == Ok::<T, SingletonError>(first)
        }),
{
}

/// Reading a slot that was never set fails with `NotInitialized`.
pub proof fn law_get_before_set_fails<T>()
    ensures
        spec_get::<T>(None) == Err::<T, SingletonError>(SingletonError::NotInitialized),
{
}

/// What `set` does to a slot's view, and what it returns.
pub open spec fn spec_set<T>(slot: Option<T>, value: T) -> (Option<T>, Result<(), SingletonError>) {
    match slot {
        None => (Some(value), Ok(())),
        Some(_) => (slot, Err(SingletonError::AlreadyInitialized)),
    }
}

/// What `get` returns for a slot's view.
pub open spec fn spec_get<T>(slot: Option<T>) -> Result<T, SingletonError> {
    match slot {
        Some(value) => Ok(value),
        None => Err(SingletonError::NotInitialized),
    }
}

} // verus!
