//! The platform app registry: a write-once slot for the platform-supplied
//! application context. The slot starts empty, the first write sticks for the
//! life of the registry, and every later write is ignored, so readers always
//! see the context the platform supplied first.

use vstd::prelude::*;

verus! {

/// What one write leaves in a write-once slot: the first write sticks, every
/// later write is ignored.
pub open spec fn set_once<T>(slot: Option<T>, value: T) -> Option<T> {
    if slot is None {
        Some(value)
    } else {
        slot
    }
}

/// A write-once slot for the platform-supplied application context.
///
/// The abstract state is the slot's content, `Option<T>`: `None` until the
/// first write, then forever the first value written.
pub struct AppRegistry<T> {
    slot: Option<T>,
}

impl<T> View for AppRegistry<T> {
    type V = Option<T>;

    closed spec fn view(&self) -> Option<T> {
        self.slot
    }
}

impl<T> AppRegistry<T> {
    /// An empty registry, as at process start.
    pub fn new() -> (r: Self)
        ensures
            r@ is None,
    {
        AppRegistry { slot: None }
    }

    /// Stores `value` only if the slot is still empty, and reports whether it
    /// was stored; an occupied slot is left holding exactly what it held.
    pub fn set_app(&mut self, value: T) -> (r: bool)
        ensures
            final(self)@ == set_once(old(self)@, value),
            r == (old(self)@ is None),
    {
        if self.slot.is_none() {
            self.slot = Some(value);
            true
        } else {
            false
        }
    }

    /// Reads the slot: the context stored by the first write, if any.
    pub fn get_app(&self) -> (r: &Option<T>)
        ensures
            *r == self@,
    {
        &self.slot
    }
}

/// Write-once law: once a first write has filled the slot, any later write
/// leaves it holding the first value, unchanged.
pub proof fn lemma_write_once<T>(first: T, second: T)
    ensures
        set_once(set_once(None::<T>, first), second) == Some(first),
{
}

} // verus!
