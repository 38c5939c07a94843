//! A component slot in a change-tracked storage.
use vstd::prelude::*;
use vstd::std_specs::cmp::PartialEqSpec;

verus! {

/// A component value together with the number of modification events its
/// storage has raised for it.
///
/// Reading the value raises no event; each time it is taken for writing, the
/// storage raises one, whether or not the written value differs from the old
/// one.
pub struct Flagged<T> {
    pub value: T,
    pub modifications: u64,
}

/// `after` is what a guarded write of `value` leaves of `before`: the slot is
/// either left exactly as it was, or holds `value` with one modification
/// event more; where `T`'s `==` follows its specification, the first happens
/// exactly when the stored value already equals `value`.
pub open spec fn written_if_changed<T: PartialEq>(before: Flagged<T>, value: T, after: Flagged<T>) -> bool {
    &&& (after == before || (after.value == value && after.modifications == before.modifications + 1))
    &&& T::obeys_eq_spec() ==> (if before.value.eq_spec(&value) {
        after == before
    } else {
        after.value == value && after.modifications == before.modifications + 1
    })
}

impl<T> Flagged<T> {
    /// A freshly inserted component, with no modification event yet.
    pub fn new(value: T) -> (r: Self)
        ensures
            r.value == value,
            r.modifications == 0,
    {
        Flagged { value, modifications: 0 }
    }

    /// Reads the value without raising a modification event.
    pub fn get(&self) -> (r: &T)
        ensures
            *r == self.value,
    {
        &self.value
    }

    /// How many modification events the storage has raised for this slot.
    pub fn modification_count(&self) -> (r: u64)
        ensures
            r == self.modifications,
    {
        self.modifications
    }

    /// Whether the storage has raised any modification event for this slot.
    pub fn is_modified(&self) -> (r: bool)
        ensures
            r == (self.modifications > 0),
    {
        self.modifications > 0
    }

    /// Writes `value` unconditionally, raising one modification event.
    pub fn set(&mut self, value: T)
        requires
            old(self).modifications < u64::MAX,
        ensures
            final(self).value == value,
            final(self).modifications == old(self).modifications + 1,
    {
        self.modifications = self.modifications + 1;
        self.value = value;
    }
}

impl<T: PartialEq> Flagged<T> {
    /// Writes `value` only where it differs from the stored one, so that an
    /// unchanged component raises no modification event.
    pub fn set_if_changed(&mut self, value: T)
        requires
            old(self).modifications < u64::MAX,
        ensures
            written_if_changed(*old(self), value, *final(self)),
    {
        if self.value != value {
            self.set(value);
        }
    }
}

} // verus!
