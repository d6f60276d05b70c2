//! Opaque handles to owned values.
//!
//! A table owns the values that were handed to it and gives out one handle
//! for each. A handle is a non-zero integer that says nothing about the
//! value. At any time a value has one owner: the table, or the one caller
//! who borrowed it and has yet to restore it. Once a handle is released, no
//! operation accepts it again.

use vstd::pervasive::VecAdditionalExecFns;
use vstd::prelude::*;

verus! {

/// Why a handle was refused.
#[derive(Clone, Copy, Debug, PartialEq, Eq, Structural)]
pub enum HandleError {
    /// The table never issued this handle.
    Unknown,
    /// The value is lent out and has not been restored.
    Lent,
    /// The value is not lent out, so there is nothing to restore.
    NotLent,
    /// The handle was released.
    Released,
}

/// What a table keeps for one handle.
pub enum Slot<T> {
    /// The table owns the value.
    Held(T),
    /// A caller borrowed the value and owns it until it is restored.
    Lent,
    /// The value left the table for good.
    Released,
}

/// The table issued `handle`: handles count up from 1 in the order of issue.
pub open spec fn issued<T>(slots: Seq<Slot<T>>, handle: usize) -> bool {
    1 <= handle <= slots.len()
}

/// The slot of an issued handle.
pub open spec fn slot_of<T>(slots: Seq<Slot<T>>, handle: usize) -> Slot<T>
    recommends
        issued(slots, handle),
{
    slots[handle - 1]
}

/// Why the value of `handle` cannot be taken out of the table, if it cannot.
pub open spec fn take_refusal<T>(slots: Seq<Slot<T>>, handle: usize) -> Option<HandleError> {
    if !issued(slots, handle) {
        Some(HandleError::Unknown)
    } else {
        match slot_of(slots, handle) {
            Slot::Held(_) => None,
            Slot::Lent => Some(HandleError::Lent),
            Slot::Released => Some(HandleError::Released),
        }
    }
}

/// Why a value cannot be restored to `handle`, if it cannot.
pub open spec fn restore_refusal<T>(slots: Seq<Slot<T>>, handle: usize) -> Option<HandleError> {
    if !issued(slots, handle) {
        Some(HandleError::Unknown)
    } else {
        match slot_of(slots, handle) {
            Slot::Held(_) => Some(HandleError::NotLent),
            Slot::Lent => None,
            Slot::Released => Some(HandleError::Released),
        }
    }
}

/// The table after `value` was handed to it.
pub open spec fn after_create<T>(slots: Seq<Slot<T>>, value: T) -> Seq<Slot<T>> {
    slots.push(Slot::Held(value))
}

/// The table after an attempt to borrow the value of `handle`.
pub open spec fn after_borrow<T>(slots: Seq<Slot<T>>, handle: usize) -> Seq<Slot<T>> {
    if take_refusal(slots, handle) is None {
        slots.update(handle - 1, Slot::Lent)
    } else {
        slots
    }
}

/// The table after an attempt to restore `value` to `handle`.
pub open spec fn after_restore<T>(slots: Seq<Slot<T>>, handle: usize, value: T) -> Seq<Slot<T>> {
    if restore_refusal(slots, handle) is None {
        slots.update(handle - 1, Slot::Held(value))
    } else {
        slots
    }
}

/// The table after an attempt to release `handle`.
pub open spec fn after_release<T>(slots: Seq<Slot<T>>, handle: usize) -> Seq<Slot<T>> {
    if take_refusal(slots, handle) is None {
        slots.update(handle - 1, Slot::Released)
    } else {
        slots
    }
}

/// A table of owned values behind opaque handles.
pub struct HandleTable<T> {
    slots: Vec<Slot<T>>,
}

impl<T> View for HandleTable<T> {
    type V = Seq<Slot<T>>;

    closed spec fn view(&self) -> Seq<Slot<T>> {
        self.slots@
    }
}

impl<T> HandleTable<T> {
    /// A table that has issued no handle.
    pub fn new() -> (table: Self)
        ensures
            table@ == Seq::<Slot<T>>::empty(),
    {
        HandleTable { slots: Vec::new() }
    }

    /// Takes ownership of `value` and issues a handle for it. The handle is
    /// never zero and differs from every handle issued before.
    pub fn create(&mut self, value: T) -> (handle: usize)
        ensures
            final(self)@ == after_create(old(self)@, value),
            handle == old(self)@.len() + 1,
    {
        self.slots.push(Slot::Held(value));
        self.slots.len()
    }

    /// Hands the value of `handle` to the caller until it is restored.
    /// Refused, with the table unchanged, unless the table holds the value.
    pub fn borrow(&mut self, handle: usize) -> (lent: Result<T, HandleError>)
        ensures
            final(self)@ == after_borrow(old(self)@, handle),
            match lent {
                Ok(value) => take_refusal(old(self)@, handle) is None && slot_of(
                    old(self)@,
                    handle,
                ) == Slot::Held(value),
                Err(error) => take_refusal(old(self)@, handle) == Some(error),
            },
    {
        if handle == 0 || handle > self.slots.len() {
            return Err(HandleError::Unknown);
        }
        let mut slot: Slot<T> = Slot::Lent;
        self.slots.set_and_swap(handle - 1, &mut slot);
        match slot {
            Slot::Held(value) => Ok(value),
            Slot::Lent => Err(HandleError::Lent),
            Slot::Released => {
                self.slots.set(handle - 1, Slot::Released);
                Err(HandleError::Released)
            },
        }
    }

    /// Takes back a value that was borrowed through `handle`. Refused, with
    /// the table unchanged, unless the value of `handle` is lent out; a
    /// refused value is dropped.
    pub fn restore(&mut self, handle: usize, value: T) -> (restored: Result<(), HandleError>)
        ensures
            final(self)@ == after_restore(old(self)@, handle, value),
            match restored {
                Ok(_) => restore_refusal(old(self)@, handle) is None,
                Err(error) => restore_refusal(old(self)@, handle) == Some(error),
            },
    {
        if handle == 0 || handle > self.slots.len() {
            return Err(HandleError::Unknown);
        }
        let mut slot: Slot<T> = Slot::Held(value);
        self.slots.set_and_swap(handle - 1, &mut slot);
        match slot {
            Slot::Lent => Ok(()),
            Slot::Held(held) => {
                self.slots.set(handle - 1, Slot::Held(held));
                Err(HandleError::NotLent)
            },
            Slot::Released => {
                self.slots.set(handle - 1, Slot::Released);
                Err(HandleError::Released)
            },
        }
    }

    /// Gives the value of `handle` to the caller for good. Refused, with the
    /// table unchanged, unless the table holds the value.
    pub fn release(&mut self, handle: usize) -> (released: Result<T, HandleError>)
        ensures
            final(self)@ == after_release(old(self)@, handle),
            match released {
                Ok(value) => take_refusal(old(self)@, handle) is None && slot_of(
                    old(self)@,
                    handle,
                ) == Slot::Held(value),
                Err(error) => take_refusal(old(self)@, handle) == Some(error),
            },
    {
        if handle == 0 || handle > self.slots.len() {
            return Err(HandleError::Unknown);
        }
        let mut slot: Slot<T> = Slot::Released;
        self.slots.set_and_swap(handle - 1, &mut slot);
        match slot {
            Slot::Held(value) => Ok(value),
            Slot::Lent => {
                self.slots.set(handle - 1, Slot::Lent);
                Err(HandleError::Lent)
            },
            Slot::Released => Err(HandleError::Released),
        }
    }

    /// Whether `handle` was issued and not released since.
    pub fn is_live(&self, handle: usize) -> (live: bool)
        ensures
            live == (issued(self@, handle) && !(slot_of(self@, handle) is Released)),
    {
        if handle == 0 || handle > self.slots.len() {
            return false;
        }
        match &self.slots[handle - 1] {
            Slot::Released => false,
            _ => true,
        }
    }

    /// How many handles the table has issued.
    pub fn issued_count(&self) -> (count: usize)
        ensures
            count == self@.len(),
    {
        self.slots.len()
    }
}

/// A released handle stays released: every operation on it is refused as
/// released, and no operation on any handle brings it back.
pub proof fn lemma_released_is_final<T>(slots: Seq<Slot<T>>, handle: usize, other: usize, value: T)
    requires
        issued(slots, handle),
        slot_of(slots, handle) is Released,
    ensures
        take_refusal(slots, handle) == Some(HandleError::Released),
        restore_refusal(slots, handle) == Some(HandleError::Released),
        slot_of(after_create(slots, value), handle) is Released,
        slot_of(after_borrow(slots, other), handle) is Released,
        slot_of(after_restore(slots, other, value), handle) is Released,
        slot_of(after_release(slots, other), handle) is Released,
{
}

/// A release that is granted leaves the handle released.
pub proof fn lemma_release_releases<T>(slots: Seq<Slot<T>>, handle: usize)
    requires
        take_refusal(slots, handle) is None,
    ensures
        issued(after_release(slots, handle), handle),
        slot_of(after_release(slots, handle), handle) is Released,
{
}

/// A value has one owner at a time: while it is lent out, it can be neither
/// borrowed again nor released.
pub proof fn lemma_single_owner<T>(slots: Seq<Slot<T>>, handle: usize)
    requires
        take_refusal(slots, handle) is None,
    ensures
        take_refusal(after_borrow(slots, handle), handle) == Some(HandleError::Lent),
        after_borrow(after_borrow(slots, handle), handle) == after_borrow(slots, handle),
        after_release(after_borrow(slots, handle), handle) == after_borrow(slots, handle),
{
}

/// Borrowing a value and restoring it leaves the table as it was: the handle
/// is good for the next use.
pub proof fn lemma_borrow_then_restore<T>(slots: Seq<Slot<T>>, handle: usize, value: T)
    requires
        issued(slots, handle),
        slot_of(slots, handle) == Slot::Held(value),
    ensures
        restore_refusal(after_borrow(slots, handle), handle) is None,
        after_restore(after_borrow(slots, handle), handle, value) == slots,
{
    assert(after_restore(after_borrow(slots, handle), handle, value) =~= slots);
}

/// A new handle is not zero, was not issued before, and holds the value it
/// was issued for. The handles issued before keep their slots.
pub proof fn lemma_create_is_fresh<T>(slots: Seq<Slot<T>>, value: T, earlier: usize)
    requires
        slots.len() < usize::MAX,
        issued(slots, earlier),
    ensures
        ({
            let handle = (slots.len() + 1) as usize;
            &&& handle != 0
            &&& !issued(slots, handle)
            &&& issued(after_create(slots, value), handle)
            &&& slot_of(after_create(slots, value), handle) == Slot::Held(value)
            &&& slot_of(after_create(slots, value), earlier) == slot_of(slots, earlier)
        }),
{
}

/// An operation on one handle leaves the slot of every other handle as it was.
pub proof fn lemma_other_handles_untouched<T>(
    slots: Seq<Slot<T>>,
    handle: usize,
    other: usize,
    value: T,
)
    requires
        issued(slots, other),
        other != handle,
    ensures
        slot_of(after_borrow(slots, handle), other) == slot_of(slots, other),
        slot_of(after_restore(slots, handle, value), other) == slot_of(slots, other),
        slot_of(after_release(slots, handle), other) == slot_of(slots, other),
{
}

} // verus!
