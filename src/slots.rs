//! A table of owned values addressed by stable handles.
//!
//! Each slot is resident (the table owns the value), checked out (a caller
//! holds the value for the length of one call and must put it back), or
//! released (the value was handed to its finalizer and the handle is dead).
//! Handles are never reused, so a stale handle can not reach a newer value.
use vstd::prelude::*;

verus! {

/// The state of one slot.
pub enum Slot<T> {
    Resident(T),
    CheckedOut,
    Released,
}

impl<T> Slot<T> {
    pub open spec fn is_resident(self) -> bool {
        self is Resident
    }

    pub open spec fn is_checked_out(self) -> bool {
        self is CheckedOut
    }
}

/// Values owned by handle.
pub struct SlotTable<T> {
    slots: Vec<Slot<T>>,
}

impl<T> View for SlotTable<T> {
    type V = Seq<Slot<T>>;

    closed spec fn view(&self) -> Seq<Slot<T>> {
        self.slots@
    }
}

impl<T> SlotTable<T> {
    /// Whether `h` names a slot that holds its value now.
    pub open spec fn resident(self, h: usize) -> bool {
        h < self@.len() && self@[h as int].is_resident()
    }

    /// Whether `h` names a slot whose value is out with a caller.
    pub open spec fn checked_out(self, h: usize) -> bool {
        h < self@.len() && self@[h as int].is_checked_out()
    }

    /// The value that a resident slot holds.
    pub open spec fn value(self, h: usize) -> T
        recommends
            self.resident(h),
    {
        self@[h as int]->Resident_0
    }

    pub fn new() -> (r: Self)
        ensures
            r@ == Seq::<Slot<T>>::empty(),
    {
        SlotTable { slots: Vec::new() }
    }

    pub fn len(&self) -> (r: usize)
        ensures
            r == self@.len(),
    {
        self.slots.len()
    }

    /// Takes ownership of `v` and returns its new handle.
    pub fn insert(&mut self, v: T) -> (h: usize)
        requires
            old(self)@.len() < usize::MAX,
        ensures
            h == old(self)@.len(),
            final(self)@ == old(self)@.push(Slot::Resident(v)),
    {
        let h = self.slots.len();
        self.slots.push(Slot::Resident(v));
        h
    }

    /// Whether `h` names a resident slot.
    pub fn contains(&self, h: usize) -> (r: bool)
        ensures
            r == self.resident(h),
    {
        h < self.slots.len() && match &self.slots[h] {
            Slot::Resident(_) => true,
            _ => false,
        }
    }

    /// Whether `h` names a released slot.
    pub fn is_released(&self, h: usize) -> (r: bool)
        ensures
            r == (h < self@.len() && self@[h as int] is Released),
    {
        h < self.slots.len() && match &self.slots[h] {
            Slot::Released => true,
            _ => false,
        }
    }

    /// Borrows the value of a resident slot.
    pub fn get(&self, h: usize) -> (r: Option<&T>)
        ensures
            self.resident(h) ==> r == Some(&self.value(h)),
            !self.resident(h) ==> r is None,
    {
        if h < self.slots.len() {
            match &self.slots[h] {
                Slot::Resident(v) => Some(v),
                _ => None,
            }
        } else {
            None
        }
    }

    /// Moves `next` into slot `h` and returns what the slot held.
    fn swap_slot(&mut self, h: usize, next: Slot<T>) -> (prev: Slot<T>)
        requires
            h < old(self)@.len(),
        ensures
            prev == old(self)@[h as int],
            final(self)@ == old(self)@.update(h as int, next),
    {
        let mut next = next;
        std::mem::swap(&mut self.slots[h], &mut next);
        next
    }

    /// Lends the value of a resident slot to the caller, who must return it
    /// with `check_in`. Any other slot, or a handle out of range, gives `None`
    /// and leaves the table as it was.
    pub fn check_out(&mut self, h: usize) -> (r: Option<T>)
        ensures
            old(self).resident(h) ==> r == Some(old(self).value(h))
                && final(self)@ == old(self)@.update(h as int, Slot::CheckedOut),
            !old(self).resident(h) ==> r is None && final(self)@ == old(self)@,
    {
        if self.contains(h) {
            match self.swap_slot(h, Slot::CheckedOut) {
                Slot::Resident(v) => Some(v),
                _ => None,
            }
        } else {
            None
        }
    }

    /// Returns a value lent by `check_out` to its slot. Where the slot is not
    /// checked out the value is handed back in `Err` and the table is left as
    /// it was.
    pub fn check_in(&mut self, h: usize, v: T) -> (r: Result<(), T>)
        ensures
            old(self).checked_out(h) ==> r is Ok && final(self)@ == old(self)@.update(
                h as int,
                Slot::Resident(v),
            ),
            !old(self).checked_out(h) ==> r == Err::<(), T>(v) && final(self)@ == old(self)@,
    {
        if h < self.slots.len() && match &self.slots[h] {
            Slot::CheckedOut => true,
            _ => false,
        } {
            let _ = self.swap_slot(h, Slot::Resident(v));
            Ok(())
        } else {
            Err(v)
        }
    }

    /// Ends the life of a resident slot and hands its value to the caller to
    /// drop. Released, checked-out and unknown slots give `None` and leave the
    /// table as it was, so a value is released at most once.
    pub fn release(&mut self, h: usize) -> (r: Option<T>)
        ensures
            old(self).resident(h) ==> r == Some(old(self).value(h))
                && final(self)@ == old(self)@.update(h as int, Slot::Released),
            !old(self).resident(h) ==> r is None && final(self)@ == old(self)@,
    {
        if self.contains(h) {
            match self.swap_slot(h, Slot::Released) {
                Slot::Resident(v) => Some(v),
                _ => None,
            }
        } else {
            None
        }
    }
}

} // verus!
