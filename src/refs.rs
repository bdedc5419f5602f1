//! Integer references to values, with a free list for reuse.
//!
//! A reference is a positive integer; 0 stands for "no value". Released
//! references go onto a free list and the most recently released one is
//! handed out first.
use vstd::prelude::*;

verus! {

/// One place of the table: a value, or a free place with the next free
/// reference (0 ends the list).
pub enum RefEntry<T> {
    Value(T),
    Free(u32),
}

pub struct RefTable<T> {
    entries: Vec<RefEntry<T>>,
    head: u32,
}

impl<T> RefTable<T> {
    /// The live references and their values.
    pub closed spec fn live(self) -> Map<u32, T> {
        Map::new(
            |r: u32| 1 <= r <= self.entries@.len() && self.entries@[r - 1] is Value,
            |r: u32| self.entries@[r - 1]->Value_0,
        )
    }

    /// The number of references handed out so far, live or free.
    pub closed spec fn size(self) -> nat {
        self.entries@.len()
    }

    /// Whether reference `r` names a free place.
    pub closed spec fn is_free(self, r: u32) -> bool {
        1 <= r <= self.entries@.len() && self.entries@[r - 1] is Free
    }

    /// The reference that the next `make_ref` reuses, 0 when none is free.
    pub closed spec fn free_head(self) -> u32 {
        self.head
    }

    /// An empty table.
    pub fn init_refs() -> (r: Self)
        ensures
            r.live() == Map::<u32, T>::empty(),
            r.size() == 0,
            r.free_head() == 0,
    {
        let r = RefTable { entries: Vec::new(), head: 0 };
        assert(r.live() =~= Map::<u32, T>::empty());
        r
    }

    /// Whether reference `r` is free and where the free list goes after it.
    fn next_free(&self, r: u32) -> (n: Option<u32>)
        ensures
            n matches Some(k) ==> 1 <= r <= self.entries@.len() && self.entries@[r - 1]
                == RefEntry::<T>::Free(k),
            n is None ==> !(1 <= r <= self.entries@.len() && self.entries@[r - 1] is Free),
    {
        if r >= 1 && (r as usize) <= self.entries.len() {
            match &self.entries[(r - 1) as usize] {
                RefEntry::Free(k) => Some(*k),
                RefEntry::Value(_) => None,
            }
        } else {
            None
        }
    }

    /// Stores `value` and gives its reference: the most recently released
    /// one, or else a new one. No value (`None`), or no reference left, gives
    /// 0 and changes nothing.
    pub fn make_ref(&mut self, value: Option<T>) -> (r: u32)
        ensures
            value is None ==> r == 0 && *final(self) == *old(self),
            r != 0 ==> !old(self).live().contains_key(r)
                && final(self).live() == old(self).live().insert(r, value->Some_0),
            value is Some && old(self).is_free(old(self).free_head()) ==> r == old(self).free_head(),
            value is Some && old(self).size() < u32::MAX ==> r != 0,
            value is Some && !old(self).is_free(old(self).free_head()) && old(self).size()
                < u32::MAX ==> r == old(self).size() + 1 && final(self).size() == old(self).size() + 1
                && final(self).free_head() == old(self).free_head() && !final(self).is_free(
                final(self).free_head(),
            ),
            r == 0 ==> *final(self) == *old(self),
    {
        let v = match value {
            None => {
                return 0;
            },
            Some(v) => v,
        };
        let head = self.head;
        match self.next_free(head) {
            Some(next) => {
                let ghost before = self.live();
                let mut entry = RefEntry::Value(v);
                std::mem::swap(&mut self.entries[(head - 1) as usize], &mut entry);
                self.head = next;
                proof {
                    assert(self.live() =~= before.insert(head, self.entries@[head - 1]->Value_0));
                }
                head
            },
            None => {
                if self.entries.len() >= u32::MAX as usize {
                    return 0;
                }
                let ghost before = self.live();
                let r = (self.entries.len() + 1) as u32;
                self.entries.push(RefEntry::Value(v));
                proof {
                    assert(self.live() =~= before.insert(r, self.entries@[r - 1]->Value_0));
                }
                r
            },
        }
    }

    /// The value under reference `r`, if it is live.
    pub fn push_ref(&self, r: u32) -> (v: Option<&T>)
        ensures
            self.live().contains_key(r) ==> v == Some(&self.live()[r]),
            !self.live().contains_key(r) ==> v is None,
    {
        if r >= 1 && (r as usize) <= self.entries.len() {
            match &self.entries[(r - 1) as usize] {
                RefEntry::Value(v) => Some(v),
                RefEntry::Free(_) => None,
            }
        } else {
            None
        }
    }

    /// Releases reference `r` and gives back its value; the next
    /// `make_ref` reuses it. A reference that is not live changes nothing.
    pub fn unref(&mut self, r: u32) -> (v: Option<T>)
        ensures
            old(self).live().contains_key(r) ==> v == Some(old(self).live()[r])
                && final(self).live() == old(self).live().remove(r)
                && final(self).free_head() == r,
            !old(self).live().contains_key(r) ==> v is None && *final(self) == *old(self),
            final(self).size() == old(self).size(),
            old(self).live().contains_key(r) ==> final(self).is_free(r),
    {
        if r >= 1 && (r as usize) <= self.entries.len() {
            let is_value = match &self.entries[(r - 1) as usize] {
                RefEntry::Value(_) => true,
                RefEntry::Free(_) => false,
            };
            if is_value {
                let ghost before = self.live();
                let mut entry = RefEntry::Free(self.head);
                std::mem::swap(&mut self.entries[(r - 1) as usize], &mut entry);
                self.head = r;
                proof {
                    assert(self.live() =~= before.remove(r));
                }
                return match entry {
                    RefEntry::Value(v) => Some(v),
                    RefEntry::Free(_) => None,
                };
            }
        }
        None
    }
}

/// Storing a value under a fresh reference and reading it gives the value
/// back, and releasing that reference restores the live references.
pub proof fn lemma_ref_round_trip<T>(live: Map<u32, T>, r: u32, v: T)
    requires
        !live.contains_key(r),
    ensures
        live.insert(r, v)[r] == v,
        live.insert(r, v).remove(r) == live,
{
    assert(live.insert(r, v).remove(r) =~= live);
}

} // verus!
