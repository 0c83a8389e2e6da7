//! A store of records keyed by 32-byte addresses, each address at most once.
use crate::auth::keys_equal;
use crate::state::Pubkey;
use vstd::prelude::*;

verus! {

/// A record and the address it is stored at.
#[derive(Clone, Debug, PartialEq, Eq)]
pub struct Slot<T> {
    pub address: Pubkey,
    pub value: T,
}

/// Records keyed by address. Viewed as a map from address to record.
#[derive(Clone, Debug, PartialEq, Eq)]
pub struct Table<T> {
    pub slots: Vec<Slot<T>>,
}

impl<T> View for Table<T> {
    type V = Map<Pubkey, T>;

    open spec fn view(&self) -> Map<Pubkey, T> {
        Map::new(
            |a: Pubkey| self.holds(a),
            |a: Pubkey| self.slots@[self.index_spec(a)].value,
        )
    }
}

impl<T> Table<T> {
    /// No address is stored twice.
    pub open spec fn wf(&self) -> bool {
        forall|i: int, j: int|
            0 <= i < self.slots@.len() && 0 <= j < self.slots@.len() && i != j
                ==> #[trigger] self.slots@[i].address != #[trigger] self.slots@[j].address
    }

    /// Some slot has address `a`.
    pub open spec fn holds(&self, a: Pubkey) -> bool {
        exists|i: int| 0 <= i < self.slots@.len() && #[trigger] self.slots@[i].address == a
    }

    /// The slot that has address `a`, where one has.
    pub open spec fn index_spec(&self, a: Pubkey) -> int {
        choose|i: int| 0 <= i < self.slots@.len() && #[trigger] self.slots@[i].address == a
    }

    /// The slot at `i` is what the map shows at its address.
    pub proof fn lemma_slot_in_view(&self, i: int)
        requires
            self.wf(),
            0 <= i < self.slots@.len(),
        ensures
            self@.contains_key(self.slots@[i].address),
            self@[self.slots@[i].address] == self.slots@[i].value,
    {
        let a = self.slots@[i].address;
        assert(self.holds(a));
        let j = self.index_spec(a);
        assert(self.slots@[j].address == a);
    }

    /// An empty table.
    pub fn new() -> (r: Self)
        ensures
            r.wf(),
            r@ == Map::<Pubkey, T>::empty(),
    {
        let r = Table { slots: Vec::new() };
        assert(r@ =~= Map::<Pubkey, T>::empty());
        r
    }

    /// The slot at `address`, if there is one.
    pub fn find(&self, address: &Pubkey) -> (r: Option<usize>)
        requires
            self.wf(),
        ensures
            r is Some <==> self@.contains_key(*address),
            r is Some ==> r->0 < self.slots@.len() && self.slots@[r->0 as int].address == *address
                && self@[*address] == self.slots@[r->0 as int].value,
    {
        let mut i: usize = 0;
        while i < self.slots.len()
            invariant
                self.wf(),
                i <= self.slots@.len(),
                forall|j: int| 0 <= j < i ==> self.slots@[j].address != *address,
            decreases self.slots@.len() - i,
        {
            if keys_equal(&self.slots[i].address, address) {
                proof {
                    self.lemma_slot_in_view(i as int);
                }
                return Some(i);
            }
            i = i + 1;
        }
        assert(!self.holds(*address));
        None
    }

    /// The record at slot `i`.
    pub fn get(&self, i: usize) -> (r: &T)
        requires
            self.wf(),
            i < self.slots@.len(),
        ensures
            *r == self@[self.slots@[i as int].address],
    {
        proof {
            self.lemma_slot_in_view(i as int);
        }
        &self.slots[i].value
    }

    /// Stores `value` at an address that holds nothing yet.
    pub fn insert_new(&mut self, address: Pubkey, value: T)
        requires
            old(self).wf(),
            !old(self)@.contains_key(address),
        ensures
            final(self).wf(),
            final(self)@ == old(self)@.insert(address, value),
    {
        let ghost before = *self;
        self.slots.push(Slot { address, value });
        let ghost after = *self;
        assert(after.wf()) by {
            assert forall|i: int, j: int|
                0 <= i < after.slots@.len() && 0 <= j < after.slots@.len() && i != j implies
                #[trigger] after.slots@[i].address != #[trigger] after.slots@[j].address by {
                if i < before.slots@.len() && j < before.slots@.len() {
                    assert(before.slots@[i] == after.slots@[i]);
                    assert(before.slots@[j] == after.slots@[j]);
                } else if i < before.slots@.len() {
                    assert(before.slots@[i] == after.slots@[i]);
                    assert(before.holds(before.slots@[i].address));
                } else {
                    assert(before.slots@[j] == after.slots@[j]);
                    assert(before.holds(before.slots@[j].address));
                }
            }
        }
        assert forall|a: Pubkey| #[trigger] after@.contains_key(a) == old(self)@.insert(
            address,
            value,
        ).contains_key(a) && (after@.contains_key(a) ==> after@[a] == old(self)@.insert(
            address,
            value,
        )[a]) by {
            let n = before.slots@.len() as int;
            if a == address {
                after.lemma_slot_in_view(n);
            } else if before.holds(a) {
                let i = before.index_spec(a);
                assert(after.slots@[i] == before.slots@[i]);
                before.lemma_slot_in_view(i);
                after.lemma_slot_in_view(i);
            } else {
                if after.holds(a) {
                    let i = after.index_spec(a);
                    assert(i != n);
                    assert(before.slots@[i] == after.slots@[i]);
                }
            }
        }
        assert(after@ =~= old(self)@.insert(address, value));
    }

    /// Replaces the record at slot `i`, keeping its address.
    pub fn set(&mut self, i: usize, value: T)
        requires
            old(self).wf(),
            i < old(self).slots@.len(),
        ensures
            final(self).wf(),
            final(self).slots@[i as int].address == old(self).slots@[i as int].address,
            final(self)@ == old(self)@.insert(old(self).slots@[i as int].address, value),
    {
        let ghost before = *self;
        let address = self.slots[i].address;
        self.slots.set(i, Slot { address, value });
        let ghost after = *self;
        assert(after.wf()) by {
            assert forall|k: int, j: int|
                0 <= k < after.slots@.len() && 0 <= j < after.slots@.len() && k != j implies
                #[trigger] after.slots@[k].address != #[trigger] after.slots@[j].address by {
                assert(after.slots@[k].address == before.slots@[k].address);
                assert(after.slots@[j].address == before.slots@[j].address);
            }
        }
        assert forall|a: Pubkey| #[trigger] after@.contains_key(a) == old(self)@.insert(
            address,
            value,
        ).contains_key(a) && (after@.contains_key(a) ==> after@[a] == old(self)@.insert(
            address,
            value,
        )[a]) by {
            if a == address {
                after.lemma_slot_in_view(i as int);
                before.lemma_slot_in_view(i as int);
            } else if before.holds(a) {
                let k = before.index_spec(a);
                assert(after.slots@[k] == before.slots@[k]);
                before.lemma_slot_in_view(k);
                after.lemma_slot_in_view(k);
            } else {
                if after.holds(a) {
                    let k = after.index_spec(a);
                    assert(before.slots@[k].address == after.slots@[k].address);
                }
            }
        }
        assert(after@ =~= old(self)@.insert(address, value));
    }
}

} // verus!
