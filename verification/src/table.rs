//! A table from addresses to values, kept in a vector in which no address
//! occurs twice.

use crate::address::Address;
use vstd::prelude::*;

verus! {

/// A key with its value.
pub struct Slot<V> {
    pub key: Address,
    pub value: V,
}

/// The slots of a table, in the order in which their keys came.
pub struct Table<V> {
    slots: Vec<Slot<V>>,
}

/// Whether one of the slots has the key.
pub open spec fn has_key<V>(slots: Seq<Slot<V>>, key: Address) -> bool {
    exists|i: int| 0 <= i < slots.len() && (#[trigger] slots[i]).key == key
}

/// A slot with the key, where there is one.
pub open spec fn slot_of<V>(slots: Seq<Slot<V>>, key: Address) -> int {
    choose|i: int| 0 <= i < slots.len() && (#[trigger] slots[i]).key == key
}

/// No key occurs in two slots.
pub open spec fn distinct_keys<V>(slots: Seq<Slot<V>>) -> bool {
    forall|i: int, j: int|
        0 <= i < slots.len() && 0 <= j < slots.len() && (#[trigger] slots[i]).key == (
        #[trigger] slots[j]).key ==> i == j
}

/// The map that the slots stand for.
pub open spec fn map_of<V>(slots: Seq<Slot<V>>) -> Map<Address, V> {
    Map::new(|key: Address| has_key(slots, key), |key: Address| slots[slot_of(slots, key)].value)
}

/// A key that stands at `i` is in the map, with the value that stands there.
pub proof fn lemma_slot_in_map<V>(slots: Seq<Slot<V>>, i: int)
    requires
        distinct_keys(slots),
        0 <= i < slots.len(),
    ensures
        map_of(slots).dom().contains(slots[i].key),
        map_of(slots)[slots[i].key] == slots[i].value,
{
    let key = slots[i].key;
    assert(has_key(slots, key));
    let j = slot_of(slots, key);
    assert(slots[j].key == slots[i].key);
}

/// Appending a slot with a new key inserts it into the map.
pub proof fn lemma_push_inserts<V>(slots: Seq<Slot<V>>, slot: Slot<V>)
    requires
        distinct_keys(slots),
        !has_key(slots, slot.key),
    ensures
        distinct_keys(slots.push(slot)),
        map_of(slots.push(slot)) == map_of(slots).insert(slot.key, slot.value),
{
    let after = slots.push(slot);
    assert forall|i: int, j: int|
        0 <= i < after.len() && 0 <= j < after.len() && (#[trigger] after[i]).key == (
        #[trigger] after[j]).key implies i == j by {
        if i < slots.len() {
            assert(after[i] == slots[i]);
        }
        if j < slots.len() {
            assert(after[j] == slots[j]);
        }
    }
    assert forall|key: Address| #[trigger]
        map_of(after).dom().contains(key) == map_of(slots).insert(
            slot.key,
            slot.value,
        ).dom().contains(key) by {
        if has_key(after, key) {
            let i = slot_of(after, key);
            if i < slots.len() {
                assert(after[i] == slots[i]);
            }
        }
        if has_key(slots, key) {
            let i = slot_of(slots, key);
            assert(after[i] == slots[i]);
        }
        if key == slot.key {
            assert(after[slots.len() as int].key == key);
        }
    }
    assert forall|key: Address| #[trigger] map_of(after).dom().contains(key) implies map_of(
        after,
    )[key] == map_of(slots).insert(slot.key, slot.value)[key] by {
        let i = slot_of(after, key);
        if key == slot.key {
            assert(after[slots.len() as int].key == key);
        } else {
            assert(after[i] == slots[i]);
            lemma_slot_in_map(slots, i);
        }
    }
    assert(map_of(after) =~= map_of(slots).insert(slot.key, slot.value));
}

/// The slots with `value` in the slot at `i`, under the key of that slot.
pub open spec fn with_value<V>(slots: Seq<Slot<V>>, i: int, value: V) -> Seq<Slot<V>> {
    slots.update(i, Slot { key: slots[i].key, value })
}

/// Putting a value into the slot at `i` puts it into the map under that slot's key.
pub proof fn lemma_update_inserts<V>(slots: Seq<Slot<V>>, i: int, value: V)
    requires
        distinct_keys(slots),
        0 <= i < slots.len(),
    ensures
        distinct_keys(with_value(slots, i, value)),
        map_of(with_value(slots, i, value)) == map_of(slots).insert(slots[i].key, value),
{
    let slot = Slot { key: slots[i].key, value };
    let after = slots.update(i, slot);
    assert forall|a: int, b: int|
        0 <= a < after.len() && 0 <= b < after.len() && (#[trigger] after[a]).key == (
        #[trigger] after[b]).key implies a == b by {
        assert(after[a].key == slots[a].key);
        assert(after[b].key == slots[b].key);
    }
    assert forall|key: Address| #[trigger]
        map_of(after).dom().contains(key) == map_of(slots).insert(
            slot.key,
            value,
        ).dom().contains(key) by {
        if has_key(after, key) {
            let a = slot_of(after, key);
            assert(slots[a].key == key);
        }
        if has_key(slots, key) {
            let a = slot_of(slots, key);
            assert(after[a].key == key);
        }
        if key == slot.key {
            assert(after[i].key == key);
        }
    }
    assert forall|key: Address| #[trigger] map_of(after).dom().contains(key) implies map_of(
        after,
    )[key] == map_of(slots).insert(slot.key, value)[key] by {
        let a = slot_of(after, key);
        lemma_slot_in_map(after, a);
        if key != slot.key {
            assert(slots[a].key == key);
            lemma_slot_in_map(slots, a);
        }
    }
    assert(map_of(after) =~= map_of(slots).insert(slot.key, value));
}

/// Taking the slot at `i` out removes its key from the map.
pub proof fn lemma_remove_removes<V>(slots: Seq<Slot<V>>, i: int)
    requires
        distinct_keys(slots),
        0 <= i < slots.len(),
    ensures
        distinct_keys(slots.remove(i)),
        map_of(slots.remove(i)) == map_of(slots).remove(slots[i].key),
{
    let gone = slots[i].key;
    let after = slots.remove(i);
    assert forall|a: int| 0 <= a < after.len() implies #[trigger] after[a] == slots[if a < i {
        a
    } else {
        a + 1
    }] by {}
    assert forall|a: int, b: int|
        0 <= a < after.len() && 0 <= b < after.len() && (#[trigger] after[a]).key == (
        #[trigger] after[b]).key implies a == b by {
        let a0 = if a < i { a } else { a + 1 };
        let b0 = if b < i { b } else { b + 1 };
        assert(after[a] == slots[a0]);
        assert(after[b] == slots[b0]);
    }
    assert forall|key: Address| #[trigger]
        map_of(after).dom().contains(key) == map_of(slots).remove(gone).dom().contains(key) by {
        if has_key(after, key) {
            let a = slot_of(after, key);
            let a0 = if a < i { a } else { a + 1 };
            assert(after[a] == slots[a0]);
            assert(slots[a0].key == key);
        }
        if has_key(slots, key) && key != gone {
            let a0 = slot_of(slots, key);
            let a = if a0 < i { a0 } else { a0 - 1 };
            assert(after[a] == slots[a0]);
        }
    }
    assert forall|key: Address| #[trigger] map_of(after).dom().contains(key) implies map_of(
        after,
    )[key] == map_of(slots).remove(gone)[key] by {
        let a = slot_of(after, key);
        let a0 = if a < i { a } else { a + 1 };
        assert(after[a] == slots[a0]);
        lemma_slot_in_map(after, a);
        lemma_slot_in_map(slots, a0);
    }
    assert(map_of(after) =~= map_of(slots).remove(gone));
}

impl<V> Table<V> {
    /// No address occurs twice.
    pub closed spec fn wf(&self) -> bool {
        distinct_keys(self.slots@)
    }

    /// The table as a map.
    pub closed spec fn view(&self) -> Map<Address, V> {
        map_of(self.slots@)
    }

    /// A table without keys.
    pub fn new() -> (table: Table<V>)
        ensures
            table.wf(),
            table@ == Map::<Address, V>::empty(),
    {
        let table = Table { slots: Vec::new() };
        assert(table@ =~= Map::<Address, V>::empty());
        table
    }

    /// Where the key stands, if it stands anywhere.
    fn position(&self, key: &Address) -> (found: Option<usize>)
        ensures
            found is None ==> !has_key(self.slots@, *key),
            found matches Some(i) ==> i < self.slots@.len() && self.slots@[i as int].key == *key,
    {
        let mut i: usize = 0;
        while i < self.slots.len()
            invariant
                i <= self.slots@.len(),
                forall|j: int| 0 <= j < i ==> (#[trigger] self.slots@[j]).key != *key,
            decreases self.slots@.len() - i,
        {
            if self.slots[i].key == *key {
                return Some(i);
            }
            i = i + 1;
        }
        None
    }

    /// Whether the table has the key.
    pub fn contains(&self, key: &Address) -> (held: bool)
        requires
            self.wf(),
        ensures
            held == self@.dom().contains(*key),
    {
        match self.position(key) {
            Some(i) => {
                proof {
                    lemma_slot_in_map(self.slots@, i as int);
                }
                true
            },
            None => false,
        }
    }

    /// What is under `key`, if anything.
    pub fn get(&self, key: &Address) -> (found: Option<&V>)
        requires
            self.wf(),
        ensures
            (found is Some) == self@.dom().contains(*key),
            found matches Some(value) ==> *value == self@[*key],
    {
        match self.position(key) {
            Some(i) => {
                proof {
                    lemma_slot_in_map(self.slots@, i as int);
                }
                Some(&self.slots[i].value)
            },
            None => None,
        }
    }

    /// Puts `value` under `key`, in place of what was there.
    pub fn put(&mut self, key: Address, value: V)
        requires
            old(self).wf(),
        ensures
            final(self).wf(),
            final(self)@ == old(self)@.insert(key, value),
    {
        match self.position(&key) {
            Some(i) => {
                proof {
                    lemma_update_inserts(self.slots@, i as int, value);
                }
                self.slots[i].value = value;
                assert(self.slots@ =~= with_value(old(self).slots@, i as int, value));
            },
            None => {
                let slot = Slot { key, value };
                proof {
                    lemma_push_inserts(self.slots@, slot);
                }
                self.slots.push(slot);
            },
        }
    }

    /// Takes out what is under `key`.
    pub fn take(&mut self, key: &Address) -> (taken: Option<V>)
        requires
            old(self).wf(),
        ensures
            final(self).wf(),
            final(self)@ == old(self)@.remove(*key),
            (taken is Some) == old(self)@.dom().contains(*key),
            taken matches Some(value) ==> value == old(self)@[*key],
    {
        match self.position(key) {
            Some(i) => {
                proof {
                    lemma_slot_in_map(self.slots@, i as int);
                    lemma_remove_removes(self.slots@, i as int);
                }
                let slot = self.slots.remove(i);
                Some(slot.value)
            },
            None => {
                assert(self@ =~= old(self)@.remove(*key));
                None
            },
        }
    }
}

} // verus!
