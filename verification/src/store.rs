//! A small map from addresses to values, kept as a list in which no address
//! occurs twice.
use crate::address::Address;
use vstd::prelude::*;

verus! {

struct Slot<V> {
    address: Address,
    value: V,
}

/// Values under addresses. Its view is the map from each address in use to
/// its value.
pub struct Store<V> {
    slots: Vec<Slot<V>>,
}

spec fn distinct<V>(slots: Seq<Slot<V>>) -> bool {
    forall|i: int, j: int|
        0 <= i < j < slots.len() ==> (#[trigger] slots[i]).address != (#[trigger] slots[j]).address
}

spec fn holds<V>(slots: Seq<Slot<V>>, address: Address) -> bool {
    exists|i: int| 0 <= i < slots.len() && (#[trigger] slots[i]).address == address
}

spec fn index_of<V>(slots: Seq<Slot<V>>, address: Address) -> int {
    choose|i: int| 0 <= i < slots.len() && (#[trigger] slots[i]).address == address
}

spec fn contents<V>(slots: Seq<Slot<V>>) -> Map<Address, V> {
    Map::new(|a: Address| holds(slots, a), |a: Address| slots[index_of(slots, a)].value)
}

proof fn lemma_slot<V>(slots: Seq<Slot<V>>, i: int)
    requires
        distinct(slots),
        0 <= i < slots.len(),
    ensures
        holds(slots, slots[i].address),
        index_of(slots, slots[i].address) == i,
        contents(slots).dom().contains(slots[i].address),
        contents(slots)[slots[i].address] == slots[i].value,
{
    let j = index_of(slots, slots[i].address);
    assert(0 <= j < slots.len() && slots[j].address == slots[i].address);
}

proof fn lemma_absent<V>(slots: Seq<Slot<V>>, address: Address)
    requires
        forall|i: int| 0 <= i < slots.len() ==> (#[trigger] slots[i]).address != address,
    ensures
        !contents(slots).dom().contains(address),
{
}

proof fn lemma_push<V>(slots: Seq<Slot<V>>, slot: Slot<V>)
    requires
        distinct(slots),
        !contents(slots).dom().contains(slot.address),
    ensures
        distinct(slots.push(slot)),
        contents(slots.push(slot)) == contents(slots).insert(slot.address, slot.value),
{
    let after = slots.push(slot);
    let expected = contents(slots).insert(slot.address, slot.value);
    assert forall|i: int, j: int| 0 <= i < j < after.len() implies
        (#[trigger] after[i]).address != (#[trigger] after[j]).address
    by {
        if j == slots.len() {
            assert(after[i] == slots[i]);
            if slots[i].address == slot.address {
                assert(holds(slots, slot.address));
            }
        } else {
            assert(after[i] == slots[i] && after[j] == slots[j]);
        }
    }
    let n = slots.len() as int;
    assert(after[n] == slot);
    lemma_slot(after, n);
    assert forall|a: Address| #[trigger] contents(after).dom().contains(a) <==> expected.dom().contains(a)
    by {
        if holds(after, a) {
            let i = index_of(after, a);
            if i < n {
                assert(slots[i] == after[i]);
            }
        }
        if holds(slots, a) {
            let i = index_of(slots, a);
            assert(after[i] == slots[i]);
        }
    }
    assert forall|a: Address| #[trigger] contents(after).dom().contains(a) implies
        contents(after)[a] == expected[a]
    by {
        if a != slot.address {
            let i = index_of(slots, a);
            assert(after[i] == slots[i]);
            lemma_slot(slots, i);
            lemma_slot(after, i);
        }
    }
    assert(contents(after) =~= expected);
}

proof fn lemma_update<V>(slots: Seq<Slot<V>>, i: int, slot: Slot<V>)
    requires
        distinct(slots),
        0 <= i < slots.len(),
        slots[i].address == slot.address,
    ensures
        distinct(slots.update(i, slot)),
        contents(slots.update(i, slot)) == contents(slots).insert(slot.address, slot.value),
{
    let after = slots.update(i, slot);
    let expected = contents(slots).insert(slot.address, slot.value);
    assert forall|x: int, y: int| 0 <= x < y < after.len() implies
        (#[trigger] after[x]).address != (#[trigger] after[y]).address
    by {
        assert(after[x].address == slots[x].address);
        assert(after[y].address == slots[y].address);
    }
    lemma_slot(after, i);
    assert forall|a: Address| #[trigger] contents(after).dom().contains(a) <==> expected.dom().contains(a)
    by {
        if holds(after, a) {
            let x = index_of(after, a);
            assert(slots[x].address == after[x].address);
        }
        if holds(slots, a) {
            let x = index_of(slots, a);
            assert(after[x].address == slots[x].address);
        }
    }
    assert forall|a: Address| #[trigger] contents(after).dom().contains(a) implies
        contents(after)[a] == expected[a]
    by {
        if a != slot.address {
            let x = index_of(slots, a);
            assert(after[x] == slots[x]);
            lemma_slot(slots, x);
            lemma_slot(after, x);
        }
    }
    assert(contents(after) =~= expected);
}

proof fn lemma_remove<V>(slots: Seq<Slot<V>>, i: int)
    requires
        distinct(slots),
        0 <= i < slots.len(),
    ensures
        distinct(slots.remove(i)),
        contents(slots.remove(i)) == contents(slots).remove(slots[i].address),
{
    let after = slots.remove(i);
    let gone = slots[i].address;
    let expected = contents(slots).remove(gone);
    assert forall|x: int| 0 <= x < after.len() implies
        #[trigger] after[x] == slots[if x < i { x } else { x + 1 }]
    by {}
    assert forall|x: int, y: int| 0 <= x < y < after.len() implies
        (#[trigger] after[x]).address != (#[trigger] after[y]).address
    by {
        let ox = if x < i { x } else { x + 1 };
        let oy = if y < i { y } else { y + 1 };
        assert(after[x] == slots[ox] && after[y] == slots[oy]);
    }
    assert forall|a: Address| #[trigger] contents(after).dom().contains(a) <==> expected.dom().contains(a)
    by {
        if holds(after, a) {
            let x = index_of(after, a);
            let ox = if x < i { x } else { x + 1 };
            assert(after[x] == slots[ox]);
            lemma_slot(slots, ox);
            lemma_slot(slots, i);
        }
        if holds(slots, a) && a != gone {
            let ox = index_of(slots, a);
            let x = if ox < i { ox } else { ox - 1 };
            assert(after[x] == slots[ox]);
        }
    }
    assert forall|a: Address| #[trigger] contents(after).dom().contains(a) implies
        contents(after)[a] == expected[a]
    by {
        let x = index_of(after, a);
        let ox = if x < i { x } else { x + 1 };
        assert(after[x] == slots[ox]);
        lemma_slot(after, x);
        lemma_slot(slots, ox);
    }
    assert(contents(after) =~= expected);
}

impl<V> View for Store<V> {
    type V = Map<Address, V>;

    closed spec fn view(&self) -> Map<Address, V> {
        contents(self.slots@)
    }
}

impl<V: Copy> Store<V> {
    /// No address occurs twice.
    pub closed spec fn wf(&self) -> bool {
        distinct(self.slots@)
    }

    /// A store without values.
    pub fn new() -> (store: Store<V>)
        ensures
            store.wf(),
            store@ == Map::<Address, V>::empty(),
    {
        let store = Store { slots: Vec::new() };
        assert(store@ =~= Map::<Address, V>::empty());
        store
    }

    fn position(&self, address: &Address) -> (r: Option<usize>)
        requires
            self.wf(),
        ensures
            match r {
                Some(i) => {
                    &&& i < self.slots@.len()
                    &&& self.slots@[i as int].address == *address
                    &&& self@.dom().contains(*address)
                    &&& self@[*address] == self.slots@[i as int].value
                },
                None => !self@.dom().contains(*address),
            },
    {
        let mut i: usize = 0;
        while i < self.slots.len()
            invariant
                self.wf(),
                i <= self.slots@.len(),
                forall|j: int| 0 <= j < i ==> (#[trigger] self.slots@[j]).address != *address,
            decreases self.slots@.len() - i,
        {
            if self.slots[i].address == *address {
                proof {
                    lemma_slot(self.slots@, i as int);
                }
                return Some(i);
            }
            i += 1;
        }
        proof {
            lemma_absent(self.slots@, *address);
        }
        None
    }

    /// The value under the address, if there is one.
    pub fn get(&self, address: &Address) -> (r: Option<V>)
        requires
            self.wf(),
        ensures
            r == (if self@.dom().contains(*address) {
                Some(self@[*address])
            } else {
                None
            }),
    {
        match self.position(address) {
            Some(i) => Some(self.slots[i].value),
            None => None,
        }
    }

    /// Puts the value under the address, in place of any that was there.
    pub fn set(&mut self, address: Address, value: V)
        requires
            old(self).wf(),
        ensures
            final(self).wf(),
            final(self)@ == old(self)@.insert(address, value),
    {
        match self.position(&address) {
            Some(i) => {
                proof {
                    lemma_update(self.slots@, i as int, Slot { address, value });
                }
                self.slots.set(i, Slot { address, value });
            },
            None => {
                proof {
                    lemma_push(self.slots@, Slot { address, value });
                }
                self.slots.push(Slot { address, value });
            },
        }
    }

    /// Takes away what is under the address, if anything.
    pub fn remove(&mut self, address: &Address)
        requires
            old(self).wf(),
        ensures
            final(self).wf(),
            final(self)@ == old(self)@.remove(*address),
    {
        match self.position(address) {
            Some(i) => {
                proof {
                    lemma_remove(self.slots@, i as int);
                }
                self.slots.remove(i);
            },
            None => {
                assert(self@ =~= self@.remove(*address));
            },
        }
    }

    /// A copy of the store as it stands.
    pub fn snapshot(&self) -> (copy: Store<V>)
        requires
            self.wf(),
        ensures
            copy.wf(),
            copy@ == self@,
    {
        let mut slots: Vec<Slot<V>> = Vec::new();
        let mut i: usize = 0;
        while i < self.slots.len()
            invariant
                i <= self.slots@.len(),
                slots@ == self.slots@.subrange(0, i as int),
            decreases self.slots@.len() - i,
        {
            slots.push(Slot { address: self.slots[i].address, value: self.slots[i].value });
            assert(slots@ =~= self.slots@.subrange(0, i + 1));
            i += 1;
        }
        assert(slots@ =~= self.slots@);
        Store { slots }
    }
}

} // verus!
