//! A table of the last value seen per (channel, controller) pair.

use std::collections::HashMap;
use vstd::prelude::*;

verus! {

broadcast use vstd::std_specs::hash::group_hash_axioms;

/// The slot of a (channel, controller) pair in the table's storage.
pub open spec fn cc_slot(channel: u8, controller: u8) -> u16 {
    (channel as int * 256 + controller as int) as u16
}

/// The last value seen for each (channel, controller) pair.
#[derive(Debug)]
pub struct CcTable {
    values: HashMap<u16, u8>,
}

impl View for CcTable {
    type V = Map<(u8, u8), u8>;

    closed spec fn view(&self) -> Map<(u8, u8), u8> {
        Map::new(
            |k: (u8, u8)| self.values@.contains_key(cc_slot(k.0, k.1)),
            |k: (u8, u8)| self.values@[cc_slot(k.0, k.1)],
        )
    }
}

fn slot(channel: u8, controller: u8) -> (r: u16)
    ensures
        r == cc_slot(channel, controller),
{
    channel as u16 * 256 + controller as u16
}

proof fn lemma_slot_injective(a: (u8, u8), b: (u8, u8))
    ensures
        cc_slot(a.0, a.1) == cc_slot(b.0, b.1) ==> a == b,
{
}

impl CcTable {
    /// An empty table.
    pub fn new() -> (t: Self)
        ensures
            t@ == Map::<(u8, u8), u8>::empty(),
    {
        let t = CcTable { values: HashMap::new() };
        assert(t@ =~= Map::<(u8, u8), u8>::empty());
        t
    }

    /// The value last recorded for `(channel, controller)`.
    pub fn get(&self, channel: u8, controller: u8) -> (r: Option<u8>)
        ensures
            r == self@.get((channel, controller)),
    {
        let k = slot(channel, controller);
        match self.values.get(&k) {
            Some(v) => Some(*v),
            None => None,
        }
    }

    /// Records `value` for `(channel, controller)`.
    pub fn insert(&mut self, channel: u8, controller: u8, value: u8)
        ensures
            final(self)@ == old(self)@.insert((channel, controller), value),
    {
        let k = slot(channel, controller);
        self.values.insert(k, value);
        proof {
            assert forall|p: (u8, u8)| #[trigger] self@.contains_key(p) == old(self)@.insert(
                (channel, controller),
                value,
            ).contains_key(p) by {
                lemma_slot_injective(p, (channel, controller));
            }
            assert forall|p: (u8, u8)| #[trigger] self@.contains_key(p) implies self@[p] == old(
                self,
            )@.insert((channel, controller), value)[p] by {
                lemma_slot_injective(p, (channel, controller));
            }
        }
        assert(self@ =~= old(self)@.insert((channel, controller), value));
    }
}

/// Reading a pair gives back the value last recorded for it; recording one
/// pair leaves every other pair as it was.
pub proof fn read_after_record(
    values: Map<(u8, u8), u8>,
    channel: u8,
    controller: u8,
    value: u8,
    other: (u8, u8),
)
    ensures
        values.insert((channel, controller), value).get((channel, controller)) == Some(value),
        other != (channel, controller) ==> values.insert((channel, controller), value).get(other)
            == values.get(other),
{
}

} // verus!
