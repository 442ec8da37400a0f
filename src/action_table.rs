use vstd::prelude::*;

use std::collections::HashMap;

use crate::action::{Action, ActionPacket};
use crate::tick::Tick;

verus! {

broadcast use vstd::std_specs::hash::group_hash_axioms;

/// The actions waiting in table `m` for tick `t`, in submission order.
pub open spec fn pending(m: Map<u64, Seq<Action>>, t: u64) -> Seq<Action> {
    if m.contains_key(t) {
        m[t]
    } else {
        Seq::empty()
    }
}

/// Table `m` after `a` was submitted for tick `t`.
pub open spec fn submitted(m: Map<u64, Seq<Action>>, t: u64, a: Action) -> Map<u64, Seq<Action>> {
    m.insert(t, pending(m, t).push(a))
}

/// Table `m` after each packet of `ps` was submitted, first to last.
pub open spec fn submitted_all(m: Map<u64, Seq<Action>>, ps: Seq<ActionPacket>) -> Map<
    u64,
    Seq<Action>,
>
    decreases ps.len(),
{
    if ps.len() == 0 {
        m
    } else {
        let last = ps.last();
        submitted(submitted_all(m, ps.drop_last()), last.tick.0, last.action)
    }
}

/// The actions of the packets of `ps` that are tagged with tick `t`, in order.
pub open spec fn actions_for(ps: Seq<ActionPacket>, t: u64) -> Seq<Action>
    decreases ps.len(),
{
    if ps.len() == 0 {
        Seq::empty()
    } else {
        let last = ps.last();
        if last.tick.0 == t {
            actions_for(ps.drop_last(), t).push(last.action)
        } else {
            actions_for(ps.drop_last(), t)
        }
    }
}

/// Table `m` after tick `t` was drained.
pub open spec fn drained(m: Map<u64, Seq<Action>>, t: u64) -> Map<u64, Seq<Action>> {
    m.remove(t)
}

/// Pending actions, keyed by the tick at which they must be applied. Entries
/// for later ticks are kept however far ahead they lie.
pub struct ActionTable {
    entries: HashMap<u64, Vec<Action>>,
}

impl View for ActionTable {
    type V = Map<u64, Seq<Action>>;

    closed spec fn view(&self) -> Map<u64, Seq<Action>> {
        Map::new(|t: u64| self.entries@.contains_key(t), |t: u64| self.entries@[t]@)
    }
}

impl ActionTable {
    /// An empty table.
    pub fn new() -> (r: ActionTable)
        ensures
            r@ == Map::<u64, Seq<Action>>::empty(),
    {
        let r = ActionTable { entries: HashMap::new() };
        assert(r@ =~= Map::<u64, Seq<Action>>::empty());
        r
    }

    /// Appends `action` to the actions waiting for `tick`.
    pub fn submit(&mut self, tick: Tick, action: Action)
        ensures
            final(self)@ == submitted(old(self)@, tick.0, action),
    {
        let mut list = match self.entries.remove(&tick.0) {
            Some(v) => v,
            None => Vec::new(),
        };
        list.push(action);
        self.entries.insert(tick.0, list);
        assert(self@ =~= submitted(old(self)@, tick.0, action));
    }

    /// Submits each packet, first to last, for the tick that it is tagged with.
    pub fn submit_packets(&mut self, packets: &Vec<ActionPacket>)
        ensures
            final(self)@ == submitted_all(old(self)@, packets@),
    {
        let mut i: usize = 0;
        while i < packets.len()
            invariant
                i <= packets@.len(),
                self@ == submitted_all(old(self)@, packets@.take(i as int)),
            decreases packets@.len() - i,
        {
            let p = packets[i];
            self.submit(p.tick, p.action);
            assert(packets@.take(i + 1).drop_last() =~= packets@.take(i as int));
            i += 1;
        }
        assert(packets@.take(i as int) =~= packets@);
    }

    /// Removes and returns the actions waiting for `tick`, in submission
    /// order; empty if there are none.
    pub fn drain(&mut self, tick: Tick) -> (r: Vec<Action>)
        ensures
            r@ == pending(old(self)@, tick.0),
            final(self)@ == drained(old(self)@, tick.0),
    {
        let r = match self.entries.remove(&tick.0) {
            Some(v) => v,
            None => Vec::new(),
        };
        assert(self@ =~= drained(old(self)@, tick.0));
        r
    }

    /// The actions waiting for `tick`, in submission order.
    pub fn pending(&self, tick: Tick) -> (r: Vec<Action>)
        ensures
            r@ == pending(self@, tick.0),
    {
        let mut r: Vec<Action> = Vec::new();
        match self.entries.get(&tick.0) {
            Some(v) => {
                let mut i: usize = 0;
                while i < v.len()
                    invariant
                        i <= v@.len(),
                        r@ == v@.take(i as int),
                    decreases v@.len() - i,
                {
                    r.push(v[i]);
                    assert(v@.take(i + 1) =~= v@.take(i as int).push(v@[i as int]));
                    i += 1;
                }
                assert(v@.take(i as int) =~= v@);
            },
            None => {},
        }
        r
    }
}

} // verus!

verus! {

/// After a stream of packets is submitted, the actions waiting for a tick are
/// those that waited before, followed by the stream's actions tagged with that
/// tick, in the order of the stream.
pub proof fn lemma_pending_after_submit_all(m: Map<u64, Seq<Action>>, ps: Seq<ActionPacket>, t: u64)
    ensures
        pending(submitted_all(m, ps), t) == pending(m, t) + actions_for(ps, t),
    decreases ps.len(),
{
    if ps.len() == 0 {
        assert(pending(m, t) + actions_for(ps, t) =~= pending(m, t));
    } else {
        lemma_pending_after_submit_all(m, ps.drop_last(), t);
        let last = ps.last();
        if last.tick.0 == t {
            assert(pending(m, t) + actions_for(ps.drop_last(), t).push(last.action) =~= (pending(
                m,
                t,
            ) + actions_for(ps.drop_last(), t)).push(last.action));
        }
    }
}

/// Two producers feed one table, one stream after the other. Draining a tick
/// then yields what waited for it before, then the first stream's actions for
/// it, then the second's, each stream in its own order; a second look at the
/// same tick finds nothing.
pub proof fn lemma_two_producers_drain(
    m: Map<u64, Seq<Action>>,
    local: Seq<ActionPacket>,
    external: Seq<ActionPacket>,
    t: u64,
)
    ensures
        pending(submitted_all(submitted_all(m, local), external), t) == pending(m, t) + actions_for(
            local,
            t,
        ) + actions_for(external, t),
        pending(drained(submitted_all(submitted_all(m, local), external), t), t) == Seq::<
            Action,
        >::empty(),
{
    lemma_pending_after_submit_all(m, local, t);
    lemma_pending_after_submit_all(submitted_all(m, local), external, t);
}

/// Submitting packets adds a key to the table only for a tick that one of
/// them is tagged with.
pub proof fn lemma_submitted_keys(m: Map<u64, Seq<Action>>, ps: Seq<ActionPacket>, t: u64)
    ensures
        submitted_all(m, ps).contains_key(t) ==> m.contains_key(t) || actions_for(ps, t).len() > 0,
    decreases ps.len(),
{
    if ps.len() > 0 {
        lemma_submitted_keys(m, ps.drop_last(), t);
    }
}

/// Draining the same tick a second time, with nothing submitted in between,
/// yields nothing and leaves the table as the first drain left it.
pub proof fn lemma_drain_idempotent(m: Map<u64, Seq<Action>>, t: u64)
    ensures
        pending(drained(m, t), t) == Seq::<Action>::empty(),
        drained(drained(m, t), t) == drained(m, t),
{
    assert(drained(drained(m, t), t) =~= drained(m, t));
}

} // verus!
