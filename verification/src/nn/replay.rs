//! Experience replay: a ring of transitions with a persistence cursor.

use vstd::prelude::*;
use crate::nn::params::STATE_SIZE;

verus! {

/// What an agent perceives on one tick, in fixed point.
pub type Observation = [i64; STATE_SIZE];

/// One step of experience.
#[derive(Clone, Copy, Debug)]
pub struct Transition {
    pub obs: Observation,
    pub action: usize,
    pub reward: i64,
    pub next_obs: Observation,
    pub done: bool,
}

/// The contents of a ring of capacity `cap` after `t` is stored into one
/// that held `s`, oldest first: a full ring gives up its oldest entry.
pub open spec fn stored(s: Seq<Transition>, cap: nat, t: Transition) -> Seq<Transition> {
    if s.len() < cap {
        s.push(t)
    } else {
        s.subrange(1, s.len() as int).push(t)
    }
}

/// The persistence cursor after one store into a ring that held `len`
/// entries: an evicted entry that was persisted takes the cursor back by one.
pub open spec fn cursor_after_store(cursor: nat, len: nat, cap: nat) -> nat {
    if len < cap || cursor == 0 {
        cursor
    } else {
        (cursor - 1) as nat
    }
}

/// The contents after every transition of `ts` is stored in turn.
pub open spec fn stored_all(s: Seq<Transition>, cap: nat, ts: Seq<Transition>) -> Seq<Transition>
    decreases ts.len(),
{
    if ts.len() == 0 {
        s
    } else {
        stored(stored_all(s, cap, ts.drop_last()), cap, ts.last())
    }
}

/// The last `cap` entries of `s`, or all of it where it is shorter.
pub open spec fn newest(s: Seq<Transition>, cap: nat) -> Seq<Transition> {
    if s.len() <= cap {
        s
    } else {
        s.subrange(s.len() - cap, s.len() as int)
    }
}

/// The observations of the transitions of `s` at `indices`.
pub open spec fn obs_at(s: Seq<Transition>, indices: Seq<usize>) -> Seq<Observation> {
    Seq::new(indices.len(), |k: int| s[indices[k] as int].obs)
}

/// The actions of the transitions of `s` at `indices`.
pub open spec fn actions_at(s: Seq<Transition>, indices: Seq<usize>) -> Seq<usize> {
    Seq::new(indices.len(), |k: int| s[indices[k] as int].action)
}

/// The rewards of the transitions of `s` at `indices`.
pub open spec fn rewards_at(s: Seq<Transition>, indices: Seq<usize>) -> Seq<i64> {
    Seq::new(indices.len(), |k: int| s[indices[k] as int].reward)
}

/// The next observations of the transitions of `s` at `indices`.
pub open spec fn next_obs_at(s: Seq<Transition>, indices: Seq<usize>) -> Seq<Observation> {
    Seq::new(indices.len(), |k: int| s[indices[k] as int].next_obs)
}

/// The done flags of the transitions of `s` at `indices`.
pub open spec fn dones_at(s: Seq<Transition>, indices: Seq<usize>) -> Seq<bool> {
    Seq::new(indices.len(), |k: int| s[indices[k] as int].done)
}

/// Fixed-capacity replay memory. Its view lists the transitions it holds,
/// oldest first.
pub struct ReplayBuffer {
    slots: Vec<Transition>,
    head: usize,
    capacity: usize,
    persisted: usize,
    persist_batch: usize,
}

impl View for ReplayBuffer {
    type V = Seq<Transition>;

    closed spec fn view(&self) -> Seq<Transition> {
        self.slots@.subrange(self.head as int, self.slots@.len() as int) + self.slots@.subrange(
            0,
            self.head as int,
        )
    }
}

impl ReplayBuffer {
    /// The invariant of the ring.
    pub closed spec fn wf(&self) -> bool {
        &&& 0 < self.capacity
        &&& self.slots@.len() <= self.capacity
        &&& self.head <= self.slots@.len()
        &&& self.slots@.len() < self.capacity ==> self.head == 0
        &&& self.slots@.len() == self.capacity ==> self.head < self.capacity
        &&& self.persisted <= self.slots@.len()
    }

    /// The most transitions that the ring holds.
    pub closed spec fn spec_capacity(&self) -> nat {
        self.capacity as nat
    }

    /// How many of the oldest transitions have been handed out for persistence.
    pub closed spec fn spec_persisted(&self) -> nat {
        self.persisted as nat
    }

    /// The count of unpersisted transitions above which a flush is due.
    pub closed spec fn spec_persist_batch(&self) -> nat {
        self.persist_batch as nat
    }

    /// The ring never holds more than its capacity, and its cursor never
    /// runs ahead of what it holds.
    pub proof fn lemma_never_over_capacity(&self)
        requires
            self.wf(),
        ensures
            self@.len() <= self.spec_capacity(),
            self.spec_persisted() <= self@.len(),
            0 < self.spec_capacity(),
    {
    }

    /// Whether the ring is well formed, for callers that cannot know.
    pub fn is_wf(&self) -> (ok: bool)
        ensures
            ok == self.wf(),
    {
        let len: usize = self.slots.len();
        0 < self.capacity && len <= self.capacity && self.head <= len && (len >= self.capacity
            || self.head == 0) && (len != self.capacity || self.head < self.capacity)
            && self.persisted <= len
    }

    /// An empty ring for `capacity` transitions, which asks to be flushed
    /// when more than `persist_batch` of them are unpersisted.
    pub fn new(capacity: usize, persist_batch: usize) -> (rb: Self)
        requires
            capacity > 0,
        ensures
            rb.wf(),
            rb@ == Seq::<Transition>::empty(),
            rb.spec_capacity() == capacity,
            rb.spec_persisted() == 0,
            rb.spec_persist_batch() == persist_batch,
    {
        let rb = ReplayBuffer { slots: Vec::new(), head: 0, capacity, persisted: 0, persist_batch };
        assert(rb@ =~= Seq::<Transition>::empty());
        rb
    }

    /// How many transitions the ring holds.
    pub fn len(&self) -> (n: usize)
        requires
            self.wf(),
        ensures
            n == self@.len(),
            n <= self.spec_capacity(),
    {
        self.slots.len()
    }

    /// The most transitions that the ring holds.
    pub fn capacity(&self) -> (n: usize)
        ensures
            n == self.spec_capacity(),
    {
        self.capacity
    }

    /// The count of unpersisted transitions above which a flush is due.
    pub fn persist_batch(&self) -> (n: usize)
        ensures
            n == self.spec_persist_batch(),
    {
        self.persist_batch
    }

    /// How many of the oldest transitions have been handed out by `persist`.
    pub fn persisted(&self) -> (n: usize)
        ensures
            n == self.spec_persisted(),
    {
        self.persisted
    }

    /// Appends a transition; a full ring overwrites its oldest.
    pub fn store(
        &mut self,
        obs: Observation,
        action: usize,
        reward: i64,
        next_obs: Observation,
        done: bool,
    )
        requires
            old(self).wf(),
        ensures
            final(self).wf(),
            final(self)@ == stored(
                old(self)@,
                old(self).spec_capacity(),
                Transition { obs, action, reward, next_obs, done },
            ),
            final(self).spec_capacity() == old(self).spec_capacity(),
            final(self).spec_persist_batch() == old(self).spec_persist_batch(),
            final(self).spec_persisted() == cursor_after_store(
                old(self).spec_persisted(),
                old(self)@.len(),
                old(self).spec_capacity(),
            ),
    {
        let t = Transition { obs, action, reward, next_obs, done };
        let ghost before = self.slots@;
        let ghost head = self.head as int;
        if self.slots.len() < self.capacity {
            self.slots.push(t);
            assert(self@ =~= stored(old(self)@, old(self).spec_capacity(), t));
        } else {
            self.slots[self.head] = t;
            self.head = if self.head + 1 == self.capacity {
                0
            } else {
                self.head + 1
            };
            if self.persisted > 0 {
                self.persisted = self.persisted - 1;
            }
            assert(self.slots@ =~= before.update(head, t));
            assert(self@ =~= stored(old(self)@, old(self).spec_capacity(), t));
        }
    }

    /// Whether more transitions wait for persistence than the configured batch.
    pub fn should_persist(&self) -> (due: bool)
        requires
            self.wf(),
        ensures
            due == (self@.len() - self.spec_persisted() > self.spec_persist_batch()),
    {
        self.slots.len() - self.persisted > self.persist_batch
    }

    /// The transition at `index`, counted from the oldest.
    pub fn get(&self, index: usize) -> (t: Transition)
        requires
            self.wf(),
            index < self@.len(),
        ensures
            t == self@[index as int],
    {
        let tail: usize = self.slots.len() - self.head;
        if index < tail {
            self.slots[self.head + index]
        } else {
            self.slots[index - tail]
        }
    }

    /// Hands out the transitions not yet persisted, oldest first, and moves
    /// the cursor past them. The ring does not wait for the sender: one that
    /// fails keeps the batch and sends it again, or drops it.
    pub fn persist(&mut self) -> (batch: Vec<Transition>)
        requires
            old(self).wf(),
        ensures
            final(self).wf(),
            final(self)@ == old(self)@,
            batch@ == old(self)@.subrange(old(self).spec_persisted() as int, old(self)@.len() as int),
            final(self).spec_persisted() == old(self)@.len(),
            final(self).spec_capacity() == old(self).spec_capacity(),
            final(self).spec_persist_batch() == old(self).spec_persist_batch(),
    {
        let mut batch: Vec<Transition> = Vec::new();
        let n: usize = self.slots.len();
        let first: usize = self.persisted;
        let mut i: usize = first;
        while i < n
            invariant
                self.wf(),
                *self == *old(self),
                n == self@.len(),
                first == self.spec_persisted(),
                first <= i <= n,
                batch@ == self@.subrange(first as int, i as int),
            decreases n - i,
        {
            let t = self.get(i);
            batch.push(t);
            i = i + 1;
            assert(batch@ =~= self@.subrange(first as int, i as int));
        }
        self.persisted = n;
        batch
    }

    /// The transitions at `indices`, split into five parallel arrays:
    /// observations, actions, rewards, next observations and done flags.
    pub fn get_batch_tensors(&self, indices: &Vec<usize>) -> (batch: (
        Vec<Observation>,
        Vec<usize>,
        Vec<i64>,
        Vec<Observation>,
        Vec<bool>,
    ))
        requires
            self.wf(),
            forall|k: int| 0 <= k < indices@.len() ==> indices@[k] < self@.len(),
        ensures
            batch.0@.len() == indices@.len(),
            batch.1@.len() == indices@.len(),
            batch.2@.len() == indices@.len(),
            batch.3@.len() == indices@.len(),
            batch.4@.len() == indices@.len(),
            batch.0@ == obs_at(self@, indices@),
            batch.1@ == actions_at(self@, indices@),
            batch.2@ == rewards_at(self@, indices@),
            batch.3@ == next_obs_at(self@, indices@),
            batch.4@ == dones_at(self@, indices@),
    {
        let mut obs: Vec<Observation> = Vec::new();
        let mut actions: Vec<usize> = Vec::new();
        let mut rewards: Vec<i64> = Vec::new();
        let mut next_obs: Vec<Observation> = Vec::new();
        let mut dones: Vec<bool> = Vec::new();
        let n: usize = indices.len();
        let mut i: usize = 0;
        while i < n
            invariant
                self.wf(),
                n == indices@.len(),
                i <= n,
                forall|k: int| 0 <= k < indices@.len() ==> indices@[k] < self@.len(),
                obs@ == obs_at(self@, indices@.subrange(0, i as int)),
                actions@ == actions_at(self@, indices@.subrange(0, i as int)),
                rewards@ == rewards_at(self@, indices@.subrange(0, i as int)),
                next_obs@ == next_obs_at(self@, indices@.subrange(0, i as int)),
                dones@ == dones_at(self@, indices@.subrange(0, i as int)),
            decreases n - i,
        {
            let t = self.get(indices[i]);
            obs.push(t.obs);
            actions.push(t.action);
            rewards.push(t.reward);
            next_obs.push(t.next_obs);
            dones.push(t.done);
            i = i + 1;
            assert(obs@ =~= obs_at(self@, indices@.subrange(0, i as int)));
            assert(actions@ =~= actions_at(self@, indices@.subrange(0, i as int)));
            assert(rewards@ =~= rewards_at(self@, indices@.subrange(0, i as int)));
            assert(next_obs@ =~= next_obs_at(self@, indices@.subrange(0, i as int)));
            assert(dones@ =~= dones_at(self@, indices@.subrange(0, i as int)));
        }
        assert(indices@.subrange(0, n as int) =~= indices@);
        (obs, actions, rewards, next_obs, dones)
    }
}

/// Storing never takes a ring over its capacity.
pub proof fn lemma_stored_within_capacity(s: Seq<Transition>, cap: nat, t: Transition)
    requires
        0 < cap,
        s.len() <= cap,
    ensures
        stored(s, cap, t).len() <= cap,
        stored(s, cap, t).len() >= s.len(),
        stored(s, cap, t).last() == t,
{
}

/// Ring semantics: whatever sequence of transitions is stored, the ring then
/// holds the newest of everything it was given, up to its capacity, in the
/// order of arrival. The entries that left are the oldest ones.
pub proof fn lemma_stored_all_keeps_newest(s: Seq<Transition>, cap: nat, ts: Seq<Transition>)
    requires
        0 < cap,
        s.len() <= cap,
    ensures
        stored_all(s, cap, ts) == newest(s + ts, cap),
        stored_all(s, cap, ts).len() <= cap,
    decreases ts.len(),
{
    if ts.len() == 0 {
        assert(s + ts =~= s);
    } else {
        let front = ts.drop_last();
        let t = ts.last();
        lemma_stored_all_keeps_newest(s, cap, front);
        let r = stored_all(s, cap, front);
        assert(s + ts =~= (s + front).push(t));
        assert(stored(r, cap, t) =~= newest(s + ts, cap));
    }
}

} // verus!
