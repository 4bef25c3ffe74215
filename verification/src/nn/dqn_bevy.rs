//! The state that the trainer keeps between ticks, for a simulation to hold
//! as resources of its world: what each car did last, and the clock,
//! counters, exploration rate and replay memory of the run.

use std::collections::HashMap;
use vstd::prelude::*;
use crate::fixed::ONE;
use crate::nn::observe::{blank, blank_observation};
use crate::nn::params::RESPAWN_DELAY;
use crate::nn::replay::{Observation, ReplayBuffer, Transition};

verus! {

broadcast use vstd::std_specs::hash::group_hash_axioms;

/// What a car observed and did on its last decision tick. The reward for
/// that action is only known one tick later, so it is carried over.
#[derive(Clone, Copy, Debug)]
pub struct CarDqnResource {
    pub prev_obs: Observation,
    pub prev_action: usize,
    pub prev_reward: i64,
}

impl CarDqnResource {
    /// Nothing observed and nothing done yet.
    pub open spec fn is_fresh(&self) -> bool {
        blank(self.prev_obs) && self.prev_action == 0 && self.prev_reward == 0
    }

    /// The carried state of a car that has not decided yet.
    pub fn new() -> (fresh: Self)
        ensures
            fresh.is_fresh(),
    {
        CarDqnResource { prev_obs: blank_observation(), prev_action: 0, prev_reward: 0 }
    }
}

/// The carried state of every car in the simulation, by the car's id.
pub struct CarDqnResources {
    pub cars: HashMap<u64, CarDqnResource>,
}

impl View for CarDqnResources {
    type V = Map<u64, CarDqnResource>;

    open spec fn view(&self) -> Map<u64, CarDqnResource> {
        self.cars@
    }
}

impl CarDqnResources {
    /// A table with no car entered.
    pub fn new() -> (table: Self)
        ensures
            table@ == Map::<u64, CarDqnResource>::empty(),
    {
        CarDqnResources { cars: HashMap::new() }
    }

    /// Enters a car that has just been spawned, with nothing carried.
    pub fn add_car(&mut self, car_id: u64)
        ensures
            final(self)@.contains_key(car_id),
            final(self)@[car_id].is_fresh(),
            final(self)@ == old(self)@.insert(car_id, final(self)@[car_id]),
    {
        self.cars.insert(car_id, CarDqnResource::new());
    }

    /// Forgets a car that has left the simulation.
    pub fn del_car(&mut self, car_id: &u64)
        ensures
            final(self)@ == old(self)@.remove(*car_id),
    {
        self.cars.remove(car_id);
    }

    /// What the car carries, where it is entered.
    pub open spec fn carried(&self, car_id: u64) -> Option<CarDqnResource> {
        if self@.contains_key(car_id) {
            Some(self@[car_id])
        } else {
            None
        }
    }

    /// What the car carries; a car that was never entered carries nothing.
    pub fn prev(&self, car_id: u64) -> (carried: CarDqnResource)
        ensures
            match self.carried(car_id) {
                Some(c) => carried == c,
                None => carried.is_fresh(),
            },
    {
        match self.cars.get(&car_id) {
            Some(c) => *c,
            None => CarDqnResource::new(),
        }
    }

    /// Replaces what the car carries.
    pub fn remember(&mut self, car_id: u64, carried: CarDqnResource)
        ensures
            final(self)@ == old(self)@.insert(car_id, carried),
    {
        self.cars.insert(car_id, carried);
    }
}

/// What the trainer is set up with.
#[derive(Clone, Copy, Debug)]
pub struct DqnParams {
    /// Transitions in a minibatch.
    pub batch_size: usize,
    /// Capacity of the replay memory.
    pub buffer_size: usize,
    /// Unpersisted transitions above which the memory is flushed.
    pub persist_batch_size: usize,
    /// Gradient steps on one minibatch per training round.
    pub epochs: usize,
    /// Decision steps between two copies of the online network into the
    /// target network.
    pub sync_interval_steps: usize,
    /// Microseconds between two decision ticks.
    pub step_duration: u64,
    /// What a training round takes off the exploration rate.
    pub decay: i64,
    /// The speed, in fixed-point metres per second, that earns full reward.
    pub speed_limit: i64,
}

impl DqnParams {
    /// The memory has room, the sync interval is no empty one, and the
    /// exploration rate is not made to rise.
    pub open spec fn valid(&self) -> bool {
        &&& self.buffer_size > 0
        &&& self.sync_interval_steps > 0
        &&& self.decay >= 0
    }

    /// Whether the parameters are valid, for callers that cannot know.
    pub fn is_valid(&self) -> (ok: bool)
        ensures
            ok == self.valid(),
    {
        self.buffer_size > 0 && self.sync_interval_steps > 0 && self.decay >= 0
    }
}

/// A respawn that a crash has scheduled.
#[derive(Clone, Copy, Debug)]
pub struct Respawn {
    /// When the car crashed, in microseconds.
    pub crashed_at: u64,
    /// The track index of the car that crashed.
    pub index: usize,
    /// Whether it was the car that the training follows.
    pub is_hid: bool,
}

impl Respawn {
    /// The time after which the car comes back.
    pub open spec fn due_at(&self) -> int {
        self.crashed_at + RESPAWN_DELAY
    }
}

/// The floor of the exploration rate.
pub const MIN_EPS: i64 = 10_000;

/// The state of the training run.
pub struct DqnResource {
    pub params: DqnParams,
    /// When the last decision tick was, if there has been one.
    pub decided_at: Option<u64>,
    /// Decision ticks so far.
    pub step: usize,
    /// Crashes so far.
    pub crashes: usize,
    pub rb: ReplayBuffer,
    /// The exploration rate, between `min_eps` and `max_eps`.
    pub eps: i64,
    pub max_eps: i64,
    pub min_eps: i64,
    /// The respawn that is pending, if one is.
    pub respawn: Option<Respawn>,
    /// Whether the policy drives the cars and their experience is recorded.
    pub use_brain: bool,
}

impl DqnResource {
    pub open spec fn wf(&self) -> bool {
        &&& self.params.valid()
        &&& self.rb.wf()
        &&& self.rb.spec_capacity() == self.params.buffer_size
        &&& self.rb.spec_persist_batch() == self.params.persist_batch_size
        &&& self.min_eps <= self.eps <= self.max_eps
    }

    /// Whether the state is well formed, for callers that cannot know.
    pub fn is_wf(&self) -> (ok: bool)
        ensures
            ok == self.wf(),
    {
        self.params.is_valid() && self.rb.is_wf() && self.rb.capacity() == self.params.buffer_size
            && self.rb.persist_batch() == self.params.persist_batch_size && self.min_eps
            <= self.eps && self.eps <= self.max_eps
    }

    /// The time after which the next decision tick comes.
    pub open spec fn next_decision(&self) -> int {
        match self.decided_at {
            Some(at) => at + self.params.step_duration,
            None => 0,
        }
    }

    /// A run that has not begun: full exploration, an empty memory, no tick
    /// decided and no respawn pending.
    pub fn new(params: DqnParams, use_brain: bool) -> (dqn: Self)
        requires
            params.valid(),
        ensures
            dqn.wf(),
            dqn.params == params,
            dqn.decided_at is None,
            dqn.step == 0,
            dqn.crashes == 0,
            dqn.rb@ == Seq::<Transition>::empty(),
            dqn.rb.spec_persisted() == 0,
            dqn.eps == ONE,
            dqn.max_eps == ONE,
            dqn.min_eps == MIN_EPS,
            dqn.respawn is None,
            dqn.use_brain == use_brain,
    {
        DqnResource {
            params,
            decided_at: None,
            step: 0,
            crashes: 0,
            rb: ReplayBuffer::new(params.buffer_size, params.persist_batch_size),
            eps: ONE,
            max_eps: ONE,
            min_eps: MIN_EPS,
            respawn: None,
            use_brain,
        }
    }
}

} // verus!
