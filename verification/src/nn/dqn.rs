//! The training tick: what the trainer decides between what the simulation
//! reports and what it is told to do next.

use vstd::prelude::*;
use crate::car::Car;
use crate::fixed::{trunc_div, ONE};
use crate::nn::dqn_bevy::{
    CarDqnResource, CarDqnResources, DqnParams, DqnResource, Respawn, MIN_EPS,
};
use crate::nn::observe::{
    blank, build_observation, cosine_or_aligned, is_blank, normalized_speed, reward_spec,
    shape_reward, Motion,
};
use crate::nn::params::{GAMMA, RESPAWN_DELAY, SENSOR_COUNT, STATE_SIZE_BASE};
use crate::nn::replay::{
    actions_at, cursor_after_store, dones_at, next_obs_at, obs_at, rewards_at, stored,
    Observation, Transition,
};
use crate::nn::util::{choose_action, is_choice, levers_of, map_action_to_car, random_below, Dice};

verus! {

/// An order to put a car on the track.
#[derive(Clone, Copy, Debug)]
pub struct SpawnOrder {
    /// The car's track index.
    pub index: usize,
    /// Whether it is the car that the training follows.
    pub is_hid: bool,
}

/// How a tick begins.
#[derive(Clone, Copy, Debug)]
pub enum TickStart {
    /// A respawn has come due: the car is to be spawned, and nothing else
    /// happens on this tick.
    Respawn(SpawnOrder),
    /// The cars are to be looked at, on a decision tick or between two.
    Run { should_act: bool },
}

/// One more, up to the largest count.
pub open spec fn bump(n: usize) -> usize {
    if n < usize::MAX {
        (n + 1) as usize
    } else {
        n
    }
}

fn bumped(n: usize) -> (m: usize)
    ensures
        m == bump(n),
{
    if n < usize::MAX {
        n + 1
    } else {
        n
    }
}

/// The pending respawn has come due.
pub open spec fn respawn_due(respawn: Option<Respawn>, now: u64) -> bool {
    respawn matches Some(r) && now > r.due_at()
}

/// The state that a run starts in: nothing decided or learned yet, and no
/// car entered.
pub fn dqn_start_system(params: DqnParams, use_brain: bool) -> (state: (
    DqnResource,
    CarDqnResources,
))
    requires
        params.valid(),
    ensures
        state.0.wf(),
        state.0.params == params,
        state.0.decided_at is None,
        state.0.step == 0,
        state.0.crashes == 0,
        state.0.rb@ == Seq::<Transition>::empty(),
        state.0.rb.spec_persisted() == 0,
        state.0.eps == ONE,
        state.0.max_eps == ONE,
        state.0.min_eps == MIN_EPS,
        state.0.respawn is None,
        state.0.use_brain == use_brain,
        state.1@ == Map::<u64, CarDqnResource>::empty(),
{
    (DqnResource::new(params, use_brain), CarDqnResources::new())
}

/// The cars that a run starts with: one per track index, the first of them
/// the car that the training follows.
pub fn car_start_system(cars_count: usize) -> (orders: Vec<SpawnOrder>)
    ensures
        orders@.len() == cars_count,
        forall|i: int|
            0 <= i < cars_count ==> orders@[i] == (SpawnOrder { index: i as usize, is_hid: i == 0 }),
{
    let mut orders: Vec<SpawnOrder> = Vec::new();
    let mut i: usize = 0;
    while i < cars_count
        invariant
            i <= cars_count,
            orders@.len() == i,
            forall|k: int|
                0 <= k < i ==> orders@[k] == (SpawnOrder { index: k as usize, is_hid: k == 0 }),
        decreases cars_count - i,
    {
        orders.push(SpawnOrder { index: i, is_hid: i == 0 });
        i = i + 1;
    }
    orders
}

/// How the tick at time `now` begins: with the respawn where one has come
/// due, else with a run that is a decision tick where the clock has passed
/// `next_decision`.
pub open spec fn tick_start(respawn: Option<Respawn>, next_decision: int, now: u64) -> TickStart {
    if respawn_due(respawn, now) {
        TickStart::Respawn(SpawnOrder { index: respawn->0.index, is_hid: respawn->0.is_hid })
    } else {
        TickStart::Run { should_act: now > next_decision }
    }
}

/// The state after the tick at time `now` has begun. A respawn that is
/// handed out is no longer pending, and switches the policy on; a decision
/// tick is timed and counted; any other tick changes nothing.
pub open spec fn begun(dqn: DqnResource, now: u64) -> DqnResource {
    if respawn_due(dqn.respawn, now) {
        DqnResource { respawn: None, use_brain: true, ..dqn }
    } else if now > dqn.next_decision() {
        DqnResource { decided_at: Some(now), step: bump(dqn.step), ..dqn }
    } else {
        dqn
    }
}

/// Opens a tick at time `now`, in microseconds.
pub fn begin_tick(dqn: &mut DqnResource, now: u64) -> (start: TickStart)
    requires
        old(dqn).wf(),
    ensures
        final(dqn).wf(),
        start == tick_start(old(dqn).respawn, old(dqn).next_decision(), now),
        *final(dqn) == begun(*old(dqn), now),
{
    if let Some(r) = dqn.respawn {
        if now > r.crashed_at && now - r.crashed_at > RESPAWN_DELAY {
            dqn.respawn = None;
            dqn.use_brain = true;
            return TickStart::Respawn(SpawnOrder { index: r.index, is_hid: r.is_hid });
        }
    }
    let should_act: bool = match dqn.decided_at {
        Some(at) => now > at && now - at > dqn.params.step_duration,
        None => now > 0,
    };
    if should_act {
        dqn.decided_at = Some(now);
        dqn.step = bumped(dqn.step);
    }
    TickStart::Run { should_act }
}

/// What the simulation reports of one car on one tick.
#[derive(Clone, Copy, Debug)]
pub struct Sighting {
    pub car_id: u64,
    /// Whether this is the car that the training follows.
    pub is_hid: bool,
    /// Whether it has hit something that is not the road.
    pub crash: bool,
    pub obs: Observation,
    /// The reward for the action it took last.
    pub reward: i64,
}

/// What a tick tells the learner about one car: whether it crashed, what it
/// observes now, and the reward for the action it took last.
pub fn look(
    car: &Car,
    car_id: u64,
    is_hid: bool,
    crash: bool,
    motion: &Motion,
    speed_limit: i64,
) -> (sighting: Sighting)
    requires
        car.sensor_inputs@.len() == SENSOR_COUNT,
    ensures
        sighting.car_id == car_id,
        sighting.is_hid == is_hid,
        sighting.crash == crash,
        sighting.obs@[0] == normalized_speed(motion.speed as int),
        sighting.obs@[1] == cosine_or_aligned(motion.vel_cos),
        sighting.obs@[2] == cosine_or_aligned(motion.pos_cos),
        forall|i: int|
            0 <= i < SENSOR_COUNT ==> sighting.obs@[STATE_SIZE_BASE + i] == car.sensor_inputs@[i],
        sighting.reward == reward_spec(
            crash,
            motion.speed as int,
            speed_limit as int,
            cosine_or_aligned(motion.vel_cos) as int,
            cosine_or_aligned(motion.pos_cos) as int,
            motion.lateral as int,
        ),
{
    let vel_cos: i64 = match motion.vel_cos {
        Some(c) => c,
        None => ONE,
    };
    let pos_cos: i64 = match motion.pos_cos {
        Some(c) => c,
        None => ONE,
    };
    let reward = shape_reward(crash, motion.speed, speed_limit, vel_cos, pos_cos, motion.lateral);
    let obs = build_observation(motion.speed, vel_cos, pos_cos, &car.sensor_inputs);
    Sighting { car_id, is_hid, crash, obs, reward }
}

/// What the trainer has decided for one car on one tick.
#[derive(Debug)]
pub struct CarTick {
    /// The action chosen for the car.
    pub action: usize,
    /// Whether it was chosen at random.
    pub exploration: bool,
    /// Transitions to send to storage, where a flush fell due.
    pub persist: Option<Vec<Transition>>,
    /// Whether the car and its wheels are to leave the simulation.
    pub despawn: bool,
    /// Whether the car's controls were set from the action.
    pub steer: bool,
    /// Whether a training round is to run now.
    pub train: bool,
}

/// The transition that this tick completes, if it completes one: the policy
/// is on, the tick is a decision tick or ends in a crash, and the car
/// carries an observation from its last decision.
pub open spec fn recorded(
    use_brain: bool,
    carried: Option<CarDqnResource>,
    sighting: Sighting,
    should_act: bool,
) -> Option<Transition> {
    match carried {
        Some(prev) => if use_brain && (should_act || sighting.crash) && !blank(prev.prev_obs) {
            Some(
                Transition {
                    obs: prev.prev_obs,
                    action: prev.prev_action,
                    reward: sighting.reward,
                    next_obs: sighting.obs,
                    done: sighting.crash,
                },
            )
        } else {
            None
        },
        None => None,
    }
}

/// The replay memory after the tick's transition, if any, is stored.
pub open spec fn memory_after(
    before: Seq<Transition>,
    capacity: nat,
    recorded: Option<Transition>,
) -> Seq<Transition> {
    match recorded {
        Some(t) => stored(before, capacity, t),
        None => before,
    }
}

/// The persistence cursor after the tick's transition, if any, is stored
/// and before a flush.
pub open spec fn cursor_after(
    cursor: nat,
    len: nat,
    capacity: nat,
    recorded: Option<Transition>,
) -> nat {
    match recorded {
        Some(_) => cursor_after_store(cursor, len, capacity),
        None => cursor,
    }
}

/// Whether the policy steers a car on this tick: it is switched on, the
/// tick is a decision tick, and the car has not crashed.
pub open spec fn steers(use_brain: bool, should_act: bool, crash: bool) -> bool {
    use_brain && should_act && !crash
}

/// What one car's part of a tick comes to, given the dice: the state before
/// and after, and what is handed back.
///
/// The transition that the tick completes is stored, and the unpersisted
/// transitions are handed out where that store made a flush due. An action
/// is chosen from the scores. On a decision tick without a crash the car
/// carries the observation and the action forward, and where the policy is
/// on its controls are set. A crash is counted, schedules the respawn
/// (replacing one that is pending), switches the policy off and takes the
/// car out. A training round is due where the car is steered, is the one
/// that the training follows, and the memory holds a minibatch.
pub open spec fn car_tick_post(
    dqn: DqnResource,
    dqn_after: DqnResource,
    cars: CarDqnResources,
    cars_after: CarDqnResources,
    car: Car,
    car_after: Car,
    sighting: Sighting,
    scores: Seq<i64>,
    should_act: bool,
    now: u64,
    dice: Dice,
    tick: CarTick,
) -> bool {
    let rec = recorded(dqn.use_brain, cars.carried(sighting.car_id), sighting, should_act);
    let cursor = cursor_after(
        dqn.rb.spec_persisted(),
        dqn.rb@.len(),
        dqn.rb.spec_capacity(),
        rec,
    );
    let levers = levers_of(tick.action as int);
    // the replay memory
    &&& dqn_after.rb@ == memory_after(dqn.rb@, dqn.rb.spec_capacity(), rec)
    &&& tick.persist is Some <==> rec is Some && dqn_after.rb@.len() - cursor
        > dqn.params.persist_batch_size
    &&& tick.persist matches Some(batch) ==> batch@ == dqn_after.rb@.subrange(
        cursor as int,
        dqn_after.rb@.len() as int,
    )
    &&& dqn_after.rb.spec_persisted() == if tick.persist is Some {
        dqn_after.rb@.len()
    } else {
        cursor
    }
    // the choice
    &&& is_choice(scores, dqn.eps, dice, tick.action, tick.exploration)
    // what the car carries
    &&& cars_after@ == if sighting.crash {
        cars@.remove(sighting.car_id)
    } else if should_act {
        cars@.insert(
            sighting.car_id,
            CarDqnResource {
                prev_obs: sighting.obs,
                prev_action: tick.action,
                prev_reward: sighting.reward,
            },
        )
    } else {
        cars@
    }
    // the crash
    &&& tick.despawn == sighting.crash
    &&& dqn_after.crashes == if sighting.crash {
        bump(dqn.crashes)
    } else {
        dqn.crashes
    }
    &&& dqn_after.respawn == if sighting.crash {
        Some(Respawn { crashed_at: now, index: car.index, is_hid: sighting.is_hid })
    } else {
        dqn.respawn
    }
    &&& dqn_after.use_brain == (dqn.use_brain && !sighting.crash)
    // the controls
    &&& tick.steer == steers(dqn.use_brain, should_act, sighting.crash)
    &&& car_after == if tick.steer {
        Car {
            gas: levers.gas,
            brake: levers.brake,
            steering: (levers.right - levers.left) as i64,
            ..car
        }
    } else {
        car
    }
    // the training
    &&& tick.train == (tick.steer && sighting.is_hid && dqn_after.rb@.len()
        >= dqn.params.batch_size)
    // the rest
    &&& dqn_after.params == dqn.params
    &&& dqn_after.decided_at == dqn.decided_at
    &&& dqn_after.step == dqn.step
    &&& dqn_after.eps == dqn.eps
    &&& dqn_after.min_eps == dqn.min_eps
    &&& dqn_after.max_eps == dqn.max_eps
}

/// One car's part of a tick, with the dice already cast.
pub fn car_tick_with(
    dqn: &mut DqnResource,
    cars: &mut CarDqnResources,
    car: &mut Car,
    sighting: &Sighting,
    scores: &Vec<i64>,
    should_act: bool,
    now: u64,
    dice: Dice,
) -> (tick: CarTick)
    requires
        old(dqn).wf(),
        scores@.len() > 0,
    ensures
        final(dqn).wf(),
        old(car).wf() ==> final(car).wf(),
        car_tick_post(
            *old(dqn),
            *final(dqn),
            *old(cars),
            *final(cars),
            *old(car),
            *final(car),
            *sighting,
            scores@,
            should_act,
            now,
            dice,
            tick,
        ),
{
    let prev = cars.prev(sighting.car_id);
    let known: bool = cars.cars.contains_key(&sighting.car_id);
    let mut persist: Option<Vec<Transition>> = None;
    if dqn.use_brain && (should_act || sighting.crash) && known && !is_blank(&prev.prev_obs) {
        dqn.rb.store(prev.prev_obs, prev.prev_action, sighting.reward, sighting.obs, sighting.crash);
        if dqn.rb.should_persist() {
            persist = Some(dqn.rb.persist());
        }
    }
    let (action, exploration) = choose_action(scores, dqn.eps, dice);
    if sighting.crash {
        dqn.crashes = bumped(dqn.crashes);
        dqn.respawn = Some(
            Respawn { crashed_at: now, index: car.index, is_hid: sighting.is_hid },
        );
        dqn.use_brain = false;
        cars.del_car(&sighting.car_id);
    } else if should_act {
        cars.remember(
            sighting.car_id,
            CarDqnResource { prev_obs: sighting.obs, prev_action: action, prev_reward: sighting.reward },
        );
    }
    let steer: bool = dqn.use_brain && should_act && !sighting.crash;
    let mut train: bool = false;
    if steer {
        train = sighting.is_hid && dqn.rb.len() >= dqn.params.batch_size;
        car.drive(map_action_to_car(action));
    }
    CarTick { action, exploration, persist, despawn: sighting.crash, steer, train }
}

/// A crash schedules one respawn, due `RESPAWN_DELAY` after the crash, for
/// the car that crashed; it switches the policy off, and the car is neither
/// steered nor trained on but taken out.
pub proof fn lemma_crash_schedules_respawn(
    dqn: DqnResource,
    dqn_after: DqnResource,
    cars: CarDqnResources,
    cars_after: CarDqnResources,
    car: Car,
    car_after: Car,
    sighting: Sighting,
    scores: Seq<i64>,
    should_act: bool,
    now: u64,
    dice: Dice,
    tick: CarTick,
)
    requires
        car_tick_post(
            dqn,
            dqn_after,
            cars,
            cars_after,
            car,
            car_after,
            sighting,
            scores,
            should_act,
            now,
            dice,
            tick,
        ),
        sighting.crash,
    ensures
        dqn_after.respawn == Some(
            Respawn { crashed_at: now, index: car.index, is_hid: sighting.is_hid },
        ),
        dqn_after.respawn->0.due_at() == now + RESPAWN_DELAY,
        !respawn_due(dqn_after.respawn, now),
        !dqn_after.use_brain,
        tick.despawn && !tick.steer && !tick.train,
        car_after == car,
        !cars_after@.contains_key(sighting.car_id),
{
}

/// While the policy is off no car is steered, no training round is called
/// for, nothing is recorded, and no car's part of a tick switches it on.
pub proof fn lemma_quiet_while_off(
    dqn: DqnResource,
    dqn_after: DqnResource,
    cars: CarDqnResources,
    cars_after: CarDqnResources,
    car: Car,
    car_after: Car,
    sighting: Sighting,
    scores: Seq<i64>,
    should_act: bool,
    now: u64,
    dice: Dice,
    tick: CarTick,
)
    requires
        car_tick_post(
            dqn,
            dqn_after,
            cars,
            cars_after,
            car,
            car_after,
            sighting,
            scores,
            should_act,
            now,
            dice,
            tick,
        ),
        !dqn.use_brain,
    ensures
        !tick.steer && !tick.train && tick.persist is None,
        car_after == car,
        dqn_after.rb@ == dqn.rb@,
        !dqn_after.use_brain,
{
}

/// The state after the ticks at `times` have begun, one after another.
pub open spec fn begun_all(dqn: DqnResource, times: Seq<u64>) -> DqnResource
    decreases times.len(),
{
    if times.len() == 0 {
        dqn
    } else {
        begun(begun_all(dqn, times.drop_last()), times.last())
    }
}

/// How the `i`-th of the ticks at `times` begins.
pub open spec fn start_of(dqn: DqnResource, times: Seq<u64>, i: int) -> TickStart {
    let before = begun_all(dqn, times.take(i));
    tick_start(before.respawn, before.next_decision(), times[i])
}

/// Until its time has passed a pending respawn stays pending: however many
/// ticks begin before then, none begins with a respawn, and none switches
/// the policy on.
pub proof fn lemma_respawn_waits(dqn: DqnResource, times: Seq<u64>)
    requires
        dqn.respawn is Some,
        forall|i: int| 0 <= i < times.len() ==> times[i] <= dqn.respawn->0.due_at(),
    ensures
        begun_all(dqn, times).respawn == dqn.respawn,
        begun_all(dqn, times).use_brain == dqn.use_brain,
        forall|i: int| 0 <= i < times.len() ==> #[trigger] start_of(dqn, times, i) is Run,
    decreases times.len(),
{
    if times.len() > 0 {
        let front = times.drop_last();
        lemma_respawn_waits(dqn, front);
        assert forall|i: int| 0 <= i < times.len() implies #[trigger] start_of(dqn, times, i) is Run by {
            if i < front.len() {
                assert(times.take(i) =~= front.take(i));
                assert(start_of(dqn, front, i) is Run);
            } else {
                assert(times.take(i) =~= front);
            }
        }
    }
}

/// The first tick after its time hands the respawn out, for the car that
/// crashed, and switches the policy on; whatever ticks follow, none of them
/// begins with a respawn. So a crash is answered by exactly one respawn.
pub proof fn lemma_respawn_once(dqn: DqnResource, now: u64, later: Seq<u64>)
    requires
        dqn.respawn is Some,
        now > dqn.respawn->0.due_at(),
    ensures
        tick_start(dqn.respawn, dqn.next_decision(), now) == TickStart::Respawn(
            SpawnOrder { index: dqn.respawn->0.index, is_hid: dqn.respawn->0.is_hid },
        ),
        begun(dqn, now).use_brain,
        begun_all(begun(dqn, now), later).respawn is None,
        forall|i: int|
            0 <= i < later.len() ==> #[trigger] start_of(begun(dqn, now), later, i) is Run,
    decreases later.len(),
{
    if later.len() > 0 {
        let front = later.drop_last();
        lemma_respawn_once(dqn, now, front);
        let after = begun(dqn, now);
        assert forall|i: int| 0 <= i < later.len() implies #[trigger] start_of(after, later, i) is Run by {
            if i < front.len() {
                assert(later.take(i) =~= front.take(i));
                assert(start_of(after, front, i) is Run);
            } else {
                assert(later.take(i) =~= front);
            }
        }
    }
}

/// One car's part of a tick. The dice are cast here: whatever they show,
/// the outcome is that of `car_tick_with` for some roll below `ONE` and
/// some action among those scored.
pub fn car_tick(
    dqn: &mut DqnResource,
    cars: &mut CarDqnResources,
    car: &mut Car,
    sighting: &Sighting,
    scores: &Vec<i64>,
    should_act: bool,
    now: u64,
) -> (tick: CarTick)
    requires
        old(dqn).wf(),
        scores@.len() > 0,
    ensures
        final(dqn).wf(),
        old(car).wf() ==> final(car).wf(),
        tick.action < scores@.len(),
        exists|dice: Dice|
            dice.roll < ONE && dice.random_action < scores@.len() && #[trigger] car_tick_post(
                *old(dqn),
                *final(dqn),
                *old(cars),
                *final(cars),
                *old(car),
                *final(car),
                *sighting,
                scores@,
                should_act,
                now,
                dice,
                tick,
            ),
{
    let roll = random_below(ONE as usize);
    let random_action = random_below(scores.len());
    let dice = Dice { roll, random_action };
    car_tick_with(dqn, cars, car, sighting, scores, should_act, now, dice)
}

/// Whether `batch` is what the transitions of `s` at `indices` come to.
pub open spec fn is_batch_of(
    s: Seq<Transition>,
    indices: Seq<usize>,
    batch: (Vec<Observation>, Vec<usize>, Vec<i64>, Vec<Observation>, Vec<bool>),
) -> bool {
    &&& forall|k: int| 0 <= k < indices.len() ==> indices[k] < s.len()
    &&& batch.0@ == obs_at(s, indices)
    &&& batch.1@ == actions_at(s, indices)
    &&& batch.2@ == rewards_at(s, indices)
    &&& batch.3@ == next_obs_at(s, indices)
    &&& batch.4@ == dones_at(s, indices)
}

/// A minibatch for one training round, drawn from the replay memory
/// uniformly and with replacement; none while the memory holds less than a
/// minibatch.
pub fn sample_batch(dqn: &DqnResource) -> (batch: Option<
    (Vec<Observation>, Vec<usize>, Vec<i64>, Vec<Observation>, Vec<bool>),
>)
    requires
        dqn.wf(),
    ensures
        batch is Some <==> dqn.rb@.len() >= dqn.params.batch_size,
        batch matches Some(b) ==> exists|indices: Seq<usize>|
            indices.len() == dqn.params.batch_size && #[trigger] is_batch_of(dqn.rb@, indices, b),
{
    let len: usize = dqn.rb.len();
    let size: usize = dqn.params.batch_size;
    if len < size {
        return None;
    }
    let mut indices: Vec<usize> = Vec::new();
    let mut i: usize = 0;
    while i < size
        invariant
            i <= size <= len,
            indices@.len() == i,
            forall|k: int| 0 <= k < i ==> indices@[k] < len,
        decreases size - i,
    {
        indices.push(random_below(len));
        i = i + 1;
    }
    let batch = Some(dqn.rb.get_batch_tensors(&indices));
    assert(batch matches Some(b) && is_batch_of(dqn.rb@, indices@, b));
    batch
}

/// The value that a transition's action is trained toward: its reward, and
/// unless the episode ended there, the discounted best value of the state
/// that followed.
pub open spec fn target_spec(reward: int, done: bool, max_next: int) -> int {
    if done {
        reward
    } else {
        reward + trunc_div(GAMMA * max_next, ONE as int)
    }
}

/// `x`, or the nearest `i64` where it is out of range.
pub open spec fn clamped(x: int) -> int {
    if x < i64::MIN {
        i64::MIN as int
    } else if x > i64::MAX {
        i64::MAX as int
    } else {
        x
    }
}

/// The bootstrapped target for one transition, from the best value that the
/// target network gives its next observation.
pub fn bootstrap_target(reward: i64, done: bool, max_next: i64) -> (target: i64)
    ensures
        target == clamped(target_spec(reward as int, done, max_next as int)),
        done ==> target == reward,
{
    if done {
        return reward;
    }
    let future: i128 = (GAMMA as i128) * (max_next as i128) / (ONE as i128);
    let sum: i128 = (reward as i128) + future;
    if sum < (i64::MIN as i128) {
        i64::MIN
    } else if sum > (i64::MAX as i128) {
        i64::MAX
    } else {
        sum as i64
    }
}

/// The exploration rate after one training round: lower by `decay`, but
/// not under the floor.
pub open spec fn decayed(eps: int, min_eps: int, decay: int) -> int {
    if eps - decay >= min_eps {
        eps - decay
    } else {
        min_eps
    }
}

/// The exploration rate after `rounds` training rounds.
pub open spec fn decayed_by(eps: int, min_eps: int, decay: int, rounds: nat) -> int
    decreases rounds,
{
    if rounds == 0 {
        eps
    } else {
        decayed(decayed_by(eps, min_eps, decay, (rounds - 1) as nat), min_eps, decay)
    }
}

/// Over successive training rounds the exploration rate never rises and
/// never falls under its floor.
pub proof fn lemma_epsilon_decays(eps: int, min_eps: int, decay: int, rounds: nat)
    requires
        min_eps <= eps,
        0 <= decay,
    ensures
        min_eps <= decayed_by(eps, min_eps, decay, rounds + 1) <= decayed_by(
            eps,
            min_eps,
            decay,
            rounds,
        ) <= eps,
    decreases rounds,
{
    if rounds > 0 {
        lemma_epsilon_decays(eps, min_eps, decay, (rounds - 1) as nat);
    }
}

/// Whether the target network is to take the online network's parameters:
/// on every `sync_interval_steps`-th decision step, once the memory holds
/// two minibatches.
pub open spec fn sync_due(dqn: DqnResource) -> bool {
    dqn.step % dqn.params.sync_interval_steps == 0 && dqn.rb@.len() >= 2 * dqn.params.batch_size
}

/// Closes a training round: says whether the networks are to be synced, and
/// lowers the exploration rate.
pub fn finish_training(dqn: &mut DqnResource) -> (sync: bool)
    requires
        old(dqn).wf(),
    ensures
        final(dqn).wf(),
        sync == sync_due(*old(dqn)),
        final(dqn).eps == decayed(
            old(dqn).eps as int,
            old(dqn).min_eps as int,
            old(dqn).params.decay as int,
        ),
        old(dqn).min_eps <= final(dqn).eps <= old(dqn).eps,
        *final(dqn) == (DqnResource { eps: final(dqn).eps, ..*old(dqn) }),
{
    let len: usize = dqn.rb.len();
    let size: usize = dqn.params.batch_size;
    let sync: bool = dqn.step % dqn.params.sync_interval_steps == 0 && len >= size && len - size
        >= size;
    let lowered: i128 = (dqn.eps as i128) - (dqn.params.decay as i128);
    if lowered >= (dqn.min_eps as i128) {
        dqn.eps = lowered as i64;
    } else {
        dqn.eps = dqn.min_eps;
    }
    sync
}

/// Switches the policy on or off where the switch was pressed.
pub fn dqn_switch_system(dqn: &mut DqnResource, pressed: bool)
    ensures
        *final(dqn) == (DqnResource { use_brain: old(dqn).use_brain != pressed, ..*old(dqn) }),
{
    if pressed {
        dqn.use_brain = !dqn.use_brain;
    }
}

/// What the dashboard shows of a run.
#[derive(Clone, Copy, Debug)]
pub struct Dash {
    /// Transitions in the replay memory.
    pub rb_len: usize,
    /// Decision ticks so far.
    pub step: usize,
    /// Sync intervals that have gone by.
    pub syncs: usize,
    pub crashes: usize,
    /// The exploration rate.
    pub eps: i64,
}

/// The figures of a run for the dashboard.
pub fn dqn_dash_update_system(dqn: &DqnResource) -> (dash: Dash)
    requires
        dqn.wf(),
    ensures
        dash.rb_len == dqn.rb@.len(),
        dash.step == dqn.step,
        dash.syncs == dqn.step as int / dqn.params.sync_interval_steps as int,
        dash.crashes == dqn.crashes,
        dash.eps == dqn.eps,
{
    Dash {
        rb_len: dqn.rb.len(),
        step: dqn.step,
        syncs: dqn.step / dqn.params.sync_interval_steps,
        crashes: dqn.crashes,
        eps: dqn.eps,
    }
}

} // verus!
