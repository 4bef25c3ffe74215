//! What one tick tells the learner about one car: whether it crashed, what it
//! observes, and the reward for its last action.

use vstd::prelude::*;
use crate::fixed::{trunc_div, ONE};
use crate::nn::params::{SENSOR_COUNT, STATE_SIZE, STATE_SIZE_BASE};
use crate::nn::replay::Observation;

verus! {

/// Whether a reward can be kept: it and its negation fit in an `i64`.
pub open spec fn finite(r: int) -> bool {
    -i64::MAX <= r <= i64::MAX
}

/// Moving along the track while facing against it.
pub open spec fn wrong_way(vel_cos: int, pos_cos: int) -> bool {
    vel_cos > 0 && pos_cos < 0
}

/// Speed as a share of the limit, times how well the velocity is aligned
/// with the centreline less a fifth of the distance from it.
pub open spec fn base_reward(speed: int, speed_limit: int, vel_cos: int, lateral: int) -> int
    recommends
        speed_limit > 0,
{
    trunc_div(speed * (vel_cos - trunc_div(lateral, 5)), speed_limit)
}

/// The reward of one tick. A crash gives minus one whatever else holds.
/// Otherwise the base reward, negated for a car that faces the wrong way;
/// where no number comes out (no positive speed limit, or a result too large
/// to keep) the reward is zero.
pub open spec fn reward_spec(
    crash: bool,
    speed: int,
    speed_limit: int,
    vel_cos: int,
    pos_cos: int,
    lateral: int,
) -> int {
    if crash {
        -ONE
    } else if speed_limit <= 0 {
        0
    } else {
        let base = base_reward(speed, speed_limit, vel_cos, lateral);
        let r = if wrong_way(vel_cos, pos_cos) {
            -base
        } else {
            base
        };
        if finite(r) {
            r
        } else {
            0
        }
    }
}

/// A car that stands still and has not crashed earns exactly nothing.
pub proof fn lemma_reward_standstill(speed_limit: int, vel_cos: int, pos_cos: int, lateral: int)
    ensures
        reward_spec(false, 0, speed_limit, vel_cos, pos_cos, lateral) == 0,
{
    assert(0 * (vel_cos - trunc_div(lateral, 5)) == 0);
}

/// A crash earns exactly minus one, whatever the speed and the alignment.
pub proof fn lemma_reward_crash(speed: int, speed_limit: int, vel_cos: int, pos_cos: int, lateral: int)
    ensures
        reward_spec(true, speed, speed_limit, vel_cos, pos_cos, lateral) == -ONE,
{
}

/// Facing the wrong way flips the sign: with the velocity cosine positive,
/// a negative heading cosine gives the negation of what any other gives.
pub proof fn lemma_reward_flips(
    speed: int,
    speed_limit: int,
    vel_cos: int,
    pos_cos: int,
    other_cos: int,
    lateral: int,
)
    requires
        vel_cos > 0,
        pos_cos < 0,
        other_cos >= 0,
    ensures
        reward_spec(false, speed, speed_limit, vel_cos, pos_cos, lateral) == -reward_spec(
            false,
            speed,
            speed_limit,
            vel_cos,
            other_cos,
            lateral,
        ),
{
}

/// The reward for the last action, from what the simulation reports now.
pub fn shape_reward(
    crash: bool,
    speed: i64,
    speed_limit: i64,
    vel_cos: i64,
    pos_cos: i64,
    lateral: i64,
) -> (reward: i64)
    ensures
        reward == reward_spec(
            crash,
            speed as int,
            speed_limit as int,
            vel_cos as int,
            pos_cos as int,
            lateral as int,
        ),
        crash ==> reward == -ONE,
        !crash && speed == 0 ==> reward == 0,
{
    if crash {
        return -ONE;
    }
    if speed_limit <= 0 {
        return 0;
    }
    let off: i64 = lateral / 5;
    let align: i128 = (vel_cos as i128) - (off as i128);
    assert(i128::MIN < speed * align <= i128::MAX) by (nonlinear_arith)
        requires
            -0x8000_0000_0000_0000 <= speed <= 0x8000_0000_0000_0000,
            -0xA000_0000_0000_0000 <= align <= 0xA000_0000_0000_0000,
    ;
    let product: i128 = (speed as i128) * align;
    let base: i128 = product / (speed_limit as i128);
    let r: i128 = if vel_cos > 0 && pos_cos < 0 {
        -base
    } else {
        base
    };
    proof {
        assert(0 * align == 0);
    }
    if r < -(i64::MAX as i128) || r > (i64::MAX as i128) {
        0
    } else {
        r as i64
    }
}

/// The speed component of an observation: kilometres per hour over a
/// hundred, from a speed in metres per second.
pub open spec fn normalized_speed(speed: int) -> int {
    trunc_div(speed * 36, 1000)
}

/// The observation of one tick: speed, velocity cosine, heading cosine, then
/// the sensor readings in mount order.
pub fn build_observation(speed: i64, vel_cos: i64, pos_cos: i64, sensors: &Vec<i64>) -> (obs:
    Observation)
    requires
        sensors@.len() == SENSOR_COUNT,
    ensures
        obs@[0] == normalized_speed(speed as int),
        obs@[1] == vel_cos,
        obs@[2] == pos_cos,
        forall|i: int| 0 <= i < SENSOR_COUNT ==> obs@[STATE_SIZE_BASE + i] == sensors@[i],
{
    let scaled: i128 = (speed as i128) * 36 / 1000;
    let mut obs: Observation = [0i64; STATE_SIZE];
    obs[0] = scaled as i64;
    obs[1] = vel_cos;
    obs[2] = pos_cos;
    let mut i: usize = 0;
    while i < SENSOR_COUNT
        invariant
            i <= SENSOR_COUNT,
            sensors@.len() == SENSOR_COUNT,
            obs@[0] == normalized_speed(speed as int),
            obs@[1] == vel_cos,
            obs@[2] == pos_cos,
            forall|k: int| 0 <= k < i ==> obs@[STATE_SIZE_BASE + k] == sensors@[k],
        decreases SENSOR_COUNT - i,
    {
        obs[STATE_SIZE_BASE + i] = sensors[i];
        i = i + 1;
    }
    obs
}

/// Every component is zero: the observation that stands for "none yet".
pub open spec fn blank(obs: Observation) -> bool {
    forall|i: int| 0 <= i < STATE_SIZE ==> obs@[i] == 0
}

/// The observation of a car that has not observed anything yet.
pub fn blank_observation() -> (obs: Observation)
    ensures
        blank(obs),
{
    [0i64; STATE_SIZE]
}

/// Whether every component is zero.
pub fn is_blank(obs: &Observation) -> (all_zero: bool)
    ensures
        all_zero == blank(*obs),
{
    let mut i: usize = 0;
    while i < STATE_SIZE
        invariant
            i <= STATE_SIZE,
            forall|k: int| 0 <= k < i ==> obs@[k] == 0,
        decreases STATE_SIZE - i,
    {
        if obs[i] != 0 {
            return false;
        }
        i = i + 1;
    }
    true
}

/// The tag occurs somewhere in the name.
pub open spec fn has_tag(name: Seq<char>, tag: Seq<char>) -> bool {
    exists|i: int|
        0 <= i && i + tag.len() <= name.len() && #[trigger] name.subrange(i, i + tag.len()) == tag
}

/// Whether `tag` occurs in `name`, by `str::contains`, which is true where
/// the pattern matches a sub-slice of the string.
#[verifier::external_body]
pub(crate) fn name_has_tag(name: &str, tag: &str) -> (found: bool)
    ensures
        found == has_tag(name@, tag@),
{
    name.contains(tag)
}

/// Something among what the car touches is not tagged as road.
pub open spec fn touches_off_road(colliding: Seq<String>, road_tag: Seq<char>) -> bool {
    exists|i: int| 0 <= i < colliding.len() && !has_tag(#[trigger] colliding[i]@, road_tag)
}

/// Whether the car has crashed, from the names of what its colliders touch:
/// the road is no obstacle, anything else is.
pub fn is_crash(colliding: &Vec<String>, road_tag: &str) -> (crash: bool)
    ensures
        crash == touches_off_road(colliding@, road_tag@),
{
    let mut i: usize = 0;
    while i < colliding.len()
        invariant
            i <= colliding@.len(),
            forall|k: int| 0 <= k < i ==> has_tag(#[trigger] colliding@[k]@, road_tag@),
        decreases colliding@.len() - i,
    {
        if !name_has_tag(colliding[i].as_str(), road_tag) {
            return true;
        }
        i = i + 1;
    }
    false
}

/// How a car moves relative to the centreline of the track. A cosine is
/// missing where its angle is undefined, as it is for a car at rest.
#[derive(Clone, Copy, Debug)]
pub struct Motion {
    /// Speed in metres per second.
    pub speed: i64,
    /// Cosine of the angle between the velocity and the centreline.
    pub vel_cos: Option<i64>,
    /// Cosine of the angle between the heading and the centreline.
    pub pos_cos: Option<i64>,
    /// Distance from the centreline in metres, height left out.
    pub lateral: i64,
}

/// A cosine for the learner: an undefined angle counts as none at all.
pub open spec fn cosine_or_aligned(cosine: Option<i64>) -> i64 {
    match cosine {
        Some(c) => c,
        None => ONE,
    }
}

} // verus!
