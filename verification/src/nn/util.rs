//! Choosing among actions, and what an action does to the controls.

use rand::Rng;
use vstd::prelude::*;
use crate::fixed::ONE;

verus! {

/// `best` is the first position of the largest score.
pub open spec fn is_first_max(scores: Seq<i64>, best: int) -> bool {
    &&& 0 <= best < scores.len()
    &&& forall|j: int| 0 <= j < scores.len() ==> scores[j] <= scores[best]
    &&& forall|j: int| 0 <= j < best ==> scores[j] < scores[best]
}

/// The first position of the largest score.
pub fn argmax(scores: &Vec<i64>) -> (best: usize)
    requires
        scores@.len() > 0,
    ensures
        is_first_max(scores@, best as int),
{
    let mut best: usize = 0;
    let mut i: usize = 1;
    while i < scores.len()
        invariant
            1 <= i <= scores@.len(),
            best < i,
            forall|j: int| 0 <= j < i ==> scores@[j] <= scores@[best as int],
            forall|j: int| 0 <= j < best ==> scores@[j] < scores@[best as int],
        decreases scores@.len() - i,
    {
        if scores[i] > scores[best] {
            best = i;
        }
        i = i + 1;
    }
    best
}

/// A number below `n`, drawn by `rand::thread_rng().gen_range(0..n)`.
/// `gen_range` panics on an empty range, so `n` is positive; what it returns
/// lies in the range. Nothing else is claimed: the draw is random.
#[verifier::external_body]
pub(crate) fn random_below(n: usize) -> (drawn: usize)
    requires
        n > 0,
    ensures
        drawn < n,
{
    rand::thread_rng().gen_range(0..n)
}

/// The two draws of an epsilon-greedy choice.
#[derive(Clone, Copy, Debug)]
pub struct Dice {
    /// A draw below `ONE`: the car explores where it falls under epsilon.
    pub roll: usize,
    /// A draw among the actions, taken where the car explores.
    pub random_action: usize,
}

/// The epsilon-greedy choice that the dice make: the car explores where the
/// roll falls under `eps`, and takes the random action; else it takes the
/// first of the best-scored ones.
pub open spec fn is_choice(
    scores: Seq<i64>,
    eps: i64,
    dice: Dice,
    action: usize,
    exploration: bool,
) -> bool {
    &&& exploration == (dice.roll < eps)
    &&& exploration ==> action == dice.random_action
    &&& !exploration ==> is_first_max(scores, action as int)
}

/// The epsilon-greedy choice once the dice are cast. The flag says whether
/// the car explored.
pub fn choose_action(scores: &Vec<i64>, eps: i64, dice: Dice) -> (choice: (usize, bool))
    requires
        scores@.len() > 0,
    ensures
        is_choice(scores@, eps, dice, choice.0, choice.1),
{
    if eps > 0 && (dice.roll as u64) < (eps as u64) {
        (dice.random_action, true)
    } else {
        (argmax(scores), false)
    }
}

/// Epsilon-greedy action selection over the scores that the online network
/// gives the actions: with probability `eps` a uniformly random action, else
/// the best-scored one. The flag says whether the car explored. The dice are
/// cast here: whatever they show, the choice is the one they make.
pub fn act(scores: &Vec<i64>, eps: i64) -> (choice: (usize, bool))
    requires
        scores@.len() > 0,
    ensures
        exists|dice: Dice|
            dice.roll < ONE && dice.random_action < scores@.len() && #[trigger] is_choice(
                scores@,
                eps,
                dice,
                choice.0,
                choice.1,
            ),
        choice.0 < scores@.len(),
        eps <= 0 ==> !choice.1,
        eps >= ONE ==> choice.1,
{
    let roll = random_below(ONE as usize);
    let random_action = random_below(scores.len());
    let dice = Dice { roll, random_action };
    choose_action(scores, eps, dice)
}

/// What the driver's hands and feet do: each lever at rest (zero) or fully
/// applied (`ONE`).
#[derive(Clone, Copy, Debug)]
pub struct Levers {
    pub gas: i64,
    pub brake: i64,
    pub left: i64,
    pub right: i64,
}

impl Levers {
    /// Every lever lies between rest and full.
    pub open spec fn valid(&self) -> bool {
        &&& 0 <= self.gas <= ONE
        &&& 0 <= self.brake <= ONE
        &&& 0 <= self.left <= ONE
        &&& 0 <= self.right <= ONE
    }
}

/// `ONE` where the lever is applied, zero where it rests.
pub open spec fn lever(applied: bool) -> i64 {
    if applied {
        ONE
    } else {
        0
    }
}

/// The levers of each action: gas, brake, left and right alone, then gas
/// and brake each with a turn to either side.
pub open spec fn levers_of(action: int) -> Levers {
    Levers {
        gas: lever(action == 0 || action == 4 || action == 5),
        brake: lever(action == 1 || action == 6 || action == 7),
        left: lever(action == 2 || action == 4 || action == 6),
        right: lever(action == 3 || action == 5 || action == 7),
    }
}

/// The levers that an action moves; an action beyond the last moves none.
pub fn map_action_to_car(action: usize) -> (levers: Levers)
    ensures
        levers == levers_of(action as int),
        levers.valid(),
{
    let gas: i64 = if action == 0 || action == 4 || action == 5 {
        ONE
    } else {
        0
    };
    let brake: i64 = if action == 1 || action == 6 || action == 7 {
        ONE
    } else {
        0
    };
    let left: i64 = if action == 2 || action == 4 || action == 6 {
        ONE
    } else {
        0
    };
    let right: i64 = if action == 3 || action == 5 || action == 7 {
        ONE
    } else {
        0
    };
    Levers { gas, brake, left, right }
}

} // verus!
