use vstd::prelude::*;
use rand::seq::SliceRandom;
use rand::Rng;
use crate::point::Point;

verus! {

/// Rolls of one spawn trial that place a fruit: of the
/// `SPAWN_ROLLS_PER_FRUIT * (fruit_count + 1)` equally likely rolls, the ones
/// below this number win.
pub const SPAWN_WINNING_ROLLS: u64 = 2;

/// Equally likely rolls of a spawn trial on a board with no fruit; the count
/// grows by as much for each fruit already there.
pub const SPAWN_ROLLS_PER_FRUIT: u64 = 25;

/// The number of equally likely rolls of a spawn trial made while
/// `fruit_count` fruits lie on the board.
pub open spec fn spawn_outcomes(fruit_count: int) -> int {
    SPAWN_ROLLS_PER_FRUIT * (fruit_count + 1)
}

/// Whether a roll of a spawn trial places a fruit.
pub open spec fn roll_wins(roll: int) -> bool {
    roll < SPAWN_WINNING_ROLLS
}

/// A fruit lying on the playfield.
#[derive(Debug, Clone, Copy, PartialEq, Eq, Structural)]
pub struct Fruit {
    pub point: Point,
}

/// A number drawn uniformly from `0..bound`.
/// Relies on rand's `Rng::gen_range` over `thread_rng()`, which returns a
/// value of the range and panics only on an empty one.
#[verifier::external_body]
fn random_below(bound: u64) -> (r: u64)
    requires
        bound > 0,
    ensures
        r < bound,
{
    rand::thread_rng().gen_range(0..bound)
}

/// One of `points`, picked uniformly, or `None` when there is none.
/// Relies on rand's `SliceRandom::choose` over `thread_rng()`, which returns
/// an element of the slice, and `None` exactly when the slice is empty.
#[verifier::external_body]
fn choose_point(points: &Vec<Point>) -> (r: Option<Point>)
    ensures
        r is None <==> points@.len() == 0,
        r matches Some(p) ==> points@.contains(p),
{
    points.choose(&mut rand::thread_rng()).copied()
}

/// The number of equally likely rolls of a spawn trial made while
/// `fruit_count` fruits lie on the board.
pub fn spawn_roll_count(fruit_count: usize) -> (r: u64)
    requires
        spawn_outcomes(fruit_count as int) <= u64::MAX,
    ensures
        r == spawn_outcomes(fruit_count as int),
{
    SPAWN_ROLLS_PER_FRUIT * (fruit_count as u64 + 1)
}

/// Whether a roll of a spawn trial places a fruit.
pub fn roll_spawns_fruit(roll: u64) -> (r: bool)
    ensures
        r == roll_wins(roll as int),
{
    roll < SPAWN_WINNING_ROLLS
}

/// Of the equally likely rolls of a spawn trial, exactly the
/// `SPAWN_WINNING_ROLLS` lowest win, so a trial with `fruit_count` fruits on
/// the board places one with probability `0.08 / (fruit_count + 1)`.
pub proof fn lemma_spawn_probability(fruit_count: nat)
    ensures
        forall|roll: int| 0 <= roll < SPAWN_WINNING_ROLLS ==> #[trigger] roll_wins(roll) && roll
            < spawn_outcomes(fruit_count as int),
        forall|roll: int| #[trigger] roll_wins(roll) && 0 <= roll ==> roll < SPAWN_WINNING_ROLLS,
        100 * SPAWN_WINNING_ROLLS * (fruit_count + 1) == 8 * spawn_outcomes(fruit_count as int),
{
    let n = fruit_count as int;
    assert(100 * 2 * (n + 1) == 8 * (25 * (n + 1))) by (nonlinear_arith);
}

/// What a spawn trial yields for a roll and a picked candidate: a fruit at
/// the picked point when the roll wins, nothing otherwise.
pub open spec fn spawn_outcome(roll: int, picked: Option<Point>) -> Option<Fruit> {
    if roll_wins(roll) {
        match picked {
            Some(p) => Some(Fruit { point: p }),
            None => None,
        }
    } else {
        None
    }
}

/// Ends a spawn trial once its roll and its candidate pick are known: a
/// losing roll gives no fruit, a winning one gives a fruit at the picked
/// point (none when there was no candidate to pick).
pub fn spawn_from_roll(roll: u64, picked: Option<Point>) -> (r: Option<Fruit>)
    ensures
        r == spawn_outcome(roll as int, picked),
{
    if roll_spawns_fruit(roll) {
        match picked {
            Some(point) => Some(Fruit { point }),
            None => None,
        }
    } else {
        None
    }
}

impl Fruit {
    /// Makes one spawn trial while `fruit_count` fruits lie on the board: a
    /// fruit appears with probability `0.08 / (fruit_count + 1)`, at a point
    /// picked uniformly from `filtered_out_occupied_points`.
    pub fn try_spawn_at_random_place(
        filtered_out_occupied_points: &Vec<Point>,
        fruit_count: usize,
    ) -> (r: Option<Fruit>)
        requires
            spawn_outcomes(fruit_count as int) <= u64::MAX,
        ensures
            exists|roll: int, picked: Option<Point>|
                #![trigger spawn_outcome(roll, picked)]
                0 <= roll < spawn_outcomes(fruit_count as int) && (picked is None
                    <==> filtered_out_occupied_points@.len() == 0) && (picked matches Some(p)
                    ==> filtered_out_occupied_points@.contains(p)) && r == spawn_outcome(
                    roll,
                    picked,
                ),
            r matches Some(f) ==> filtered_out_occupied_points@.contains(f.point),
            filtered_out_occupied_points@.len() == 0 ==> r is None,
    {
        let roll = random_below(spawn_roll_count(fruit_count));
        let picked = choose_point(filtered_out_occupied_points);
        let r = spawn_from_roll(roll, picked);
        assert(r == spawn_outcome(roll as int, picked));
        r
    }
}

} // verus!
