use vstd::prelude::*;
use rand::distributions::Distribution;
use crate::point::Direction;

verus! {

/// A movement command could not be handed on.
#[derive(Debug, Clone, PartialEq, Eq)]
pub enum OrderError {
    IssueMovement(String),
}

/// How many times each heading was requested since the last tick.
#[derive(Debug, Clone, Copy, PartialEq, Eq, Structural)]
pub struct CommandTally {
    up: u32,
    down: u32,
    left: u32,
    right: u32,
}

/// The sum of a sequence of weights.
pub open spec fn sum_of(s: Seq<u64>) -> int
    decreases s.len(),
{
    if s.len() == 0 {
        0
    } else {
        sum_of(s.drop_last()) + s.last()
    }
}

/// An index of `weights` drawn with probability proportional to its weight,
/// or `None` when no weight is positive.
/// Relies on rand's `WeightedIndex::new`, which fails exactly when there is no
/// weight or all are zero (an unsigned weight is never negative), and on its
/// `sample` over `thread_rng()`, which draws index `i` with probability
/// `weights[i] / total` and so never an index of weight zero.
#[verifier::external_body]
fn sample_weighted_index(weights: &Vec<u64>) -> (r: Option<usize>)
    requires
        sum_of(weights@) <= u64::MAX,
    ensures
        r is None <==> forall|i: int| 0 <= i < weights@.len() ==> weights@[i] == 0,
        r matches Some(i) ==> i < weights@.len() && weights@[i as int] > 0,
{
    match rand::distributions::WeightedIndex::new(weights) {
        Ok(dist) => Some(dist.sample(&mut rand::thread_rng())),
        Err(_) => None,
    }
}

impl CommandTally {
    /// The number of requests for heading `d`.
    pub closed spec fn spec_count(&self, d: Direction) -> nat {
        match d {
            Direction::Up => self.up as nat,
            Direction::Down => self.down as nat,
            Direction::Left => self.left as nat,
            Direction::Right => self.right as nat,
        }
    }

    /// No heading has been requested.
    pub open spec fn is_cleared(&self) -> bool {
        forall|d: Direction| #[trigger] self.spec_count(d) == 0
    }

    /// `after` is this tally once it took in `command` (what the channel
    /// delivered) while the snake headed `heading`.
    pub open spec fn registered(
        &self,
        after: CommandTally,
        command: Option<Direction>,
        heading: Direction,
    ) -> bool {
        forall|e: Direction|
            #[trigger] after.spec_count(e) == match command {
                Some(c) => if c == e && c != heading.spec_opposite() && self.spec_count(e)
                    < u32::MAX {
                    self.spec_count(e) + 1
                } else {
                    self.spec_count(e)
                },
                None => self.spec_count(e),
            }
    }

    pub fn new() -> (r: CommandTally)
        ensures
            r.is_cleared(),
    {
        CommandTally { up: 0, down: 0, left: 0, right: 0 }
    }

    pub fn count(&self, d: Direction) -> (r: u32)
        ensures
            r == self.spec_count(d),
    {
        match d {
            Direction::Up => self.up,
            Direction::Down => self.down,
            Direction::Left => self.left,
            Direction::Right => self.right,
        }
    }

    /// Counts one more request for heading `d`; a count stays at `u32::MAX`
    /// once there.
    fn add_one(&mut self, d: Direction)
        ensures
            forall|e: Direction|
                #[trigger] final(self).spec_count(e) == if e == d {
                    if old(self).spec_count(e) < u32::MAX {
                        old(self).spec_count(e) + 1
                    } else {
                        old(self).spec_count(e)
                    }
                } else {
                    old(self).spec_count(e)
                },
    {
        match d {
            Direction::Up => self.up = self.up.saturating_add(1),
            Direction::Down => self.down = self.down.saturating_add(1),
            Direction::Left => self.left = self.left.saturating_add(1),
            Direction::Right => self.right = self.right.saturating_add(1),
        }
    }

    /// Takes in what the command channel delivered while the snake heads
    /// `current_direction`. A command is counted unless it reverses the
    /// snake; nothing (a closed channel) changes nothing.
    pub fn register_command(&mut self, command: Option<Direction>, current_direction: &Direction)
        ensures
            old(self).registered(*final(self), command, *current_direction),
    {
        match command {
            Some(c) => {
                if c == current_direction.opposite() {
                    return ;
                }
                self.add_one(c);
            },
            None => {},
        }
    }
}

/// The four headings, in the order the sampler is offered them.
pub open spec fn all_directions() -> Seq<Direction> {
    seq![Direction::Up, Direction::Down, Direction::Left, Direction::Right]
}

/// The headings requested at least once, in the order of `all_directions`.
pub open spec fn requested_directions(tally: CommandTally) -> Seq<Direction> {
    all_directions().filter(|d: Direction| tally.spec_count(d) > 0)
}

/// The weight of each requested heading: the number of its requests.
pub open spec fn requested_weights(tally: CommandTally) -> Seq<u64> {
    requested_directions(tally).map_values(|d: Direction| tally.spec_count(d) as u64)
}

/// What the weighted sampler is offered: the requested headings, and for each
/// the number of its requests as its weight.
pub fn weighted_choices(tally: &CommandTally) -> (r: (Vec<Direction>, Vec<u64>))
    ensures
        r.0@ == requested_directions(*tally),
        r.1@ == requested_weights(*tally),
        sum_of(r.1@) <= 4 * u32::MAX,
{
    let ghost pred = |d: Direction| tally.spec_count(d) > 0;
    let ghost weight = |d: Direction| tally.spec_count(d) as u64;
    let all = [Direction::Up, Direction::Down, Direction::Left, Direction::Right];
    let mut directions: Vec<Direction> = Vec::new();
    let mut weights: Vec<u64> = Vec::new();
    let mut i: usize = 0;
    while i < 4
        invariant
            i <= 4,
            all@ == all_directions(),
            pred == (|d: Direction| tally.spec_count(d) > 0),
            weight == (|d: Direction| tally.spec_count(d) as u64),
            directions@ == all@.subrange(0, i as int).filter(pred),
            weights@ == directions@.map_values(weight),
            directions@.len() <= i,
            sum_of(weights@) <= directions@.len() * u32::MAX,
        decreases 4 - i,
    {
        let d = all[i];
        let c = tally.count(d);
        let ghost before = all@.subrange(0, i as int);
        let ghost after = all@.subrange(0, i + 1);
        assert(after.drop_last() == before);
        assert(after.last() == d);
        proof {
            reveal(Seq::filter);
            if pred(d) {
                assert(after.filter(pred) == before.filter(pred).push(d));
            } else {
                assert(after.filter(pred) == before.filter(pred));
            }
        }
        if c > 0 {
            let ghost w0 = weights@;
            directions.push(d);
            weights.push(c as u64);
            assert(weights@.drop_last() == w0);
            assert(weights@ =~= directions@.map_values(weight));
        }
        i = i + 1;
    }
    assert(all@.subrange(0, 4) == all@);
    (directions, weights)
}

/// Picks the heading of the next move among those requested since the last
/// tick, each with probability proportional to its count, and clears the
/// tally. `None` when nothing was requested. The sampler is offered exactly
/// `requested_directions` with `requested_weights`, and the pick is the
/// heading at the index it draws.
pub fn pick_move_direction_based_on_probabilities(issued_commands: &mut CommandTally) -> (r: Option<
    Direction,
>)
    ensures
        final(issued_commands).is_cleared(),
        r is None <==> old(issued_commands).is_cleared(),
        r matches Some(d) ==> old(issued_commands).spec_count(d) > 0,
        r matches Some(d) ==> exists|k: int|
            0 <= k < requested_directions(*old(issued_commands)).len()
                && #[trigger] requested_directions(*old(issued_commands))[k] == d
                && requested_weights(*old(issued_commands))[k] > 0,
{
    let ghost tally = *issued_commands;
    let (directions, weights) = weighted_choices(issued_commands);
    proof {
        broadcast use vstd::seq_lib::group_filter_ensures;

        let pred = |d: Direction| tally.spec_count(d) > 0;
        assert(all_directions()[0] == Direction::Up);
        assert(all_directions()[1] == Direction::Down);
        assert(all_directions()[2] == Direction::Left);
        assert(all_directions()[3] == Direction::Right);
        assert forall|d: Direction| #[trigger] tally.spec_count(d) > 0 implies directions@.contains(d) by {
            let k: int = match d {
                Direction::Up => 0,
                Direction::Down => 1,
                Direction::Left => 2,
                Direction::Right => 3,
            };
            assert(all_directions()[k] == d);
            all_directions().lemma_filter_contains(pred, k);
        }
        assert forall|k: int| 0 <= k < weights@.len() implies #[trigger] weights@[k] > 0 by {
            all_directions().lemma_filter_pred(pred, k);
        }
    }
    *issued_commands = CommandTally::new();
    match sample_weighted_index(&weights) {
        Some(k) => {
            proof {
                broadcast use vstd::seq_lib::group_filter_ensures;

                let pred = |d: Direction| tally.spec_count(d) > 0;
                all_directions().lemma_filter_pred(pred, k as int);
            }
            Some(directions[k])
        },
        None => {
            proof {
                if !tally.is_cleared() {
                    let d = choose|d: Direction| tally.spec_count(d) != 0;
                    let k = directions@.index_of(d);
                    assert(weights@[k] > 0);
                }
            }
            None
        },
    }
}

} // verus!
