use vstd::prelude::*;
use std::collections::VecDeque;
use crate::board::{canvas_index, Board, CellSymbol};
use crate::commands::{pick_move_direction_based_on_probabilities, CommandTally};
use crate::consts::MAX_FRUITS;
use crate::fruit::Fruit;
use crate::point::{Direction, Point};
use crate::snake::{Snake, SnakeError};

verus! {

/// `cells` with playfield point `p` drawn as `symbol`.
pub open spec fn paint(cells: Seq<CellSymbol>, p: Point, symbol: CellSymbol) -> Seq<CellSymbol> {
    cells.update(canvas_index(p), symbol)
}

/// `cells` with each of `fruits` drawn, in order.
pub open spec fn paint_fruits(cells: Seq<CellSymbol>, fruits: Seq<Fruit>) -> Seq<CellSymbol>
    decreases fruits.len(),
{
    if fruits.len() == 0 {
        cells
    } else {
        paint(paint_fruits(cells, fruits.drop_last()), fruits.last().point, CellSymbol::Fruit)
    }
}

/// `cells` brought up to date with a round: the fruits drawn, then the head,
/// then the segment behind it as body, then the cell the tail left on the
/// last move cleared (when that move freed one).
pub open spec fn frame(cells: Seq<CellSymbol>, fruits: Seq<Fruit>, snake: Snake) -> Seq<CellSymbol> {
    let with_fruits = paint_fruits(cells, fruits);
    let with_head = paint(with_fruits, snake.spec_body()[0], CellSymbol::SnakeHead);
    let with_neck = paint(with_head, snake.spec_body()[1], CellSymbol::Snake);
    match snake.spec_orphaned_tail() {
        Some(tail) => paint(with_neck, tail, CellSymbol::Board),
        None => with_neck,
    }
}

/// The result of a move resolved at a tick, with the tally as it was: the
/// heading picked is one that was requested, or none when nothing was.
pub open spec fn picked_from(tally: CommandTally, picked: Option<Direction>) -> bool {
    &&& (picked is None <==> tally.is_cleared())
    &&& (picked matches Some(d) ==> tally.spec_count(d) > 0)
}

/// Whether some fruit lies at `p`.
pub open spec fn fruit_at(fruits: Seq<Fruit>, p: Point) -> bool {
    exists|i: int| 0 <= i < fruits.len() && #[trigger] fruits[i].point == p
}

/// What ends a wait of the game loop: the next tick, or what the command
/// channel delivered (`None` once it is closed).
#[derive(Debug, Clone, Copy, PartialEq, Eq, Structural)]
pub enum RoundEvent {
    Tick,
    Command(Option<Direction>),
}

/// One round of play: the score, the snake and the fruits on the board.
#[derive(Debug)]
pub struct Game {
    score: u32,
    snake: Snake,
    fruits: Vec<Fruit>,
}

/// Removes every fruit at `actual_point`; tells whether there was one.
pub fn remove_eaten_fruits(fruits: &mut Vec<Fruit>, actual_point: &Point) -> (r: bool)
    ensures
        final(fruits)@ == old(fruits)@.filter(|f: Fruit| f.point != *actual_point),
        r == fruit_at(old(fruits)@, *actual_point),
{
    let ghost pred = |f: Fruit| f.point != *actual_point;
    let mut kept: Vec<Fruit> = Vec::new();
    let mut removed = false;
    let n = fruits.len();
    let mut i: usize = 0;
    while i < n
        invariant
            n == fruits@.len(),
            i <= n,
            pred == (|f: Fruit| f.point != *actual_point),
            kept@ == fruits@.subrange(0, i as int).filter(pred),
            removed == fruit_at(fruits@.subrange(0, i as int), *actual_point),
        decreases n - i,
    {
        let fruit = fruits[i];
        let ghost before = fruits@.subrange(0, i as int);
        let ghost after = fruits@.subrange(0, i + 1);
        assert(after.drop_last() == before);
        assert(after.last() == fruit);
        proof {
            reveal(Seq::filter);
            if pred(fruit) {
                assert(after.filter(pred) == before.filter(pred).push(fruit));
            } else {
                assert(after.filter(pred) == before.filter(pred));
            }
        }
        if fruit.point == *actual_point {
            removed = true;
            assert(after[i as int] == fruit);
        } else {
            kept.push(fruit);
            proof {
                if fruit_at(after, *actual_point) {
                    let j = choose|j: int| 0 <= j < after.len() && #[trigger] after[j].point == *actual_point;
                    assert(before[j] == after[j]);
                }
            }
        }
        proof {
            if fruit_at(before, *actual_point) {
                let j = choose|j: int| 0 <= j < before.len() && #[trigger] before[j].point == *actual_point;
                assert(after[j] == before[j]);
            }
        }
        i = i + 1;
    }
    assert(fruits@.subrange(0, n as int) == fruits@);
    *fruits = kept;
    removed
}

/// Whether `p` is among `occupied`.
fn is_occupied(occupied: &VecDeque<Point>, p: &Point) -> (r: bool)
    ensures
        r == occupied@.contains(*p),
{
    let n = occupied.len();
    let mut i: usize = 0;
    while i < n
        invariant
            n == occupied@.len(),
            i <= n,
            forall|j: int| 0 <= j < i ==> occupied@[j] != *p,
        decreases n - i,
    {
        if occupied[i] == *p {
            return true;
        }
        i = i + 1;
    }
    false
}

/// The points of `pool` that are not `occupied`, in the order of `pool`.
pub fn free_points(pool: &Vec<Point>, occupied: &VecDeque<Point>) -> (r: Vec<Point>)
    ensures
        r@ == pool@.filter(|p: Point| !occupied@.contains(p)),
{
    let ghost pred = |p: Point| !occupied@.contains(p);
    let mut free: Vec<Point> = Vec::new();
    let n = pool.len();
    let mut i: usize = 0;
    while i < n
        invariant
            n == pool@.len(),
            i <= n,
            pred == (|p: Point| !occupied@.contains(p)),
            free@ == pool@.subrange(0, i as int).filter(pred),
        decreases n - i,
    {
        let p = pool[i];
        let ghost before = pool@.subrange(0, i as int);
        let ghost after = pool@.subrange(0, i + 1);
        assert(after.drop_last() == before);
        assert(after.last() == p);
        proof {
            reveal(Seq::filter);
            if pred(p) {
                assert(after.filter(pred) == before.filter(pred).push(p));
            } else {
                assert(after.filter(pred) == before.filter(pred));
            }
        }
        if !is_occupied(occupied, &p) {
            free.push(p);
        }
        i = i + 1;
    }
    assert(pool@.subrange(0, n as int) == pool@);
    free
}

impl Game {
    pub closed spec fn spec_score(&self) -> u32 {
        self.score
    }

    pub closed spec fn spec_snake(&self) -> Snake {
        self.snake
    }

    pub closed spec fn spec_fruits(&self) -> Seq<Fruit> {
        self.fruits@
    }

    /// A well-formed snake, and at most `MAX_FRUITS` fruits, all on the playfield.
    pub open spec fn wf(&self) -> bool {
        &&& self.spec_snake().wf()
        &&& self.spec_fruits().len() <= MAX_FRUITS
        &&& forall|i: int|
            0 <= i < self.spec_fruits().len() ==> #[trigger] self.spec_fruits()[i].point.wf()
    }

    /// `after` and `r` are the state and result of resolving the move of a
    /// tick with `tally` as it was: a requested heading (or none) is picked
    /// and the snake moved; `None` when it bit itself.
    pub open spec fn movement_resolved(&self, after: Game, tally: CommandTally, r: Option<()>) -> bool {
        &&& after.spec_score() == self.spec_score()
        &&& after.spec_fruits() == self.spec_fruits()
        &&& exists|picked: Option<Direction>, res: Result<(), SnakeError>|
            #![trigger self.spec_snake().moved_to(after.spec_snake(), picked, res)]
            picked_from(tally, picked) && self.spec_snake().moved_to(after.spec_snake(), picked, res)
                && (r is None <==> res is Err)
    }

    /// `after` is this round once the fruits under the head were eaten: they
    /// are gone and, if there was one, the score counts one more (staying at
    /// `u32::MAX` once there) and the snake is marked to grow.
    pub open spec fn fruit_checked(&self, after: Game) -> bool {
        let head = self.spec_snake().spec_body()[0];
        &&& after.spec_fruits() == self.spec_fruits().filter(|f: Fruit| f.point != head)
        &&& if fruit_at(self.spec_fruits(), head) {
            &&& self.spec_snake().marked_for_growth(after.spec_snake())
            &&& after.spec_score() == if self.spec_score() < u32::MAX {
                (self.spec_score() + 1) as u32
            } else {
                self.spec_score()
            }
        } else {
            &&& after.spec_snake() == self.spec_snake()
            &&& after.spec_score() == self.spec_score()
        }
    }

    /// A fresh round: no score, a new snake, no fruit.
    pub fn new() -> (r: Game)
        ensures
            r.wf(),
            r.spec_score() == 0,
            r.spec_fruits().len() == 0,
            r.spec_snake().is_fresh(),
    {
        Game { score: 0, snake: Snake::default(), fruits: Vec::new() }
    }

    /// Brings `board` up to date: each fruit, the head, the segment behind the
    /// head, and the cell the tail left.
    pub fn next_frame(&self, board: &mut Board)
        requires
            self.wf(),
            old(board).wf(),
        ensures
            final(board).wf(),
            final(board).cells() == frame(old(board).cells(), self.spec_fruits(), self.spec_snake()),
    {
        let ghost start = board.cells();
        let n = self.fruits.len();
        let mut i: usize = 0;
        while i < n
            invariant
                self.wf(),
                n == self.fruits@.len(),
                i <= n,
                board.wf(),
                board.cells() == paint_fruits(start, self.fruits@.subrange(0, i as int)),
            decreases n - i,
        {
            let point = self.fruits[i].point;
            board.change_cell_symbol(&point, CellSymbol::Fruit);
            assert(self.fruits@.subrange(0, i + 1).drop_last() == self.fruits@.subrange(0, i as int));
            i = i + 1;
        }
        assert(self.fruits@.subrange(0, n as int) == self.fruits@);
        let snake = &self.snake;
        match snake.head() {
            Some(head) => board.change_cell_symbol(head, CellSymbol::SnakeHead),
            None => {},
        }
        match snake.second_segment() {
            Some(neck) => board.change_cell_symbol(neck, CellSymbol::Snake),
            None => {},
        }
        match snake.get_orphaned_tail() {
            Some(point) => board.change_cell_symbol(point, CellSymbol::Board),
            None => {},
        }
    }

    /// While fewer than `MAX_FRUITS` fruits lie on the board, makes one spawn
    /// trial over the points of `points_pool` that the snake does not occupy.
    pub fn control_fruits(&mut self, points_pool: &Vec<Point>)
        requires
            old(self).wf(),
            forall|i: int| 0 <= i < points_pool@.len() ==> #[trigger] points_pool@[i].wf(),
        ensures
            final(self).wf(),
            final(self).spec_score() == old(self).spec_score(),
            final(self).spec_snake() == old(self).spec_snake(),
            final(self).spec_fruits() == old(self).spec_fruits() || (old(self).spec_fruits().len()
                < MAX_FRUITS && exists|p: Point|
                #![trigger points_pool@.contains(p)]
                final(self).spec_fruits() == old(self).spec_fruits().push(Fruit { point: p })
                    && points_pool@.contains(p) && !old(
                    self,
                ).spec_snake().spec_body().contains(p)),
    {
        if self.fruits.len() < MAX_FRUITS {
            let candidates = free_points(points_pool, self.snake.get_occupied_points());
            let ghost pred = |p: Point| !self.snake.spec_body().contains(p);
            match Fruit::try_spawn_at_random_place(&candidates, self.fruits.len()) {
                Some(fruit) => {
                    let ghost p = fruit.point;
                    proof {
                        broadcast use vstd::seq_lib::group_filter_ensures;

                        let k = candidates@.index_of(p);
                        assert(pred(candidates@[k]));
                        points_pool@.lemma_filter_contains_rev(pred, p);
                        assert(points_pool@.contains(p));
                        let j = points_pool@.index_of(p);
                        assert(points_pool@[j].wf());
                    }
                    self.fruits.push(fruit);
                    assert(self.fruits@ == old(self).fruits@.push(Fruit { point: p }));
                },
                None => {},
            }
        }
    }

    /// Resolves the move of a tick: picks a requested heading (clearing the
    /// tally) and moves the snake. `None` when the snake bit itself, which
    /// ends the round.
    pub fn control_movement(&mut self, direction_command_counters: &mut CommandTally) -> (r:
        Option<()>)
        requires
            old(self).wf(),
        ensures
            final(self).wf(),
            final(direction_command_counters).is_cleared(),
            old(self).movement_resolved(*final(self), *old(direction_command_counters), r),
    {
        let direction = pick_move_direction_based_on_probabilities(direction_command_counters);
        let res = self.snake.make_move(direction);
        assert(old(self).spec_snake().moved_to(self.spec_snake(), direction, res));
        assert(picked_from(*old(direction_command_counters), direction));
        match res {
            Ok(()) => Some(()),
            Err(SnakeError::BitOffHisTail) => None,
            Err(SnakeError::BodyIsEmpty) => None,
        }
    }

    /// When a fruit lies under the snake's head, removes it, counts a point
    /// (the score stays at `u32::MAX` once there) and marks the snake to grow.
    pub fn check_if_snake_ate_fruit(&mut self)
        requires
            old(self).wf(),
        ensures
            final(self).wf(),
            old(self).fruit_checked(*final(self)),
    {
        let head = match self.snake.head() {
            Some(h) => *h,
            None => {
                return ;
            },
        };
        let ghost pred = |f: Fruit| f.point != head;
        let ghost before = self.fruits@;
        if remove_eaten_fruits(&mut self.fruits, &head) {
            self.snake.increase_snake_command();
            self.score = self.score.saturating_add(1);
        }
        proof {
            broadcast use vstd::seq_lib::group_filter_ensures;

            assert forall|i: int| 0 <= i < self.fruits@.len() implies #[trigger] self.fruits@[i].point.wf() by {
                before.lemma_filter_contains_rev(pred, self.fruits@[i]);
                let k = before.index_of(self.fruits@[i]);
            }
        }
    }

    /// Takes in what ended a wait of the game loop. A tick resolves the move
    /// (clearing the tally); a command is counted in the tally. Then the
    /// fruit under the head, if any, is eaten. Returns `false`, skipping the
    /// fruit check, when the snake bit itself: the round is over.
    pub fn handle_event(&mut self, event: RoundEvent, direction_command_counters: &mut CommandTally) -> (r: bool)
        requires
            old(self).wf(),
        ensures
            final(self).wf(),
            match event {
                RoundEvent::Tick => {
                    &&& final(direction_command_counters).is_cleared()
                    &&& exists|moved: Game|
                        #![trigger old(self).movement_resolved(moved, *old(direction_command_counters), Some(()))]
                        #![trigger old(self).movement_resolved(moved, *old(direction_command_counters), None)]
                        if r {
                            old(self).movement_resolved(moved, *old(direction_command_counters), Some(()))
                                && moved.fruit_checked(*final(self))
                        } else {
                            old(self).movement_resolved(moved, *old(direction_command_counters), None)
                                && *final(self) == moved
                        }
                },
                RoundEvent::Command(command) => {
                    &&& r
                    &&& old(direction_command_counters).registered(
                        *final(direction_command_counters),
                        command,
                        old(self).spec_snake().spec_heading(),
                    )
                    &&& old(self).fruit_checked(*final(self))
                },
            },
    {
        match event {
            RoundEvent::Tick => {
                let ghost tally = *direction_command_counters;
                let res = self.control_movement(direction_command_counters);
                let ghost moved = *self;
                match res {
                    Some(()) => {
                        self.check_if_snake_ate_fruit();
                        assert(old(self).movement_resolved(moved, tally, Some(())));
                        true
                    },
                    None => {
                        assert(old(self).movement_resolved(moved, tally, None));
                        false
                    },
                }
            },
            RoundEvent::Command(command) => {
                let heading = *self.snake.get_current_direction();
                direction_command_counters.register_command(command, &heading);
                self.check_if_snake_ate_fruit();
                true
            },
        }
    }

    pub fn score(&self) -> (r: u32)
        ensures
            r == self.spec_score(),
    {
        self.score
    }

    pub fn snake(&self) -> (r: &Snake)
        ensures
            *r == self.spec_snake(),
    {
        &self.snake
    }

    pub fn fruits(&self) -> (r: &Vec<Fruit>)
        ensures
            r@ == self.spec_fruits(),
    {
        &self.fruits
    }
}

} // verus!
