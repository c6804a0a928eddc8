use vstd::prelude::*;
use std::collections::VecDeque;
use crate::board::{get_center_of_board_coordinates, spec_center};
use crate::point::{Direction, Point};

verus! {

/// Why a move failed.
#[derive(Clone, Copy, Debug, PartialEq, Eq, Structural)]
pub enum SnakeError {
    /// The new head landed on the snake's own body: the round is over.
    BitOffHisTail,
    /// The body held no segment where one was needed.
    BodyIsEmpty,
}

/// The snake: its segments head first, whether the next move grows it, its
/// heading, and the cell its tail left on the last move that did not grow it.
#[derive(Debug)]
pub struct Snake {
    body: VecDeque<Point>,
    increase_snake: bool,
    head_current_direction: Direction,
    orphaned_tail: Option<Point>,
}

/// The heading a move takes: the requested one, else the current one.
pub open spec fn effective_direction(heading: Direction, requested: Option<Direction>) -> Direction {
    match requested {
        Some(d) => d,
        None => heading,
    }
}

impl Snake {
    /// The segments, head first.
    pub closed spec fn spec_body(&self) -> Seq<Point> {
        self.body@
    }

    /// Whether the next move lengthens the snake.
    pub closed spec fn spec_grow_pending(&self) -> bool {
        self.increase_snake
    }

    pub closed spec fn spec_heading(&self) -> Direction {
        self.head_current_direction
    }

    /// The cell the tail left on the last move: `None` when that move grew
    /// the snake (no cell was freed) or no move was made yet.
    pub closed spec fn spec_orphaned_tail(&self) -> Option<Point> {
        self.orphaned_tail
    }

    /// At least three segments, all on the playfield.
    pub open spec fn wf(&self) -> bool {
        &&& self.spec_body().len() >= 3
        &&& forall|i: int| 0 <= i < self.spec_body().len() ==> #[trigger] self.spec_body()[i].wf()
        &&& (self.spec_orphaned_tail() matches Some(p) ==> p.wf())
    }

    /// The segments that stay in place on a move: all of them when the move
    /// grows the snake, all but the tail otherwise.
    pub open spec fn kept_segments(&self) -> Seq<Point> {
        if self.spec_grow_pending() {
            self.spec_body()
        } else {
            self.spec_body().drop_last()
        }
    }

    /// The snake a round starts with: three segments heading up, the head at
    /// the middle of the playfield and the body below it, no growth pending
    /// and no cell freed yet.
    pub open spec fn is_fresh(&self) -> bool {
        &&& self.spec_body() == seq![
            spec_center(),
            Point { y: (spec_center().y + 1) as u16, x: spec_center().x },
            Point { y: (spec_center().y + 2) as u16, x: spec_center().x },
        ]
        &&& self.spec_heading() == Direction::Up
        &&& !self.spec_grow_pending()
        &&& self.spec_orphaned_tail() is None
    }

    /// Whether a move in the requested heading would reverse the snake, and is
    /// therefore ignored.
    pub open spec fn is_reversal(&self, requested: Option<Direction>) -> bool {
        effective_direction(self.spec_heading(), requested).spec_opposite() == self.spec_heading()
    }

    /// `after` and `r` are the state and result of a move of `self` in the
    /// requested heading.
    pub open spec fn moved_to(
        &self,
        after: Snake,
        requested: Option<Direction>,
        r: Result<(), SnakeError>,
    ) -> bool {
        let dir = effective_direction(self.spec_heading(), requested);
        if self.is_reversal(requested) {
            &&& after == *self
            &&& r is Ok
        } else {
            let kept = self.kept_segments();
            let new_head = self.spec_body()[0].moved(dir);
            &&& after.spec_body() == seq![new_head] + kept
            &&& after.spec_heading() == dir
            &&& !after.spec_grow_pending()
            &&& after.spec_orphaned_tail() == (if self.spec_grow_pending() {
                None
            } else {
                Some(self.spec_body().last())
            })
            &&& r == (if kept.contains(new_head) {
                Err(SnakeError::BitOffHisTail)
            } else {
                Ok(())
            })
        }
    }

    /// `after` is `self` marked to grow on its next move.
    pub open spec fn marked_for_growth(&self, after: Snake) -> bool {
        &&& after.spec_body() == self.spec_body()
        &&& after.spec_grow_pending()
        &&& after.spec_heading() == self.spec_heading()
        &&& after.spec_orphaned_tail() == self.spec_orphaned_tail()
    }

    fn check_if_bitten_itself(&self, point: &Point) -> (r: Result<(), SnakeError>)
        ensures
            r == (if self.spec_body().contains(*point) {
                Err(SnakeError::BitOffHisTail)
            } else {
                Ok(())
            }),
    {
        let n = self.body.len();
        let mut i: usize = 0;
        while i < n
            invariant
                n == self.body@.len(),
                i <= n,
                forall|j: int| 0 <= j < i ==> self.body@[j] != *point,
            decreases n - i,
        {
            if self.body[i] == *point {
                return Err(SnakeError::BitOffHisTail);
            }
            i = i + 1;
        }
        Ok(())
    }

    /// Takes the segment that becomes the new head: the tail itself when the
    /// snake does not grow (the tail's cell is then orphaned), a copy of it
    /// when it does. Clears the pending growth.
    fn prepare_new_segment(&mut self) -> (r: Result<Point, SnakeError>)
        requires
            old(self).wf(),
        ensures
            r == Ok::<Point, SnakeError>(old(self).spec_body().last()),
            final(self).spec_body() == old(self).kept_segments(),
            !final(self).spec_grow_pending(),
            final(self).spec_heading() == old(self).spec_heading(),
            final(self).spec_orphaned_tail() == (if old(self).spec_grow_pending() {
                None
            } else {
                Some(old(self).spec_body().last())
            }),
    {
        let new_segment_or_err = if !self.increase_snake {
            match self.body.pop_back() {
                Some(old_tail) => {
                    self.orphaned_tail = Some(old_tail);
                    Ok(old_tail)
                },
                None => Err(SnakeError::BodyIsEmpty),
            }
        } else {
            self.orphaned_tail = None;
            let n = self.body.len();
            if n > 0 {
                Ok(self.body[n - 1])
            } else {
                Err(SnakeError::BodyIsEmpty)
            }
        };
        self.increase_snake = false;
        new_segment_or_err
    }

    /// Moves the snake one step in the requested heading, or in its current
    /// heading when none is requested. A request to reverse is ignored. The
    /// new head is checked against the segments that stay in place; when it
    /// lands on one, the head is still added and `BitOffHisTail` is returned.
    pub fn make_move(&mut self, direction: Option<Direction>) -> (r: Result<(), SnakeError>)
        requires
            old(self).wf(),
        ensures
            final(self).wf(),
            old(self).moved_to(*final(self), direction, r),
    {
        let direction = match direction {
            Some(d) => d,
            None => self.head_current_direction,
        };
        if direction.opposite() == self.head_current_direction {
            return Ok(());
        }
        let ghost before = *self;
        let mut new_segment_to_insert = self.prepare_new_segment()?;
        let head = match self.head() {
            Some(h) => *h,
            None => {
                return Err(SnakeError::BodyIsEmpty);
            },
        };
        assert(head == before.spec_body()[0]);
        // The new head starts at the current head, then moves one step.
        new_segment_to_insert.set_coords(head.get_coords());
        new_segment_to_insert.step(direction);

        self.head_current_direction = direction;

        let result_if_bite = self.check_if_bitten_itself(&new_segment_to_insert);
        self.body.push_front(new_segment_to_insert);
        proof {
            let b = self.body@;
            assert forall|i: int| 0 <= i < b.len() implies #[trigger] b[i].wf() by {
                if i > 0 {
                    assert(b[i] == before.kept_segments()[i - 1]);
                }
            }
        }
        result_if_bite
    }

    pub fn head(&self) -> (r: Option<&Point>)
        ensures
            r == (if self.spec_body().len() > 0 {
                Some(&self.spec_body()[0])
            } else {
                None
            }),
    {
        if self.body.len() > 0 {
            Some(&self.body[0])
        } else {
            None
        }
    }

    pub fn second_segment(&self) -> (r: Option<&Point>)
        ensures
            r == (if self.spec_body().len() > 1 {
                Some(&self.spec_body()[1])
            } else {
                None
            }),
    {
        if self.body.len() > 1 {
            Some(&self.body[1])
        } else {
            None
        }
    }

    /// The cell the tail left on the last move, to be drawn empty; `None`
    /// when that move grew the snake, as no cell was freed, or before the
    /// first move.
    pub fn get_orphaned_tail(&self) -> (r: Option<&Point>)
        ensures
            r == (match self.spec_orphaned_tail() {
                Some(p) => Some(&p),
                None => None,
            }),
    {
        match &self.orphaned_tail {
            Some(p) => Some(p),
            None => None,
        }
    }

    pub fn get_occupied_points(&self) -> (r: &VecDeque<Point>)
        ensures
            r@ == self.spec_body(),
    {
        &self.body
    }

    /// Marks the snake to grow by one segment on its next move.
    pub fn increase_snake_command(&mut self)
        ensures
            old(self).marked_for_growth(*final(self)),
    {
        self.increase_snake = true;
    }

    pub fn get_current_direction(&self) -> (r: &Direction)
        ensures
            *r == self.spec_heading(),
    {
        &self.head_current_direction
    }

    /// The number of segments.
    pub fn size(&self) -> (r: usize)
        ensures
            r == self.spec_body().len(),
    {
        self.body.len()
    }
}

/// A move never shortens the snake. It keeps the snake's length, except
/// that a move that is not a reversal lengthens a snake marked to grow by
/// exactly one segment.
pub proof fn lemma_move_length(
    s: Snake,
    after: Snake,
    requested: Option<Direction>,
    r: Result<(), SnakeError>,
)
    requires
        s.wf(),
        s.moved_to(after, requested, r),
    ensures
        after.spec_body().len() >= s.spec_body().len(),
        s.is_reversal(requested) ==> after.spec_body().len() == s.spec_body().len(),
        !s.is_reversal(requested) ==> after.spec_body().len() == s.spec_body().len() + (
        if s.spec_grow_pending() {
            1int
        } else {
            0int
        }),
{
}

/// Marking the snake to grow and then moving it (other than in reverse)
/// lengthens it by exactly one segment.
pub proof fn lemma_growth_adds_one_segment(
    s: Snake,
    marked: Snake,
    after: Snake,
    requested: Option<Direction>,
    r: Result<(), SnakeError>,
)
    requires
        s.wf(),
        s.marked_for_growth(marked),
        marked.moved_to(after, requested, r),
        !marked.is_reversal(requested),
    ensures
        after.spec_body().len() == s.spec_body().len() + 1,
{
}

/// A request to move against the current heading changes nothing: neither
/// the heading nor the body.
pub proof fn lemma_reversal_is_noop(s: Snake, after: Snake, r: Result<(), SnakeError>)
    requires
        s.moved_to(after, Some(s.spec_heading().spec_opposite()), r),
    ensures
        after == s,
        after.spec_heading() == s.spec_heading(),
        after.spec_body() == s.spec_body(),
        r is Ok,
{
    crate::point::lemma_opposite_involutive(s.spec_heading());
}

/// A move that succeeds keeps the body free of repeated points: the new head
/// is none of the segments that stay, and those were already distinct.
pub proof fn lemma_successful_move_keeps_body_distinct(
    s: Snake,
    after: Snake,
    requested: Option<Direction>,
)
    requires
        s.wf(),
        s.spec_body().no_duplicates(),
        s.moved_to(after, requested, Ok(())),
    ensures
        after.spec_body().no_duplicates(),
{
    if !s.is_reversal(requested) {
        let kept = s.kept_segments();
        let b = after.spec_body();
        assert(kept.no_duplicates()) by {
            assert forall|i: int, j: int|
                0 <= i < kept.len() && 0 <= j < kept.len() && i != j implies kept[i] != kept[j] by {
                assert(kept[i] == s.spec_body()[i]);
                assert(kept[j] == s.spec_body()[j]);
            }
        }
        assert forall|i: int, j: int|
            0 <= i < b.len() && 0 <= j < b.len() && i != j implies b[i] != b[j] by {
            if i == 0 {
                assert(b[j] == kept[j - 1]);
            } else if j == 0 {
                assert(b[i] == kept[i - 1]);
            } else {
                assert(b[i] == kept[i - 1]);
                assert(b[j] == kept[j - 1]);
            }
        }
    }
}

impl Default for Snake {
    /// A snake of three segments heading up, its head at the middle of the
    /// playfield and its body below it.
    fn default() -> (r: Snake)
        ensures
            r.wf(),
            r.is_fresh(),
            r.spec_body().no_duplicates(),
    {
        let center = get_center_of_board_coordinates();
        let mut body: VecDeque<Point> = VecDeque::new();
        let mut i: u16 = 0;
        while i < 3
            invariant
                0 <= i <= 3,
                center == spec_center(),
                body@.len() == i,
                forall|j: int|
                    0 <= j < i ==> #[trigger] body@[j] == (Point { y: (center.y + j) as u16, x: center.x }),
            decreases 3 - i,
        {
            body.push_back(Point::new(center.y + i, center.x));
            i = i + 1;
        }
        let r = Snake {
            orphaned_tail: None,
            body,
            increase_snake: false,
            head_current_direction: Direction::Up,
        };
        assert(r.spec_body() =~= seq![
            spec_center(),
            Point { y: (spec_center().y + 1) as u16, x: spec_center().x },
            Point { y: (spec_center().y + 2) as u16, x: spec_center().x },
        ]);
        r
    }
}

} // verus!
