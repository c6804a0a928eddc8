use vstd::prelude::*;
use vstd::string::StrSliceExecFns;
use crate::consts::{BOARD_SIZE_X, BOARD_SIZE_Y};

verus! {

/// A heading of the snake.
#[derive(Clone, Copy, Debug, PartialEq, Eq, Hash, Structural)]
pub enum Direction {
    Up,
    Down,
    Left,
    Right,
}

impl Direction {
    /// The reverse heading.
    pub open spec fn spec_opposite(self) -> Direction {
        match self {
            Direction::Up => Direction::Down,
            Direction::Down => Direction::Up,
            Direction::Left => Direction::Right,
            Direction::Right => Direction::Left,
        }
    }

    /// Whether this heading moves along the row axis.
    pub open spec fn is_vertical(self) -> bool {
        self == Direction::Up || self == Direction::Down
    }

    pub fn opposite(&self) -> (r: Direction)
        ensures
            r == self.spec_opposite(),
    {
        match self {
            Direction::Up => Direction::Down,
            Direction::Down => Direction::Up,
            Direction::Left => Direction::Right,
            Direction::Right => Direction::Left,
        }
    }
}

/// Reversing a heading twice gives the heading back.
pub proof fn lemma_opposite_involutive(d: Direction)
    ensures
        d.spec_opposite().spec_opposite() == d,
{
}

/// A text names no heading.
#[derive(Debug, Clone, PartialEq, Eq)]
pub enum DirectionError {
    /// Holds the text as it was given.
    ConversionFromStringError(String),
}

impl DirectionError {
    /// A message for people: the four heading names and the text given.
    pub fn message(&self) -> (r: String)
        ensures
            r@ == (match self {
                DirectionError::ConversionFromStringError(value) => "There are 4 possible directions: ['left', 'right', 'up', 'down']. `"@
                    + value@ + "` does not match any of them"@,
            }),
    {
        match self {
            DirectionError::ConversionFromStringError(value) => {
                let mut text = String::from_str(
                    "There are 4 possible directions: ['left', 'right', 'up', 'down']. `",
                );
                text.append(value.as_str());
                text.append("` does not match any of them");
                text
            },
        }
    }
}

/// The lowercase form of a text.
pub uninterp spec fn lower_of(s: Seq<char>) -> Seq<char>;

/// Relies on `str::to_lowercase`, whose result depends on the characters of
/// the text alone.
#[verifier::external_body]
fn lowercase(s: &str) -> (r: String)
    ensures
        r@ == lower_of(s@),
{
    s.to_lowercase()
}

/// The heading that a lowercase name stands for.
pub open spec fn direction_named(name: Seq<char>) -> Option<Direction> {
    if name == seq!['l', 'e', 'f', 't'] {
        Some(Direction::Left)
    } else if name == seq!['r', 'i', 'g', 'h', 't'] {
        Some(Direction::Right)
    } else if name == seq!['u', 'p'] {
        Some(Direction::Up)
    } else if name == seq!['d', 'o', 'w', 'n'] {
        Some(Direction::Down)
    } else {
        None
    }
}

/// Whether two texts hold the same characters.
fn same_text(a: &str, b: &str) -> (r: bool)
    ensures
        r == (a@ == b@),
{
    let n = a.unicode_len();
    if n != b.unicode_len() {
        return false;
    }
    let mut i: usize = 0;
    while i < n
        invariant
            n == a@.len() == b@.len(),
            i <= n,
            forall|j: int| 0 <= j < i ==> a@[j] == b@[j],
        decreases n - i,
    {
        if a.get_char(i) != b.get_char(i) {
            return false;
        }
        i = i + 1;
    }
    assert(a@ =~= b@);
    true
}

/// The heading that a lowercase name (`left`, `right`, `up` or `down`)
/// stands for, or `None`.
pub fn direction_from_lowercase(name: &str) -> (r: Option<Direction>)
    ensures
        r == direction_named(name@),
{
    proof {
        reveal_strlit("left");
        reveal_strlit("right");
        reveal_strlit("up");
        reveal_strlit("down");
    }
    assert("left"@ =~= seq!['l', 'e', 'f', 't']);
    assert("right"@ =~= seq!['r', 'i', 'g', 'h', 't']);
    assert("up"@ =~= seq!['u', 'p']);
    assert("down"@ =~= seq!['d', 'o', 'w', 'n']);
    if same_text(name, "left") {
        Some(Direction::Left)
    } else if same_text(name, "right") {
        Some(Direction::Right)
    } else if same_text(name, "up") {
        Some(Direction::Up)
    } else if same_text(name, "down") {
        Some(Direction::Down)
    } else {
        None
    }
}

impl TryFrom<String> for Direction {
    type Error = DirectionError;

    /// The heading `value` names, letter case aside; the error keeps `value`.
    fn try_from(value: String) -> (r: Result<Direction, DirectionError>) {
        let lowered = lowercase(value.as_str());
        match direction_from_lowercase(lowered.as_str()) {
            Some(d) => Ok(d),
            None => Err(DirectionError::ConversionFromStringError(value)),
        }
    }
}

impl vstd::std_specs::convert::TryFromSpecImpl<String> for Direction {
    open spec fn obeys_try_from_spec() -> bool {
        true
    }

    open spec fn try_from_spec(value: String) -> Result<Direction, DirectionError> {
        match direction_named(lower_of(value@)) {
            Some(d) => Ok(d),
            None => Err(DirectionError::ConversionFromStringError(value)),
        }
    }
}

/// The signed step a heading makes along its axis.
pub open spec fn step_of(d: Direction) -> int {
    match d {
        Direction::Up => -1,
        Direction::Down => 1,
        Direction::Right => 1,
        Direction::Left => -1,
    }
}

impl From<Direction> for i16 {
    fn from(dir: Direction) -> (r: i16) {
        match dir {
            Direction::Up => -1,
            Direction::Down => 1,
            Direction::Right => 1,
            Direction::Left => -1,
        }
    }
}

impl vstd::std_specs::convert::FromSpecImpl<Direction> for i16 {
    open spec fn obeys_from_spec() -> bool {
        true
    }

    open spec fn from_spec(d: Direction) -> i16 {
        step_of(d) as i16
    }
}

/// One step of `coordinate` along direction `d` on an axis of `bound` cells,
/// wrapping from the first cell to the last and from the last to the first.
pub open spec fn advance(coordinate: int, d: Direction, bound: int) -> int {
    if step_of(d) == -1 {
        if coordinate == 0 {
            bound - 1
        } else {
            coordinate - 1
        }
    } else if coordinate + 1 >= bound {
        0
    } else {
        coordinate + 1
    }
}

/// A step can always be undone by a step in the reverse heading, across a
/// wrap as well.
pub proof fn lemma_advance_reversible(coordinate: int, d: Direction, bound: int)
    requires
        bound > 0,
        0 <= coordinate < bound,
    ensures
        0 <= advance(coordinate, d, bound) < bound,
        advance(advance(coordinate, d, bound), d.spec_opposite(), bound) == coordinate,
{
}

fn add_with_respect_to_bounds(coordinate: u16, move_with_dir: Direction, bound: u16) -> (r: u16)
    requires
        bound > 0,
    ensures
        r == advance(coordinate as int, move_with_dir, bound as int),
        coordinate < bound ==> r < bound,
{
    let coordinate_change: i16 = i16::from(move_with_dir);
    if coordinate_change == -1 {
        match coordinate.checked_sub(1) {
            Some(c) => c,
            None => bound - 1,
        }
    } else if coordinate >= bound - 1 {
        0
    } else {
        coordinate + (coordinate_change as u16)
    }
}

/// A playfield position: row `y` and column `x`.
#[derive(Clone, Copy, Debug, PartialEq, Eq, Structural)]
pub struct Point {
    pub x: u16,
    pub y: u16,
}

impl Point {
    /// The point lies on the playfield.
    pub open spec fn wf(self) -> bool {
        self.y < BOARD_SIZE_Y && self.x < BOARD_SIZE_X
    }

    /// The point one step away in heading `d`, wrapping around the playfield.
    pub open spec fn moved(self, d: Direction) -> Point {
        if d.is_vertical() {
            Point { y: advance(self.y as int, d, BOARD_SIZE_Y as int) as u16, x: self.x }
        } else {
            Point { y: self.y, x: advance(self.x as int, d, BOARD_SIZE_X as int) as u16 }
        }
    }

    pub fn new(y: u16, x: u16) -> (r: Point)
        ensures
            r == (Point { y, x }),
    {
        Point { y, x }
    }

    pub fn set_coords(&mut self, coords: (u16, u16))
        ensures
            *final(self) == (Point { y: coords.0, x: coords.1 }),
    {
        self.x = coords.1;
        self.y = coords.0;
    }

    pub fn get_coords(&self) -> (r: (u16, u16))
        ensures
            r == (self.y, self.x),
    {
        (self.y, self.x)
    }

    /// Moves the point one step in heading `rhs`, wrapping around the playfield.
    pub fn step(&mut self, rhs: Direction)
        ensures
            *final(self) == old(self).moved(rhs),
            old(self).wf() ==> final(self).wf(),
    {
        match rhs {
            Direction::Up | Direction::Down => {
                self.y = add_with_respect_to_bounds(self.y, rhs, BOARD_SIZE_Y);
            },
            Direction::Left | Direction::Right => {
                self.x = add_with_respect_to_bounds(self.x, rhs, BOARD_SIZE_X);
            },
        }
    }
}

impl std::ops::AddAssign<Direction> for Point {
    fn add_assign(&mut self, rhs: Direction)
        ensures
            *final(self) == old(self).moved(rhs),
            old(self).wf() ==> final(self).wf(),
    {
        self.step(rhs);
    }
}

/// A step of a point on the playfield can be undone by a step in the reverse
/// heading, and stays on the playfield.
pub proof fn lemma_point_move_reversible(p: Point, d: Direction)
    requires
        p.wf(),
    ensures
        p.moved(d).wf(),
        p.moved(d).moved(d.spec_opposite()) == p,
{
    lemma_advance_reversible(p.y as int, d, BOARD_SIZE_Y as int);
    lemma_advance_reversible(p.x as int, d, BOARD_SIZE_X as int);
}

} // verus!
