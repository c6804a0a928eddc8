use vstd::prelude::*;
use crate::consts::{BOARD_SIZE_X, BOARD_SIZE_Y};
use crate::point::Point;

verus! {

/// Columns of the canvas: the playfield and a wall on each side.
pub const CANVAS_WIDTH: usize = 22;

/// Rows of the canvas: the playfield and a wall above and below.
pub const CANVAS_HEIGHT: usize = 22;

const SE: char = '┌';
const SW: char = '┐';
const NW: char = '┘';
const NE: char = '└';
const NS: char = '│';
const EW: char = '─';

/// A corner of the border, named by the sides its lines leave towards.
#[derive(Debug, Clone, Copy, PartialEq, Eq, Structural)]
pub enum Junction {
    NE,
    NW,
    SE,
    SW,
}

pub open spec fn junction_char(j: Junction) -> char {
    match j {
        Junction::NE => '└',
        Junction::NW => '┘',
        Junction::SE => '┌',
        Junction::SW => '┐',
    }
}

impl From<Junction> for char {
    fn from(j: Junction) -> (r: char) {
        match j {
            Junction::NE => NE,
            Junction::NW => NW,
            Junction::SE => SE,
            Junction::SW => SW,
        }
    }
}

impl vstd::std_specs::convert::FromSpecImpl<Junction> for char {
    open spec fn obeys_from_spec() -> bool {
        true
    }

    open spec fn from_spec(j: Junction) -> char {
        junction_char(j)
    }
}

/// A straight piece of the border: vertical (north-south) or horizontal.
#[derive(Debug, Clone, Copy, PartialEq, Eq, Structural)]
pub enum Wall {
    NS,
    EW,
}

pub open spec fn wall_char(w: Wall) -> char {
    match w {
        Wall::NS => '│',
        Wall::EW => '─',
    }
}

impl From<Wall> for char {
    fn from(w: Wall) -> (r: char) {
        match w {
            Wall::NS => NS,
            Wall::EW => EW,
        }
    }
}

impl vstd::std_specs::convert::FromSpecImpl<Wall> for char {
    open spec fn obeys_from_spec() -> bool {
        true
    }

    open spec fn from_spec(w: Wall) -> char {
        wall_char(w)
    }
}

/// What a canvas cell shows.
#[derive(Debug, Clone, Copy, PartialEq, Eq, Structural)]
pub enum CellSymbol {
    Board,
    Snake,
    SnakeHead,
    Fruit,
    Wall(Wall),
    Junction(Junction),
}

/// The character a cell is drawn with.
pub open spec fn symbol_char(s: CellSymbol) -> char {
    match s {
        CellSymbol::Board => ' ',
        CellSymbol::Snake => '#',
        CellSymbol::SnakeHead => '@',
        CellSymbol::Fruit => 'O',
        CellSymbol::Wall(w) => wall_char(w),
        CellSymbol::Junction(j) => junction_char(j),
    }
}

impl CellSymbol {
    pub fn to_char(&self) -> (r: char)
        ensures
            r == symbol_char(*self),
    {
        match *self {
            CellSymbol::Board => ' ',
            CellSymbol::Snake => '#',
            CellSymbol::SnakeHead => '@',
            CellSymbol::Fruit => 'O',
            CellSymbol::Wall(wall) => char::from(wall),
            CellSymbol::Junction(junction) => char::from(junction),
        }
    }
}

/// The middle of the playfield, where a new snake's head starts.
pub open spec fn spec_center() -> Point {
    Point { y: BOARD_SIZE_Y / 2, x: BOARD_SIZE_X / 2 }
}

pub fn get_center_of_board_coordinates() -> (r: Point)
    ensures
        r == spec_center(),
{
    Point::new(BOARD_SIZE_Y / 2, BOARD_SIZE_X / 2)
}

/// Every playfield point, row by row: the point of row `y` and column `x`
/// stands at `y * BOARD_SIZE_X + x`.
pub fn generate_points_pool() -> (r: Vec<Point>)
    ensures
        r@.len() == BOARD_SIZE_Y * BOARD_SIZE_X,
        forall|y: int, x: int|
            0 <= y < BOARD_SIZE_Y && 0 <= x < BOARD_SIZE_X ==> #[trigger] r@[y * BOARD_SIZE_X + x]
                == (Point { y: y as u16, x: x as u16 }),
{
    let mut pool: Vec<Point> = Vec::new();
    let mut y: u16 = 0;
    while y < BOARD_SIZE_Y
        invariant
            y <= BOARD_SIZE_Y,
            pool@.len() == y * BOARD_SIZE_X,
            forall|yy: int, xx: int|
                0 <= yy < y && 0 <= xx < BOARD_SIZE_X ==> #[trigger] pool@[yy * BOARD_SIZE_X + xx]
                    == (Point { y: yy as u16, x: xx as u16 }),
        decreases BOARD_SIZE_Y - y,
    {
        let mut x: u16 = 0;
        while x < BOARD_SIZE_X
            invariant
                y < BOARD_SIZE_Y,
                x <= BOARD_SIZE_X,
                pool@.len() == y * BOARD_SIZE_X + x,
                forall|yy: int, xx: int|
                    ((0 <= yy < y && 0 <= xx < BOARD_SIZE_X) || (yy == y && 0 <= xx < x))
                        ==> #[trigger] pool@[yy * BOARD_SIZE_X + xx]
                        == (Point { y: yy as u16, x: xx as u16 }),
            decreases BOARD_SIZE_X - x,
        {
            pool.push(Point { x, y });
            x = x + 1;
        }
        y = y + 1;
    }
    pool
}

/// The symbol a fresh canvas holds at `row`, `col`: corner glyphs at the four
/// corners, walls along the edges, empty floor inside.
pub open spec fn default_cell(row: int, col: int) -> CellSymbol {
    let last_row = CANVAS_HEIGHT - 1;
    let last_col = CANVAS_WIDTH - 1;
    if row == 0 && col == 0 {
        CellSymbol::Junction(Junction::SE)
    } else if row == 0 && col == last_col {
        CellSymbol::Junction(Junction::SW)
    } else if row == last_row && col == last_col {
        CellSymbol::Junction(Junction::NW)
    } else if row == last_row && col == 0 {
        CellSymbol::Junction(Junction::NE)
    } else if row == 0 || row == last_row {
        CellSymbol::Wall(Wall::EW)
    } else if col == 0 || col == last_col {
        CellSymbol::Wall(Wall::NS)
    } else {
        CellSymbol::Board
    }
}

/// The canvas cell that shows playfield point `p`: one row and one column in
/// from the border.
pub open spec fn canvas_index(p: Point) -> int {
    (p.y + 1) * CANVAS_WIDTH + (p.x + 1)
}

/// The text of canvas row `row`: one character per cell, then a line break.
pub open spec fn row_text(cells: Seq<CellSymbol>, row: int) -> Seq<char> {
    Seq::new(CANVAS_WIDTH as nat, |c: int| symbol_char(cells[row * CANVAS_WIDTH + c])).push('\n')
}

/// The text of the first `n` canvas rows.
pub open spec fn rows_text(cells: Seq<CellSymbol>, n: nat) -> Seq<char>
    decreases n,
{
    if n == 0 {
        Seq::empty()
    } else {
        rows_text(cells, (n - 1) as nat) + row_text(cells, n - 1)
    }
}

/// The whole canvas as text, row by row.
pub open spec fn render(cells: Seq<CellSymbol>) -> Seq<char> {
    rows_text(cells, CANVAS_HEIGHT as nat)
}

/// The error of `std::fmt`'s writers, carried through without inspection.
#[verifier::external_type_specification]
#[verifier::external_body]
pub struct ExFmtError(std::fmt::Error);

/// Appends a character to a string.
/// Relies on `String::push`, which appends the char to the end of the string.
#[verifier::external_body]
fn push_char(s: &mut String, c: char)
    ensures
        final(s)@ == old(s)@.push(c),
{
    s.push(c)
}

/// The canvas: the playfield surrounded by a border, held row by row.
#[derive(Debug)]
pub struct Board {
    canvas: Vec<CellSymbol>,
}

impl Board {
    /// The canvas cells, row by row: cell `row`, `col` stands at
    /// `row * CANVAS_WIDTH + col`.
    pub closed spec fn cells(&self) -> Seq<CellSymbol> {
        self.canvas@
    }

    pub open spec fn wf(&self) -> bool {
        self.cells().len() == CANVAS_WIDTH * CANVAS_HEIGHT
    }

    pub open spec fn cell(&self, row: int, col: int) -> CellSymbol {
        self.cells()[row * CANVAS_WIDTH + col]
    }

    /// Writes the canvas as text, one line per row, to `wr`.
    pub fn get_board(&self, wr: &mut String) -> (r: Result<(), std::fmt::Error>)
        requires
            self.wf(),
        ensures
            final(wr)@ == old(wr)@ + render(self.cells()),
            r is Ok,
    {
        let ghost start = wr@;
        let ghost cells = self.cells();
        let mut row: usize = 0;
        while row < CANVAS_HEIGHT
            invariant
                self.wf(),
                cells == self.cells(),
                row <= CANVAS_HEIGHT,
                wr@ == start + rows_text(cells, row as nat),
            decreases CANVAS_HEIGHT - row,
        {
            let ghost before_row = wr@;
            let mut col: usize = 0;
            while col < CANVAS_WIDTH
                invariant
                    self.wf(),
                    cells == self.cells(),
                    row < CANVAS_HEIGHT,
                    col <= CANVAS_WIDTH,
                    wr@ == before_row + Seq::new(
                        col as nat,
                        |c: int| symbol_char(cells[row * CANVAS_WIDTH + c]),
                    ),
                decreases CANVAS_WIDTH - col,
            {
                let ghost prev = wr@;
                let symbol = self.canvas[row * CANVAS_WIDTH + col];
                push_char(wr, symbol.to_char());
                assert(wr@ =~= before_row + Seq::new(
                    (col + 1) as nat,
                    |c: int| symbol_char(cells[row * CANVAS_WIDTH + c]),
                ));
                col = col + 1;
            }
            push_char(wr, '\n');
            assert(rows_text(cells, (row + 1) as nat) == rows_text(cells, row as nat) + row_text(
                cells,
                row as int,
            ));
            assert(wr@ =~= start + rows_text(cells, (row + 1) as nat));
            row = row + 1;
        }
        Ok(())
    }

    fn translate_points_to_cavas_points(&self, point: &Point) -> (r: (usize, usize))
        ensures
            r == ((point.y + 1) as usize, (point.x + 1) as usize),
    {
        (point.y as usize + 1, point.x as usize + 1)
    }

    /// Shows `symbol` at the canvas cell of playfield point `point`. The
    /// border is never touched.
    pub fn change_cell_symbol(&mut self, point: &Point, symbol: CellSymbol)
        requires
            old(self).wf(),
            point.wf(),
        ensures
            final(self).wf(),
            final(self).cells() == old(self).cells().update(canvas_index(*point), symbol),
    {
        let (y, x) = self.translate_points_to_cavas_points(point);
        self.canvas.set(y * CANVAS_WIDTH + x, symbol);
    }
}

/// Drawing a playfield point never changes the border: its canvas cell lies
/// strictly inside the four edges.
pub proof fn lemma_point_cell_inside_border(p: Point)
    requires
        p.wf(),
    ensures
        0 <= canvas_index(p) < CANVAS_WIDTH * CANVAS_HEIGHT,
        1 <= p.y + 1 < CANVAS_HEIGHT - 1,
        1 <= p.x + 1 < CANVAS_WIDTH - 1,
{
}

fn default_symbol(row: usize, col: usize) -> (r: CellSymbol)
    ensures
        r == default_cell(row as int, col as int),
{
    let last_row = CANVAS_HEIGHT - 1;
    let last_col = CANVAS_WIDTH - 1;
    if row == 0 && col == 0 {
        CellSymbol::Junction(Junction::SE)
    } else if row == 0 && col == last_col {
        CellSymbol::Junction(Junction::SW)
    } else if row == last_row && col == last_col {
        CellSymbol::Junction(Junction::NW)
    } else if row == last_row && col == 0 {
        CellSymbol::Junction(Junction::NE)
    } else if row == 0 || row == last_row {
        CellSymbol::Wall(Wall::EW)
    } else if col == 0 || col == last_col {
        CellSymbol::Wall(Wall::NS)
    } else {
        CellSymbol::Board
    }
}

impl Default for Board {
    /// A canvas with its border drawn and an empty playfield.
    fn default() -> (r: Board)
        ensures
            r.wf(),
            forall|row: int, col: int|
                0 <= row < CANVAS_HEIGHT && 0 <= col < CANVAS_WIDTH ==> #[trigger] r.cell(row, col)
                    == default_cell(row, col),
    {
        let mut canvas: Vec<CellSymbol> = Vec::new();
        let mut row: usize = 0;
        while row < CANVAS_HEIGHT
            invariant
                row <= CANVAS_HEIGHT,
                canvas@.len() == row * CANVAS_WIDTH,
                forall|rr: int, cc: int|
                    0 <= rr < row && 0 <= cc < CANVAS_WIDTH ==> #[trigger] canvas@[rr * CANVAS_WIDTH + cc]
                        == default_cell(rr, cc),
            decreases CANVAS_HEIGHT - row,
        {
            let mut col: usize = 0;
            while col < CANVAS_WIDTH
                invariant
                    row < CANVAS_HEIGHT,
                    col <= CANVAS_WIDTH,
                    canvas@.len() == row * CANVAS_WIDTH + col,
                    forall|rr: int, cc: int|
                        ((0 <= rr < row && 0 <= cc < CANVAS_WIDTH) || (rr == row && 0 <= cc < col))
                            ==> #[trigger] canvas@[rr * CANVAS_WIDTH + cc] == default_cell(rr, cc),
                decreases CANVAS_WIDTH - col,
            {
                canvas.push(default_symbol(row, col));
                col = col + 1;
            }
            row = row + 1;
        }
        Board { canvas }
    }
}

} // verus!
