//! The grid buffer: a fixed-size rectangle of display cells.

use vstd::prelude::*;

verus! {

/// Width of one block in character cells.
pub const BLOCK_SIZE_X: usize = 2;

/// Height of one block in character cells.
pub const BLOCK_SIZE_Y: usize = 1;

/// Width of the track in character cells.
pub const BOARD_SIZE_X: usize = 50 * BLOCK_SIZE_X;

/// Height of the track in character cells.
pub const BOARD_SIZE_Y: usize = 10 * BLOCK_SIZE_Y;

/// Width of the border on either side.
pub const BORDER_SIZE_X: usize = BLOCK_SIZE_X;

/// Height of the border at top and bottom.
pub const BORDER_SIZE_Y: usize = BLOCK_SIZE_Y;

/// Number of columns of the grid.
pub const GAME_SIZE_X: usize = BOARD_SIZE_X + BORDER_SIZE_X * 3;

/// Number of rows of the grid.
pub const GAME_SIZE_Y: usize = BOARD_SIZE_Y + BORDER_SIZE_Y * 2;

/// The glyph of a painted cell, a full block.
pub const BLOCK_GLYPH: char = '\u{2588}';

/// A truecolor value: red, green, blue.
#[derive(Clone, Copy, Debug, PartialEq, Eq, Structural)]
pub struct Rgb(pub u8, pub u8, pub u8);

/// One slot of the grid.
#[derive(Clone, Copy, Debug, PartialEq, Eq, Structural)]
pub enum Cell {
    Blank,
    Painted { color: Rgb, glyph: char },
}

impl Cell {
    /// A cell painted with the block glyph in `color`.
    pub open spec fn block(color: Rgb) -> Cell {
        Cell::Painted { color, glyph: BLOCK_GLYPH }
    }
}

/// The color of the border.
pub open spec fn border_color() -> Rgb {
    Rgb(0, 102, 102)
}

/// A grid has the fixed number of rows, each of the fixed width.
pub open spec fn grid_wf(g: Seq<Seq<Cell>>) -> bool {
    &&& g.len() == GAME_SIZE_Y
    &&& forall|r: int| 0 <= r < g.len() ==> (#[trigger] g[r]).len() == GAME_SIZE_X
}

/// The grid whose cells are all blank.
pub open spec fn blank_grid() -> Seq<Seq<Cell>> {
    Seq::new(GAME_SIZE_Y as nat, |r: int| Seq::new(GAME_SIZE_X as nat, |c: int| Cell::Blank))
}

/// `g` with the two cells of the block at column `x`, row `y` set to `cell`.
pub open spec fn with_block(g: Seq<Seq<Cell>>, x: int, y: int, cell: Cell) -> Seq<Seq<Cell>> {
    g.update(y, g[y].update(x, cell).update(x + 1, cell))
}

/// Whether row `r`, column `c` lies in the border: the first and last row,
/// the first two and the last two columns.
pub open spec fn is_border(r: int, c: int) -> bool {
    ||| r == 0
    ||| r == GAME_SIZE_Y - 1
    ||| c < BORDER_SIZE_X
    ||| c >= GAME_SIZE_X - BORDER_SIZE_X
}

/// `g` with every border cell painted in the border color.
pub open spec fn with_border(g: Seq<Seq<Cell>>) -> Seq<Seq<Cell>> {
    Seq::new(
        g.len(),
        |r: int|
            Seq::new(
                g[r].len(),
                |c: int|
                    if is_border(r, c) {
                        Cell::block(border_color())
                    } else {
                        g[r][c]
                    },
            ),
    )
}

/// The grid buffer.
pub struct Screen {
    cells: Vec<Vec<Cell>>,
}

impl View for Screen {
    type V = Seq<Seq<Cell>>;

    closed spec fn view(&self) -> Seq<Seq<Cell>> {
        Seq::new(self.cells.len() as nat, |r: int| self.cells[r]@)
    }
}

impl Screen {
    /// The dimensions are those fixed at construction.
    pub open spec fn wf(&self) -> bool {
        grid_wf(self@)
    }

    /// A grid of blank cells.
    pub fn new() -> (screen: Screen)
        ensures
            screen.wf(),
            screen@ == blank_grid(),
    {
        let mut cells: Vec<Vec<Cell>> = Vec::new();
        let mut r: usize = 0;
        while r < GAME_SIZE_Y
            invariant
                r <= GAME_SIZE_Y,
                cells.len() == r,
                forall|i: int| 0 <= i < r ==> (#[trigger] cells[i])@ == blank_grid()[i],
            decreases GAME_SIZE_Y - r,
        {
            let mut row: Vec<Cell> = Vec::new();
            let mut c: usize = 0;
            while c < GAME_SIZE_X
                invariant
                    c <= GAME_SIZE_X,
                    row.len() == c,
                    forall|j: int| 0 <= j < c ==> #[trigger] row[j] == Cell::Blank,
                decreases GAME_SIZE_X - c,
            {
                row.push(Cell::Blank);
                c += 1;
            }
            assert(row@ =~= blank_grid()[r as int]);
            cells.push(row);
            r += 1;
        }
        let screen = Screen { cells };
        assert(screen@ =~= blank_grid());
        screen
    }

    /// The cell at column `x`, row `y`.
    pub fn get(&self, x: usize, y: usize) -> (cell: Cell)
        requires
            self.wf(),
            y < GAME_SIZE_Y,
            x < GAME_SIZE_X,
        ensures
            cell == self@[y as int][x as int],
    {
        self.cells[y][x]
    }

    /// Replaces the cell at column `x`, row `y`.
    fn set(&mut self, x: usize, y: usize, cell: Cell)
        requires
            old(self).wf(),
            y < GAME_SIZE_Y,
            x < GAME_SIZE_X,
        ensures
            final(self).wf(),
            final(self)@ == old(self)@.update(
                y as int,
                old(self)@[y as int].update(x as int, cell),
            ),
    {
        assert(self@[y as int] == self.cells[y as int]@);
        self.cells[y][x] = cell;
        assert(self@[y as int] == self.cells[y as int]@);
        assert(self@ =~= old(self)@.update(y as int, old(self)@[y as int].update(x as int, cell)));
    }

    /// Paints the block at column `x`, row `y`: that cell and its right
    /// neighbour.
    pub fn paint_block(&mut self, x: usize, y: usize, color: Rgb)
        requires
            old(self).wf(),
            y < GAME_SIZE_Y,
            x + 1 < GAME_SIZE_X,
        ensures
            final(self).wf(),
            final(self)@ == with_block(old(self)@, x as int, y as int, Cell::block(color)),
    {
        let cell = Cell::Painted { color, glyph: BLOCK_GLYPH };
        self.set(x, y, cell);
        self.set(x + 1, y, cell);
        assert(self@ =~= with_block(old(self)@, x as int, y as int, cell));
    }

    /// Resets the two cells of the block at column `x`, row `y` to blank.
    pub fn erase_block(&mut self, x: usize, y: usize)
        requires
            old(self).wf(),
            y < GAME_SIZE_Y,
            x + 1 < GAME_SIZE_X,
        ensures
            final(self).wf(),
            final(self)@ == with_block(old(self)@, x as int, y as int, Cell::Blank),
    {
        self.set(x, y, Cell::Blank);
        self.set(x + 1, y, Cell::Blank);
        assert(self@ =~= with_block(old(self)@, x as int, y as int, Cell::Blank));
    }

    /// Paints the border: the first and last row and the first two and last
    /// two columns. Every other cell keeps its value.
    pub fn paint_border(&mut self)
        requires
            old(self).wf(),
        ensures
            final(self).wf(),
            final(self)@ == with_border(old(self)@),
    {
        let cell = Cell::Painted { color: Rgb(0, 102, 102), glyph: BLOCK_GLYPH };
        let ghost g = self@;
        let right: usize = GAME_SIZE_X - BORDER_SIZE_X;
        assert(self@ =~~= with_sides(g, 0));
        let mut i: usize = 0;
        while i < GAME_SIZE_Y
            invariant
                i <= GAME_SIZE_Y,
                right == GAME_SIZE_X - BORDER_SIZE_X,
                cell == Cell::block(border_color()),
                grid_wf(g),
                self.wf(),
                self@ == with_sides(g, i as int),
            decreases GAME_SIZE_Y - i,
        {
            self.set(0, i, cell);
            self.set(1, i, cell);
            self.set(right, i, cell);
            self.set(right + 1, i, cell);
            assert(self@ =~~= with_sides(g, i + 1));
            i += 1;
        }
        assert(self@ =~~= with_sides_and_ends(g, 0));
        let last: usize = GAME_SIZE_Y - 1;
        let mut j: usize = 0;
        while j < GAME_SIZE_X
            invariant
                j <= GAME_SIZE_X,
                last == GAME_SIZE_Y - 1,
                cell == Cell::block(border_color()),
                grid_wf(g),
                self.wf(),
                self@ == with_sides_and_ends(g, j as int),
            decreases GAME_SIZE_X - j,
        {
            self.set(j, 0, cell);
            self.set(j, last, cell);
            assert(self@ =~~= with_sides_and_ends(g, j + 1));
            j += 1;
        }
        assert(self@ =~~= with_border(g));
    }
}

/// `g` with the left and right border painted in the rows before `rows`.
spec fn with_sides(g: Seq<Seq<Cell>>, rows: int) -> Seq<Seq<Cell>> {
    Seq::new(
        g.len(),
        |r: int|
            Seq::new(
                g[r].len(),
                |c: int|
                    if r < rows && (c < BORDER_SIZE_X || c >= GAME_SIZE_X - BORDER_SIZE_X) {
                        Cell::block(border_color())
                    } else {
                        g[r][c]
                    },
            ),
    )
}

/// `g` with the left and right border painted, and the top and bottom
/// border in the columns before `columns`.
spec fn with_sides_and_ends(g: Seq<Seq<Cell>>, columns: int) -> Seq<Seq<Cell>> {
    Seq::new(
        g.len(),
        |r: int|
            Seq::new(
                g[r].len(),
                |c: int|
                    if is_border(r, c) && (c < columns || c < BORDER_SIZE_X || c >= GAME_SIZE_X
                        - BORDER_SIZE_X) {
                        Cell::block(border_color())
                    } else {
                        g[r][c]
                    },
            ),
    )
}

} // verus!
