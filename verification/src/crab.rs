//! The sprite: a position, a footprint of marked blocks, and the moves that
//! paint, erase and test that footprint on the grid.

use vstd::prelude::*;
use vstd::string::StrSliceExecFns;
use crate::screen::{
    grid_wf, with_block, Cell, Rgb, Screen, BLOCK_SIZE_X, BLOCK_SIZE_Y, GAME_SIZE_X, GAME_SIZE_Y,
};

verus! {

/// The rows of marks that a pattern holds: an entry marks its block if it
/// is the text `X`.
pub open spec fn marks(blocks: Vec<Vec<&str>>) -> Seq<Seq<bool>> {
    Seq::new(
        blocks.len() as nat,
        |i: int| Seq::new(blocks[i].len() as nat, |j: int| blocks[i][j]@ == "X"@),
    )
}

/// Whether `pattern` marks the block in its row `i`, column `j`.
pub open spec fn marked(pattern: Seq<Seq<bool>>, i: int, j: int) -> bool {
    0 <= i < pattern.len() && 0 <= j < pattern[i].len() && pattern[i][j]
}

/// Whether the cell in row `r`, column `c` belongs to a marked block of
/// `pattern` anchored at column `x`, row `y`.
pub open spec fn covers(pattern: Seq<Seq<bool>>, x: int, y: int, r: int, c: int) -> bool {
    r >= y && c >= x && marked(pattern, block_row(y, r), block_column(x, c))
}

/// The row of the block that holds the cells of row `r`, in a pattern
/// anchored at row `y`.
pub open spec fn block_row(y: int, r: int) -> int {
    (r - y) / (BLOCK_SIZE_Y as int)
}

/// The column of the block that holds the cell of column `c`, in a pattern
/// anchored at column `x`.
pub open spec fn block_column(x: int, c: int) -> int {
    (c - x) / (BLOCK_SIZE_X as int)
}

/// Every marked block of `pattern` anchored at column `x`, row `y` lies
/// inside the grid.
pub open spec fn fits(pattern: Seq<Seq<bool>>, x: int, y: int) -> bool {
    &&& x >= 0
    &&& y >= 0
    &&& forall|i: int, j: int| #[trigger]
        marked(pattern, i, j) ==> {
            &&& y + i * BLOCK_SIZE_Y < GAME_SIZE_Y
            &&& x + j * BLOCK_SIZE_X + 1 < GAME_SIZE_X
        }
}

/// `g` with every cell of the footprint at column `x`, row `y` set to `cell`.
pub open spec fn stamped(
    g: Seq<Seq<Cell>>,
    pattern: Seq<Seq<bool>>,
    x: int,
    y: int,
    cell: Cell,
) -> Seq<Seq<Cell>> {
    Seq::new(
        g.len(),
        |r: int|
            Seq::new(
                g[r].len(),
                |c: int|
                    if covers(pattern, x, y, r, c) {
                        cell
                    } else {
                        g[r][c]
                    },
            ),
    )
}

/// `g` stamped as far as the blocks reach that come before the block in
/// row `i`, column `j` of the pattern, row by row.
spec fn stamped_before(
    g: Seq<Seq<Cell>>,
    pattern: Seq<Seq<bool>>,
    x: int,
    y: int,
    cell: Cell,
    i: int,
    j: int,
) -> Seq<Seq<Cell>> {
    Seq::new(
        g.len(),
        |r: int|
            Seq::new(
                g[r].len(),
                |c: int|
                    if covers(pattern, x, y, r, c) && (block_row(y, r) < i || (block_row(y, r) == i
                        && block_column(x, c) < j)) {
                        cell
                    } else {
                        g[r][c]
                    },
            ),
    )
}

/// What painting in `color` leaves in a cell, or what erasing leaves.
pub open spec fn ink(color: Rgb, erase: bool) -> Cell {
    if erase {
        Cell::Blank
    } else {
        Cell::block(color)
    }
}

/// Whether both cells of the block at column `x`, row `y` are blank.
pub open spec fn block_blank(g: Seq<Seq<Cell>>, x: int, y: int) -> bool {
    g[y][x] == Cell::Blank && g[y][x + 1] == Cell::Blank
}

/// Whether the footprint at column `x`, row `y` would lie on a cell that is
/// not blank.
pub open spec fn blocked(g: Seq<Seq<Cell>>, pattern: Seq<Seq<bool>>, x: int, y: int) -> bool {
    exists|i: int, j: int| #[trigger]
        marked(pattern, i, j) && !block_blank(g, x + j * BLOCK_SIZE_X, y + i * BLOCK_SIZE_Y)
}

/// The footprint of a crab: two blocks, one above the other.
pub open spec fn crab_footprint() -> Seq<Seq<bool>> {
    seq![seq![true], seq![true]]
}

/// The color of a crab.
pub open spec fn crab_color() -> Rgb {
    Rgb(180, 0, 0)
}

/// A racing crab.
#[derive(Debug)]
pub struct Crab {
    pub pos_x: usize,
    pub pos_y: usize,
    pub finished: bool,
}

impl Crab {
    /// The crab's footprint at its position lies inside the grid.
    pub open spec fn in_grid(&self) -> bool {
        fits(crab_footprint(), self.pos_x as int, self.pos_y as int)
    }

    /// `g` with the crab's footprint at its position erased.
    pub open spec fn lifted(&self, g: Seq<Seq<Cell>>) -> Seq<Seq<Cell>> {
        stamped(g, crab_footprint(), self.pos_x as int, self.pos_y as int, Cell::Blank)
    }

    /// `g` with the crab's footprint at its position painted.
    pub open spec fn placed(&self, g: Seq<Seq<Cell>>) -> Seq<Seq<Cell>> {
        stamped(
            g,
            crab_footprint(),
            self.pos_x as int,
            self.pos_y as int,
            Cell::block(crab_color()),
        )
    }

    /// Whether the crab, taken off the grid `g`, finds every cell of its
    /// footprint at column `x`, row `y` blank.
    pub open spec fn can_move_to(&self, g: Seq<Seq<Cell>>, x: int, y: int) -> bool {
        !blocked(self.lifted(g), crab_footprint(), x, y)
    }

    /// A crab at the start of the lane whose top row is `pos_y`.
    pub fn new(pos_y: usize) -> (crab: Crab)
        ensures
            crab.pos_x == 0,
            crab.pos_y == pos_y,
            !crab.finished,
    {
        Crab { pos_x: 0, pos_y, finished: false }
    }

    /// The color in which the crab is painted.
    pub fn get_color(&self) -> (color: Rgb)
        ensures
            color == crab_color(),
    {
        Rgb(180, 0, 0)
    }

    /// The crab's footprint.
    pub fn crab_pattern<'a>(&self) -> (blocks: Vec<Vec<&'a str>>)
        ensures
            marks(blocks) == crab_footprint(),
    {
        let blocks = vec![vec!["X"], vec!["X"]];
        assert(marks(blocks)[0] =~= seq![true]);
        assert(marks(blocks)[1] =~= seq![true]);
        assert(marks(blocks) =~= crab_footprint());
        blocks
    }

    /// Whether a pattern's entry marks its block.
    fn is_mark(entry: &str) -> (mark: bool)
        ensures
            mark == (entry@ == "X"@),
    {
        proof {
            reveal_strlit("X");
        }
        if entry.unicode_len() == 1 {
            let mark = entry.get_char(0) == 'X';
            assert(mark ==> entry@ =~= "X"@);
            mark
        } else {
            false
        }
    }

    /// Paints the block at column `pos_x`, row `pos_y` in `color`, or erases
    /// it.
    pub fn update_block(
        screen: &mut Screen,
        pos_x: usize,
        pos_y: usize,
        color: Rgb,
        erase: bool,
    )
        requires
            old(screen).wf(),
            pos_y < GAME_SIZE_Y,
            pos_x + 1 < GAME_SIZE_X,
        ensures
            final(screen).wf(),
            final(screen)@ == with_block(
                old(screen)@,
                pos_x as int,
                pos_y as int,
                ink(color, erase),
            ),
    {
        if erase {
            screen.erase_block(pos_x, pos_y);
        } else {
            screen.paint_block(pos_x, pos_y, color);
        }
    }

    /// Paints in `color`, or erases, every marked block of `blocks` with the
    /// pattern anchored at column `pos_x`, row `pos_y`.
    pub fn update_block_vec(
        screen: &mut Screen,
        pos_x: usize,
        pos_y: usize,
        color: Rgb,
        blocks: Vec<Vec<&str>>,
        erase: bool,
    )
        requires
            old(screen).wf(),
            fits(marks(blocks), pos_x as int, pos_y as int),
        ensures
            final(screen).wf(),
            final(screen)@ == stamped(
                old(screen)@,
                marks(blocks),
                pos_x as int,
                pos_y as int,
                ink(color, erase),
            ),
    {
        let ghost pattern = marks(blocks);
        let ghost cell = ink(color, erase);
        let ghost x = pos_x as int;
        let ghost y = pos_y as int;
        let ghost g = screen@;
        assert(screen@ =~~= stamped_before(g, pattern, x, y, cell, 0, 0));
        let mut i: usize = 0;
        while i < blocks.len()
            invariant
                i <= blocks.len(),
                pattern == marks(blocks),
                fits(pattern, x, y),
                x == pos_x,
                y == pos_y,
                cell == ink(color, erase),
                grid_wf(g),
                screen.wf(),
                screen@ == stamped_before(g, pattern, x, y, cell, i as int, 0),
            decreases blocks.len() - i,
        {
            let mut j: usize = 0;
            while j < blocks[i].len()
                invariant
                    i < blocks.len(),
                    j <= blocks[i as int].len(),
                    pattern == marks(blocks),
                    fits(pattern, x, y),
                    x == pos_x,
                    y == pos_y,
                    cell == ink(color, erase),
                    grid_wf(g),
                    screen.wf(),
                    screen@ == stamped_before(g, pattern, x, y, cell, i as int, j as int),
                decreases blocks[i as int].len() - j,
            {
                if Self::is_mark(blocks[i][j]) {
                    assert(marked(pattern, i as int, j as int));
                    Self::update_block(
                        screen,
                        pos_x + j * BLOCK_SIZE_X,
                        pos_y + i * BLOCK_SIZE_Y,
                        color,
                        erase,
                    );
                }
                assert(screen@ =~~= stamped_before(g, pattern, x, y, cell, i as int, j + 1));
                j += 1;
            }
            assert(screen@ =~~= stamped_before(g, pattern, x, y, cell, i + 1, 0));
            i += 1;
        }
        assert(screen@ =~~= stamped(g, pattern, x, y, cell));
    }

    /// Paints the crab's footprint at column `pos_x`, row `pos_y`, or erases
    /// it.
    pub fn update(&self, screen: &mut Screen, pos_x: usize, pos_y: usize, erase: bool)
        requires
            old(screen).wf(),
            fits(crab_footprint(), pos_x as int, pos_y as int),
        ensures
            final(screen).wf(),
            final(screen)@ == stamped(
                old(screen)@,
                crab_footprint(),
                pos_x as int,
                pos_y as int,
                ink(crab_color(), erase),
            ),
    {
        Self::update_block_vec(screen, pos_x, pos_y, self.get_color(), self.crab_pattern(), erase);
    }

    /// Whether the crab's footprint at column `pos_x`, row `pos_y` would lie
    /// on a cell that is not blank. The grid is left as it was.
    pub fn reached_the_end(
        &self,
        screen: &mut Screen,
        pos_x: usize,
        pos_y: usize,
    ) -> (end: bool)
        requires
            old(screen).wf(),
            fits(crab_footprint(), pos_x as int, pos_y as int),
        ensures
            *final(screen) == *old(screen),
            end == blocked(old(screen)@, crab_footprint(), pos_x as int, pos_y as int),
    {
        let pattern = self.crab_pattern();
        let ghost fp = marks(pattern);
        let ghost g = screen@;
        let mut i: usize = 0;
        while i < pattern.len()
            invariant
                i <= pattern.len(),
                fp == marks(pattern),
                fp == crab_footprint(),
                fits(fp, pos_x as int, pos_y as int),
                *screen == *old(screen),
                g == screen@,
                screen.wf(),
                forall|a: int, b: int| #[trigger]
                    marked(fp, a, b) && a < i ==> block_blank(
                        g,
                        pos_x + b * BLOCK_SIZE_X,
                        pos_y + a * BLOCK_SIZE_Y,
                    ),
            decreases pattern.len() - i,
        {
            let mut j: usize = 0;
            while j < pattern[i].len()
                invariant
                    i < pattern.len(),
                    j <= pattern[i as int].len(),
                    fp == marks(pattern),
                    fp == crab_footprint(),
                    fits(fp, pos_x as int, pos_y as int),
                    *screen == *old(screen),
                    g == screen@,
                    screen.wf(),
                    forall|a: int, b: int| #[trigger]
                        marked(fp, a, b) && (a < i || (a == i && b < j)) ==> block_blank(
                            g,
                            pos_x + b * BLOCK_SIZE_X,
                            pos_y + a * BLOCK_SIZE_Y,
                        ),
                decreases pattern[i as int].len() - j,
            {
                if Self::is_mark(pattern[i][j]) {
                    assert(marked(fp, i as int, j as int));
                    let left = screen.get(pos_x + j * BLOCK_SIZE_X, pos_y + i * BLOCK_SIZE_Y);
                    let right = screen.get(
                        pos_x + j * BLOCK_SIZE_X + 1,
                        pos_y + i * BLOCK_SIZE_Y,
                    );
                    if left != Cell::Blank || right != Cell::Blank {
                        assert(!block_blank(
                            g,
                            pos_x + j * BLOCK_SIZE_X,
                            pos_y + i * BLOCK_SIZE_Y,
                        ));
                        return true;
                    }
                }
                j += 1;
            }
            i += 1;
        }
        false
    }

    /// Tries to move the crab to column `pos_x`, row `pos_y`. The crab is
    /// taken off the grid first, so that it never stands in its own way. If
    /// the new footprint is free the crab moves there; if not it stays. Either
    /// way it is painted again where it then stands.
    pub fn update_to_fix(
        &mut self,
        screen: &mut Screen,
        pos_x: usize,
        pos_y: usize,
    ) -> (moved: bool)
        requires
            old(screen).wf(),
            old(self).in_grid(),
            fits(crab_footprint(), pos_x as int, pos_y as int),
        ensures
            final(screen).wf(),
            moved == old(self).can_move_to(old(screen)@, pos_x as int, pos_y as int),
            *final(self) == (if moved {
                Crab { pos_x, pos_y, finished: old(self).finished }
            } else {
                *old(self)
            }),
            final(screen)@ == final(self).placed(old(self).lifted(old(screen)@)),
    {
        self.update(screen, self.pos_x, self.pos_y, true);
        if !self.reached_the_end(screen, pos_x, pos_y) {
            self.pos_x = pos_x;
            self.pos_y = pos_y;
            self.update(screen, pos_x, pos_y, false);
            true
        } else {
            self.update(screen, self.pos_x, self.pos_y, false);
            false
        }
    }

    /// Tries to move the crab along its lane to column `position`. A crab
    /// that cannot move there has finished.
    pub fn move_to_position(&mut self, screen: &mut Screen, position: usize)
        requires
            old(screen).wf(),
            old(self).in_grid(),
            fits(crab_footprint(), position as int, old(self).pos_y as int),
        ensures
            final(screen).wf(),
            *final(self) == (if old(self).can_move_to(
                old(screen)@,
                position as int,
                old(self).pos_y as int,
            ) {
                Crab { pos_x: position, pos_y: old(self).pos_y, finished: old(self).finished }
            } else {
                Crab { pos_x: old(self).pos_x, pos_y: old(self).pos_y, finished: true }
            }),
            final(screen)@ == final(self).placed(old(self).lifted(old(screen)@)),
            position == old(self).pos_x + BLOCK_SIZE_X ==> (final(self).pos_x == old(self).pos_x
                + BLOCK_SIZE_X) != (final(self).pos_x == old(self).pos_x && final(self).finished),
    {
        let pos_y = self.pos_y;
        if !self.update_to_fix(screen, position, pos_y) {
            self.finished = true;
        }
    }
}

/// Whether `g` shows `cell` in every cell of the footprint at column `x`,
/// row `y`.
pub open spec fn shows(
    g: Seq<Seq<Cell>>,
    pattern: Seq<Seq<bool>>,
    x: int,
    y: int,
    cell: Cell,
) -> bool {
    forall|r: int, c: int|
        0 <= r < g.len() && 0 <= c < g[r].len() && covers(pattern, x, y, r, c) ==> g[r][c] == cell
}

/// `g` with the footprint at column `x`, row `y` erased and then painted
/// again with `cell`.
pub open spec fn repainted(
    g: Seq<Seq<Cell>>,
    pattern: Seq<Seq<bool>>,
    x: int,
    y: int,
    cell: Cell,
) -> Seq<Seq<Cell>> {
    stamped(stamped(g, pattern, x, y, Cell::Blank), pattern, x, y, cell)
}

/// Erasing a footprint and painting it again at the same place leaves no
/// trace. It gives what painting alone gives; doing it twice gives what
/// doing it once gives; and a grid that showed the footprint there is
/// unchanged.
pub proof fn erase_then_repaint(
    g: Seq<Seq<Cell>>,
    pattern: Seq<Seq<bool>>,
    x: int,
    y: int,
    cell: Cell,
)
    ensures
        repainted(g, pattern, x, y, cell) == stamped(g, pattern, x, y, cell),
        repainted(repainted(g, pattern, x, y, cell), pattern, x, y, cell) == repainted(
            g,
            pattern,
            x,
            y,
            cell,
        ),
        shows(g, pattern, x, y, cell) ==> repainted(g, pattern, x, y, cell) == g,
{
    let once = stamped(g, pattern, x, y, cell);
    assert(repainted(g, pattern, x, y, cell) =~~= once);
    assert(repainted(once, pattern, x, y, cell) =~~= once);
    if shows(g, pattern, x, y, cell) {
        assert(once =~~= g);
    }
}

/// A crab never moves onto a cell that something else occupies: if any cell
/// of the footprint at column `x`, row `y` is painted on `g` and is not one
/// of the crab's own cells, the crab cannot move there.
pub proof fn occupied_cell_blocks(g: Seq<Seq<Cell>>, crab: Crab, x: int, y: int, r: int, c: int)
    requires
        grid_wf(g),
        fits(crab_footprint(), x, y),
        covers(crab_footprint(), x, y, r, c),
        !covers(crab_footprint(), crab.pos_x as int, crab.pos_y as int, r, c),
        g[r][c] != Cell::Blank,
    ensures
        !crab.can_move_to(g, x, y),
{
    let i = block_row(y, r);
    let j = block_column(x, c);
    assert(marked(crab_footprint(), i, j));
    assert(crab.lifted(g)[r][c] == g[r][c]);
    assert(!block_blank(crab.lifted(g), x + j * BLOCK_SIZE_X, y + i * BLOCK_SIZE_Y));
}

} // verus!
