//! The text that shows a race on a terminal: the grid at an anchor, and the
//! closing message. The escape sequences come from `termion`.

use vstd::prelude::*;
use vstd::string::StringExecFns;
use crate::screen::{Cell, Rgb, Screen, GAME_SIZE_X, GAME_SIZE_Y};

verus! {

/// The decimal digit for `d`, which is below ten.
pub open spec fn digit(d: nat) -> char {
    (48 + d) as u8 as char
}

/// The decimal numeral of `n`, without leading zeros.
pub open spec fn decimal(n: nat) -> Seq<char>
    decreases n,
{
    if n < 10 {
        seq![digit(n)]
    } else {
        decimal(n / 10).push(digit(n % 10))
    }
}

/// The sequence that sets the foreground to `color`.
pub open spec fn fg_text(color: Rgb) -> Seq<char> {
    "\x1b[38;2;"@ + decimal(color.0 as nat) + ";"@ + decimal(color.1 as nat) + ";"@ + decimal(
        color.2 as nat,
    ) + "m"@
}

/// The sequence that moves the cursor to column `x`, row `y`, both counted
/// from one.
pub open spec fn goto_text(x: nat, y: nat) -> Seq<char> {
    "\x1b["@ + decimal(y) + ";"@ + decimal(x) + "H"@
}

/// The text of one cell: a space for a blank cell, else the glyph in the
/// cell's color.
pub open spec fn cell_text(cell: Cell) -> Seq<char> {
    match cell {
        Cell::Blank => " "@,
        Cell::Painted { color, glyph } => fg_text(color).push(glyph),
    }
}

/// The text of a row: its cells from left to right.
pub open spec fn row_text(row: Seq<Cell>) -> Seq<char>
    decreases row.len(),
{
    if row.len() == 0 {
        Seq::empty()
    } else {
        row_text(row.drop_last()) + cell_text(row.last())
    }
}

/// The text of the rows of `g` from top to bottom, the first at column `x`,
/// row `y` of the terminal and each next one below it.
pub open spec fn rows_text(g: Seq<Seq<Cell>>, x: nat, y: nat) -> Seq<char>
    decreases g.len(),
{
    if g.len() == 0 {
        Seq::empty()
    } else {
        rows_text(g.drop_last(), x, y) + goto_text(x, (y + g.len() - 1) as nat) + row_text(g.last())
    }
}

/// The text of a frame: the terminal is cleared, the cursor hidden, and the
/// grid drawn with its top left cell at column `x`, row `y`.
pub open spec fn frame_text(g: Seq<Seq<Cell>>, x: nat, y: nat) -> Seq<char> {
    "\x1b[2J"@ + "\x1b[?25l"@ + rows_text(g, x, y)
}

/// Where a thing of the given size starts so that it is centered in what is
/// available; one, if it does not fit with room to spare.
pub open spec fn centered(available: int, size: int) -> int {
    if available > size {
        (available - size) / 2
    } else {
        1
    }
}

/// The text that shows `message` alone near the middle of a terminal of the
/// given size: the terminal is cleared, the cursor put five columns left of
/// the center, and colors and styles reset.
pub open spec fn message_text(message: Seq<char>, width: nat, height: nat) -> Seq<char> {
    "\x1b[2J"@ + goto_text(((width - 10) / 2) as nat, height / 2) + "\x1b[m"@ + message
}

/// `termion::color::Rgb::fg_string`: the escape sequence that selects a
/// truecolor foreground, with each channel written in decimal.
#[verifier::external_body]
fn fg_sequence(color: Rgb) -> (s: String)
    ensures
        s@ == fg_text(color),
{
    termion::color::Rgb(color.0, color.1, color.2).fg_string()
}

/// The conversion of `termion::cursor::Goto` to a `String`: the escape
/// sequence that moves the cursor, the row before the column, each written
/// in decimal.
#[verifier::external_body]
fn goto_sequence(x: u16, y: u16) -> (s: String)
    ensures
        s@ == goto_text(x as nat, y as nat),
{
    String::from(termion::cursor::Goto(x, y))
}

/// `termion::clear::All` as text: the sequence that clears the terminal.
#[verifier::external_body]
fn clear_all() -> (s: &'static str)
    ensures
        s@ == "\x1b[2J"@,
{
    termion::clear::All.as_ref()
}

/// `termion::cursor::Hide` as text: the sequence that hides the cursor.
#[verifier::external_body]
fn hide_cursor() -> (s: &'static str)
    ensures
        s@ == "\x1b[?25l"@,
{
    termion::cursor::Hide.as_ref()
}

/// `termion::style::Reset` as text: the sequence that resets colors and
/// styles.
#[verifier::external_body]
fn style_reset() -> (s: &'static str)
    ensures
        s@ == "\x1b[m"@,
{
    termion::style::Reset.as_ref()
}

/// `String::push` appends one character.
pub assume_specification[ String::push ](s: &mut String, ch: char)
    ensures
        final(s)@ == old(s)@.push(ch),
;

/// Appends the text of `cell` to `out`.
fn push_cell(out: &mut String, cell: Cell)
    ensures
        final(out)@ == old(out)@ + cell_text(cell),
{
    match cell {
        Cell::Blank => {
            out.append(" ");
        },
        Cell::Painted { color, glyph } => {
            let fg = fg_sequence(color);
            out.append(fg.as_str());
            out.push(glyph);
            assert(out@ =~= old(out)@ + cell_text(cell));
        },
    }
}

/// The text that draws `screen` with its top left cell at column `pos_x`,
/// row `pos_y` of the terminal, after clearing it and hiding the cursor.
pub fn frame_string(screen: &Screen, pos_x: u16, pos_y: u16) -> (text: String)
    requires
        screen.wf(),
        pos_y + GAME_SIZE_Y - 1 <= u16::MAX,
    ensures
        text@ == frame_text(screen@, pos_x as nat, pos_y as nat),
{
    let mut out = String::new();
    out.append(clear_all());
    out.append(hide_cursor());
    let ghost head = out@;
    let mut r: usize = 0;
    while r < GAME_SIZE_Y
        invariant
            r <= GAME_SIZE_Y,
            screen.wf(),
            pos_y + GAME_SIZE_Y - 1 <= u16::MAX,
            head == "\x1b[2J"@ + "\x1b[?25l"@,
            out@ == head + rows_text(screen@.take(r as int), pos_x as nat, pos_y as nat),
        decreases GAME_SIZE_Y - r,
    {
        let ghost before = out@;
        let goto = goto_sequence(pos_x, pos_y + r as u16);
        out.append(goto.as_str());
        let ghost start = out@;
        let mut c: usize = 0;
        while c < GAME_SIZE_X
            invariant
                c <= GAME_SIZE_X,
                r < GAME_SIZE_Y,
                screen.wf(),
                out@ == start + row_text(screen@[r as int].take(c as int)),
            decreases GAME_SIZE_X - c,
        {
            let cell = screen.get(c, r);
            push_cell(&mut out, cell);
            proof {
                let row = screen@[r as int];
                assert(row.take(c + 1).drop_last() =~= row.take(c as int));
                assert(out@ =~= start + row_text(row.take(c + 1)));
            }
            c += 1;
        }
        proof {
            let g = screen@;
            assert(g[r as int].take(GAME_SIZE_X as int) =~= g[r as int]);
            assert(g.take(r + 1).drop_last() =~= g.take(r as int));
            assert(out@ =~= head + rows_text(g.take(r + 1), pos_x as nat, pos_y as nat));
        }
        r += 1;
    }
    assert(screen@.take(GAME_SIZE_Y as int) =~= screen@);
    assert(out@ =~= frame_text(screen@, pos_x as nat, pos_y as nat));
    out
}

/// Where the grid goes on a terminal of the given size: centered along each
/// axis on which the terminal is larger than the grid, else at one.
pub fn anchor(terminal_width: u16, terminal_height: u16) -> (pos: (u16, u16))
    ensures
        pos.0 == centered(terminal_width as int, GAME_SIZE_X as int),
        pos.1 == centered(terminal_height as int, GAME_SIZE_Y as int),
{
    let mut pos_x: u16 = 1;
    let mut pos_y: u16 = 1;
    if terminal_width as usize > GAME_SIZE_X {
        pos_x = ((terminal_width as usize - GAME_SIZE_X) / 2) as u16;
    }
    if terminal_height as usize > GAME_SIZE_Y {
        pos_y = ((terminal_height as usize - GAME_SIZE_Y) / 2) as u16;
    }
    (pos_x, pos_y)
}

/// The text that shows `message` alone near the middle of a terminal of the
/// given size.
pub fn message_string(message: &str, terminal_width: u16, terminal_height: u16) -> (text: String)
    requires
        terminal_width >= 10,
    ensures
        text@ == message_text(message@, terminal_width as nat, terminal_height as nat),
{
    let mut out = String::new();
    out.append(clear_all());
    let goto = goto_sequence((terminal_width - 10) / 2, terminal_height / 2);
    out.append(goto.as_str());
    out.append(style_reset());
    out.append(message);
    assert(out@ =~= message_text(message@, terminal_width as nat, terminal_height as nat));
    out
}

} // verus!
