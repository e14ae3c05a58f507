//! The race controller: the board, the two crabs, and the rules by which a
//! tick of the clock or a key moves them until one of them is stopped.

use vstd::prelude::*;
use crate::crab::{block_blank, blocked, covers, crab_color, crab_footprint, marked, Crab};
use crate::terminal::{anchor, centered, frame_string, frame_text, message_string, message_text};
use crate::screen::{
    border_color, is_border, Cell, Screen, BLOCK_SIZE_X, BLOCK_SIZE_Y, BORDER_SIZE_X,
    BORDER_SIZE_Y, GAME_SIZE_X, GAME_SIZE_Y,
};

verus! {

/// Number of blocks that a crab can advance between the start line and the
/// far border.
pub const BOARD_BLOCKS: usize = 50;

/// The top row of the player's lane.
pub const PLAYER_LANE: usize = BORDER_SIZE_Y + BLOCK_SIZE_Y * 5;

/// The top row of the opponent's lane.
pub const OPPONENT_LANE: usize = BORDER_SIZE_Y + BLOCK_SIZE_Y * 2;

/// The column of a crab that has taken its first step.
pub const FIRST_COLUMN: usize = BORDER_SIZE_X;

/// The column of a crab that stands against the far border.
pub const LAST_COLUMN: usize = GAME_SIZE_X - BORDER_SIZE_X - BLOCK_SIZE_X;

/// The opponent moves when more than this many milliseconds have passed
/// since it last did.
pub const TICK_MILLIS: u128 = 500;

/// The key that advances the player: the last byte of the right arrow.
pub const ADVANCE_KEY: u8 = 67;

/// The key `q`, which ends the race.
pub const QUIT_KEY: u8 = 113;

/// The interrupt byte, which ends the race too.
pub const INTERRUPT_KEY: u8 = 3;

/// The state of a race, without the grid: the grid follows from it.
pub struct RaceView {
    pub player_x: int,
    pub opponent_x: int,
    pub race_finished: bool,
    pub player_won: bool,
    pub dirty: bool,
}

impl RaceView {
    /// The race before it starts: both crabs on the start line, nothing
    /// painted.
    pub open spec fn fresh() -> RaceView {
        RaceView {
            player_x: 0,
            opponent_x: 0,
            race_finished: false,
            player_won: false,
            dirty: true,
        }
    }

    /// The race once it has started: the player one step past the start
    /// line, the opponent still on it.
    pub open spec fn ready() -> RaceView {
        RaceView { player_x: FIRST_COLUMN as int, ..Self::fresh() }
    }

    /// The race after its opening tick: both crabs one step past the start
    /// line.
    pub open spec fn opening() -> RaceView {
        RaceView { opponent_x: FIRST_COLUMN as int, ..Self::ready() }
    }

    /// Whether the race has started.
    pub open spec fn started(self) -> bool {
        self.player_x > 0
    }

    /// The states that a race can be in. Before the start both crabs are on
    /// the start line. After it the player is on the track, and the opponent
    /// is on the start line until its first tick and on the track from then
    /// on; each stands a whole number of blocks from the start line.
    pub open spec fn valid(self) -> bool {
        if self.started() {
            &&& FIRST_COLUMN <= self.player_x <= LAST_COLUMN
            &&& 0 <= self.opponent_x <= LAST_COLUMN
            &&& self.player_x % 2 == 0
            &&& self.opponent_x % 2 == 0
            &&& self.player_won ==> self.race_finished
            &&& self.race_finished && self.player_won ==> self.player_x == LAST_COLUMN
            &&& self.race_finished && !self.player_won ==> self.opponent_x == LAST_COLUMN
        } else {
            self == Self::fresh()
        }
    }

    /// One tick of the clock: the opponent advances one block, the first
    /// time from the start line onto the track, or, standing against the
    /// border, ends the race as its winner. A finished race stays as it is.
    pub open spec fn tick(self) -> RaceView {
        if self.race_finished {
            self
        } else if self.opponent_x < LAST_COLUMN {
            RaceView { opponent_x: self.opponent_x + BLOCK_SIZE_X, dirty: true, ..self }
        } else {
            RaceView { race_finished: true, player_won: false, ..self }
        }
    }

    /// One press of the advance key: the player advances one block, or,
    /// standing against the border, ends the race as its winner. A finished
    /// race stays as it is.
    pub open spec fn advance(self) -> RaceView {
        if self.race_finished {
            self
        } else if self.player_x < LAST_COLUMN {
            RaceView { player_x: self.player_x + BLOCK_SIZE_X, dirty: true, ..self }
        } else {
            RaceView { race_finished: true, player_won: true, ..self }
        }
    }

    /// One byte of input: the advance key moves the player, every other byte
    /// is ignored.
    pub open spec fn key_input(self, key: u8) -> RaceView {
        if key == ADVANCE_KEY {
            self.advance()
        } else {
            self
        }
    }

    /// The race after what the input source gave in one frame, which may be
    /// nothing.
    pub open spec fn after_input(self, key: Option<u8>) -> RaceView {
        match key {
            Some(k) => self.key_input(k),
            None => self,
        }
    }

    /// Whether the clock ticks in a frame: the input does not end the race,
    /// neither by a quit key nor by the player's win, and the opponent is due.
    pub open spec fn tick_fires(self, key: Option<u8>, elapsed_ms: u128) -> bool {
        !quits(key) && !self.after_input(key).race_finished && elapsed_ms > TICK_MILLIS
    }

    /// The race at the end of a frame, before the grid is shown: first the
    /// input, then the clock. A quit key leaves everything as it is.
    pub open spec fn frame_moves(self, key: Option<u8>, elapsed_ms: u128) -> RaceView {
        if quits(key) {
            self
        } else if self.tick_fires(key, elapsed_ms) {
            self.after_input(key).tick()
        } else {
            self.after_input(key)
        }
    }

    /// The race after a frame: as `frame_moves` gives it, and, unless a quit
    /// key came, with nothing left to show.
    pub open spec fn frame(self, key: Option<u8>, elapsed_ms: u128) -> RaceView {
        if quits(key) {
            self
        } else {
            RaceView { dirty: false, ..self.frame_moves(key, elapsed_ms) }
        }
    }

    /// What a frame asks of the loop that runs it.
    pub open spec fn frame_outcome(self, key: Option<u8>, elapsed_ms: u128) -> FrameOutcome {
        FrameOutcome {
            ticked: self.tick_fires(key, elapsed_ms),
            render: !quits(key) && self.frame_moves(key, elapsed_ms).dirty,
            running: !quits(key) && !self.frame_moves(key, elapsed_ms).race_finished,
        }
    }
}

/// Whether the input asks to end the race: the key `q` or the interrupt
/// byte.
pub open spec fn quits(key: Option<u8>) -> bool {
    key == Some(QUIT_KEY) || key == Some(INTERRUPT_KEY)
}

/// What a frame asks of the loop that runs it.
#[derive(Clone, Copy, Debug, PartialEq, Eq, Structural)]
pub struct FrameOutcome {
    /// The clock ticked: the time since the last tick starts anew.
    pub ticked: bool,
    /// The grid changed since it was last shown: show it.
    pub render: bool,
    /// The race goes on: neither has a crab won nor did a quit key come.
    pub running: bool,
}

/// Whether the player's crab covers the cell in row `r`, column `c`.
pub open spec fn player_covers(v: RaceView, r: int, c: int) -> bool {
    covers(crab_footprint(), v.player_x, PLAYER_LANE as int, r, c)
}

/// Whether the opponent's crab covers the cell in row `r`, column `c`. On
/// the start line it is not on the grid and covers nothing.
pub open spec fn opponent_covers(v: RaceView, r: int, c: int) -> bool {
    v.opponent_x >= FIRST_COLUMN && covers(
        crab_footprint(),
        v.opponent_x,
        OPPONENT_LANE as int,
        r,
        c,
    )
}

/// The cell that the board of a race in state `v` shows in row `r`, column
/// `c`: a crab where one stands on the track, else the border, else
/// nothing. Before the start the board is blank.
pub open spec fn board_cell(v: RaceView, r: int, c: int) -> Cell {
    if !v.started() {
        Cell::Blank
    } else if player_covers(v, r, c) || opponent_covers(v, r, c) {
        Cell::block(crab_color())
    } else if is_border(r, c) {
        Cell::block(border_color())
    } else {
        Cell::Blank
    }
}

/// The grid of a race in state `v`.
pub open spec fn board(v: RaceView) -> Seq<Seq<Cell>> {
    Seq::new(
        GAME_SIZE_Y as nat,
        |r: int| Seq::new(GAME_SIZE_X as nat, |c: int| board_cell(v, r, c)),
    )
}

/// The border stays whole and the crabs stay apart: on the board of a
/// started race every border cell shows the border, no crab on the track
/// covers a border cell, and no cell belongs to both crabs.
pub proof fn border_stays_whole(v: RaceView, r: int, c: int)
    requires
        v.valid(),
        v.started(),
        0 <= r < GAME_SIZE_Y,
        0 <= c < GAME_SIZE_X,
    ensures
        is_border(r, c) ==> board(v)[r][c] == Cell::block(border_color()),
        player_covers(v, r, c) ==> !is_border(r, c) && !opponent_covers(v, r, c),
        opponent_covers(v, r, c) ==> !is_border(r, c),
{
}

/// The far border is the finish line: on the board of a started race, a
/// crab in its lane can advance one block exactly if it does not yet stand
/// against the border. Nothing else on the board ever stops it.
pub proof fn finish_line(v: RaceView, crab: Crab)
    requires
        v.valid(),
        v.started(),
        (crab.pos_x == v.player_x && crab.pos_y == PLAYER_LANE) || (crab.pos_x == v.opponent_x
            && crab.pos_y == OPPONENT_LANE),
    ensures
        crab.can_move_to(board(v), crab.pos_x + BLOCK_SIZE_X, crab.pos_y as int) == (crab.pos_x
            < LAST_COLUMN),
{
    let g = crab.lifted(board(v));
    let x = crab.pos_x + BLOCK_SIZE_X;
    let y = crab.pos_y as int;
    if crab.pos_x < LAST_COLUMN {
        assert forall|i: int, j: int| #[trigger] marked(crab_footprint(), i, j) implies block_blank(
            g,
            x + j * BLOCK_SIZE_X,
            y + i * BLOCK_SIZE_Y,
        ) by {
            assert(j == 0 && (i == 0 || i == 1));
            assert(g[y + i][x] == Cell::Blank);
            assert(g[y + i][x + 1] == Cell::Blank);
        }
    } else {
        assert(marked(crab_footprint(), 0, 0));
        assert(g[y][x] == Cell::block(border_color()));
        assert(!block_blank(g, x + 0 * BLOCK_SIZE_X, y + 0 * BLOCK_SIZE_Y));
    }
}

/// What the player is told after winning.
pub open spec fn won_message() -> Seq<char> {
    "Yay! YOU WON!"@
}

/// What the player is told after losing or leaving.
pub open spec fn lost_message() -> Seq<char> {
    "ALMOST! The other crab was faster."@
}

/// Whether the opponent is due to move, `elapsed_ms` milliseconds after it
/// last did.
pub fn frame_due(elapsed_ms: u128) -> (due: bool)
    ensures
        due == (elapsed_ms > TICK_MILLIS),
{
    elapsed_ms > TICK_MILLIS
}

/// A race between the player's crab and the opponent's.
pub struct Crabrace {
    game: Screen,
    crab: Crab,
    crab_opponent: Crab,
    changed: bool,
    your_crab_won: bool,
    race_finished: bool,
}

impl View for Crabrace {
    type V = RaceView;

    closed spec fn view(&self) -> RaceView {
        RaceView {
            player_x: self.crab.pos_x as int,
            opponent_x: self.crab_opponent.pos_x as int,
            race_finished: self.race_finished,
            player_won: self.your_crab_won,
            dirty: self.changed,
        }
    }
}

impl Crabrace {
    /// The race is in a state that it can be in, each crab is in its lane,
    /// the grid shows the board of that state, and a crab has finished
    /// exactly if it has ended the race.
    pub closed spec fn wf(&self) -> bool {
        &&& self@.valid()
        &&& self.game.wf()
        &&& self.game@ == board(self@)
        &&& self.crab.pos_y == PLAYER_LANE
        &&& self.crab_opponent.pos_y == OPPONENT_LANE
        &&& self.crab.finished == (self.race_finished && self.your_crab_won)
        &&& self.crab_opponent.finished == (self.race_finished && !self.your_crab_won)
    }

    /// A well-formed race is in a state that a race can be in.
    pub proof fn wf_is_valid(&self)
        requires
            self.wf(),
        ensures
            self@.valid(),
    {
    }

    /// A race that has not started: a blank grid, both crabs on the start
    /// line.
    pub fn new() -> (race: Crabrace)
        ensures
            race.wf(),
            race@ == RaceView::fresh(),
    {
        let race = Crabrace {
            game: Screen::new(),
            crab: Crab::new(BORDER_SIZE_Y + BLOCK_SIZE_Y * 5),
            crab_opponent: Crab::new(BORDER_SIZE_Y + BLOCK_SIZE_Y * 2),
            changed: true,
            your_crab_won: false,
            race_finished: false,
        };
        assert(race.game@ =~~= board(race@));
        race
    }

    /// Starts the race. The player takes its first step off the start line
    /// and the border is painted around the track. The opponent stays on the
    /// start line, not yet on the grid, until its first tick.
    pub fn init(&mut self)
        requires
            old(self).wf(),
            !old(self)@.started(),
        ensures
            final(self).wf(),
            final(self)@ == RaceView::ready(),
    {
        self.crab.move_to_position(&mut self.game, BLOCK_SIZE_X);
        self.game.paint_border();
        self.changed = true;
        assert(self.game@ =~~= board(self@));
    }

    /// One tick of the clock. The opponent tries to advance one block; if
    /// the border stops it, the race is over and the opponent has won. The
    /// start line lies under the border, so when the opponent leaves it the
    /// border is painted over where it stood. Returns whether the race goes
    /// on.
    pub fn update(&mut self) -> (running: bool)
        requires
            old(self).wf(),
            old(self)@.started(),
        ensures
            final(self).wf(),
            final(self)@ == old(self)@.tick(),
            running == !final(self)@.race_finished,
    {
        if self.race_finished {
            return false;
        }
        proof {
            finish_line(self@, self.crab_opponent);
        }
        let leaves_start_line = self.crab_opponent.pos_x < FIRST_COLUMN;
        let new_position = self.crab_opponent.pos_x + BLOCK_SIZE_X;
        self.crab_opponent.move_to_position(&mut self.game, new_position);
        if leaves_start_line {
            self.game.paint_border();
        }
        if self.crab_opponent.finished {
            self.race_finished = true;
            self.your_crab_won = false;
            assert(self.game@ =~~= board(self@));
            false
        } else {
            self.changed = true;
            assert(self.game@ =~~= board(self@));
            true
        }
    }

    /// One byte of input. The advance key makes the player try to advance
    /// one block; if the border stops it, the race is over and the player has
    /// won. Every other byte is ignored.
    pub fn tick_player_input(&mut self, key: u8)
        requires
            old(self).wf(),
            old(self)@.started(),
        ensures
            final(self).wf(),
            final(self)@ == old(self)@.key_input(key),
    {
        if key != ADVANCE_KEY || self.race_finished {
            return ;
        }
        proof {
            finish_line(self@, self.crab);
        }
        let new_position = self.crab.pos_x + BLOCK_SIZE_X;
        self.crab.move_to_position(&mut self.game, new_position);
        if self.crab.finished {
            self.race_finished = true;
            self.your_crab_won = true;
            assert(self.game@ =~~= board(self@));
        } else {
            self.changed = true;
            assert(self.game@ =~~= board(self@));
        }
    }

    /// One turn of the loop: the input, if any came, then the clock, if the
    /// opponent is due `elapsed_ms` milliseconds after its last move. A quit
    /// key stops the loop and changes nothing. The outcome says whether the
    /// clock ticked, whether the grid is to be shown, and whether the loop
    /// goes on; the grid then counts as shown.
    pub fn frame(&mut self, key: Option<u8>, elapsed_ms: u128) -> (outcome: FrameOutcome)
        requires
            old(self).wf(),
            old(self)@.started(),
        ensures
            final(self).wf(),
            final(self)@ == old(self)@.frame(key, elapsed_ms),
            outcome == old(self)@.frame_outcome(key, elapsed_ms),
    {
        match key {
            Some(k) => {
                if k == QUIT_KEY || k == INTERRUPT_KEY {
                    return FrameOutcome { ticked: false, render: false, running: false };
                }
                self.tick_player_input(k);
            },
            None => {},
        }
        let mut ticked = false;
        if !self.race_finished && frame_due(elapsed_ms) {
            self.update();
            ticked = true;
        }
        let render = self.changed;
        self.changed = false;
        assert(self.game@ =~~= board(self@));
        FrameOutcome { ticked, render, running: !self.race_finished }
    }

    /// The player's crab.
    pub fn crab(&self) -> (crab: &Crab)
        requires
            self.wf(),
        ensures
            crab.pos_x == self@.player_x,
            crab.pos_y == PLAYER_LANE,
            crab.finished == (self@.race_finished && self@.player_won),
    {
        &self.crab
    }

    /// The opponent's crab.
    pub fn crab_opponent(&self) -> (crab: &Crab)
        requires
            self.wf(),
        ensures
            crab.pos_x == self@.opponent_x,
            crab.pos_y == OPPONENT_LANE,
            crab.finished == (self@.race_finished && !self@.player_won),
    {
        &self.crab_opponent
    }

    /// The grid.
    pub fn game(&self) -> (screen: &Screen)
        requires
            self.wf(),
        ensures
            screen.wf(),
            screen@ == board(self@),
    {
        &self.game
    }

    /// Whether the grid changed since it was last shown.
    pub fn changed(&self) -> (changed: bool)
        ensures
            changed == self@.dirty,
    {
        self.changed
    }

    /// Whether the player has won. It says nothing before the race is over.
    pub fn your_crab_won(&self) -> (won: bool)
        ensures
            won == self@.player_won,
    {
        self.your_crab_won
    }

    /// Whether the race is over.
    pub fn race_finished(&self) -> (finished: bool)
        ensures
            finished == self@.race_finished,
    {
        self.race_finished
    }

    /// The text that draws the grid on a terminal of the given size.
    pub fn render(&self, terminal_width: u16, terminal_height: u16) -> (text: String)
        requires
            self.wf(),
        ensures
            text@ == frame_text(
                board(self@),
                centered(terminal_width as int, GAME_SIZE_X as int) as nat,
                centered(terminal_height as int, GAME_SIZE_Y as int) as nat,
            ),
    {
        let (pos_x, pos_y) = anchor(terminal_width, terminal_height);
        frame_string(&self.game, pos_x, pos_y)
    }

    /// The text that tells the player of the win.
    pub fn you_won(terminal_width: u16, terminal_height: u16) -> (text: String)
        requires
            terminal_width >= 10,
        ensures
            text@ == message_text(won_message(), terminal_width as nat, terminal_height as nat),
    {
        message_string("Yay! YOU WON!", terminal_width, terminal_height)
    }

    /// The text that tells the player of the defeat.
    pub fn game_over(terminal_width: u16, terminal_height: u16) -> (text: String)
        requires
            terminal_width >= 10,
        ensures
            text@ == message_text(lost_message(), terminal_width as nat, terminal_height as nat),
    {
        message_string("ALMOST! The other crab was faster.", terminal_width, terminal_height)
    }

    /// The text that closes the race: the player's win if the player has
    /// won, else the defeat.
    pub fn closing(&self, terminal_width: u16, terminal_height: u16) -> (text: String)
        requires
            terminal_width >= 10,
        ensures
            text@ == message_text(
                if self@.player_won {
                    won_message()
                } else {
                    lost_message()
                },
                terminal_width as nat,
                terminal_height as nat,
            ),
    {
        if self.your_crab_won {
            Self::you_won(terminal_width, terminal_height)
        } else {
            Self::game_over(terminal_width, terminal_height)
        }
    }
}

} // verus!
