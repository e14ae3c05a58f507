//! Races as sequences of events, and what holds of every such sequence.

use vstd::prelude::*;
use crate::crabrace::{RaceView, ADVANCE_KEY, BOARD_BLOCKS, FIRST_COLUMN, LAST_COLUMN};
use crate::screen::BLOCK_SIZE_X;

verus! {

/// What can happen to a race: the clock ticks, or a byte of input comes.
pub enum RaceEvent {
    Tick,
    Key(u8),
}

impl RaceView {
    /// The race after one event.
    pub open spec fn apply(self, event: RaceEvent) -> RaceView {
        match event {
            RaceEvent::Tick => self.tick(),
            RaceEvent::Key(key) => self.key_input(key),
        }
    }

    /// The race after the events of `events`, in their order.
    pub open spec fn run(self, events: Seq<RaceEvent>) -> RaceView
        decreases events.len(),
    {
        if events.len() == 0 {
            self
        } else {
            self.run(events.drop_last()).apply(events.last())
        }
    }
}

/// How many ticks `events` holds.
pub open spec fn ticks_in(events: Seq<RaceEvent>) -> nat
    decreases events.len(),
{
    if events.len() == 0 {
        0
    } else if events.last() == RaceEvent::Tick {
        ticks_in(events.drop_last()) + 1
    } else {
        ticks_in(events.drop_last())
    }
}

/// How many presses of the advance key `events` holds.
pub open spec fn advances_in(events: Seq<RaceEvent>) -> nat
    decreases events.len(),
{
    if events.len() == 0 {
        0
    } else if events.last() == RaceEvent::Key(ADVANCE_KEY) {
        advances_in(events.drop_last()) + 1
    } else {
        advances_in(events.drop_last())
    }
}

/// The player is the faster one: at every moment it has pressed the advance
/// key at least as often as the clock has ticked.
pub open spec fn player_leads(events: Seq<RaceEvent>) -> bool {
    forall|k: int|
        0 <= k <= events.len() ==> ticks_in(#[trigger] events.take(k)) <= advances_in(
            events.take(k),
        )
}

/// Every event leads from a state that a race can be in to another.
pub proof fn events_keep_valid(v: RaceView, event: RaceEvent)
    requires
        v.valid(),
        v.started(),
    ensures
        v.apply(event).valid(),
        v.apply(event).started(),
{
}

/// While the race is on, a tick or a press of the advance key does one of
/// two things and never both: it moves its crab one block and leaves the
/// race on, or it leaves the crab where it stands and ends the race. The
/// other crab stays where it is.
pub proof fn one_step_or_the_end(v: RaceView, event: RaceEvent)
    requires
        v.valid(),
        v.started(),
        !v.race_finished,
        event == RaceEvent::Tick || event == RaceEvent::Key(ADVANCE_KEY),
    ensures
        ({
            let next = v.apply(event);
            let (before, after, other_before, other_after) = if event == RaceEvent::Tick {
                (v.opponent_x, next.opponent_x, v.player_x, next.player_x)
            } else {
                (v.player_x, next.player_x, v.opponent_x, next.opponent_x)
            };
            &&& other_after == other_before
            &&& (after == before + BLOCK_SIZE_X && !next.race_finished) != (after == before
                && next.race_finished)
            &&& next.race_finished ==> next.player_won == (event != RaceEvent::Tick)
        }),
{
}

/// A finished race is final: no event moves a crab or changes who has won,
/// and no frame does.
pub proof fn finished_is_final(
    v: RaceView,
    events: Seq<RaceEvent>,
    key: Option<u8>,
    elapsed_ms: u128,
)
    requires
        v.race_finished,
    ensures
        v.run(events) == v,
        v.frame(key, elapsed_ms).race_finished,
        v.frame(key, elapsed_ms).player_won == v.player_won,
        v.frame(key, elapsed_ms).player_x == v.player_x,
        v.frame(key, elapsed_ms).opponent_x == v.opponent_x,
        !v.frame_outcome(key, elapsed_ms).running,
    decreases events.len(),
{
    if events.len() > 0 {
        finished_is_final(v, events.drop_last(), key, elapsed_ms);
    }
}

/// Once over, a race stays over, whatever comes after.
pub proof fn race_finished_is_monotonic(
    v: RaceView,
    events: Seq<RaceEvent>,
    more: Seq<RaceEvent>,
)
    requires
        v.run(events).race_finished,
    ensures
        v.run(events + more) == v.run(events),
    decreases more.len(),
{
    if more.len() == 0 {
        assert(events + more =~= events);
    } else {
        race_finished_is_monotonic(v, events, more.drop_last());
        assert((events + more).drop_last() =~= events + more.drop_last());
        assert((events + more).last() == more.last());
    }
}

/// Whether `v` is a state in which the clock and the keys start to run:
/// the state in which the race is started, or the one after the opening
/// tick, which puts the opponent on the track beside the player.
pub open spec fn at_the_start(v: RaceView) -> bool {
    v == RaceView::ready() || v == RaceView::opening()
}

/// How many blocks a crab in column `x` can still advance before it stands
/// against the far border.
pub open spec fn blocks_to_go(x: int) -> int {
    (LAST_COLUMN - x) / (BLOCK_SIZE_X as int)
}

/// Without the player, the opponent reaches the far border after as many
/// ticks as it has blocks to go, and the next tick ends the race in its
/// favour. Beside the player, after the opening tick, that is as many ticks
/// as the track has blocks; from the start line it is one more. After `n`
/// ticks and no press of the advance key the opponent is `n` blocks further
/// while `n` is at most that number, and the race is lost by the player as
/// soon as `n` is larger. The player stands where it started.
pub proof fn opponent_alone(start: RaceView, events: Seq<RaceEvent>)
    requires
        at_the_start(start),
        advances_in(events) == 0,
    ensures
        blocks_to_go(RaceView::opening().opponent_x) == BOARD_BLOCKS,
        blocks_to_go(RaceView::ready().opponent_x) == BOARD_BLOCKS + 1,
        ({
            let n = ticks_in(events);
            let to_go = blocks_to_go(start.opponent_x);
            let end = start.run(events);
            &&& end.player_x == FIRST_COLUMN
            &&& !end.player_won
            &&& end.race_finished == (n > to_go)
            &&& n <= to_go ==> end.opponent_x == start.opponent_x + n * BLOCK_SIZE_X
            &&& n >= to_go ==> end.opponent_x == LAST_COLUMN
        }),
    decreases events.len(),
{
    if events.len() > 0 {
        opponent_alone(start, events.drop_last());
    }
}

/// A player who is the faster one wins: while the race is on, each crab has
/// advanced by as many blocks as it was asked to, so the player is never
/// behind; if the race is over, the player has won it, with the opponent
/// not stopped; and the race is over once the advance key has been pressed
/// more often than the track has blocks.
pub proof fn faster_player_wins(start: RaceView, events: Seq<RaceEvent>)
    requires
        at_the_start(start),
        player_leads(events),
    ensures
        ({
            let end = start.run(events);
            &&& end.valid()
            &&& end.started()
            &&& !end.race_finished ==> {
                &&& end.player_x == FIRST_COLUMN + advances_in(events) * BLOCK_SIZE_X
                &&& end.opponent_x == start.opponent_x + ticks_in(events) * BLOCK_SIZE_X
                &&& end.opponent_x <= end.player_x
            }
            &&& end.race_finished ==> end.player_won && end.player_x == LAST_COLUMN
            &&& advances_in(events) > BOARD_BLOCKS ==> end.race_finished
        }),
    decreases events.len(),
{
    if events.len() > 0 {
        let before = events.drop_last();
        assert forall|k: int| 0 <= k <= before.len() implies ticks_in(#[trigger] before.take(k))
            <= advances_in(before.take(k)) by {
            assert(before.take(k) =~= events.take(k));
        }
        faster_player_wins(start, before);
        assert(events.take(events.len() as int) =~= events);
        assert(before.take(before.len() as int) =~= before);
    }
}

} // verus!
