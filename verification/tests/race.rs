use crabrace::crabrace::{
    frame_due, Crabrace, FrameOutcome, ADVANCE_KEY, BOARD_BLOCKS, FIRST_COLUMN, INTERRUPT_KEY,
    LAST_COLUMN, OPPONENT_LANE, PLAYER_LANE, QUIT_KEY, TICK_MILLIS,
};
use crabrace::screen::{Cell, Rgb, BLOCK_GLYPH, GAME_SIZE_X, GAME_SIZE_Y};

const CRAB: Cell = Cell::Painted { color: Rgb(180, 0, 0), glyph: BLOCK_GLYPH };
const BORDER: Cell = Cell::Painted { color: Rgb(0, 102, 102), glyph: BLOCK_GLYPH };

/// A race after `init`: the opponent is still on the start line.
fn ready() -> Crabrace {
    let mut race = Crabrace::new();
    race.init();
    race
}

/// A race after `init` and the opening tick: both crabs are on the track.
fn started() -> Crabrace {
    let mut race = ready();
    assert!(race.update());
    race
}

/// The board with the player at column `player_x` and the opponent at
/// column `opponent_x`; an opponent on the start line is not on the grid.
fn expect_board(race: &Crabrace, player_x: usize, opponent_x: usize) {
    for y in 0..GAME_SIZE_Y {
        for x in 0..GAME_SIZE_X {
            let player = (y == 6 || y == 7) && (x == player_x || x == player_x + 1);
            let opponent = opponent_x >= 2
                && (y == 3 || y == 4)
                && (x == opponent_x || x == opponent_x + 1);
            let border = y == 0 || y == 11 || x < 2 || x >= 104;
            let expected = if player || opponent {
                CRAB
            } else if border {
                BORDER
            } else {
                Cell::Blank
            };
            assert_eq!(race.game().get(x, y), expected, "column {} row {}", x, y);
        }
    }
}

fn state(race: &Crabrace) -> (usize, usize, bool, bool) {
    (race.crab().pos_x, race.crab_opponent().pos_x, race.race_finished(), race.your_crab_won())
}

#[test]
fn race_constants() {
    assert_eq!(BOARD_BLOCKS, 50);
    assert_eq!(PLAYER_LANE, 6);
    assert_eq!(OPPONENT_LANE, 3);
    assert_eq!(FIRST_COLUMN, 2);
    assert_eq!(LAST_COLUMN, 102);
    assert_eq!(TICK_MILLIS, 500);
    assert_eq!(ADVANCE_KEY, b'C');
    assert_eq!(QUIT_KEY, b'q');
    assert_eq!(INTERRUPT_KEY, 3);
}

#[test]
fn new_race_has_not_started() {
    let race = Crabrace::new();
    assert_eq!(state(&race), (0, 0, false, false));
    assert_eq!(race.crab().pos_y, 6);
    assert_eq!(race.crab_opponent().pos_y, 3);
    assert!(!race.crab().finished);
    assert!(!race.crab_opponent().finished);
    assert!(race.changed());
    for y in 0..GAME_SIZE_Y {
        for x in 0..GAME_SIZE_X {
            assert_eq!(race.game().get(x, y), Cell::Blank);
        }
    }
}

#[test]
fn init_puts_the_player_past_the_start_line() {
    let race = ready();
    assert_eq!(state(&race), (2, 0, false, false));
    assert_eq!(race.crab().pos_y, 6);
    assert_eq!(race.crab_opponent().pos_y, 3);
    assert!(!race.crab().finished);
    assert!(!race.crab_opponent().finished);
    assert!(race.changed());
    expect_board(&race, 2, 0);
}

#[test]
fn init_leaves_the_border_whole_and_the_opponent_off_the_grid() {
    let race = ready();
    for (x, y) in [(0, 6), (1, 6), (0, 7), (1, 7), (0, 3), (1, 3), (0, 4), (1, 4)] {
        assert_eq!(race.game().get(x, y), BORDER);
    }
    for (x, y) in [(2, 6), (3, 6), (2, 7), (3, 7)] {
        assert_eq!(race.game().get(x, y), CRAB);
    }
    for (x, y) in [(2, 3), (3, 3), (2, 4), (3, 4)] {
        assert_eq!(race.game().get(x, y), Cell::Blank);
    }
}

#[test]
fn first_tick_puts_the_opponent_on_the_track() {
    let mut race = ready();
    assert!(race.update());
    assert_eq!(state(&race), (2, 2, false, false));
    assert!(race.changed());
    expect_board(&race, 2, 2);
    for (x, y) in [(0, 3), (1, 3), (0, 4), (1, 4)] {
        assert_eq!(race.game().get(x, y), BORDER);
    }
}

#[test]
fn first_tick_in_a_frame() {
    let mut race = ready();
    let early = race.frame(None, 500);
    assert_eq!(early, FrameOutcome { ticked: false, render: true, running: true });
    assert_eq!(state(&race), (2, 0, false, false));
    let due = race.frame(None, 501);
    assert_eq!(due, FrameOutcome { ticked: true, render: true, running: true });
    assert_eq!(state(&race), (2, 2, false, false));
    expect_board(&race, 2, 2);
}

#[test]
fn player_can_advance_before_the_first_tick() {
    let mut race = ready();
    race.tick_player_input(ADVANCE_KEY);
    assert_eq!(state(&race), (4, 0, false, false));
    expect_board(&race, 4, 0);
    for _ in 0..49 {
        race.tick_player_input(ADVANCE_KEY);
    }
    assert_eq!(state(&race), (102, 0, false, false));
    race.tick_player_input(ADVANCE_KEY);
    assert_eq!(state(&race), (102, 0, true, true));
    expect_board(&race, 102, 0);
}

#[test]
fn opponent_alone_from_the_start_line_needs_one_tick_more() {
    let mut race = ready();
    for tick in 1..=51 {
        assert!(race.update());
        assert_eq!(state(&race), (2, 2 * tick, false, false));
    }
    expect_board(&race, 2, 102);
    assert!(!race.update());
    assert_eq!(state(&race), (2, 102, true, false));
    expect_board(&race, 2, 102);
}

#[test]
fn frame_due_needs_more_than_half_a_second() {
    assert!(!frame_due(0));
    assert!(!frame_due(499));
    assert!(!frame_due(500));
    assert!(frame_due(501));
    assert!(frame_due(u128::MAX));
}

#[test]
fn update_advances_the_opponent_one_block() {
    let mut race = started();
    assert!(race.update());
    assert_eq!(state(&race), (2, 4, false, false));
    expect_board(&race, 2, 4);
}

#[test]
fn advance_key_advances_the_player_one_block() {
    let mut race = started();
    race.tick_player_input(ADVANCE_KEY);
    assert_eq!(state(&race), (4, 2, false, false));
    expect_board(&race, 4, 2);
}

#[test]
fn other_keys_are_ignored() {
    let mut race = started();
    race.frame(None, 0);
    for key in [0u8, 27, 91, 65, 66, 68, b'c', b' ', 255] {
        race.tick_player_input(key);
        assert_eq!(state(&race), (2, 2, false, false));
        assert!(!race.changed());
        let outcome = race.frame(Some(key), 0);
        assert_eq!(outcome, FrameOutcome { ticked: false, render: false, running: true });
        assert_eq!(state(&race), (2, 2, false, false));
    }
    expect_board(&race, 2, 2);
}

#[test]
fn opponent_alone_is_stopped_after_the_whole_track() {
    let mut race = started();
    for tick in 1..=50 {
        let outcome = race.frame(None, 501);
        assert_eq!(outcome, FrameOutcome { ticked: true, render: true, running: true });
        assert_eq!(state(&race), (2, 2 + 2 * tick, false, false));
    }
    assert_eq!(race.crab_opponent().pos_x, 102);
    expect_board(&race, 2, 102);
    let outcome = race.frame(None, 501);
    assert_eq!(outcome, FrameOutcome { ticked: true, render: false, running: false });
    assert_eq!(state(&race), (2, 102, true, false));
    assert!(race.crab_opponent().finished);
    assert!(!race.crab().finished);
    expect_board(&race, 2, 102);
}

#[test]
fn update_reports_when_the_race_is_over() {
    let mut race = started();
    for _ in 0..50 {
        assert!(race.update());
    }
    assert!(!race.update());
    assert_eq!(state(&race), (2, 102, true, false));
    assert!(!race.update());
    assert_eq!(state(&race), (2, 102, true, false));
}

#[test]
fn no_tick_before_it_is_due() {
    let mut race = started();
    let first = race.frame(None, 500);
    assert_eq!(first, FrameOutcome { ticked: false, render: true, running: true });
    for elapsed in [0, 10, 499, 500] {
        let outcome = race.frame(None, elapsed);
        assert_eq!(outcome, FrameOutcome { ticked: false, render: false, running: true });
    }
    assert_eq!(state(&race), (2, 2, false, false));
}

#[test]
fn fifty_advances_reach_the_border_and_the_next_is_blocked() {
    let mut race = started();
    for advance in 1..=50 {
        let outcome = race.frame(Some(ADVANCE_KEY), 0);
        assert_eq!(outcome, FrameOutcome { ticked: false, render: true, running: true });
        assert_eq!(state(&race), (2 + 2 * advance, 2, false, false));
    }
    assert_eq!(race.crab().pos_x, 102);
    assert!(!race.crab().finished);
    expect_board(&race, 102, 2);
    let outcome = race.frame(Some(ADVANCE_KEY), 0);
    assert_eq!(outcome, FrameOutcome { ticked: false, render: false, running: false });
    assert_eq!(state(&race), (102, 2, true, true));
    assert!(race.crab().finished);
    assert!(!race.crab_opponent().finished);
    expect_board(&race, 102, 2);
}

#[test]
fn faster_player_wins_before_the_opponent() {
    let mut race = started();
    let mut frames = 0;
    loop {
        // The player presses twice for each tick of the clock.
        let first = race.frame(Some(ADVANCE_KEY), 250);
        if !first.running {
            break;
        }
        let second = race.frame(Some(ADVANCE_KEY), 501);
        if !second.running {
            break;
        }
        assert!(second.ticked);
        assert!(race.crab().pos_x > race.crab_opponent().pos_x);
        frames += 2;
        assert!(frames < 200);
    }
    assert!(race.race_finished());
    assert!(race.your_crab_won());
    assert_eq!(race.crab().pos_x, 102);
    assert!(race.crab_opponent().pos_x < 102);
    assert!(!race.crab_opponent().finished);
}

#[test]
fn player_in_step_with_the_clock_still_wins() {
    let mut race = started();
    for step in 1..=50 {
        let outcome = race.frame(Some(ADVANCE_KEY), 501);
        assert_eq!(outcome, FrameOutcome { ticked: true, render: true, running: true });
        assert_eq!(state(&race), (2 + 2 * step, 2 + 2 * step, false, false));
    }
    let outcome = race.frame(Some(ADVANCE_KEY), 501);
    assert_eq!(outcome, FrameOutcome { ticked: false, render: false, running: false });
    assert_eq!(state(&race), (102, 102, true, true));
}

#[test]
fn slower_player_loses() {
    let mut race = started();
    let mut frame = 0;
    loop {
        let key = if frame % 3 == 0 { Some(ADVANCE_KEY) } else { None };
        let outcome = race.frame(key, 501);
        frame += 1;
        if !outcome.running {
            break;
        }
    }
    assert_eq!(frame, 51);
    assert_eq!(state(&race), (2 + 2 * 17, 102, true, false));
}

#[test]
fn a_finished_race_does_not_change() {
    let mut race = started();
    for _ in 0..51 {
        race.tick_player_input(ADVANCE_KEY);
    }
    assert_eq!(state(&race), (102, 2, true, true));
    race.tick_player_input(ADVANCE_KEY);
    assert!(!race.update());
    for key in [None, Some(ADVANCE_KEY), Some(b'x')] {
        for elapsed in [0, 501] {
            let outcome = race.frame(key, elapsed);
            assert!(!outcome.running);
            assert!(!outcome.ticked);
            assert_eq!(state(&race), (102, 2, true, true));
        }
    }
    expect_board(&race, 102, 2);
}

#[test]
fn quit_keys_stop_the_loop_and_change_nothing() {
    for key in [QUIT_KEY, INTERRUPT_KEY] {
        let mut race = started();
        let outcome = race.frame(Some(key), 501);
        assert_eq!(outcome, FrameOutcome { ticked: false, render: false, running: false });
        assert_eq!(state(&race), (2, 2, false, false));
        assert!(race.changed());
        expect_board(&race, 2, 2);
    }
}

#[test]
fn the_grid_is_shown_only_after_a_change() {
    let mut race = started();
    assert!(race.changed());
    assert!(race.frame(None, 0).render);
    assert!(!race.changed());
    assert!(!race.frame(None, 0).render);
    assert!(race.frame(Some(ADVANCE_KEY), 0).render);
    assert!(!race.frame(None, 0).render);
    assert!(race.frame(None, 501).render);
    assert!(!race.frame(None, 0).render);
    race.tick_player_input(ADVANCE_KEY);
    assert!(race.changed());
    race.frame(None, 0);
    race.update();
    assert!(race.changed());
}

#[test]
fn input_comes_before_the_clock_in_a_frame() {
    let mut race = started();
    for _ in 0..50 {
        race.tick_player_input(ADVANCE_KEY);
        race.update();
    }
    assert_eq!(state(&race), (102, 102, false, false));
    let outcome = race.frame(Some(ADVANCE_KEY), 501);
    assert!(!outcome.running);
    assert!(!outcome.ticked);
    assert_eq!(state(&race), (102, 102, true, true));
}
