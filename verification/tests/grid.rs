use crabrace::screen::{
    Cell, Rgb, Screen, BLOCK_GLYPH, BLOCK_SIZE_X, BLOCK_SIZE_Y, BOARD_SIZE_X, BOARD_SIZE_Y,
    BORDER_SIZE_X, BORDER_SIZE_Y, GAME_SIZE_X, GAME_SIZE_Y,
};

fn painted(color: Rgb) -> Cell {
    Cell::Painted { color, glyph: BLOCK_GLYPH }
}

#[test]
fn geometry_is_fixed() {
    assert_eq!(BLOCK_SIZE_X, 2);
    assert_eq!(BLOCK_SIZE_Y, 1);
    assert_eq!(BOARD_SIZE_X, 100);
    assert_eq!(BOARD_SIZE_Y, 10);
    assert_eq!(BORDER_SIZE_X, 2);
    assert_eq!(BORDER_SIZE_Y, 1);
    assert_eq!(GAME_SIZE_X, 106);
    assert_eq!(GAME_SIZE_Y, 12);
    assert_eq!(BLOCK_GLYPH, '█');
}

#[test]
fn new_screen_is_blank() {
    let screen = Screen::new();
    for y in 0..GAME_SIZE_Y {
        for x in 0..GAME_SIZE_X {
            assert_eq!(screen.get(x, y), Cell::Blank);
        }
    }
}

#[test]
fn paint_block_marks_two_adjacent_cells() {
    let mut screen = Screen::new();
    let color = Rgb(1, 2, 3);
    screen.paint_block(10, 4, color);
    for y in 0..GAME_SIZE_Y {
        for x in 0..GAME_SIZE_X {
            let marked = y == 4 && (x == 10 || x == 11);
            let expected = if marked { painted(color) } else { Cell::Blank };
            assert_eq!(screen.get(x, y), expected);
        }
    }
}

#[test]
fn paint_block_reaches_the_last_cells() {
    let mut screen = Screen::new();
    screen.paint_block(GAME_SIZE_X - 2, GAME_SIZE_Y - 1, Rgb(9, 9, 9));
    assert_eq!(screen.get(GAME_SIZE_X - 2, GAME_SIZE_Y - 1), painted(Rgb(9, 9, 9)));
    assert_eq!(screen.get(GAME_SIZE_X - 1, GAME_SIZE_Y - 1), painted(Rgb(9, 9, 9)));
    assert_eq!(screen.get(GAME_SIZE_X - 3, GAME_SIZE_Y - 1), Cell::Blank);
}

#[test]
fn paint_block_overwrites_the_color() {
    let mut screen = Screen::new();
    screen.paint_block(6, 2, Rgb(1, 1, 1));
    screen.paint_block(7, 2, Rgb(2, 2, 2));
    assert_eq!(screen.get(6, 2), painted(Rgb(1, 1, 1)));
    assert_eq!(screen.get(7, 2), painted(Rgb(2, 2, 2)));
    assert_eq!(screen.get(8, 2), painted(Rgb(2, 2, 2)));
}

#[test]
fn erase_block_resets_the_same_two_cells() {
    let mut screen = Screen::new();
    screen.paint_block(10, 4, Rgb(1, 2, 3));
    screen.paint_block(12, 4, Rgb(1, 2, 3));
    screen.erase_block(10, 4);
    assert_eq!(screen.get(10, 4), Cell::Blank);
    assert_eq!(screen.get(11, 4), Cell::Blank);
    assert_eq!(screen.get(12, 4), painted(Rgb(1, 2, 3)));
    assert_eq!(screen.get(13, 4), painted(Rgb(1, 2, 3)));
}

#[test]
fn erase_block_on_blank_cells_changes_nothing() {
    let mut screen = Screen::new();
    screen.erase_block(20, 5);
    for y in 0..GAME_SIZE_Y {
        for x in 0..GAME_SIZE_X {
            assert_eq!(screen.get(x, y), Cell::Blank);
        }
    }
}

#[test]
fn paint_border_paints_the_frame_and_nothing_else() {
    let mut screen = Screen::new();
    screen.paint_block(50, 5, Rgb(7, 7, 7));
    screen.paint_border();
    let border = painted(Rgb(0, 102, 102));
    for y in 0..GAME_SIZE_Y {
        for x in 0..GAME_SIZE_X {
            let on_border = y == 0 || y == 11 || x < 2 || x >= 104;
            let expected = if on_border {
                border
            } else if y == 5 && (x == 50 || x == 51) {
                painted(Rgb(7, 7, 7))
            } else {
                Cell::Blank
            };
            assert_eq!(screen.get(x, y), expected, "column {} row {}", x, y);
        }
    }
}

#[test]
fn paint_border_twice_is_the_same_as_once() {
    let mut once = Screen::new();
    once.paint_border();
    let mut twice = Screen::new();
    twice.paint_border();
    twice.paint_border();
    for y in 0..GAME_SIZE_Y {
        for x in 0..GAME_SIZE_X {
            assert_eq!(once.get(x, y), twice.get(x, y));
        }
    }
}
