use rush_console::terminal::{Command, Screen};
use rush_console::tracker::{advance_left, advance_right};

#[test]
fn advance_right_inside_a_row_moves_one_column() {
    let screen = Screen { width: 80, column: 0 };
    assert_eq!(advance_right(screen), vec![Command::MoveRight(1)]);
    let screen = Screen { width: 80, column: 78 };
    assert_eq!(advance_right(screen), vec![Command::MoveRight(1)]);
}

#[test]
fn advance_right_from_last_column_wraps_to_next_row() {
    let screen = Screen { width: 80, column: 79 };
    assert_eq!(advance_right(screen), vec![Command::MoveToNextLine(1)]);
    let screen = Screen { width: 1, column: 0 };
    assert_eq!(advance_right(screen), vec![Command::MoveToNextLine(1)]);
}

#[test]
fn advance_right_uses_the_width_of_the_moment() {
    let column = 39;
    assert_eq!(
        advance_right(Screen { width: 80, column }),
        vec![Command::MoveRight(1)]
    );
    assert_eq!(
        advance_right(Screen { width: 40, column }),
        vec![Command::MoveToNextLine(1)]
    );
}

#[test]
fn advance_left_inside_a_row_moves_one_column() {
    let screen = Screen { width: 80, column: 1 };
    assert_eq!(advance_left(screen), vec![Command::MoveLeft(1)]);
    let screen = Screen { width: 80, column: 79 };
    assert_eq!(advance_left(screen), vec![Command::MoveLeft(1)]);
}

#[test]
fn advance_left_from_first_column_wraps_to_previous_row() {
    let screen = Screen { width: 80, column: 0 };
    assert_eq!(
        advance_left(screen),
        vec![Command::MoveToPreviousLine(1), Command::MoveRight(79)]
    );
    let screen = Screen { width: 132, column: 0 };
    assert_eq!(
        advance_left(screen),
        vec![Command::MoveToPreviousLine(1), Command::MoveRight(131)]
    );
}

#[test]
fn advance_on_a_terminal_without_columns_does_not_overflow() {
    let screen = Screen { width: 0, column: 0 };
    assert_eq!(advance_right(screen), vec![Command::MoveRight(1)]);
    assert_eq!(
        advance_left(screen),
        vec![Command::MoveToPreviousLine(1), Command::MoveRight(0)]
    );
}

#[test]
fn advance_at_the_largest_width() {
    let screen = Screen { width: u16::MAX, column: u16::MAX - 1 };
    assert_eq!(advance_right(screen), vec![Command::MoveToNextLine(1)]);
    let screen = Screen { width: u16::MAX, column: u16::MAX };
    assert_eq!(advance_right(screen), vec![Command::MoveRight(1)]);
    let screen = Screen { width: u16::MAX, column: 0 };
    assert_eq!(
        advance_left(screen),
        vec![Command::MoveToPreviousLine(1), Command::MoveRight(u16::MAX - 1)]
    );
}
