//! The screen cursor follows the line cursor.
//!
//! A line that is longer than the terminal is wide runs on over several
//! rows. One step of the line cursor is then a step of the screen cursor
//! along its row, or, at an edge, a step to the far end of the row above or
//! below. Which of the two it is depends on the width of the terminal and on
//! the column of the cursor at that moment, and on nothing that was seen
//! before.

use vstd::prelude::*;
use crate::terminal::{Command, Grid, Instruction, Screen, script, lemma_run_empty, lemma_run_push};

verus! {

/// The last column of a terminal of the given width. A terminal that
/// reports no column at all is taken to end in column 0.
pub open spec fn last_column(width: u16) -> int {
    if width > 0 {
        width - 1
    } else {
        0
    }
}

/// What moves the screen cursor one cell onward: from the last column to
/// the first column of the next row, and from any other column one column
/// to the right.
pub open spec fn advance_right_script(screen: Screen) -> Seq<Instruction> {
    if screen.column + 1 == screen.width {
        seq![Instruction::MoveToNextLine(1)]
    } else {
        seq![Instruction::MoveRight(1)]
    }
}

/// What moves the screen cursor one cell back: from the first column to the
/// last column of the row above, and from any other column one column to
/// the left.
pub open spec fn advance_left_script(screen: Screen) -> Seq<Instruction> {
    if screen.column == 0 {
        seq![Instruction::MoveToPreviousLine(1), Instruction::MoveRight(last_column(screen.width))]
    } else {
        seq![Instruction::MoveLeft(1)]
    }
}

/// The commands that move the screen cursor one cell onward.
///
/// The cursor wraps only when it stands in the last column at this moment:
/// a cursor that has just reached the last column stays there until the
/// next step. The column is held against the width as both were read. On a
/// terminal that was made narrower a moment ago the cursor may stand
/// outside the new width; it is then moved to the right like any other.
pub fn advance_right(screen: Screen) -> (commands: Vec<Command>)
    ensures
        script(commands@) == advance_right_script(screen),
{
    let mut commands: Vec<Command> = Vec::new();
    if screen.width > 0 && screen.column == screen.width - 1 {
        commands.push(Command::MoveToNextLine(1));
    } else {
        commands.push(Command::MoveRight(1));
    }
    assert(script(commands@) =~= advance_right_script(screen));
    commands
}

/// The commands that move the screen cursor one cell back.
pub fn advance_left(screen: Screen) -> (commands: Vec<Command>)
    ensures
        script(commands@) == advance_left_script(screen),
{
    let mut commands: Vec<Command> = Vec::new();
    if screen.column == 0 {
        let last: u16 = if screen.width > 0 {
            screen.width - 1
        } else {
            0
        };
        commands.push(Command::MoveToPreviousLine(1));
        commands.push(Command::MoveRight(last));
    } else {
        commands.push(Command::MoveLeft(1));
    }
    assert(script(commands@) =~= advance_left_script(screen));
    commands
}

/// The grid shows what was read from the terminal: the same width, and the
/// cursor in the same column.
pub open spec fn shows(grid: Grid, screen: Screen) -> bool {
    grid.valid() && grid.width == screen.width && grid.column == screen.column
}

/// A step onward from the last column of a terminal ends in the first
/// column of the next row. From any other column it ends one column to the
/// right, in the same row. Either way the cursor is on the next cell.
pub proof fn law_advance_right(grid: Grid, screen: Screen)
    requires
        shows(grid, screen),
    ensures
        ({
            let after = grid.run(advance_right_script(screen));
            &&& after.valid()
            &&& after.width == grid.width
            &&& after.cell() == grid.cell() + 1
            &&& grid.column == grid.width - 1 ==> after.column == 0 && after.row == grid.row + 1
            &&& grid.column != grid.width - 1 ==> after.column == grid.column + 1 && after.row
                == grid.row
            &&& after.saved_column == grid.saved_column
            &&& after.saved_row == grid.saved_row
        }),
{
    let empty = Seq::<Instruction>::empty();
    lemma_run_empty(grid);
    if screen.column + 1 == screen.width {
        let step = Instruction::MoveToNextLine(1);
        lemma_run_push(grid, empty, step);
        assert(advance_right_script(screen) =~= empty.push(step));
        assert((grid.row + 1) * grid.width == grid.row * grid.width + grid.width)
            by (nonlinear_arith);
    } else {
        let step = Instruction::MoveRight(1);
        lemma_run_push(grid, empty, step);
        assert(advance_right_script(screen) =~= empty.push(step));
    }
}

/// A step back from the first column of a terminal ends in the last column
/// of the row above. From any other column it ends one column to the left,
/// in the same row. Either way the cursor is on the cell before, if there
/// is one: in the top left corner the cursor has nowhere to go back to.
pub proof fn law_advance_left(grid: Grid, screen: Screen)
    requires
        shows(grid, screen),
    ensures
        ({
            let after = grid.run(advance_left_script(screen));
            &&& after.valid()
            &&& after.width == grid.width
            &&& grid.cell() > 0 ==> after.cell() == grid.cell() - 1
            &&& grid.column == 0 && grid.row > 0 ==> after.column == grid.width - 1 && after.row
                == grid.row - 1
            &&& grid.column != 0 ==> after.column == grid.column - 1 && after.row == grid.row
            &&& after.saved_column == grid.saved_column
            &&& after.saved_row == grid.saved_row
        }),
{
    let empty = Seq::<Instruction>::empty();
    lemma_run_empty(grid);
    if screen.column == 0 {
        let up = Instruction::MoveToPreviousLine(1);
        let across = Instruction::MoveRight(last_column(screen.width));
        lemma_run_push(grid, empty, up);
        lemma_run_push(grid, empty.push(up), across);
        assert(advance_left_script(screen) =~= empty.push(up).push(across));
        if grid.row > 0 {
            assert((grid.row - 1) * grid.width == grid.row * grid.width - grid.width)
                by (nonlinear_arith);
        } else {
            assert(grid.cell() == 0) by (nonlinear_arith)
                requires
                    grid.row == 0,
                    grid.column == 0,
                    grid.cell() == grid.row * grid.width + grid.column,
            ;
        }
    } else {
        let step = Instruction::MoveLeft(1);
        lemma_run_push(grid, empty, step);
        assert(advance_left_script(screen) =~= empty.push(step));
        assert(grid.cell() > 0) by (nonlinear_arith)
            requires
                grid.row >= 0,
                grid.width > 0,
                grid.column > 0,
                grid.cell() == grid.row * grid.width + grid.column,
        ;
    }
}

} // verus!
