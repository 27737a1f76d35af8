//! What the editor says to a terminal, and a grid of cells on which the
//! meaning of those words is fixed.
//!
//! The editor never writes to a terminal itself. It hands out [`Command`]
//! values in the order in which they are to be queued. The [`Grid`] is the
//! picture of a terminal that the laws of this crate speak about: a cursor
//! on a grid of cells of a given width, and one remembered position.

use vstd::prelude::*;

verus! {

/// One terminal command.
#[derive(Clone, Debug, PartialEq, Eq)]
pub enum Command {
    /// Remember where the cursor is.
    SavePosition,
    /// Put the cursor back where it was last remembered.
    RestorePosition,
    /// Write a text at the cursor.
    Print(String),
    /// Put the cursor on a column and a row, both counted from 0.
    MoveTo(u16, u16),
    /// Move the cursor a number of columns to the left.
    MoveLeft(u16),
    /// Move the cursor a number of columns to the right.
    MoveRight(u16),
    /// Move the cursor a number of rows down, to the first column.
    MoveToNextLine(u16),
    /// Move the cursor a number of rows up, to the first column.
    MoveToPreviousLine(u16),
    /// Clear every cell of the screen.
    ClearAll,
    /// Clear the cells from the cursor to the end of its row.
    ClearUntilNewLine,
}

/// A [`Command`] as mathematics sees it: the text of a `Print` is a
/// sequence of characters, and the counts are integers.
pub enum Instruction {
    SavePosition,
    RestorePosition,
    Print(Seq<char>),
    MoveTo(int, int),
    MoveLeft(int),
    MoveRight(int),
    MoveToNextLine(int),
    MoveToPreviousLine(int),
    ClearAll,
    ClearUntilNewLine,
}

impl View for Command {
    type V = Instruction;

    open spec fn view(&self) -> Instruction {
        match *self {
            Command::SavePosition => Instruction::SavePosition,
            Command::RestorePosition => Instruction::RestorePosition,
            Command::Print(text) => Instruction::Print(text@),
            Command::MoveTo(column, row) => Instruction::MoveTo(column as int, row as int),
            Command::MoveLeft(count) => Instruction::MoveLeft(count as int),
            Command::MoveRight(count) => Instruction::MoveRight(count as int),
            Command::MoveToNextLine(count) => Instruction::MoveToNextLine(count as int),
            Command::MoveToPreviousLine(count) => Instruction::MoveToPreviousLine(count as int),
            Command::ClearAll => Instruction::ClearAll,
            Command::ClearUntilNewLine => Instruction::ClearUntilNewLine,
        }
    }
}

/// The instructions that a list of commands stands for, in its order.
pub open spec fn script(commands: Seq<Command>) -> Seq<Instruction> {
    commands.map_values(|command: Command| command@)
}

/// What was read from the terminal just before a key is handled: how many
/// columns it has, and in which column its cursor stands (counted from 0).
///
/// Both are read anew for every key. The editor keeps neither, so a
/// terminal that is resized between two keys is laid out by its new width
/// from the next key on. A line that is on the screen when the size changes
/// is not laid out again.
#[derive(Clone, Copy, Debug, PartialEq, Eq)]
pub struct Screen {
    pub width: u16,
    pub column: u16,
}

/// The cursor of a terminal on a grid of cells that is `width` cells wide,
/// and the position that the terminal last remembered.
///
/// This is an ideal terminal: every character fills one cell, the rows
/// never run out, and a text that reaches the right edge goes on in the
/// first column of the next row.
pub struct Grid {
    pub width: int,
    pub column: int,
    pub row: int,
    pub saved_column: int,
    pub saved_row: int,
}

/// The number of steps that a terminal takes for a count: a count of 0 is
/// read as 1.
pub open spec fn steps(count: int) -> int {
    if count == 0 {
        1
    } else {
        count
    }
}

impl Grid {
    /// The cursor is on a cell of the grid.
    pub open spec fn valid(self) -> bool {
        0 <= self.column < self.width && 0 <= self.row
    }

    /// The last column of a row. A grid without columns is taken to end in
    /// column 0.
    pub open spec fn last_column(self) -> int {
        if self.width > 0 {
            self.width - 1
        } else {
            0
        }
    }

    /// The number of the cell under the cursor, the cells counted row by
    /// row from the top left corner.
    pub open spec fn cell(self) -> int {
        self.row * self.width + self.column
    }

    /// The grid with its cursor on another cell.
    pub open spec fn at(self, column: int, row: int) -> Grid {
        Grid { column, row, ..self }
    }

    /// The grid after one instruction.
    pub open spec fn apply(self, instruction: Instruction) -> Grid {
        match instruction {
            Instruction::SavePosition => Grid {
                saved_column: self.column,
                saved_row: self.row,
                ..self
            },
            Instruction::RestorePosition => self.at(self.saved_column, self.saved_row),
            Instruction::Print(text) => if self.width > 0 {
                self.at(
                    (self.cell() + text.len()) % self.width,
                    (self.cell() + text.len()) / self.width,
                )
            } else {
                self
            },
            Instruction::MoveTo(column, row) => self.at(column, row),
            Instruction::MoveLeft(count) => if self.column >= steps(count) {
                self.at(self.column - steps(count), self.row)
            } else {
                self.at(0, self.row)
            },
            Instruction::MoveRight(count) => if self.column + steps(count) <= self.last_column() {
                self.at(self.column + steps(count), self.row)
            } else {
                self.at(self.last_column(), self.row)
            },
            Instruction::MoveToNextLine(count) => self.at(0, self.row + steps(count)),
            Instruction::MoveToPreviousLine(count) => if self.row >= steps(count) {
                self.at(0, self.row - steps(count))
            } else {
                self.at(0, 0)
            },
            Instruction::ClearAll => self,
            Instruction::ClearUntilNewLine => self,
        }
    }

    /// The grid after a list of instructions, taken in their order.
    pub open spec fn run(self, instructions: Seq<Instruction>) -> Grid
        decreases instructions.len(),
    {
        if instructions.len() == 0 {
            self
        } else {
            self.run(instructions.drop_last()).apply(instructions.last())
        }
    }
}

/// Running no instruction leaves the grid as it is.
pub proof fn lemma_run_empty(grid: Grid)
    ensures
        grid.run(Seq::empty()) == grid,
{
}

/// Running a list with one more instruction at its end is running the list
/// and then that instruction.
pub proof fn lemma_run_push(grid: Grid, instructions: Seq<Instruction>, last: Instruction)
    ensures
        grid.run(instructions.push(last)) == grid.run(instructions).apply(last),
{
    let longer = instructions.push(last);
    assert(longer.drop_last() =~= instructions);
    assert(longer.last() == last);
}

/// Running two lists one after the other is running them joined.
pub proof fn lemma_run_concat(grid: Grid, first: Seq<Instruction>, second: Seq<Instruction>)
    ensures
        grid.run(first + second) == grid.run(first).run(second),
    decreases second.len(),
{
    if second.len() == 0 {
        assert(first + second =~= first);
    } else {
        lemma_run_concat(grid, first, second.drop_last());
        assert((first + second).drop_last() =~= first + second.drop_last());
        assert((first + second).last() == second.last());
    }
}

} // verus!
