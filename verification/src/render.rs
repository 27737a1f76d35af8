//! The smallest update of the screen for each change of the line.
//!
//! A change of the line touches only what stands behind the cursor, so only
//! that part is written again. The commands of one change are handed out
//! together, to be queued together and shown in one go.

use vstd::prelude::*;
use crate::buffer::push_char;
use crate::terminal::{Command, Grid, Instruction, script, lemma_run_empty, lemma_run_push};

verus! {

/// What is written over the old end of the line: the characters `shown`,
/// and, after a deletion, one blank behind them. The blank covers the cell
/// of the last character of the longer line that stood there before.
pub open spec fn section_text(shown: Seq<char>, deletion_mode: bool) -> Seq<char> {
    if deletion_mode {
        shown.push(' ')
    } else {
        shown
    }
}

/// Writing a part of the line at the cursor and coming back to where the
/// cursor stood.
pub open spec fn section_script(shown: Seq<char>, deletion_mode: bool) -> Seq<Instruction> {
    seq![
        Instruction::SavePosition,
        Instruction::Print(section_text(shown, deletion_mode)),
        Instruction::RestorePosition,
    ]
}

/// The commands that write `shown` from the cursor on and leave the cursor
/// where it is.
pub fn print_buffer_section(shown: String, deletion_mode: bool) -> (commands: Vec<Command>)
    ensures
        script(commands@) == section_script(shown@, deletion_mode),
{
    let mut text = shown;
    if deletion_mode {
        push_char(&mut text, ' ');
    }
    let mut commands: Vec<Command> = Vec::new();
    commands.push(Command::SavePosition);
    commands.push(Command::Print(text));
    commands.push(Command::RestorePosition);
    assert(script(commands@) =~= section_script(shown@, deletion_mode));
    commands
}

/// Going to the top left corner and clearing the whole screen.
pub open spec fn clear_script() -> Seq<Instruction> {
    seq![Instruction::MoveTo(0, 0), Instruction::ClearAll]
}

/// The commands that clear the terminal and leave the cursor in its top
/// left corner.
pub fn clear_terminal() -> (commands: Vec<Command>)
    ensures
        script(commands@) == clear_script(),
{
    let mut commands: Vec<Command> = Vec::new();
    commands.push(Command::MoveTo(0, 0));
    commands.push(Command::ClearAll);
    assert(script(commands@) =~= clear_script());
    commands
}

/// Writing the prompt at the cursor.
pub open spec fn prompt_script(prompt: Seq<char>) -> Seq<Instruction> {
    seq![Instruction::Print(prompt)]
}

/// The command that draws the prompt.
pub fn print_prompt(prompt: String) -> (commands: Vec<Command>)
    ensures
        script(commands@) == prompt_script(prompt@),
{
    let mut commands: Vec<Command> = Vec::new();
    commands.push(Command::Print(prompt));
    assert(script(commands@) =~= prompt_script(prompt@));
    commands
}

/// Clearing the row that lies `line` rows above the bottom edge of a
/// terminal of `height` rows, and coming back.
pub open spec fn clear_line_script(line: int, height: int) -> Seq<Instruction> {
    seq![
        Instruction::SavePosition,
        Instruction::MoveTo(0, height - line),
        Instruction::ClearUntilNewLine,
        Instruction::RestorePosition,
    ]
}

/// Clearing the rows `first`, `first + 1`, and so on up to but not
/// including `end`, each counted upward from the bottom edge.
pub open spec fn clear_lines_script(first: int, end: int, height: int) -> Seq<Instruction>
    decreases end - first,
{
    if first >= end {
        Seq::empty()
    } else {
        clear_lines_script(first, end - 1, height) + clear_line_script(end - 1, height)
    }
}

/// Writing `text` into the row that lies `line` rows above the bottom edge,
/// over whatever stood there, and coming back.
pub open spec fn debug_text_script(line: int, text: Seq<char>, height: int) -> Seq<Instruction> {
    seq![
        Instruction::SavePosition,
        Instruction::MoveTo(0, height - line),
        Instruction::ClearUntilNewLine,
        Instruction::Print(text),
        Instruction::RestorePosition,
    ]
}

/// The commands that write a note near the bottom edge of the terminal and
/// leave the cursor where it is. The row has to be on the screen.
pub fn print_debug_text(line: u16, text: String, height: u16) -> (commands: Vec<Command>)
    requires
        line <= height,
    ensures
        script(commands@) == debug_text_script(line as int, text@, height as int),
{
    let mut commands: Vec<Command> = Vec::new();
    commands.push(Command::SavePosition);
    commands.push(Command::MoveTo(0, height - line));
    commands.push(Command::ClearUntilNewLine);
    commands.push(Command::Print(text));
    commands.push(Command::RestorePosition);
    assert(script(commands@) =~= debug_text_script(line as int, text@, height as int));
    commands
}

/// The commands that clear the notes in the rows `first` up to but not
/// including `end`, counted upward from the bottom edge, and leave the
/// cursor where it is. The rows have to be on the screen.
pub fn clear_debug_text(first: u16, end: u16, height: u16) -> (commands: Vec<Command>)
    requires
        first < end ==> end <= height + 1,
    ensures
        script(commands@) == clear_lines_script(first as int, end as int, height as int),
{
    let mut commands: Vec<Command> = Vec::new();
    let mut line: u16 = first;
    assert(script(commands@) =~= clear_lines_script(first as int, first as int, height as int));
    while line < end
        invariant
            first < end ==> end <= height + 1,
            first <= line,
            first < end ==> line <= end,
            first >= end ==> line == first,
            script(commands@) == clear_lines_script(first as int, line as int, height as int),
        decreases end - line,
    {
        let ghost before = script(commands@);
        commands.push(Command::SavePosition);
        commands.push(Command::MoveTo(0, height - line));
        commands.push(Command::ClearUntilNewLine);
        commands.push(Command::RestorePosition);
        assert(script(commands@) =~= before + clear_line_script(line as int, height as int));
        line = line + 1;
    }
    commands
}

/// The commands that are queued once a line has been handed over: they
/// clear the bottom row of the terminal, where a note may stand. A terminal
/// without rows has no such row, and nothing is queued.
pub fn clear_bottom_line(height: u16) -> (commands: Vec<Command>)
    ensures
        height > 0 ==> script(commands@) == clear_lines_script(1, 2, height as int),
        height == 0 ==> commands@.len() == 0,
{
    if height > 0 {
        clear_debug_text(1, 2, height)
    } else {
        Vec::new()
    }
}

/// Writing a part of the line leaves the screen cursor on the cell where it
/// stood, whatever is written and however wide the terminal is. So a line
/// that is drawn twice leaves the cursor where drawing it once leaves it.
pub proof fn law_section_keeps_cursor(grid: Grid, shown: Seq<char>, deletion_mode: bool)
    ensures
        ({
            let once = grid.run(section_script(shown, deletion_mode));
            let twice = once.run(section_script(shown, deletion_mode));
            &&& once.column == grid.column
            &&& once.row == grid.row
            &&& once.width == grid.width
            &&& twice.column == once.column
            &&& twice.row == once.row
        }),
{
    lemma_section_run(grid, shown, deletion_mode);
    lemma_section_run(grid.run(section_script(shown, deletion_mode)), shown, deletion_mode);
}

/// A section leaves the cursor where it stood, and the terminal remembers
/// that cell.
pub proof fn lemma_section_run(grid: Grid, shown: Seq<char>, deletion_mode: bool)
    ensures
        ({
            let after = grid.run(section_script(shown, deletion_mode));
            &&& after.column == grid.column
            &&& after.row == grid.row
            &&& after.width == grid.width
            &&& after.saved_column == grid.column
            &&& after.saved_row == grid.row
        }),
{
    let empty = Seq::<Instruction>::empty();
    let save = Instruction::SavePosition;
    let print = Instruction::Print(section_text(shown, deletion_mode));
    let restore = Instruction::RestorePosition;
    lemma_run_empty(grid);
    lemma_run_push(grid, empty, save);
    lemma_run_push(grid, empty.push(save), print);
    lemma_run_push(grid, empty.push(save).push(print), restore);
    assert(section_script(shown, deletion_mode) =~= empty.push(save).push(print).push(restore));
}

} // verus!
