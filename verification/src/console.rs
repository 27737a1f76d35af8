//! The editor: one line, its cursor, and what each key does to them and to
//! the screen.

use vstd::prelude::*;
use crate::buffer::{LineBuffer, LineState};
use crate::event::{Event, Intent, ReplAction};
use crate::render::{clear_script, clear_terminal, lemma_section_run, print_buffer_section, print_prompt, prompt_script, section_script};
use crate::prompt::{ShellContext, generate_prompt, is_prompt_of, prompt_layout};
use crate::terminal::{Command, Grid, Instruction, Screen, script, lemma_run_empty, lemma_run_concat};
use crate::tracker::{advance_left, advance_left_script, advance_right, advance_right_script, law_advance_left, law_advance_right, shows};

verus! {

/// The line after a key.
pub open spec fn next_state(state: LineState, intent: Intent) -> LineState {
    match intent {
        Intent::Insert(ch) => state.insert(ch),
        Intent::Backspace => state.delete_before_cursor(),
        Intent::Left => state.move_left(),
        Intent::Right => state.move_right(),
        _ => state,
    }
}

/// What the read loop is told after a key. Enter hands over a line only if
/// there is one: on an empty line it does nothing.
pub open spec fn action_of(state: LineState, intent: Intent) -> ReplAction {
    match intent {
        Intent::Enter => if state.content.len() > 0 {
            ReplAction::Return
        } else {
            ReplAction::Ignore
        },
        Intent::Interrupt => ReplAction::Exit,
        Intent::ClearScreen => ReplAction::Clear,
        _ => ReplAction::Ignore,
    }
}

/// Whether a key changes the line or moves its cursor. Only for such a key
/// does the editor look at the screen.
pub open spec fn touches_screen(state: LineState, intent: Intent) -> bool {
    match intent {
        Intent::Insert(_) => true,
        Intent::Backspace => state.cursor > 0,
        Intent::Left => state.cursor > 0,
        Intent::Right => state.cursor < state.content.len(),
        _ => false,
    }
}

/// What is shown after a character was typed: the line from the new
/// character on, which moves the old end of the line one cell onward, and
/// then the cursor one cell onward, behind the new character.
pub open spec fn insert_script(after: LineState, screen: Screen) -> Seq<Instruction> {
    section_script(after.content.skip(after.cursor - 1), false) + advance_right_script(screen)
}

/// What is shown after a character was removed: the cursor one cell back,
/// and from there the rest of the line and a blank.
pub open spec fn backspace_script(after: LineState, screen: Screen) -> Seq<Instruction> {
    advance_left_script(screen) + section_script(after.tail(), true)
}

/// What a key changes on the screen of which `screen` was read, the line
/// being `state` when the key comes.
pub open spec fn update_script(state: LineState, intent: Intent, screen: Screen) -> Seq<
    Instruction,
> {
    if !touches_screen(state, intent) {
        Seq::empty()
    } else {
        match intent {
            Intent::Insert(ch) => insert_script(state.insert(ch), screen),
            Intent::Backspace => backspace_script(state.delete_before_cursor(), screen),
            Intent::Left => advance_left_script(screen),
            Intent::Right => advance_right_script(screen),
            _ => Seq::empty(),
        }
    }
}

/// The line after the read loop has done what an action asks: handing the
/// line over and starting again both leave an empty line behind.
pub open spec fn settled_state(state: LineState, action: ReplAction) -> LineState {
    match action {
        ReplAction::Return => LineState::empty(),
        ReplAction::Clear => LineState::empty(),
        _ => state,
    }
}

/// What the read loop shows for an action: after a line the cursor goes to
/// the next row; to start again the screen is cleared and the prompt drawn;
/// before the shell is left the screen is cleared.
pub open spec fn settle_script(action: ReplAction, prompt: Seq<char>) -> Seq<Instruction> {
    match action {
        ReplAction::Return => seq![Instruction::MoveToNextLine(1)],
        ReplAction::Clear => clear_script() + prompt_script(prompt),
        ReplAction::Exit => clear_script(),
        ReplAction::Ignore => Seq::empty(),
    }
}

/// How the read loop goes on after an action, the line being `state` when
/// the action comes.
pub open spec fn goes_on(next: Next, state: LineState, action: ReplAction) -> bool {
    match action {
        ReplAction::Return => next matches Next::Submit(line) && line@ == state.content,
        ReplAction::Exit => next is Exit,
        _ => next is Continue,
    }
}

/// What the editor answers to one event.
#[derive(Clone, Debug, PartialEq, Eq)]
pub struct Outcome {
    /// What the read loop is to do.
    pub action: ReplAction,
    /// What is to be queued for the terminal, in this order.
    pub commands: Vec<Command>,
}

/// How the read loop goes on.
#[derive(Clone, Debug, PartialEq, Eq)]
pub enum Next {
    /// Wait for the next event.
    Continue,
    /// Hand this line to the shell.
    Submit(String),
    /// Leave the shell.
    Exit,
}

/// What the read loop does with an action.
#[derive(Clone, Debug, PartialEq, Eq)]
pub struct Verdict {
    /// What is to be queued for the terminal first, in this order.
    pub commands: Vec<Command>,
    /// How the loop goes on once that is queued.
    pub next: Next,
}

/// The line editor of a shell.
#[derive(Clone, Debug)]
pub struct Console {
    line_buffer: LineBuffer,
}

impl View for Console {
    type V = LineState;

    closed spec fn view(&self) -> LineState {
        self.line_buffer@
    }
}

impl Console {
    /// The cursor stands inside the line. Every function of this type
    /// hands back an editor of which this holds.
    pub open spec fn wf(&self) -> bool {
        self@.valid()
    }

    /// An editor with an empty line.
    pub fn new() -> (console: Console)
        ensures
            console.wf(),
            console@ == LineState::empty(),
    {
        Console { line_buffer: LineBuffer::new() }
    }

    /// Starts a read cycle: whatever an earlier read left behind, one that
    /// was given up too, is dropped, and the line is empty again.
    pub fn begin_read(&mut self)
        ensures
            final(self).wf(),
            final(self)@ == LineState::empty(),
    {
        self.line_buffer.reset();
    }

    /// The line as it stands.
    pub fn line(&self) -> (line: String)
        ensures
            line@ == self@.content,
    {
        self.line_buffer.text()
    }

    /// The number of characters before the cursor.
    pub fn cursor(&self) -> (offset: usize)
        ensures
            offset == self@.cursor,
    {
        self.line_buffer.cursor()
    }

    /// The number of characters in the line.
    pub fn len(&self) -> (count: usize)
        ensures
            count == self@.content.len(),
    {
        self.line_buffer.len()
    }

    /// Whether the editor looks at the screen to answer `event`. Where it
    /// does not, the answer is the same for every screen.
    pub fn reads_screen(&self, event: Event) -> (reads: bool)
        ensures
            reads == touches_screen(self@, event.intent()),
    {
        match event.classify() {
            Intent::Insert(_) => true,
            Intent::Backspace => self.line_buffer.cursor() > 0,
            Intent::Left => self.line_buffer.cursor() > 0,
            Intent::Right => self.line_buffer.cursor() < self.line_buffer.len(),
            _ => false,
        }
    }

    /// Puts `ch` into the line at the cursor and hands back what shows it.
    pub fn insert_char(&mut self, ch: char, screen: Screen) -> (commands: Vec<Command>)
        requires
            old(self).wf(),
        ensures
            final(self).wf(),
            final(self)@ == old(self)@.insert(ch),
            script(commands@) == insert_script(final(self)@, screen),
    {
        self.line_buffer.insert(ch);
        let shown = self.line_buffer.text_from(self.line_buffer.cursor() - 1);
        let mut commands = print_buffer_section(shown, false);
        let mut step = advance_right(screen);
        let ghost drawn = commands@;
        let ghost moved = step@;
        commands.append(&mut step);
        assert(script(drawn + moved) =~= script(drawn) + script(moved));
        commands
    }

    /// Removes the character before the cursor and hands back what shows
    /// that. With the cursor at the start of the line nothing is removed and
    /// nothing is shown.
    pub fn backspace_char(&mut self, screen: Screen) -> (commands: Vec<Command>)
        requires
            old(self).wf(),
        ensures
            final(self).wf(),
            final(self)@ == old(self)@.delete_before_cursor(),
            old(self)@.cursor == 0 ==> final(self)@ == old(self)@ && commands@.len() == 0,
            old(self)@.cursor > 0 ==> script(commands@) == backspace_script(final(self)@, screen),
    {
        if self.line_buffer.cursor() == 0 {
            return Vec::new();
        }
        self.line_buffer.delete_before_cursor();
        let mut commands = advance_left(screen);
        let mut drawn = print_buffer_section(self.line_buffer.tail(), true);
        let ghost first = commands@;
        let ghost second = drawn@;
        commands.append(&mut drawn);
        assert(script(first + second) =~= script(first) + script(second));
        commands
    }

    /// Answers one event: changes the line as the key asks, and says what
    /// is to be shown and what the read loop is to do.
    pub fn handle_event(&mut self, event: Event, screen: Screen) -> (outcome: Outcome)
        requires
            old(self).wf(),
        ensures
            final(self).wf(),
            final(self)@ == next_state(old(self)@, event.intent()),
            outcome.action == action_of(old(self)@, event.intent()),
            script(outcome.commands@) == update_script(old(self)@, event.intent(), screen),
    {
        let mut action = ReplAction::Ignore;
        let mut commands: Vec<Command> = Vec::new();
        assert(script(commands@) =~= Seq::<Instruction>::empty());
        match event.classify() {
            Intent::Insert(ch) => {
                commands = self.insert_char(ch, screen);
            },
            Intent::Backspace => {
                if self.line_buffer.cursor() != 0 {
                    commands = self.backspace_char(screen);
                }
            },
            Intent::Left => {
                if self.line_buffer.cursor() != 0 {
                    commands = advance_left(screen);
                    self.line_buffer.move_left();
                }
            },
            Intent::Right => {
                if self.line_buffer.cursor() != self.line_buffer.len() {
                    commands = advance_right(screen);
                    self.line_buffer.move_right();
                }
            },
            Intent::Enter => {
                if !self.line_buffer.is_empty() {
                    action = ReplAction::Return;
                }
            },
            Intent::Interrupt => {
                action = ReplAction::Exit;
            },
            Intent::ClearScreen => {
                action = ReplAction::Clear;
            },
            Intent::Nothing => {},
        }
        Outcome { action, commands }
    }

    /// Does what an action asks of the read loop, with `prompt` as the
    /// prompt to draw where the loop starts again.
    pub fn settle(&mut self, action: ReplAction, prompt: String) -> (verdict: Verdict)
        requires
            old(self).wf(),
        ensures
            final(self).wf(),
            final(self)@ == settled_state(old(self)@, action),
            script(verdict.commands@) == settle_script(action, prompt@),
            goes_on(verdict.next, old(self)@, action),
    {
        match action {
            ReplAction::Return => {
                let mut commands: Vec<Command> = Vec::new();
                commands.push(Command::MoveToNextLine(1));
                assert(script(commands@) =~= settle_script(action, prompt@));
                let line = self.line_buffer.text();
                self.line_buffer.reset();
                Verdict { commands, next: Next::Submit(line) }
            },
            ReplAction::Clear => {
                self.line_buffer.reset();
                let mut commands = clear_terminal();
                let mut drawn = print_prompt(prompt);
                let ghost first = commands@;
                let ghost second = drawn@;
                commands.append(&mut drawn);
                assert(script(first + second) =~= script(first) + script(second));
                Verdict { commands, next: Next::Continue }
            },
            ReplAction::Exit => Verdict { commands: clear_terminal(), next: Next::Exit },
            ReplAction::Ignore => {
                let commands: Vec<Command> = Vec::new();
                assert(script(commands@) =~= settle_script(action, prompt@));
                Verdict { commands, next: Next::Continue }
            },
        }
    }

    /// Does what an action asks of the read loop. Where the loop starts
    /// again, the prompt of `context` is drawn.
    pub fn resolve(&mut self, action: ReplAction, context: &ShellContext) -> (verdict: Verdict)
        requires
            old(self).wf(),
        ensures
            final(self).wf(),
            final(self)@ == settled_state(old(self)@, action),
            goes_on(verdict.next, old(self)@, action),
            exists|prompt: Seq<char>| #[trigger]
                is_prompt_of(*context, prompt) && script(verdict.commands@) == settle_script(
                    action,
                    prompt,
                ),
            action != ReplAction::Clear ==> script(verdict.commands@) == settle_script(
                action,
                Seq::empty(),
            ),
    {
        match action {
            ReplAction::Clear => {
                let prompt = generate_prompt(context);
                self.settle(action, prompt)
            },
            _ => {
                let verdict = self.settle(action, String::new());
                proof {
                    let blank = Seq::<char>::empty();
                    let prompt = prompt_layout(blank, blank, context.multi_line_prompt, blank);
                    assert(is_prompt_of(*context, prompt));
                    assert(settle_script(action, prompt) == settle_script(action, blank));
                }
                verdict
            },
        }
    }
}

/// Whatever key comes, and whatever the read loop is then told to do, the
/// cursor stays inside the line.
pub proof fn law_keys_keep_cursor_in_line(state: LineState, intent: Intent, action: ReplAction)
    requires
        state.valid(),
    ensures
        next_state(state, intent).valid(),
        settled_state(state, action).valid(),
{
}

/// A key that does not touch the screen is answered alike on every screen.
pub proof fn law_untouched_screen_is_not_read(
    state: LineState,
    intent: Intent,
    one: Screen,
    other: Screen,
)
    requires
        !touches_screen(state, intent),
    ensures
        update_script(state, intent, one) == update_script(state, intent, other),
        next_state(state, intent) == state,
{
}

/// After every key the screen cursor has moved as many cells as the line
/// cursor has moved characters, and in the same direction. So a screen
/// cursor that stands where the line cursor is shown still does so after
/// the key. The one place from which the screen cursor cannot go back is
/// the top left corner.
pub proof fn law_screen_follows_cursor(
    state: LineState,
    intent: Intent,
    screen: Screen,
    grid: Grid,
)
    requires
        state.valid(),
        shows(grid, screen),
        grid.cell() > 0 || next_state(state, intent).cursor >= state.cursor,
    ensures
        ({
            let after = grid.run(update_script(state, intent, screen));
            &&& after.valid()
            &&& after.width == grid.width
            &&& after.cell() == grid.cell() + next_state(state, intent).cursor - state.cursor
        }),
{
    lemma_run_empty(grid);
    if touches_screen(state, intent) {
        match intent {
            Intent::Insert(ch) => {
                let after = state.insert(ch);
                let shown = after.content.skip(after.cursor - 1);
                let drawn = section_script(shown, false);
                lemma_run_concat(grid, drawn, advance_right_script(screen));
                lemma_section_run(grid, shown, false);
                law_advance_right(grid.run(drawn), screen);
                assert(grid.run(drawn).cell() == grid.cell());
            },
            Intent::Backspace => {
                let after = state.delete_before_cursor();
                let drawn = section_script(after.tail(), true);
                let moved = grid.run(advance_left_script(screen));
                lemma_run_concat(grid, advance_left_script(screen), drawn);
                law_advance_left(grid, screen);
                lemma_section_run(moved, after.tail(), true);
                assert(moved.run(drawn).cell() == moved.cell());
            },
            Intent::Left => {
                law_advance_left(grid, screen);
            },
            Intent::Right => {
                law_advance_right(grid, screen);
            },
            _ => {},
        }
    }
}

} // verus!
