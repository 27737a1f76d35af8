//! The prompt that stands before the line.

use std::fmt::Write;
use vstd::prelude::*;
use vstd::string::StringExecFns;

verus! {

/// What the prompt shows of the shell.
#[derive(Clone, Debug)]
pub struct ShellContext {
    /// The name of the user.
    pub user: String,
    /// The working directory in the form in which it is to be shown. A
    /// shell that folds the home directory away and cuts the names on the
    /// way short hands over the result; the prompt shows what it is given.
    pub cwd: String,
    /// Whether the tick stands on a row of its own.
    pub multi_line_prompt: bool,
    /// Whether the last command went well.
    pub success: bool,
}

/// What stands between the working directory and the tick: a line break in
/// a prompt of two rows, a blank in a prompt of one.
pub open spec fn delimiter(multi_line_prompt: bool) -> Seq<char> {
    if multi_line_prompt {
        seq!['\r', '\n']
    } else {
        seq![' ']
    }
}

/// The prompt, put together from its parts as they are to be shown: a line
/// break, the user, ` on `, the working directory, the delimiter, the tick
/// and a blank.
pub open spec fn prompt_layout(
    user: Seq<char>,
    cwd: Seq<char>,
    multi_line_prompt: bool,
    tick: Seq<char>,
) -> Seq<char> {
    seq!['\r', '\n'] + user + seq![' ', 'o', 'n', ' '] + cwd + delimiter(multi_line_prompt) + tick
        + seq![' ']
}

/// Puts the prompt together from its parts as they are to be shown.
pub fn assemble_prompt(user: &str, cwd: &str, multi_line_prompt: bool, tick: &str) -> (prompt:
    String)
    ensures
        prompt@ == prompt_layout(user@, cwd@, multi_line_prompt, tick@),
{
    proof {
        reveal_strlit("\r\n");
        reveal_strlit(" on ");
        reveal_strlit(" ");
    }
    let mut prompt = String::from_str("\r\n");
    prompt.append(user);
    prompt.append(" on ");
    prompt.append(cwd);
    if multi_line_prompt {
        prompt.append("\r\n");
    } else {
        prompt.append(" ");
    }
    prompt.append(tick);
    prompt.append(" ");
    assert(prompt@ =~= prompt_layout(user@, cwd@, multi_line_prompt, tick@));
    prompt
}

/// The control sequence that sets a way of writing: escape, an opening
/// bracket, the code and the letter `m`.
pub open spec fn escape(code: Seq<char>) -> Seq<char> {
    seq!['\u{1b}', '['] + code + seq!['m']
}

/// What turns the writing dark blue.
pub open spec fn dark_blue_mark() -> Seq<char> {
    escape(seq!['3', '8', ';', '5', ';', '4'])
}

/// What turns the writing dark green.
pub open spec fn dark_green_mark() -> Seq<char> {
    escape(seq!['3', '8', ';', '5', ';', '2'])
}

/// What turns the writing green and then bold.
pub open spec fn bold_green_mark() -> Seq<char> {
    escape(seq!['3', '8', ';', '5', ';', '1', '0']) + escape(seq!['1'])
}

/// What turns the writing red and then bold.
pub open spec fn bold_red_mark() -> Seq<char> {
    escape(seq!['3', '8', ';', '5', ';', '9']) + escape(seq!['1'])
}

/// What gives the writing its usual colour back.
pub open spec fn colour_reset() -> Seq<char> {
    escape(seq!['3', '9'])
}

/// What takes every colour and every emphasis off the writing.
pub open spec fn all_reset() -> Seq<char> {
    escape(seq!['0'])
}

/// The mark before the tick: bold green after a command that went well,
/// bold red after one that did not.
pub open spec fn tick_mark(success: bool) -> Seq<char> {
    if success {
        bold_green_mark()
    } else {
        bold_red_mark()
    }
}

/// The tick itself.
pub open spec fn tick() -> Seq<char> {
    seq!['\u{276f}']
}

/// `styled` is `text` as a terminal is made to show it in a colour: the
/// mark of the colour, the text as it is, and the mark that ends the
/// colour. A console that takes no such marks gets no text this way at
/// all, and `styled` is then empty.
pub open spec fn shown_as(
    styled: Seq<char>,
    mark: Seq<char>,
    text: Seq<char>,
    reset: Seq<char>,
) -> bool {
    styled == Seq::<char>::empty() || styled == mark + text + reset
}

/// Whether `prompt` is the prompt of `context`: laid out as a prompt is,
/// with the user of the context in dark blue, its working directory in
/// dark green, and the tick in the colour that its last command asks for.
pub open spec fn is_prompt_of(context: ShellContext, prompt: Seq<char>) -> bool {
    exists|user: Seq<char>, cwd: Seq<char>, mark: Seq<char>|
        prompt == #[trigger] prompt_layout(user, cwd, context.multi_line_prompt, mark)
            && shown_as(user, dark_blue_mark(), context.user@, colour_reset())
            && shown_as(cwd, dark_green_mark(), context.cwd@, colour_reset())
            && shown_as(mark, tick_mark(context.success), tick(), all_reset())
}

/// The prompt of the shell: the user in dark blue, the working directory
/// in dark green, and a bold tick that is green after a command that went
/// well and red after one that did not.
///
/// Whether a console takes colour marks is known only when the program
/// runs, so each coloured part is either marked in full or missing.
pub fn generate_prompt(context: &ShellContext) -> (prompt: String)
    ensures
        is_prompt_of(*context, prompt@),
{
    proof {
        reveal_strlit("\u{276f}");
    }
    let user = dark_blue(context.user.as_str());
    let cwd = dark_green(context.cwd.as_str());
    let mark = if context.success {
        bold_green("\u{276f}")
    } else {
        bold_red("\u{276f}")
    };
    assert("\u{276f}"@ =~= tick());
    let prompt = assemble_prompt(
        user.as_str(),
        cwd.as_str(),
        context.multi_line_prompt,
        mark.as_str(),
    );
    assert(prompt@ == prompt_layout(user@, cwd@, context.multi_line_prompt, mark@));
    prompt
}

/// `Stylize::dark_blue` of crossterm, written out through the `Display` of
/// what it returns. That writes the mark of the colour, the text, and the
/// mark that sets the colour back; on a console that takes no marks it
/// writes nothing.
#[verifier::external_body]
fn dark_blue(text: &str) -> (styled: String)
    ensures
        shown_as(styled@, dark_blue_mark(), text@, colour_reset()),
{
    let mut styled = String::new();
    let _ = write!(styled, "{}", crossterm::style::Stylize::dark_blue(text));
    styled
}

/// `Stylize::dark_green` of crossterm, written out through the `Display`
/// of what it returns. That writes the mark of the colour, the text, and
/// the mark that sets the colour back; on a console that takes no marks it
/// writes nothing.
#[verifier::external_body]
fn dark_green(text: &str) -> (styled: String)
    ensures
        shown_as(styled@, dark_green_mark(), text@, colour_reset()),
{
    let mut styled = String::new();
    let _ = write!(styled, "{}", crossterm::style::Stylize::dark_green(text));
    styled
}

/// `Stylize::green` and then `Stylize::bold` of crossterm, written out
/// through the `Display` of what they return. That writes the mark of the
/// colour, the mark of the emphasis, the text, and the mark that takes
/// both off; on a console that takes no marks it writes nothing.
#[verifier::external_body]
fn bold_green(text: &str) -> (styled: String)
    ensures
        shown_as(styled@, bold_green_mark(), text@, all_reset()),
{
    let mut styled = String::new();
    let green = crossterm::style::Stylize::green(text);
    let _ = write!(styled, "{}", crossterm::style::Stylize::bold(green));
    styled
}

/// `Stylize::red` and then `Stylize::bold` of crossterm, written out
/// through the `Display` of what they return. That writes the mark of the
/// colour, the mark of the emphasis, the text, and the mark that takes
/// both off; on a console that takes no marks it writes nothing.
#[verifier::external_body]
fn bold_red(text: &str) -> (styled: String)
    ensures
        shown_as(styled@, bold_red_mark(), text@, all_reset()),
{
    let mut styled = String::new();
    let red = crossterm::style::Stylize::red(text);
    let _ = write!(styled, "{}", crossterm::style::Stylize::bold(red));
    styled
}

} // verus!
