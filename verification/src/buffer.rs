//! The line under edit: its characters and the cursor among them.

use vstd::prelude::*;

verus! {

/// A line and a cursor, as mathematics sees them.
///
/// `cursor` counts characters, not bytes: it is the number of characters
/// that stand before the cursor.
pub struct LineState {
    pub content: Seq<char>,
    pub cursor: int,
}

impl LineState {
    /// The cursor stands inside the line or just behind its last character.
    pub open spec fn valid(self) -> bool {
        0 <= self.cursor <= self.content.len()
    }

    /// The line with which every read cycle starts.
    pub open spec fn empty() -> LineState {
        LineState { content: Seq::empty(), cursor: 0 }
    }

    /// `ch` is put in just before the cursor, and the cursor steps over it.
    pub open spec fn insert(self, ch: char) -> LineState {
        LineState { content: self.content.insert(self.cursor, ch), cursor: self.cursor + 1 }
    }

    /// The character just before the cursor leaves; at the start of the line
    /// nothing happens.
    pub open spec fn delete_before_cursor(self) -> LineState {
        if self.cursor > 0 {
            LineState { content: self.content.remove(self.cursor - 1), cursor: self.cursor - 1 }
        } else {
            self
        }
    }

    /// One character to the left, unless the cursor is at the start.
    pub open spec fn move_left(self) -> LineState {
        if self.cursor > 0 {
            LineState { content: self.content, cursor: self.cursor - 1 }
        } else {
            self
        }
    }

    /// One character to the right, unless the cursor is at the end.
    pub open spec fn move_right(self) -> LineState {
        if self.cursor < self.content.len() {
            LineState { content: self.content, cursor: self.cursor + 1 }
        } else {
            self
        }
    }

    /// The characters from the cursor to the end of the line.
    pub open spec fn tail(self) -> Seq<char> {
        self.content.subrange(self.cursor, self.content.len() as int)
    }
}

/// One change of a line.
pub enum Edit {
    Insert(char),
    DeleteBeforeCursor,
    MoveLeft,
    MoveRight,
    Reset,
}

impl LineState {
    /// The line after one change.
    pub open spec fn apply(self, edit: Edit) -> LineState {
        match edit {
            Edit::Insert(ch) => self.insert(ch),
            Edit::DeleteBeforeCursor => self.delete_before_cursor(),
            Edit::MoveLeft => self.move_left(),
            Edit::MoveRight => self.move_right(),
            Edit::Reset => LineState::empty(),
        }
    }

    /// The line after a list of changes, made in their order.
    pub open spec fn apply_all(self, edits: Seq<Edit>) -> LineState
        decreases edits.len(),
    {
        if edits.len() == 0 {
            self
        } else {
            self.apply_all(edits.drop_last()).apply(edits.last())
        }
    }

    /// The line after the characters of `text` were typed one by one.
    pub open spec fn typed(self, text: Seq<char>) -> LineState
        decreases text.len(),
    {
        if text.len() == 0 {
            self
        } else {
            self.typed(text.drop_last()).insert(text.last())
        }
    }
}

/// Whatever is done to a line, and however often, the cursor stays inside
/// the line: it stands behind at most as many characters as the line has,
/// and never before the first. This holds after every single change on the
/// way as well.
pub proof fn law_cursor_stays_in_line(state: LineState, edits: Seq<Edit>)
    requires
        state.valid(),
    ensures
        state.apply_all(edits).valid(),
        forall|n: int| 0 <= n <= edits.len() ==> (#[trigger] state.apply_all(edits.take(n))).valid(),
    decreases edits.len(),
{
    if edits.len() > 0 {
        law_cursor_stays_in_line(state, edits.drop_last());
        assert forall|n: int| 0 <= n <= edits.len() implies (#[trigger] state.apply_all(
            edits.take(n),
        )).valid() by {
            if n < edits.len() {
                assert(edits.take(n) =~= edits.drop_last().take(n));
            } else {
                assert(edits.take(n) =~= edits);
            }
        }
    } else {
        assert forall|n: int| 0 <= n <= edits.len() implies (#[trigger] state.apply_all(
            edits.take(n),
        )).valid() by {
            assert(edits.take(n) =~= edits);
        }
    }
}

/// Typing a text into an empty line gives that text, with the cursor
/// behind its last character.
pub proof fn law_typing_builds_line(text: Seq<char>)
    ensures
        LineState::empty().typed(text) == (LineState { content: text, cursor: text.len() as int }),
    decreases text.len(),
{
    if text.len() > 0 {
        law_typing_builds_line(text.drop_last());
        assert(text.drop_last().insert(text.len() - 1, text.last()) =~= text);
    } else {
        assert(text =~= Seq::<char>::empty());
    }
}

/// Typing a character and taking it back leaves the line as it was.
pub proof fn law_backspace_undoes_insert(state: LineState, ch: char)
    requires
        state.valid(),
    ensures
        state.insert(ch).delete_before_cursor() == state,
{
    assert(state.content.insert(state.cursor, ch).remove(state.cursor) =~= state.content);
}

/// The line under edit.
#[derive(Clone, Debug)]
pub struct LineBuffer {
    content: Vec<char>,
    cursor: usize,
}

impl View for LineBuffer {
    type V = LineState;

    closed spec fn view(&self) -> LineState {
        LineState { content: self.content@, cursor: self.cursor as int }
    }
}

impl LineBuffer {
    /// The cursor stands inside the line. Every function of this type
    /// hands back a buffer of which this holds.
    pub open spec fn wf(&self) -> bool {
        self@.valid()
    }

    /// An empty line with the cursor at its start.
    pub fn new() -> (buffer: LineBuffer)
        ensures
            buffer.wf(),
            buffer@ == LineState::empty(),
    {
        LineBuffer { content: Vec::new(), cursor: 0 }
    }

    /// The number of characters before the cursor.
    pub fn cursor(&self) -> (offset: usize)
        ensures
            offset == self@.cursor,
    {
        self.cursor
    }

    /// The number of characters in the line.
    pub fn len(&self) -> (count: usize)
        ensures
            count == self@.content.len(),
    {
        self.content.len()
    }

    /// Whether the line holds no character.
    pub fn is_empty(&self) -> (empty: bool)
        ensures
            empty == (self@.content.len() == 0),
    {
        self.content.len() == 0
    }

    /// Puts `ch` in just before the cursor and moves the cursor behind it.
    pub fn insert(&mut self, ch: char)
        requires
            old(self).wf(),
        ensures
            final(self).wf(),
            final(self)@ == old(self)@.insert(ch),
    {
        self.content.insert(self.cursor, ch);
        assert(self.cursor < self.content.len());
        self.cursor = self.cursor + 1;
    }

    /// Removes the character just before the cursor and moves the cursor
    /// into its place. With the cursor at the start of the line there is no
    /// such character, and the buffer stays as it is.
    pub fn delete_before_cursor(&mut self)
        requires
            old(self).wf(),
        ensures
            final(self).wf(),
            final(self)@ == old(self)@.delete_before_cursor(),
            old(self)@.cursor == 0 ==> final(self)@ == old(self)@,
    {
        if self.cursor > 0 {
            self.cursor = self.cursor - 1;
            self.content.remove(self.cursor);
        }
    }

    /// Moves the cursor one character to the left. At the start of the line
    /// the cursor stays.
    pub fn move_left(&mut self)
        requires
            old(self).wf(),
        ensures
            final(self).wf(),
            final(self)@ == old(self)@.move_left(),
            old(self)@.cursor == 0 ==> final(self)@ == old(self)@,
    {
        if self.cursor > 0 {
            self.cursor = self.cursor - 1;
        }
    }

    /// Moves the cursor one character to the right. At the end of the line
    /// the cursor stays.
    pub fn move_right(&mut self)
        requires
            old(self).wf(),
        ensures
            final(self).wf(),
            final(self)@ == old(self)@.move_right(),
            old(self)@.cursor == old(self)@.content.len() ==> final(self)@ == old(self)@,
    {
        if self.cursor < self.content.len() {
            self.cursor = self.cursor + 1;
        }
    }

    /// Empties the line and puts the cursor at its start.
    pub fn reset(&mut self)
        ensures
            final(self).wf(),
            final(self)@ == LineState::empty(),
    {
        self.content.clear();
        self.cursor = 0;
    }

    /// The whole line as a string.
    pub fn text(&self) -> (line: String)
        ensures
            line@ == self@.content,
    {
        string_from(&self.content, 0)
    }

    /// The characters from the cursor to the end of the line, as a string.
    pub fn tail(&self) -> (rest: String)
        requires
            self.wf(),
        ensures
            rest@ == self@.tail(),
    {
        string_from(&self.content, self.cursor)
    }

    /// The characters from offset `start` to the end of the line, as a
    /// string. An offset behind the end of the line gives the empty string.
    pub fn text_from(&self, start: usize) -> (rest: String)
        ensures
            start <= self@.content.len() ==> rest@ == self@.content.skip(start as int),
            start > self@.content.len() ==> rest@ == Seq::<char>::empty(),
    {
        if start <= self.content.len() {
            string_from(&self.content, start)
        } else {
            String::new()
        }
    }
}

/// The characters of `chars` from index `start` on, as a string.
fn string_from(chars: &Vec<char>, start: usize) -> (text: String)
    requires
        start <= chars.len(),
    ensures
        text@ == chars@.subrange(start as int, chars.len() as int),
{
    let mut text = String::new();
    let mut i: usize = start;
    while i < chars.len()
        invariant
            start <= i <= chars.len(),
            text@ == chars@.subrange(start as int, i as int),
        decreases chars.len() - i,
    {
        push_char(&mut text, chars[i]);
        i = i + 1;
    }
    text
}

/// `String::push` of the standard library: the string grows by `ch` at its
/// end, and nothing else of it changes.
#[verifier::external_body]
pub(crate) fn push_char(text: &mut String, ch: char)
    ensures
        final(text)@ == old(text)@.push(ch),
{
    text.push(ch);
}

} // verus!
