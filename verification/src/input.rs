//! A single-line text field edited at a cursor.
//!
//! Positions count characters, never bytes: the text is kept as a sequence of
//! code points, so a multi-byte character is one step of the cursor and can
//! never be split.

use vstd::prelude::*;

verus! {

/// What a [`TokenInput`] holds, as mathematics.
pub struct TokenInputView {
    /// The characters of the line, in order.
    pub text: Seq<char>,
    /// The cursor, as the number of characters to its left.
    pub cursor: nat,
    /// The longest text that typing can produce.
    pub max_length: nat,
}

impl TokenInputView {
    /// The cursor lies on the text or directly behind it.
    pub open spec fn wf(self) -> bool {
        self.cursor <= self.text.len()
    }

    /// An empty field that accepts up to `max_length` characters.
    pub open spec fn empty(max_length: nat) -> TokenInputView {
        TokenInputView { text: Seq::empty(), cursor: 0, max_length }
    }

    /// Typing `c`: below the limit the character goes in at the cursor, which
    /// then steps over it; at the limit nothing changes.
    pub open spec fn insert(self, c: char) -> TokenInputView {
        if self.text.len() < self.max_length {
            TokenInputView {
                text: self.text.insert(self.cursor as int, c),
                cursor: self.cursor + 1,
                ..self
            }
        } else {
            self
        }
    }

    /// Typing the characters of `typed` one after the other.
    pub open spec fn insert_all(self, typed: Seq<char>) -> TokenInputView
        decreases typed.len(),
    {
        if typed.len() == 0 {
            self
        } else {
            self.insert_all(typed.drop_last()).insert(typed.last())
        }
    }

    /// Backspace: the character left of the cursor goes, and the cursor
    /// follows it; at the start of the line nothing changes.
    pub open spec fn delete_before_cursor(self) -> TokenInputView {
        if self.cursor > 0 {
            TokenInputView {
                text: self.text.remove(self.cursor - 1),
                cursor: (self.cursor - 1) as nat,
                ..self
            }
        } else {
            self
        }
    }

    /// One step to the left, stopping at the start of the line.
    pub open spec fn move_left(self) -> TokenInputView {
        if self.cursor > 0 {
            TokenInputView { cursor: (self.cursor - 1) as nat, ..self }
        } else {
            self
        }
    }

    /// One step to the right, stopping behind the last character.
    pub open spec fn move_right(self) -> TokenInputView {
        if self.cursor < self.text.len() {
            TokenInputView { cursor: self.cursor + 1, ..self }
        } else {
            self
        }
    }

    /// A walk of the cursor: `true` is a step to the right, `false` one to
    /// the left.
    pub open spec fn move_all(self, steps: Seq<bool>) -> TokenInputView
        decreases steps.len(),
    {
        if steps.len() == 0 {
            self
        } else if steps.last() {
            self.move_all(steps.drop_last()).move_right()
        } else {
            self.move_all(steps.drop_last()).move_left()
        }
    }

    /// The text is longer than typing could have made it.
    pub open spec fn is_at_limit(self) -> bool {
        self.text.len() > self.max_length
    }

    /// The field after its text was taken out.
    pub open spec fn cleared(self) -> TokenInputView {
        TokenInputView { text: Seq::empty(), cursor: 0, ..self }
    }
}

/// The editable line: its characters, the cursor and the typing limit.
pub struct TokenInput {
    chars: Vec<char>,
    cursor: usize,
    max_length: usize,
}

impl View for TokenInput {
    type V = TokenInputView;

    /// The cursor is read clamped to the text, so every value of the type
    /// stands for a well-formed field.
    closed spec fn view(&self) -> TokenInputView {
        TokenInputView {
            text: self.chars@,
            cursor: if self.cursor <= self.chars@.len() {
                self.cursor as nat
            } else {
                self.chars@.len()
            },
            max_length: self.max_length as nat,
        }
    }
}

/// Collects characters into a `String` with `String::from_iter`: the result
/// holds exactly the given characters, in the given order.
#[verifier::external_body]
fn string_from_chars(chars: &Vec<char>) -> (text: String)
    ensures
        text@ == chars@,
{
    String::from_iter(chars.iter())
}

impl TokenInput {
    /// Every field is well-formed, whatever was done to it.
    pub proof fn lemma_always_wf(&self)
        ensures
            self@.wf(),
    {
    }

    /// An empty field that accepts up to `max_length` characters.
    pub fn new(max_length: usize) -> (field: TokenInput)
        ensures
            field@ == TokenInputView::empty(max_length as nat),
    {
        TokenInput { chars: Vec::new(), cursor: 0, max_length }
    }

    /// `position`, or the end of the text where it lies behind it.
    fn clamp_cursor(&self, position: usize) -> (clamped: usize)
        ensures
            clamped == if position <= self.chars@.len() {
                position
            } else {
                self.chars@.len() as usize
            },
    {
        let count = self.chars.len();
        if position <= count {
            position
        } else {
            count
        }
    }

    /// Replaces the text by `text`, which is taken as it is, even where it
    /// is longer than the limit.  The cursor stays where it was, or moves up
    /// to the end of the new text where that is shorter.
    pub fn set_text(&mut self, text: &str)
        ensures
            final(self)@ == (TokenInputView {
                text: text@,
                cursor: if old(self)@.cursor <= text@.len() {
                    old(self)@.cursor
                } else {
                    text@.len()
                },
                ..old(self)@
            }),
    {
        let at = self.clamp_cursor(self.cursor);
        let mut chars: Vec<char> = Vec::new();
        for c in it: text.chars()
            invariant
                it.seq() == text@,
                chars@ == text@.take(it.index()),
        {
            chars.push(c);
        }
        assert(text@.take(text@.len() as int) =~= text@);
        self.chars = chars;
        self.cursor = at;
    }

    /// The number of characters left of the cursor.
    pub fn cursor_index(&self) -> (index: usize)
        ensures
            index == self@.cursor,
            index <= self@.text.len(),
    {
        self.clamp_cursor(self.cursor)
    }

    /// The number of characters in the field.
    pub fn char_count(&self) -> (count: usize)
        ensures
            count == self@.text.len(),
    {
        self.chars.len()
    }

    /// The longest text that typing can produce.
    pub fn max_length(&self) -> (limit: usize)
        ensures
            limit == self@.max_length,
    {
        self.max_length
    }

    /// The text of the field.
    pub fn text(&self) -> (text: String)
        ensures
            text@ == self@.text,
    {
        string_from_chars(&self.chars)
    }

    /// Whether the text is longer than the limit.  This only reports; typing
    /// is stopped by [`TokenInput::insert`] itself.
    pub fn is_at_limit(&self) -> (reached: bool)
        ensures
            reached == self@.is_at_limit(),
    {
        self.chars.len() > self.max_length
    }

    /// Types `c` at the cursor, unless the text has reached the limit.
    pub fn insert(&mut self, c: char)
        ensures
            final(self)@ == old(self)@.insert(c),
            old(self)@.text.len() >= old(self)@.max_length ==> final(self)@ == old(self)@,
            old(self)@.text.len() <= old(self)@.max_length
                ==> final(self)@.text.len() <= final(self)@.max_length,
    {
        if self.chars.len() < self.max_length {
            let at = self.clamp_cursor(self.cursor);
            self.chars.insert(at, c);
            self.cursor = at + 1;
        }
    }

    /// Removes the character left of the cursor, if there is one.
    pub fn delete_before_cursor(&mut self)
        ensures
            final(self)@ == old(self)@.delete_before_cursor(),
    {
        let at = self.clamp_cursor(self.cursor);
        if at > 0 {
            self.chars.remove(at - 1);
            self.cursor = at - 1;
        }
    }

    /// Moves the cursor one character to the left, stopping at the start.
    pub fn move_left(&mut self)
        ensures
            final(self)@ == old(self)@.move_left(),
            final(self)@.cursor <= final(self)@.text.len(),
    {
        let at = self.clamp_cursor(self.cursor);
        if at > 0 {
            self.cursor = at - 1;
        }
    }

    /// Moves the cursor one character to the right, stopping behind the text.
    pub fn move_right(&mut self)
        ensures
            final(self)@ == old(self)@.move_right(),
            final(self)@.cursor <= final(self)@.text.len(),
    {
        let at = self.clamp_cursor(self.cursor);
        if at < self.chars.len() {
            self.cursor = at + 1;
        }
    }

    /// Puts the cursor at the start of the line.
    pub fn reset_cursor(&mut self)
        ensures
            final(self)@ == (TokenInputView { cursor: 0, ..old(self)@ }),
    {
        self.cursor = 0;
    }

    /// Empties the field and puts the cursor at the start.
    pub fn clear(&mut self)
        ensures
            final(self)@ == old(self)@.cleared(),
    {
        self.chars.clear();
        self.cursor = 0;
    }

    /// Hands out the text and leaves the field empty, cursor at the start.
    pub fn take(&mut self) -> (text: String)
        ensures
            text@ == old(self)@.text,
            final(self)@ == old(self)@.cleared(),
    {
        let text = string_from_chars(&self.chars);
        self.chars.clear();
        self.cursor = 0;
        text
    }
}

/// However the cursor is walked left and right, it stays on the text or
/// directly behind it, and the text is not touched.
pub proof fn lemma_moves_keep_cursor_in_text(field: TokenInputView, steps: Seq<bool>)
    requires
        field.wf(),
    ensures
        field.move_all(steps).wf(),
        0 <= field.move_all(steps).cursor <= field.text.len(),
        field.move_all(steps).text == field.text,
        field.move_all(steps).max_length == field.max_length,
    decreases steps.len(),
{
    if steps.len() > 0 {
        lemma_moves_keep_cursor_in_text(field, steps.drop_last());
    }
}

/// Typing never makes a text longer than the limit: whatever is typed, a
/// text within the limit stays within it, and a longer one does not grow.
pub proof fn lemma_typing_respects_limit(field: TokenInputView, typed: Seq<char>)
    requires
        field.wf(),
    ensures
        field.insert_all(typed).wf(),
        field.insert_all(typed).max_length == field.max_length,
        field.text.len() <= field.max_length ==> field.insert_all(typed).text.len()
            <= field.max_length,
        field.text.len() > field.max_length ==> field.insert_all(typed) == field,
        field.text.len() <= field.max_length + 1 ==> field.insert_all(typed).text.len()
            <= field.max_length + 1,
    decreases typed.len(),
{
    if typed.len() > 0 {
        lemma_typing_respects_limit(field, typed.drop_last());
    }
}

/// At the limit a typed character is dropped: the field stays as it was.
pub proof fn lemma_typing_at_limit_is_ignored(field: TokenInputView, c: char)
    requires
        field.text.len() >= field.max_length,
    ensures
        field.insert(c) == field,
{
}

} // verus!
