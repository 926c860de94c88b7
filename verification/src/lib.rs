//! A line-editing input buffer: it consumes a stream of abstract key events
//! and maintains a single line of text together with a cursor position,
//! following the usual terminal line-editing conventions (insert, delete,
//! backspace, cursor movement, submit on enter). Reading raw input and
//! rendering are left to the caller; this crate is only the state machine
//! from key event to (text, cursor, submitted).

pub mod keycodes;

use vstd::prelude::*;
use vstd::string::StrSliceExecFns;
use vstd::string::StringExecFns;

use crate::keycodes::KeyCode;

verus! {

/// Relies on String::push: appends the given char to the end of this String.
pub assume_specification[ String::push ](s: &mut String, ch: char)
    ensures
        final(s)@ == old(s)@.push(ch),
;

/// The line's text after one key event, given the text and the cursor before
/// it. A character key inserts at the cursor; backspace removes the unit just
/// before the cursor (a no-op at the start); delete removes the unit at the
/// cursor (a no-op at the end); every other key leaves the text unchanged.
pub open spec fn text_after(text: Seq<char>, cursor: int, key: KeyCode) -> Seq<char>
    recommends
        0 <= cursor <= text.len(),
{
    match key {
        KeyCode::Char(c) => text.insert(cursor, c),
        KeyCode::Backspace => if cursor != 0 {
            text.remove(cursor - 1)
        } else {
            text
        },
        KeyCode::Delete => if cursor != text.len() {
            text.remove(cursor)
        } else {
            text
        },
        _ => text,
    }
}

/// The cursor after one key event, given the text and the cursor before it.
/// A character key moves it one past the inserted unit; backspace and left
/// move it one left (a no-op at the start); right moves it one right unless
/// that would put it past the end of the text; every other key leaves it
/// where it was.
pub open spec fn cursor_after(text: Seq<char>, cursor: int, key: KeyCode) -> int
    recommends
        0 <= cursor <= text.len(),
{
    match key {
        KeyCode::Char(_) => cursor + 1,
        KeyCode::Backspace => if cursor != 0 {
            cursor - 1
        } else {
            0
        },
        KeyCode::Left => if cursor != 0 {
            cursor - 1
        } else {
            0
        },
        KeyCode::Right => if cursor < text.len() {
            cursor + 1
        } else {
            cursor
        },
        _ => cursor,
    }
}

/// The submission flag after one key event: enter raises it, and nothing
/// ever lowers it again.
pub open spec fn done_after(done: bool, key: KeyCode) -> bool {
    done || key is Enter
}

/// Invariant: one key event keeps the cursor inside the text. Together with
/// the constructors' contracts, which place the starting cursor inside the
/// starting text, this gives `0 <= cursor <= text.len()` in every reachable
/// state of a reader.
pub proof fn lemma_key_keeps_cursor_in_bounds(text: Seq<char>, cursor: int, key: KeyCode)
    requires
        0 <= cursor <= text.len(),
    ensures
        0 <= cursor_after(text, cursor, key) <= text_after(text, cursor, key).len(),
{
}

/// Idempotence of `Left` at the start of the line: once the cursor is at
/// offset 0, a `Left` key changes nothing, however often it is repeated.
pub proof fn lemma_left_at_start_is_noop(text: Seq<char>, done: bool)
    ensures
        text_after(text, 0, KeyCode::Left) == text,
        cursor_after(text, 0, KeyCode::Left) == 0,
        done_after(done, KeyCode::Left) == done,
{
}

/// Idempotence of `Right` at the end of the line: once the cursor is at
/// offset `text.len()`, a `Right` key changes nothing, however often it is
/// repeated.
pub proof fn lemma_right_at_end_is_noop(text: Seq<char>, done: bool)
    ensures
        text_after(text, text.len() as int, KeyCode::Right) == text,
        cursor_after(text, text.len() as int, KeyCode::Right) == text.len(),
        done_after(done, KeyCode::Right) == done,
{
}

/// Monotonicity of submission: once the flag is raised, no key event can
/// lower it again.
pub proof fn lemma_done_is_monotonic(done: bool, key: KeyCode)
    ensures
        done ==> done_after(done, key),
{
}

/// Enter submits without freezing the line: after any state takes an `Enter`,
/// the reader is submitted, its text and cursor are unchanged, and a later
/// character key still edits the text under the normal rules while the
/// reader stays submitted.
pub proof fn lemma_enter_submits_without_freezing(
    text: Seq<char>,
    cursor: int,
    done: bool,
    c: char,
)
    ensures
        done_after(done, KeyCode::Enter),
        text_after(text, cursor, KeyCode::Enter) == text,
        cursor_after(text, cursor, KeyCode::Enter) == cursor,
        text_after(
            text_after(text, cursor, KeyCode::Enter),
            cursor_after(text, cursor, KeyCode::Enter),
            KeyCode::Char(c),
        ) == text.insert(cursor, c),
        done_after(done_after(done, KeyCode::Enter), KeyCode::Char(c)),
{
}

/// A line-editing input buffer. It owns the current line of text and a
/// cursor offset into it, takes one key event at a time through `next_key`,
/// and exposes the resulting text and the submission status.
#[derive(Debug)]
pub struct PromptReader {
    line: String,
    pos: usize,
    complete: bool,
}

impl PromptReader {
    #[verifier::type_invariant]
    spec fn wf(self) -> bool {
        self.pos <= self.line@.len()
    }

    /// The current text of the line.
    pub closed spec fn text(&self) -> Seq<char> {
        self.line@
    }

    /// The cursor's offset into the text, between two units or at either end.
    pub closed spec fn cursor(&self) -> int {
        self.pos as int
    }

    /// Whether an enter key has been processed.
    pub closed spec fn submitted(&self) -> bool {
        self.complete
    }

    /// Creates a reader with an empty line and the cursor at the start.
    pub fn new() -> (r: Self)
        ensures
            r.text() == Seq::<char>::empty(),
            r.cursor() == 0,
            !r.submitted(),
    {
        PromptReader { line: String::new(), pos: 0, complete: false }
    }

    /// Creates a reader whose line starts as the placeholder `ph`, with the
    /// cursor at `cursor_pos` if one is given and at the end of the line if
    /// not. A given position past the end of the placeholder is clamped to
    /// the end, so that the cursor always starts inside the line.
    pub fn new_with_placeholder(ph: &str, cursor_pos: Option<usize>) -> (r: Self)
        ensures
            r.text() == ph@,
            r.cursor() == (match cursor_pos {
                Some(p) => if p <= ph@.len() {
                    p as int
                } else {
                    ph@.len() as int
                },
                None => ph@.len() as int,
            }),
            !r.submitted(),
    {
        let len = ph.unicode_len();
        let pos: usize = match cursor_pos {
            Some(p) => if p <= len {
                p
            } else {
                len
            },
            None => len,
        };
        PromptReader { line: ph.to_owned(), pos, complete: false }
    }

    /// Applies one key event to the line: the text becomes
    /// `text_after(text, cursor, key_code)`, the cursor
    /// `cursor_after(text, cursor, key_code)`, and the submission flag
    /// `done_after(submitted, key_code)`. Total over every key code: edge
    /// conditions (cursor at the start or the end of the line) are no-ops,
    /// never errors.
    pub fn next_key(&mut self, key_code: KeyCode)
        ensures
            final(self).text() == text_after(old(self).text(), old(self).cursor(), key_code),
            final(self).cursor() == cursor_after(old(self).text(), old(self).cursor(), key_code),
            final(self).submitted() == done_after(old(self).submitted(), key_code),
    {
        proof {
            use_type_invariant(&*self);
        }
        match key_code {
            KeyCode::Char(c) => {
                let len = self.line.as_str().unicode_len();
                let mut next = self.line.as_str().substring_char(0, self.pos).to_owned();
                next.push(c);
                next.append(self.line.as_str().substring_char(self.pos, len));
                self.line = next;
                // The grown line's length fits in usize, so the cursor,
                // which stays at most that length, can grow by one without
                // overflowing.
                let _grown: usize = self.line.as_str().unicode_len();
                self.pos = self.pos + 1;
            },
            KeyCode::Backspace => {
                if self.pos != 0 {
                    let len = self.line.as_str().unicode_len();
                    let mut next = self.line.as_str().substring_char(0, self.pos - 1).to_owned();
                    next.append(self.line.as_str().substring_char(self.pos, len));
                    self.pos = self.pos - 1;
                    self.line = next;
                }
            },
            KeyCode::Delete => {
                let len = self.line.as_str().unicode_len();
                if self.pos != len {
                    let mut next = self.line.as_str().substring_char(0, self.pos).to_owned();
                    next.append(self.line.as_str().substring_char(self.pos + 1, len));
                    self.line = next;
                }
            },
            KeyCode::Left => {
                if self.pos != 0 {
                    self.pos = self.pos - 1;
                }
            },
            KeyCode::Right => {
                let len = self.line.as_str().unicode_len();
                if self.pos < len {
                    self.pos = self.pos + 1;
                }
            },
            KeyCode::Enter => {
                self.complete = true;
            },
            _ => {},
        }
    }

    /// Returns true once enter has been passed to `next_key`.
    pub fn done(&self) -> (r: bool)
        ensures
            r == self.submitted(),
    {
        self.complete
    }

    /// Returns the current content of the line.
    pub fn result(&self) -> (r: &str)
        ensures
            r@ == self.text(),
    {
        self.line.as_str()
    }
}

} // verus!
