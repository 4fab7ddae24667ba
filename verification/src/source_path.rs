//! The two text-field panels: the source path (directory or GitHub URL) and
//! the output file path.  Both hold a line of text and a cursor, and share
//! the same editing semantics, stated over character positions.

use crate::keys::InputKey;
use crate::strutil::{push_char, substring_copy};
use vstd::prelude::*;

verus! {

/// `value` with `c` inserted at `cursor`.
pub open spec fn spec_insert_char(value: Seq<char>, cursor: int, c: char) -> Seq<char> {
    value.subrange(0, cursor) + seq![c] + value.subrange(cursor, value.len() as int)
}

/// `value` with `text` inserted at `cursor`.
pub open spec fn spec_insert_text(value: Seq<char>, cursor: int, text: Seq<char>) -> Seq<char> {
    value.subrange(0, cursor) + text + value.subrange(cursor, value.len() as int)
}

/// `value` with the character before `cursor` removed.
pub open spec fn spec_remove_before(value: Seq<char>, cursor: int) -> Seq<char> {
    value.subrange(0, cursor - 1) + value.subrange(cursor, value.len() as int)
}

/// Insert one character at the cursor.
pub fn text_insert_char(value: &String, cursor: usize, c: char) -> (r: String)
    requires
        cursor <= value@.len(),
    ensures
        r@ == spec_insert_char(value@, cursor as int, c),
{
    let n = value.unicode_len();
    let mut r = substring_copy(value.as_str(), 0, cursor);
    push_char(&mut r, c);
    let tail = substring_copy(value.as_str(), cursor, n);
    r.append(tail.as_str());
    proof {
        assert(r@ =~= spec_insert_char(value@, cursor as int, c));
    }
    r
}

/// Insert a string at the cursor.
pub fn text_insert_text(value: &String, cursor: usize, text: &str) -> (r: String)
    requires
        cursor <= value@.len(),
    ensures
        r@ == spec_insert_text(value@, cursor as int, text@),
{
    let n = value.unicode_len();
    let mut r = substring_copy(value.as_str(), 0, cursor);
    r.append(text);
    let tail = substring_copy(value.as_str(), cursor, n);
    r.append(tail.as_str());
    r
}

/// Remove the character before the cursor.
pub fn text_remove_before(value: &String, cursor: usize) -> (r: String)
    requires
        0 < cursor <= value@.len(),
    ensures
        r@ == spec_remove_before(value@, cursor as int),
{
    let n = value.unicode_len();
    let mut r = substring_copy(value.as_str(), 0, cursor - 1);
    let tail = substring_copy(value.as_str(), cursor, n);
    r.append(tail.as_str());
    r
}

/// The panel that edits the source target: a directory path or a GitHub
/// URL.
pub struct SourcePathPanel {
    pub value: String,
    pub cursor_pos: usize,
}

impl SourcePathPanel {
    /// The cursor always sits inside the text.
    pub open spec fn wf(&self) -> bool {
        self.cursor_pos <= self.value@.len()
    }

    pub fn new(value: String) -> (r: SourcePathPanel)
        ensures
            r.value@ == value@,
            r.cursor_pos == value@.len(),
            r.wf(),
    {
        let end = value.unicode_len();
        SourcePathPanel { value, cursor_pos: end }
    }

    /// Empty the field.
    pub fn clear(&mut self)
        ensures
            final(self).value@ == Seq::<char>::empty(),
            final(self).cursor_pos == 0,
            final(self).wf(),
    {
        self.value = String::new();
        self.cursor_pos = 0;
    }

    /// Put the cursor after the last character.
    pub fn set_cursor_to_end(&mut self)
        ensures
            final(self).value == old(self).value,
            final(self).cursor_pos == old(self).value@.len(),
            final(self).wf(),
    {
        self.cursor_pos = self.value.unicode_len();
    }

    /// Insert pasted text at the cursor.
    pub fn insert_text(&mut self, text: &str)
        requires
            old(self).wf(),
        ensures
            final(self).wf(),
            final(self).value@ == spec_insert_text(
                old(self).value@,
                old(self).cursor_pos as int,
                text@,
            ),
            final(self).cursor_pos == old(self).cursor_pos + text@.len(),
    {
        self.value = text_insert_text(&self.value, self.cursor_pos, text);
        let add = text.unicode_len();
        let total = self.value.unicode_len();
        proof {
            assert(self.cursor_pos + add <= total);
        }
        self.cursor_pos = self.cursor_pos + add;
    }

    /// One key press: a plain character is inserted, backspace deletes to
    /// the left, the arrows move the cursor, and any other key is ignored.
    pub fn handle_key(&mut self, key: InputKey)
        requires
            old(self).wf(),
        ensures
            final(self).wf(),
            crate::keys::text_key_post(
                old(self).value@,
                old(self).cursor_pos as int,
                final(self).value@,
                final(self).cursor_pos as int,
                key,
            ),
    {
        match key {
            InputKey::Char(c) => {
                self.value = text_insert_char(&self.value, self.cursor_pos, c);
                let total = self.value.unicode_len();
                proof {
                    assert(self.cursor_pos + 1 <= total);
                }
                self.cursor_pos = self.cursor_pos + 1;
            },
            InputKey::Backspace => {
                if self.cursor_pos > 0 {
                    self.value = text_remove_before(&self.value, self.cursor_pos);
                    self.cursor_pos = self.cursor_pos - 1;
                }
            },
            InputKey::Left => {
                if self.cursor_pos > 0 {
                    self.cursor_pos = self.cursor_pos - 1;
                }
            },
            InputKey::Right => {
                if self.cursor_pos < self.value.unicode_len() {
                    self.cursor_pos = self.cursor_pos + 1;
                }
            },
            _ => {},
        }
    }
}

/// The panel that edits the output file path; it shares the text-field
/// semantics of the source path panel.
pub struct OutputFilePanel {
    pub value: String,
    pub cursor_pos: usize,
}

impl OutputFilePanel {
    pub open spec fn wf(&self) -> bool {
        self.cursor_pos <= self.value@.len()
    }

    pub fn new(value: String) -> (r: OutputFilePanel)
        ensures
            r.value@ == value@,
            r.cursor_pos == value@.len(),
            r.wf(),
    {
        let end = value.unicode_len();
        OutputFilePanel { value, cursor_pos: end }
    }

    pub fn clear(&mut self)
        ensures
            final(self).value@ == Seq::<char>::empty(),
            final(self).cursor_pos == 0,
            final(self).wf(),
    {
        self.value = String::new();
        self.cursor_pos = 0;
    }

    pub fn set_cursor_to_end(&mut self)
        ensures
            final(self).value == old(self).value,
            final(self).cursor_pos == old(self).value@.len(),
            final(self).wf(),
    {
        self.cursor_pos = self.value.unicode_len();
    }

    /// Insert pasted text at the cursor.
    pub fn insert_text(&mut self, text: &str)
        requires
            old(self).wf(),
        ensures
            final(self).wf(),
            final(self).value@ == spec_insert_text(
                old(self).value@,
                old(self).cursor_pos as int,
                text@,
            ),
            final(self).cursor_pos == old(self).cursor_pos + text@.len(),
    {
        self.value = text_insert_text(&self.value, self.cursor_pos, text);
        let add = text.unicode_len();
        let total = self.value.unicode_len();
        proof {
            assert(self.cursor_pos + add <= total);
        }
        self.cursor_pos = self.cursor_pos + add;
    }

    /// One key press, with the same semantics as the source path field.
    pub fn handle_key(&mut self, key: InputKey)
        requires
            old(self).wf(),
        ensures
            final(self).wf(),
            crate::keys::text_key_post(
                old(self).value@,
                old(self).cursor_pos as int,
                final(self).value@,
                final(self).cursor_pos as int,
                key,
            ),
    {
        match key {
            InputKey::Char(c) => {
                self.value = text_insert_char(&self.value, self.cursor_pos, c);
                let total = self.value.unicode_len();
                proof {
                    assert(self.cursor_pos + 1 <= total);
                }
                self.cursor_pos = self.cursor_pos + 1;
            },
            InputKey::Backspace => {
                if self.cursor_pos > 0 {
                    self.value = text_remove_before(&self.value, self.cursor_pos);
                    self.cursor_pos = self.cursor_pos - 1;
                }
            },
            InputKey::Left => {
                if self.cursor_pos > 0 {
                    self.cursor_pos = self.cursor_pos - 1;
                }
            },
            InputKey::Right => {
                if self.cursor_pos < self.value.unicode_len() {
                    self.cursor_pos = self.cursor_pos + 1;
                }
            },
            _ => {},
        }
    }
}

} // verus!
