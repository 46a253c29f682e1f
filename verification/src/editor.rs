//! The prompt line editor behind the wizard's text prompts: a default
//! answer shown as ghost text that typing overwrites in place, with cursor
//! movement across wrapped terminal lines, and the layout arithmetic used
//! to redraw it.

use vstd::prelude::*;
use crate::text::{string_of, str_chars};

verus! {

/// A key as the editor sees it.
#[derive(Debug, Clone, Copy, PartialEq, Eq, Structural)]
pub enum EditKey {
    Enter,
    ArrowLeft,
    ArrowRight,
    ArrowUp,
    ArrowDown,
    Home,
    End,
    Backspace,
    Del,
    Char(char),
    Other,
}

/// Unicode control characters (general category Cc), which
/// `char::is_control` tests.
pub open spec fn is_control_spec(c: char) -> bool {
    let v = c as u32;
    v <= 0x1f || (0x7f <= v && v <= 0x9f)
}

/// Tests whether a character is a control character.
pub fn is_control(c: char) -> (b: bool)
    ensures
        b == is_control_spec(c),
{
    let v = c as u32;
    v <= 0x1f || (0x7f <= v && v <= 0x9f)
}

/// What the prompt does after a key.
#[derive(Debug, Clone, Copy, PartialEq, Eq, Structural)]
pub enum KeyOutcome {
    /// Enter: the buffer is the answer.
    Accept,
    /// The buffer or cursor may have changed: draw again.
    Redraw,
    /// The key is ignored.
    Ignore,
}

/// The effect of a key on buffer and cursor: the outcome, the new text and
/// the new cursor.
pub open spec fn key_effect(key: EditKey, text: Seq<char>, pos: int, header_w: int, width: int) -> (
    KeyOutcome,
    Seq<char>,
    int,
) {
    match key {
        EditKey::Enter => (KeyOutcome::Accept, text, pos),
        EditKey::ArrowLeft => (KeyOutcome::Redraw, text, if pos > 0 {
            pos - 1
        } else {
            0
        }),
        EditKey::ArrowRight => (KeyOutcome::Redraw, text, if pos < text.len() {
            pos + 1
        } else {
            pos
        }),
        EditKey::ArrowUp => (KeyOutcome::Redraw, text, if header_w + pos >= width + header_w {
            header_w + pos - width - header_w
        } else {
            0
        }),
        EditKey::ArrowDown => (KeyOutcome::Redraw, text, if pos + width <= text.len() {
            pos + width
        } else {
            text.len() as int
        }),
        EditKey::Home => (KeyOutcome::Redraw, text, 0),
        EditKey::End => (KeyOutcome::Redraw, text, text.len() as int),
        EditKey::Backspace => if pos > 0 {
            (KeyOutcome::Redraw, text.remove(pos - 1), pos - 1)
        } else {
            (KeyOutcome::Redraw, text, pos)
        },
        EditKey::Del => (KeyOutcome::Redraw, if pos < text.len() {
            text.remove(pos)
        } else {
            text
        }, pos),
        EditKey::Char(c) => if is_control_spec(c) {
            (KeyOutcome::Ignore, text, pos)
        } else if pos < text.len() {
            (KeyOutcome::Redraw, text.update(pos, c), pos + 1)
        } else {
            (KeyOutcome::Redraw, text.push(c), pos + 1)
        },
        EditKey::Other => (KeyOutcome::Ignore, text, pos),
    }
}

/// Typing a character takes it unless it is a Unicode control character
/// (the C0 controls U+0000 to U+001F, and U+007F to U+009F): a taken
/// character is written at the cursor, over what was there or at the end,
/// and the cursor moves past it; a control character changes nothing.
pub proof fn law_typed_char(text: Seq<char>, pos: int, c: char, header_w: int, width: int)
    requires
        0 <= pos <= text.len(),
    ensures
        ({
            let (outcome, t, p) = key_effect(EditKey::Char(c), text, pos, header_w, width);
            if c <= '\u{1f}' || ('\u{7f}' <= c && c <= '\u{9f}') {
                outcome == KeyOutcome::Ignore && t == text && p == pos
            } else {
                &&& outcome == KeyOutcome::Redraw
                &&& t.len() == (if pos < text.len() { text.len() } else { text.len() + 1 })
                &&& t[pos] == c
                &&& t.take(pos) == text.take(pos)
                &&& pos < text.len() ==> t.skip(pos + 1) == text.skip(pos + 1)
                &&& p == pos + 1
            }
        }),
{
    let (outcome, t, p) = key_effect(EditKey::Char(c), text, pos, header_w, width);
    if !(c <= '\u{1f}' || ('\u{7f}' <= c && c <= '\u{9f}')) {
        assert(t.take(pos) =~= text.take(pos));
        if pos < text.len() {
            assert(t.skip(pos + 1) =~= text.skip(pos + 1));
        }
    }
}

/// The edit buffer and cursor of a prompt.
#[derive(Debug, Clone)]
pub struct LineEditor {
    chars: Vec<char>,
    cursor: usize,
}

/// The width used for layout: the terminal's columns, or 80 when unknown.
pub fn effective_width(cols: u16) -> (r: usize)
    ensures
        r == (if cols == 0 {
            80
        } else {
            cols as usize
        }),
        r > 0,
{
    if cols == 0 {
        80
    } else {
        cols as usize
    }
}

impl LineEditor {
    /// The characters of the buffer.
    pub closed spec fn text(&self) -> Seq<char> {
        self.chars@
    }

    /// The cursor position, in characters.
    pub closed spec fn pos(&self) -> nat {
        self.cursor as nat
    }

    /// The cursor lies within the buffer.
    pub closed spec fn wf(&self) -> bool {
        self.cursor <= self.chars@.len()
    }

    /// A prompt showing `default_suffix`, with the cursor at its start.
    pub fn new(default_suffix: &str) -> (r: Self)
        ensures
            r.wf(),
            r.text() == default_suffix@,
            r.pos() == 0,
    {
        LineEditor { chars: str_chars(default_suffix), cursor: 0 }
    }

    /// The number of characters in the buffer.
    pub fn len(&self) -> (r: usize)
        ensures
            r == self.text().len(),
    {
        self.chars.len()
    }

    /// The cursor position.
    pub fn cursor(&self) -> (r: usize)
        ensures
            r == self.pos(),
    {
        self.cursor
    }

    /// The buffer left of the cursor (drawn bright) and from it on (drawn
    /// as ghost text).
    pub fn split_at_cursor(&self) -> (r: (String, String))
        requires
            self.wf(),
        ensures
            r.0@ == self.text().take(self.pos() as int),
            r.1@ == self.text().skip(self.pos() as int),
    {
        let a = crate::text::sub_chars(self.chars.as_slice(), 0, self.cursor);
        let b = crate::text::sub_chars(self.chars.as_slice(), self.cursor, self.chars.len());
        proof {
            assert(a@ =~= self.text().take(self.pos() as int));
            assert(b@ =~= self.text().skip(self.pos() as int));
        }
        (string_of(a.as_slice()), string_of(b.as_slice()))
    }

    /// The answer: the locked prefix followed by the whole buffer.
    pub fn answer(&self, prefix: &str) -> (r: String)
        ensures
            r@ == prefix@ + self.text(),
    {
        let s = string_of(self.chars.as_slice());
        crate::text::concat2(prefix, s.as_str())
    }

    /// Applies a key. Left/Right move by one within the buffer; Up/Down
    /// move by one terminal row (`width` columns, after a `header_w`-wide
    /// prompt), clamped to the buffer; Home/End jump to the ends; Backspace
    /// and Del delete before and at the cursor; a printable character
    /// overwrites the character at the cursor (or is appended at the end)
    /// and advances; Enter accepts; anything else is ignored.
    pub fn apply_key(&mut self, key: EditKey, header_w: usize, width: usize) -> (r: KeyOutcome)
        requires
            old(self).wf(),
            width > 0,
            header_w + old(self).text().len() + width <= usize::MAX,
        ensures
            final(self).wf(),
            (r, final(self).text(), final(self).pos() as int) == key_effect(
                key,
                old(self).text(),
                old(self).pos() as int,
                header_w as int,
                width as int,
            ),
    {
        match key {
            EditKey::Enter => KeyOutcome::Accept,
            EditKey::ArrowLeft => {
                if self.cursor > 0 {
                    self.cursor = self.cursor - 1;
                }
                KeyOutcome::Redraw
            },
            EditKey::ArrowRight => {
                if self.cursor < self.chars.len() {
                    self.cursor = self.cursor + 1;
                }
                KeyOutcome::Redraw
            },
            EditKey::ArrowUp => {
                let abs = header_w + self.cursor;
                let new_abs = if abs >= width {
                    abs - width
                } else {
                    0
                };
                self.cursor = if new_abs >= header_w {
                    new_abs - header_w
                } else {
                    0
                };
                KeyOutcome::Redraw
            },
            EditKey::ArrowDown => {
                let abs = header_w + self.cursor;
                let new_abs = abs + width;
                let max_abs = header_w + self.chars.len();
                self.cursor = if new_abs <= max_abs {
                    new_abs - header_w
                } else {
                    self.chars.len()
                };
                KeyOutcome::Redraw
            },
            EditKey::Home => {
                self.cursor = 0;
                KeyOutcome::Redraw
            },
            EditKey::End => {
                self.cursor = self.chars.len();
                KeyOutcome::Redraw
            },
            EditKey::Backspace => {
                if self.cursor > 0 {
                    self.chars.remove(self.cursor - 1);
                    self.cursor = self.cursor - 1;
                }
                KeyOutcome::Redraw
            },
            EditKey::Del => {
                if self.cursor < self.chars.len() {
                    self.chars.remove(self.cursor);
                }
                KeyOutcome::Redraw
            },
            EditKey::Char(c) => {
                if is_control(c) {
                    return KeyOutcome::Ignore;
                }
                if self.cursor < self.chars.len() {
                    self.chars.set(self.cursor, c);
                } else {
                    self.chars.push(c);
                }
                self.cursor = self.cursor + 1;
                KeyOutcome::Redraw
            },
            EditKey::Other => KeyOutcome::Ignore,
        }
    }
}

/// At the end of the buffer, typing a character and then Backspace gives
/// back the buffer and the cursor.
pub proof fn law_type_then_backspace(text: Seq<char>, c: char, header_w: int, width: int)
    requires
        !is_control_spec(c),
    ensures
        ({
            let (_, t1, p1) = key_effect(EditKey::Char(c), text, text.len() as int, header_w, width);
            let (_, t2, p2) = key_effect(EditKey::Backspace, t1, p1, header_w, width);
            t2 == text && p2 == text.len()
        }),
{
    assert(text.push(c).remove(text.len() as int) =~= text);
}

/// Typing over the ghost text replaces the character under the cursor:
/// the buffer keeps its length and the cursor moves right.
pub proof fn law_typing_overwrites(text: Seq<char>, pos: int, c: char, header_w: int, width: int)
    requires
        0 <= pos < text.len(),
        !is_control_spec(c),
    ensures
        key_effect(EditKey::Char(c), text, pos, header_w, width).1.len() == text.len(),
        key_effect(EditKey::Char(c), text, pos, header_w, width).1[pos] == c,
        key_effect(EditKey::Char(c), text, pos, header_w, width).2 == pos + 1,
{
}

// ---------------------------------------------------------------------------
// Layout
// ---------------------------------------------------------------------------

/// Where a drawn prompt lies on screen.
#[derive(Debug, Clone)]
pub struct PromptLayout {
    /// Rows the prompt covers (at least one).
    pub total_lines: usize,
    /// The row the cursor ends on after drawing, before moving to the cursor.
    pub after_row: usize,
    /// The cursor's row within the prompt.
    pub target_row: usize,
    /// The cursor's column.
    pub target_col: usize,
    /// Rows to move up from the end of the text to reach the cursor.
    pub up: usize,
}

/// The layout of a prompt `header_w` columns wide with `len` characters
/// and the cursor at `cursor`, in a terminal `width` columns wide (one
/// column per character).
pub open spec fn layout_spec(header_w: nat, len: nat, cursor: nat, width: nat, l: PromptLayout) -> bool {
    let total_w = header_w + len;
    let cursor_w = header_w + cursor;
    &&& l.total_lines == (if total_w == 0 {
        1
    } else {
        (total_w + width - 1) as nat / width
    })
    &&& l.after_row == (if total_w == 0 {
        0
    } else {
        (total_w - 1) as nat / width
    })
    &&& l.target_row == cursor_w / width
    &&& l.target_col == cursor_w % width
    &&& l.up == (if l.after_row >= l.target_row {
        l.after_row - l.target_row
    } else {
        0
    })
}

/// Computes where a prompt lies on screen.
pub fn prompt_layout(header_w: usize, len: usize, cursor: usize, width: usize) -> (r: PromptLayout)
    requires
        width > 0,
        header_w + len + width <= usize::MAX,
        cursor <= len,
    ensures
        layout_spec(header_w as nat, len as nat, cursor as nat, width as nat, r),
        r.total_lines >= 1,
{
    let total_w = header_w + len;
    let cursor_w = header_w + cursor;
    let total_lines = if total_w == 0 {
        1
    } else {
        (total_w + width - 1) / width
    };
    proof {
        if total_w > 0 {
            assert((total_w + width - 1) / width as int >= 1) by (nonlinear_arith)
                requires
                    total_w >= 1,
                    width >= 1,
            ;
        }
    }
    let after_row = if total_w == 0 {
        0
    } else {
        (total_w - 1) / width
    };
    let target_row = cursor_w / width;
    let target_col = cursor_w % width;
    let up = if after_row >= target_row {
        after_row - target_row
    } else {
        0
    };
    PromptLayout { total_lines, after_row, target_row, target_col, up }
}

/// How to erase a drawn prompt: rows to move down to its last row, and
/// rows to clear above that one.
pub fn erase_moves(total_lines: usize, cursor_row: usize) -> (r: (usize, usize))
    requires
        total_lines >= 1,
    ensures
        r.0 == (if total_lines - 1 >= cursor_row {
            total_lines - 1 - cursor_row
        } else {
            0
        }),
        r.1 == total_lines - 1,
{
    let last = total_lines - 1;
    let down = if last >= cursor_row {
        last - cursor_row
    } else {
        0
    };
    (down, last)
}

} // verus!
