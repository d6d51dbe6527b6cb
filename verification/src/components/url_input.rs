//! The URL input: a text buffer edited by the keyboard, read as one line.
//!
//! The buffer is the text area widget of tui-textarea. The widget edits; what
//! reaches it, and how its text is read, is decided here.

use crate::event::{KeyCode, KeyEvent, KeyEventKind, KeyModifiers};
use tui_textarea::{Input, Key, TextArea};
use vstd::prelude::*;

verus! {

/// A tui-textarea `TextArea`. Nothing of it is visible to the verifier: it is
/// known by its lines, its cursor and the start of its selection.
#[verifier::external_body]
pub struct UrlInput {
    area: TextArea<'static>,
}

/// The lines of text that the buffer holds, from top to bottom.
pub uninterp spec fn url_input_lines(input: UrlInput) -> Seq<Seq<char>>;

/// The row and the column of the buffer's cursor, counted in characters from
/// zero.
pub uninterp spec fn url_input_cursor(input: UrlInput) -> (usize, usize);

/// Where the selection of the buffer starts (the text area's
/// `selection_start`); `None` while nothing is selected.
pub uninterp spec fn url_input_selection(input: UrlInput) -> Option<(usize, usize)>;

/// The keys that edit one line of text.
#[derive(Clone, Copy, Debug, PartialEq, Eq, Structural)]
pub enum EditKey {
    Char(char),
    Backspace,
    Delete,
    Left,
    Right,
    Home,
    End,
}

/// `TextArea::default()` makes a text area that holds one empty line, with
/// the cursor at its start and nothing selected.
#[verifier::external_body]
fn empty_area() -> (input: UrlInput)
    ensures
        url_input_lines(input) == seq![Seq::<char>::empty()],
        url_input_cursor(input) == (0usize, 0usize),
        url_input_selection(input) is None,
{
    UrlInput { area: TextArea::default() }
}

/// `TextArea::lines` returns the lines of text that the text area holds.
#[verifier::external_body]
fn area_lines(input: &UrlInput) -> (lines: Vec<String>)
    ensures
        lines.deep_view() == url_input_lines(*input),
{
    input.area.lines().to_vec()
}

/// `TextArea::cursor` returns the row and the column of the cursor.
#[verifier::external_body]
fn area_cursor(input: &UrlInput) -> (cursor: (usize, usize))
    ensures
        cursor == url_input_cursor(*input),
{
    input.area.cursor()
}

/// Whether a buffer is kept as one line: it holds a single line, the cursor
/// stands in that line, and nothing is selected.
pub open spec fn is_one_line(
    lines: Seq<Seq<char>>,
    cursor: (usize, usize),
    selection: Option<(usize, usize)>,
) -> bool {
    &&& lines.len() == 1
    &&& cursor.0 == 0
    &&& cursor.1 <= lines[0].len()
    &&& selection is None
}

/// Whether `key` with `modifiers` is a plain edit: a character that ends no
/// line, Backspace or Delete, without Control and Alt; or Left, Right, Home
/// or End without any modifier.
pub open spec fn is_plain_edit(key: EditKey, modifiers: KeyModifiers) -> bool {
    &&& !modifiers.control
    &&& !modifiers.alt
    &&& match key {
        EditKey::Char(c) => !is_line_break(c),
        EditKey::Backspace => true,
        EditKey::Delete => true,
        _ => !modifiers.shift,
    }
}

/// What a plain edit makes of the line `text` with the cursor in front of
/// character `column`: the new text and the new column. A character is
/// inserted at the cursor, which moves behind it. Backspace removes the
/// character in front of the cursor, Delete the one behind it, where there is
/// one. Left and Right move the cursor by one character and stop at the ends
/// of the line; Home and End move it to the ends.
pub open spec fn edited_line(text: Seq<char>, column: int, key: EditKey) -> (Seq<char>, int) {
    match key {
        EditKey::Char(c) => (text.insert(column, c), column + 1),
        EditKey::Backspace => if column > 0 {
            (text.remove(column - 1), column - 1)
        } else {
            (text, column)
        },
        EditKey::Delete => if column < text.len() {
            (text.remove(column), column)
        } else {
            (text, column)
        },
        EditKey::Left => if column > 0 {
            (text, column - 1)
        } else {
            (text, column)
        },
        EditKey::Right => if column < text.len() {
            (text, column + 1)
        } else {
            (text, column)
        },
        EditKey::Home => (text, 0),
        EditKey::End => (text, text.len() as int),
    }
}

/// Whether `new_lines`, `new_cursor` and `new_selection` are what a plain edit
/// by `key` leaves of a buffer that was kept as one line, with `lines` and
/// `cursor`: the buffer still holds one line, which is the edited line, the
/// cursor stands at the edited column, and nothing is selected.
pub open spec fn edits_one_line(
    lines: Seq<Seq<char>>,
    cursor: (usize, usize),
    key: EditKey,
    new_lines: Seq<Seq<char>>,
    new_cursor: (usize, usize),
    new_selection: Option<(usize, usize)>,
) -> bool {
    &&& new_lines == seq![edited_line(lines[0], cursor.1 as int, key).0]
    &&& new_cursor.0 == 0
    &&& new_cursor.1 == edited_line(lines[0], cursor.1 as int, key).1
    &&& new_selection is None
}

/// A plain edit keeps a buffer that is kept as one line as one line.
pub proof fn lemma_plain_edit_keeps_one_line(
    lines: Seq<Seq<char>>,
    cursor: (usize, usize),
    key: EditKey,
    new_lines: Seq<Seq<char>>,
    new_cursor: (usize, usize),
    new_selection: Option<(usize, usize)>,
)
    requires
        is_one_line(lines, cursor, None),
        edits_one_line(lines, cursor, key, new_lines, new_cursor, new_selection),
    ensures
        is_one_line(new_lines, new_cursor, new_selection),
{
}

/// A text without line breaks that is the only line of a buffer is the text
/// of the buffer read as one line.
pub proof fn lemma_single_line_of_one_line(text: Seq<char>)
    requires
        forall|i: int| 0 <= i < text.len() ==> !is_line_break(#[trigger] text[i]),
    ensures
        single_line(seq![text]) == text,
{
    let lines = seq![text];
    assert(lines.drop_last() =~= Seq::<Seq<char>>::empty());
    assert(joined(lines.drop_last()) =~= Seq::<char>::empty());
    assert(joined(lines) =~= text);
    lemma_without_line_breaks(text);
}

/// Whether the widget takes `key` with `modifiers` for Enter: a character
/// that ends a line, or Control with `m`.
pub open spec fn breaks_line(key: EditKey, modifiers: KeyModifiers) -> bool {
    key matches EditKey::Char(c) && (is_line_break(c) || (c == 'm' && modifiers.control
        && !modifiers.alt))
}

/// `TextArea::input` applies one key to the text area by the widget's own key
/// map and says whether the text changed. Keys that the widget takes for
/// Enter are never handed to it.
///
/// Stated is what the widget does with a plain edit on a buffer that is kept
/// as one line: `insert_char` for a character, `delete_char` for Backspace,
/// `delete_next_char` for Delete, and the cursor moves `Back`, `Forward`,
/// `Head` and `End` for Left, Right, Home and End, none of which leaves the
/// line or selects anything.
///
/// Of every other key that reaches the widget (its shortcuts with Control and
/// Alt: deleting words and parts of the line, moving, undo, redo, cut, copy
/// and paste, and edits while a selection is on) stated is only that none
/// adds a line to a buffer of one line: none of them inserts a line break,
/// and what they bring back, from the history or from what was cut, was taken
/// from that one line. What the line and the cursor are afterwards is not
/// stated.
#[verifier::external_body]
fn area_input(input: &mut UrlInput, key: EditKey, modifiers: KeyModifiers) -> (modified: bool)
    requires
        !breaks_line(key, modifiers),
    ensures
        url_input_lines(*old(input)).len() == 1 ==> url_input_lines(*final(input)).len() == 1,
        is_one_line(
            url_input_lines(*old(input)),
            url_input_cursor(*old(input)),
            url_input_selection(*old(input)),
        ) && is_plain_edit(key, modifiers) ==> edits_one_line(
            url_input_lines(*old(input)),
            url_input_cursor(*old(input)),
            key,
            url_input_lines(*final(input)),
            url_input_cursor(*final(input)),
            url_input_selection(*final(input)),
        ),
{
    let key = match key {
        EditKey::Char(c) => Key::Char(c),
        EditKey::Backspace => Key::Backspace,
        EditKey::Delete => Key::Delete,
        EditKey::Left => Key::Left,
        EditKey::Right => Key::Right,
        EditKey::Home => Key::Home,
        EditKey::End => Key::End,
    };
    input.area.input(Input { key, ctrl: modifiers.control, alt: modifiers.alt, shift: modifiers.shift })
}

/// Whether `c` ends a line.
pub open spec fn is_line_break(c: char) -> bool {
    c == '\n' || c == '\r'
}

/// The lines one after the other, with nothing between them.
pub open spec fn joined(lines: Seq<Seq<char>>) -> Seq<char>
    decreases lines.len(),
{
    if lines.len() == 0 {
        Seq::empty()
    } else {
        joined(lines.drop_last()) + lines.last()
    }
}

/// `text` without the characters that end a line.
pub open spec fn without_line_breaks(text: Seq<char>) -> Seq<char>
    decreases text.len(),
{
    if text.len() == 0 {
        Seq::empty()
    } else if is_line_break(text.last()) {
        without_line_breaks(text.drop_last())
    } else {
        without_line_breaks(text.drop_last()).push(text.last())
    }
}

/// The text of a buffer read as one line: all its lines joined, and every
/// character that ends a line left out.
pub open spec fn single_line(lines: Seq<Seq<char>>) -> Seq<char> {
    without_line_breaks(joined(lines))
}

/// The part of the buffer in front of the cursor: the lines above the cursor's
/// row, and of that row the characters before the cursor's column. A cursor
/// below the last line has the whole buffer in front of it.
pub open spec fn before_cursor(lines: Seq<Seq<char>>, cursor: (usize, usize)) -> Seq<Seq<char>> {
    let row = cursor.0 as int;
    let column = cursor.1 as int;
    if row < lines.len() {
        lines.take(row).push(
            lines[row].take(
                if column < lines[row].len() {
                    column
                } else {
                    lines[row].len() as int
                },
            ),
        )
    } else {
        lines
    }
}

/// The place of the cursor in the text read as one line: the number of
/// characters of that line that stand in front of the cursor.
pub open spec fn caret_of(lines: Seq<Seq<char>>, cursor: (usize, usize)) -> nat {
    single_line(before_cursor(lines, cursor)).len()
}

/// The key by which `key` edits the line, if it does. Releases edit
/// nothing. A character is typed unless it ends a line; Enter, and Control
/// with `m`, which the widget takes for Enter, never reach the buffer.
/// Backspace, Delete, Left, Right, Home and End do what they say. No other
/// key has a meaning in a single line.
pub open spec fn edit_key(key: KeyEvent) -> Option<EditKey> {
    if key.kind == KeyEventKind::Release {
        None
    } else {
        match key.code {
            KeyCode::Char(c) => if is_line_break(c) || (c == 'm' && key.modifiers.control
                && !key.modifiers.alt) {
                None
            } else {
                Some(EditKey::Char(c))
            },
            KeyCode::Backspace => Some(EditKey::Backspace),
            KeyCode::Delete => Some(EditKey::Delete),
            KeyCode::Left => Some(EditKey::Left),
            KeyCode::Right => Some(EditKey::Right),
            KeyCode::Home => Some(EditKey::Home),
            KeyCode::End => Some(EditKey::End),
            _ => None,
        }
    }
}

/// Whatever the buffer holds, its text read as one line has no character that
/// ends a line.
pub proof fn lemma_single_line_has_no_line_break(lines: Seq<Seq<char>>)
    ensures
        forall|i: int|
            0 <= i < single_line(lines).len() ==> !is_line_break(#[trigger] single_line(lines)[i]),
{
    lemma_without_line_breaks(joined(lines));
}

/// Leaving out the line breaks leaves none in, and keeps a text that has none
/// as it is.
pub proof fn lemma_without_line_breaks(text: Seq<char>)
    ensures
        forall|i: int|
            0 <= i < without_line_breaks(text).len() ==> !is_line_break(
                #[trigger] without_line_breaks(text)[i],
            ),
        (forall|i: int| 0 <= i < text.len() ==> !is_line_break(#[trigger] text[i]))
            ==> without_line_breaks(text) == text,
        without_line_breaks(text).len() <= text.len(),
    decreases text.len(),
{
    if text.len() > 0 {
        lemma_without_line_breaks(text.drop_last());
    }
}

impl EditKey {
    /// The key by which `key` edits the line.
    pub fn from_key(key: KeyEvent) -> (edit: Option<EditKey>)
        ensures
            edit == edit_key(key),
    {
        if key.kind == KeyEventKind::Release {
            return None;
        }
        match key.code {
            KeyCode::Char(c) => {
                if c == '\n' || c == '\r' || (c == 'm' && key.modifiers.control
                    && !key.modifiers.alt) {
                    None
                } else {
                    Some(EditKey::Char(c))
                }
            },
            KeyCode::Backspace => Some(EditKey::Backspace),
            KeyCode::Delete => Some(EditKey::Delete),
            KeyCode::Left => Some(EditKey::Left),
            KeyCode::Right => Some(EditKey::Right),
            KeyCode::Home => Some(EditKey::Home),
            KeyCode::End => Some(EditKey::End),
            _ => None,
        }
    }
}

impl UrlInput {
    /// An empty input.
    pub fn new() -> (input: UrlInput)
        ensures
            url_input_lines(input) == seq![Seq::<char>::empty()],
            url_input_cursor(input) == (0usize, 0usize),
            url_input_selection(input) is None,
    {
        empty_area()
    }

    /// The lines that the buffer holds.
    pub fn lines(&self) -> (lines: Vec<String>)
        ensures
            lines.deep_view() == url_input_lines(*self),
    {
        area_lines(self)
    }

    /// The row and the column of the cursor.
    pub fn cursor(&self) -> (cursor: (usize, usize))
        ensures
            cursor == url_input_cursor(*self),
    {
        area_cursor(self)
    }

    /// The text of the buffer as one line.
    pub fn text(&self) -> (text: String)
        ensures
            text@ == single_line(url_input_lines(*self)),
            forall|i: int| 0 <= i < text@.len() ==> !is_line_break(#[trigger] text@[i]),
    {
        let lines = area_lines(self);
        proof {
            lemma_single_line_has_no_line_break(url_input_lines(*self));
        }
        one_line(&lines)
    }

    /// The place of the cursor in the text read as one line.
    pub fn caret(&self) -> (caret: usize)
        ensures
            caret == caret_of(url_input_lines(*self), url_input_cursor(*self)),
    {
        let lines = area_lines(self);
        let (row, column) = area_cursor(self);
        let ghost all = lines.deep_view();
        if row >= lines.len() {
            return one_line(&lines).as_str().unicode_len();
        }
        let mut front: Vec<String> = Vec::new();
        let mut i: usize = 0;
        while i < row
            invariant
                i <= row,
                row < lines@.len(),
                front@.len() == i,
                forall|j: int| 0 <= j < i ==> (#[trigger] front@[j])@ == lines@[j]@,
            decreases row - i,
        {
            front.push(lines[i].clone());
            i = i + 1;
        }
        let line: &str = lines[row].as_str();
        let length: usize = line.unicode_len();
        let end: usize = if column < length {
            column
        } else {
            length
        };
        front.push(line.substring_char(0, end).to_owned());
        proof {
            let expected = before_cursor(all, (row, column));
            assert(front.deep_view() =~= expected);
        }
        one_line(&front).as_str().unicode_len()
    }

    /// Hands `key` to the buffer if it edits the line, and says whether it
    /// did. A key that does not edit the line leaves the buffer untouched. A
    /// plain edit of a buffer that is kept as one line edits that line as
    /// `edited_line` says and keeps the buffer as one line. No key adds a
    /// line to a buffer of one line.
    pub fn handle_key(&mut self, key: KeyEvent) -> (taken: bool)
        ensures
            taken == edit_key(key) is Some,
            !taken ==> *final(self) == *old(self),
            url_input_lines(*old(self)).len() == 1 ==> url_input_lines(*final(self)).len() == 1,
            edit_key(key) matches Some(edit) ==> (is_one_line(
                url_input_lines(*old(self)),
                url_input_cursor(*old(self)),
                url_input_selection(*old(self)),
            ) && is_plain_edit(edit, key.modifiers) ==> edits_one_line(
                url_input_lines(*old(self)),
                url_input_cursor(*old(self)),
                edit,
                url_input_lines(*final(self)),
                url_input_cursor(*final(self)),
                url_input_selection(*final(self)),
            )),
    {
        match EditKey::from_key(key) {
            Some(edit) => {
                area_input(self, edit, key.modifiers);
                true
            },
            None => false,
        }
    }
}

/// Joins `lines` and leaves out every character that ends a line.
pub fn one_line(lines: &Vec<String>) -> (text: String)
    ensures
        text@ == single_line(lines.deep_view()),
{
    let ghost all = lines.deep_view();
    let mut text = String::new();
    let n: usize = lines.len();
    let mut i: usize = 0;
    while i < n
        invariant
            i <= n,
            n == lines@.len(),
            all == lines.deep_view(),
            all.len() == n,
            text@ == without_line_breaks(joined(all.take(i as int))),
        decreases n - i,
    {
        let line: &str = lines[i].as_str();
        let ghost done = joined(all.take(i as int));
        assert(line@ == all[i as int]);
        assert(done + line@.take(0) =~= done);
        for c in iter: line.chars()
            invariant
                iter.seq() == line@,
                text@ == without_line_breaks(done + line@.take(iter.index() as int)),
        {
            let ghost before = done + line@.take(iter.index() as int);
            let ghost after = done + line@.take(iter.index() + 1);
            assert(after.drop_last() =~= before);
            assert(after.last() == c);
            if c != '\n' && c != '\r' {
                text.push(c);
            }
        }
        proof {
            assert(line@.take(line@.len() as int) =~= line@);
            assert(all.take(i + 1).drop_last() =~= all.take(i as int));
            assert(all.take(i + 1).last() == all[i as int]);
        }
        i = i + 1;
    }
    assert(all.take(n as int) =~= all);
    text
}

} // verus!
