//! The text area widget that holds and edits the text of a form field.
//!
//! The widget is `tui_textarea::TextArea`. Nothing in this file is proved: it
//! states what the rest of the library relies upon of the widget.

use crate::input::Key;
use crate::input::KeyInput;
use tui_textarea::Input;
use tui_textarea::Key as AreaKey;
use tui_textarea::TextArea;
use vstd::prelude::*;

verus! {

/// A text area of the widget crate. What it holds is told by [`area_lines`]
/// and [`area_cursor`]; the widget itself is there for drawing.
#[verifier::external_body]
pub struct Area {
    pub inner: TextArea<'static>,
}

/// The lines of text that a text area holds, from the first to the last, as
/// `TextArea::lines` hands them out.
pub uninterp spec fn area_lines(area: Area) -> Seq<Seq<char>>;

/// The place of the cursor of a text area, as `TextArea::cursor` tells it:
/// the index of its line, and the number of characters before it in that line.
pub uninterp spec fn area_cursor(area: Area) -> (nat, nat);

/// What the widget keeps of every text area: the cursor stands in one of the
/// lines, at one of its characters or behind the last.
pub open spec fn area_wf(area: Area) -> bool {
    &&& area_cursor(area).0 < area_lines(area).len()
    &&& area_cursor(area).1 <= area_lines(area)[area_cursor(area).0 as int].len()
}

/// Whether a key press is one that the widget takes as a character to insert:
/// a character key without Ctrl and Alt, but for the two that break the line.
pub open spec fn inserts(input: KeyInput) -> bool {
    &&& input.key matches Key::Char(c)
    &&& c != '\n' && c != '\r'
    &&& !input.ctrl
    &&& !input.alt
}

/// Whether a key press is the one that the widget takes to delete the
/// character before the cursor: Backspace without Ctrl and Alt.
pub open spec fn rubs_out(input: KeyInput) -> bool {
    input.key == Key::Backspace && !input.ctrl && !input.alt
}

/// Whether a key press is the one that the widget takes to delete the
/// character at the cursor: Delete without Ctrl and Alt.
pub open spec fn deletes(input: KeyInput) -> bool {
    input.key == Key::Delete && !input.ctrl && !input.alt
}

/// Whether a key press is one that the widget never takes to change the
/// text, whatever the modifiers: an arrow, Home, End, Esc, and the keys that
/// it ignores.
pub open spec fn steers(input: KeyInput) -> bool {
    match input.key {
        Key::Left | Key::Right | Key::Up | Key::Down => true,
        Key::Home | Key::End => true,
        Key::Esc | Key::Insert | Key::Null => true,
        _ => false,
    }
}

/// Whether a key press is one that the widget takes to scroll by a page: a
/// page key, whatever the modifiers, and `v` with either Ctrl or Alt. The
/// widget is never handed one: how far it scrolls hangs on the size that it was
/// last drawn in, and there is a size on which it fails.
pub open spec fn scrolls(input: KeyInput) -> bool {
    ||| input.key == Key::PageUp
    ||| input.key == Key::PageDown
    ||| input.key == Key::Char('v') && input.ctrl != input.alt
}

/// `TextArea::default`: a text area that holds one line, which is empty, with
/// the cursor at its start.
#[verifier::external_body]
pub(crate) fn new_area() -> (area: Area)
    ensures
        area_lines(area) == seq![Seq::<char>::empty()],
        area_cursor(area) == (0nat, 0nat),
{
    Area { inner: TextArea::default() }
}

/// `TextArea::lines`, of which the first line is taken.
#[verifier::external_body]
pub(crate) fn first_line<'a>(area: &'a Area) -> (line: &'a String)
    requires
        area_lines(*area).len() > 0,
    ensures
        line@ == area_lines(*area)[0],
{
    &area.inner.lines()[0]
}

/// The lines after character `c` was inserted at the cursor.
pub open spec fn lines_with(lines: Seq<Seq<char>>, cursor: (nat, nat), c: char) -> Seq<Seq<char>> {
    lines.update(cursor.0 as int, lines[cursor.0 as int].insert(cursor.1 as int, c))
}

/// The lines after the character before the cursor was deleted.
pub open spec fn lines_without(lines: Seq<Seq<char>>, cursor: (nat, nat)) -> Seq<Seq<char>> {
    lines.update(cursor.0 as int, lines[cursor.0 as int].remove(cursor.1 - 1))
}

/// The lines after the character at the cursor was deleted.
pub open spec fn lines_without_next(lines: Seq<Seq<char>>, cursor: (nat, nat)) -> Seq<Seq<char>> {
    lines.update(cursor.0 as int, lines[cursor.0 as int].remove(cursor.1 as int))
}

/// `TextArea::input`: the widget takes a key press, with its own key
/// mappings, and tells whether the text was modified. It is not to be handed a
/// key that scrolls by a page. The widget knows no Insert key: it is handed
/// over as the key that the widget ignores, and so are the page keys.
///
/// Whatever the key, the cursor stands in the text afterwards. Where the
/// widget tells that the text was not modified, the lines are what they were,
/// and so it tells of every key that only steers the cursor.
/// A character is inserted at the cursor, which moves behind it. Backspace
/// with a character before the cursor in the line deletes that character, and
/// the cursor moves back. Delete with a character at the cursor in the line
/// deletes that character, and the cursor stays. What any other key does to
/// the lines is not stated.
#[verifier::external_body]
pub(crate) fn area_input(area: &mut Area, input: &KeyInput) -> (modified: bool)
    requires
        area_wf(*old(area)),
        !scrolls(*input),
    ensures
        area_wf(*final(area)),
        !modified ==> area_lines(*final(area)) == area_lines(*old(area)),
        steers(*input) ==> !modified,
        inserts(*input) ==> {
            &&& modified
            &&& area_lines(*final(area)) == lines_with(
                area_lines(*old(area)),
                area_cursor(*old(area)),
                input.key->Char_0,
            )
            &&& area_cursor(*final(area)) == (
                area_cursor(*old(area)).0,
                (area_cursor(*old(area)).1 + 1) as nat,
            )
        },
        rubs_out(*input) && area_cursor(*old(area)).1 > 0 ==> {
            &&& modified
            &&& area_lines(*final(area)) == lines_without(
                area_lines(*old(area)),
                area_cursor(*old(area)),
            )
            &&& area_cursor(*final(area)) == (
                area_cursor(*old(area)).0,
                (area_cursor(*old(area)).1 - 1) as nat,
            )
        },
        deletes(*input) && area_cursor(*old(area)).1 < area_lines(*old(area))[area_cursor(
            *old(area),
        ).0 as int].len() ==> {
            &&& modified
            &&& area_lines(*final(area)) == lines_without_next(
                area_lines(*old(area)),
                area_cursor(*old(area)),
            )
            &&& area_cursor(*final(area)) == area_cursor(*old(area))
        },
{
    let key = match input.key {
        Key::Char(c) => AreaKey::Char(c), Key::Backspace => AreaKey::Backspace,
        Key::Enter => AreaKey::Enter, Key::Left => AreaKey::Left,
        Key::Right => AreaKey::Right, Key::Up => AreaKey::Up,
        Key::Down => AreaKey::Down, Key::Tab => AreaKey::Tab,
        Key::Delete => AreaKey::Delete, Key::Home => AreaKey::Home,
        Key::End => AreaKey::End, Key::Esc => AreaKey::Esc,
        Key::PageUp => AreaKey::Null, Key::PageDown => AreaKey::Null,
        Key::Insert => AreaKey::Null, Key::Null => AreaKey::Null,
    };
    area.inner.input(Input { key, ctrl: input.ctrl, alt: input.alt })
}

} // verus!
