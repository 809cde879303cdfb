//! The fields of the form that creates a topic and an item.
//!
//! A field holds its text in a text area widget and knows at every moment
//! whether the field validator accepts that text.

use crate::area::area_cursor;
use crate::area::area_input;
use crate::area::area_lines;
use crate::area::deletes;
use crate::area::first_line;
use crate::area::inserts;
use crate::area::lines_with;
use crate::area::lines_without;
use crate::area::lines_without_next;
use crate::area::new_area;
use crate::area::rubs_out;
use crate::area::scrolls;
use crate::area::steers;
use crate::area::Area;
use crate::input::Key;
use crate::input::KeyInput;
use crate::validate::field_valid;
use crate::validate::lemma_empty_is_invalid;
use crate::validate::parsed_confirm;
use crate::validate::trim;
use crate::validate::trimmed;
use crate::validate::validate_text;
use crate::validate::AreaType;
use crate::validate::Confirm;
use vstd::prelude::*;
use vstd::string::*;

verus! {

/// The number of fields of the form.
pub const FIELDS: usize = 6;

/// The mathematical content of a [`TextAreaContainer`].
pub struct FieldView {
    /// The label of the field.
    pub title: Seq<char>,
    /// The kind of value that the field accepts.
    pub kind: AreaType,
    /// The lines that the text area holds. The first one is the field's text.
    pub lines: Seq<Seq<char>>,
    /// The place of the cursor: the index of its line, and the number of
    /// characters before it in that line.
    pub cursor: (nat, nat),
    /// Whether the field is shown as accepted.
    pub ok: bool,
    /// Whether the field is highlighted as the one that takes the input.
    pub active: bool,
}

impl FieldView {
    /// The text of the field: the first line of its text area.
    pub open spec fn text(self) -> Seq<char> {
        self.lines[0]
    }

    /// Whether the field holds a text to read: the cursor stands in one of the
    /// lines, at one of its characters or behind the last.
    pub open spec fn holds_text(self) -> bool {
        &&& self.cursor.0 < self.lines.len()
        &&& self.cursor.1 <= self.lines[self.cursor.0 as int].len()
    }

    /// What holds of every field: it holds a text, and it is marked as
    /// accepted exactly when the field validator accepts that text.
    pub open spec fn wf(self) -> bool {
        &&& self.holds_text()
        &&& self.ok == field_valid(self.kind, self.text())
    }

    /// The field marked by what the field validator says of its text.
    pub open spec fn validated(self) -> FieldView {
        FieldView { ok: field_valid(self.kind, self.text()), ..self }
    }

    /// Whether the field is as it is when nothing was typed: one empty line
    /// with the cursor in it, not accepted.
    pub open spec fn is_blank(self) -> bool {
        &&& self.lines == seq![Seq::<char>::empty()]
        &&& self.cursor == (0nat, 0nat)
        &&& !self.ok
    }

    /// The field with these lines and this cursor, marked by what the field
    /// validator says of its new text.
    pub open spec fn edited(self, lines: Seq<Seq<char>>, cursor: (nat, nat)) -> FieldView {
        FieldView { lines, cursor, ok: field_valid(self.kind, lines[0]), ..self }
    }

    /// The field after the character `c` was typed: it is inserted at the
    /// cursor, which moves behind it.
    pub open spec fn with_char(self, c: char) -> FieldView {
        self.edited(
            lines_with(self.lines, self.cursor, c),
            (self.cursor.0, (self.cursor.1 + 1) as nat),
        )
    }

    /// The field after the character before the cursor was deleted.
    pub open spec fn without_char(self) -> FieldView {
        self.edited(
            lines_without(self.lines, self.cursor),
            (self.cursor.0, (self.cursor.1 - 1) as nat),
        )
    }

    /// The field after the character at the cursor was deleted.
    pub open spec fn without_next_char(self) -> FieldView {
        self.edited(lines_without_next(self.lines, self.cursor), self.cursor)
    }

    /// Whether `after` may be this field after it took the key press `input`.
    ///
    /// The label, the kind and the highlight stay, and the field is marked by
    /// its new text. A character is inserted at the cursor. Backspace deletes
    /// the character before the cursor, and Delete the one at the cursor, if
    /// there is one in the line. A key that steers changes nothing but the
    /// cursor, and a key that scrolls by a page changes nothing. What other
    /// keys do is for the text area to say.
    pub open spec fn takes(self, input: KeyInput, after: FieldView) -> bool {
        &&& after.wf()
        &&& after.title == self.title
        &&& after.kind == self.kind
        &&& after.active == self.active
        &&& inserts(input) ==> after == self.with_char(input.key->Char_0)
        &&& rubs_out(input) && self.cursor.1 > 0 ==> after == self.without_char()
        &&& deletes(input) && self.cursor.1 < self.lines[self.cursor.0 as int].len() ==> after
            == self.without_next_char()
        &&& steers(input) ==> after == (FieldView { cursor: after.cursor, ..self })
        &&& scrolls(input) ==> after == self
    }
}

/// What a field hands to the storage: its text without the whitespace around
/// it, and for a yes-or-no field the flag of the answer that this gives.
pub open spec fn inner_data(kind: AreaType, text: Seq<char>) -> Seq<char> {
    match kind {
        AreaType::Confirm => match parsed_confirm(trimmed(text)) {
            Some(answer) => answer.flag(),
            None => Confirm::No.flag(),
        },
        _ => trimmed(text),
    }
}

/// One field of the form: a text area with its label, its kind and its state.
pub struct TextAreaContainer {
    text_area: Area,
    title: String,
    ok: bool,
    area_type: AreaType,
    active: bool,
}

impl View for TextAreaContainer {
    type V = FieldView;

    closed spec fn view(&self) -> FieldView {
        FieldView {
            title: self.title@,
            kind: self.area_type,
            lines: area_lines(self.text_area),
            cursor: area_cursor(self.text_area),
            ok: self.ok,
            active: self.active,
        }
    }
}

/// Tells whether a key press is one that scrolls by a page.
fn scrolls_page(input: &KeyInput) -> (page: bool)
    ensures
        page == scrolls(*input),
{
    match input.key {
        Key::PageUp | Key::PageDown => true,
        Key::Char(c) => c == 'v' && input.ctrl != input.alt,
        _ => false,
    }
}

impl TextAreaContainer {
    /// A field with the given label and kind, without text and not highlighted.
    pub fn new(title: String, area_type: AreaType) -> (field: Self)
        ensures
            field@.title == title@,
            field@.kind == area_type,
            field@.is_blank(),
            !field@.active,
            field@.wf(),
    {
        proof {
            lemma_empty_is_invalid(area_type);
        }
        Self { text_area: new_area(), title, ok: false, area_type, active: false }
    }

    /// Empties the field. It is not accepted afterwards.
    pub fn clear_text(&mut self)
        ensures
            final(self)@ == (FieldView {
                lines: seq![Seq::<char>::empty()],
                cursor: (0nat, 0nat),
                ok: false,
                ..old(self)@
            }),
            final(self)@.is_blank(),
            final(self)@.wf(),
    {
        proof {
            lemma_empty_is_invalid(self.area_type);
        }
        self.text_area = new_area();
        self.ok = false;
    }

    /// Takes the highlight from the field.
    pub fn inactivate(&mut self)
        requires
            old(self)@.wf(),
        ensures
            final(self)@ == (FieldView { active: false, ..old(self)@ }),
            final(self)@.wf(),
    {
        self.active = false;
    }

    /// Highlights the field as the one that takes the input.
    pub fn activate(&mut self)
        requires
            old(self)@.wf(),
        ensures
            final(self)@ == (FieldView { active: true, ..old(self)@ }),
            final(self)@.wf(),
    {
        self.active = true;
    }

    /// Runs the field validator on the text and marks the field accordingly,
    /// whatever the mark was before. Nothing else changes.
    pub fn validate(&mut self)
        requires
            old(self)@.holds_text(),
        ensures
            final(self)@ == old(self)@.validated(),
            final(self)@.wf(),
    {
        self.ok = validate_text(self.area_type, first_line(&self.text_area).as_str());
    }

    /// Hands a key press to the text area, and validates the text anew where
    /// the text area tells that it was modified. Tells the same.
    ///
    /// Where the text was not modified, nothing but the cursor has changed.
    /// A key that scrolls by a page is not handed on: a field has one line to
    /// show, and the key changes nothing.
    pub fn input(&mut self, input: &KeyInput) -> (modified: bool)
        requires
            old(self)@.wf(),
        ensures
            old(self)@.takes(*input, final(self)@),
            !modified ==> final(self)@ == (FieldView {
                cursor: final(self)@.cursor,
                ..old(self)@
            }),
            inserts(*input) ==> modified,
            steers(*input) || scrolls(*input) ==> !modified,
    {
        if scrolls_page(input) {
            return false;
        }
        let modified = area_input(&mut self.text_area, input);
        if modified {
            self.ok = validate_text(self.area_type, first_line(&self.text_area).as_str());
        }
        modified
    }

    /// 1 where the field validator accepts the text, else 0.
    pub fn is_ok(&self) -> (ok: u8)
        ensures
            ok == (if self@.ok {
                1u8
            } else {
                0u8
            }),
    {
        if self.ok {
            1
        } else {
            0
        }
    }

    /// What the field hands to the storage: its text without the whitespace
    /// around it, and for a yes-or-no field the flag of the answer.
    pub fn get_inner_data(&self) -> (data: String)
        requires
            self@.wf(),
        ensures
            data@ == inner_data(self@.kind, self@.text()),
    {
        let inner = trim(first_line(&self.text_area).as_str());
        match self.area_type {
            AreaType::Confirm => Confirm::get_confirm_u8_str(inner),
            _ => String::from_str(inner),
        }
    }

    /// The text of the field.
    pub fn text(&self) -> (text: &String)
        requires
            self@.wf(),
        ensures
            text@ == self@.text(),
    {
        first_line(&self.text_area)
    }

    pub fn title(&self) -> (title: &String)
        ensures
            title@ == self@.title,
    {
        &self.title
    }

    pub fn area_type(&self) -> (kind: AreaType)
        ensures
            kind == self@.kind,
    {
        self.area_type
    }

    pub fn is_active(&self) -> (active: bool)
        ensures
            active == self@.active,
    {
        self.active
    }

    /// The text area of the field, for drawing.
    pub fn text_area(&self) -> (area: &Area)
        ensures
            area_lines(*area) == self@.lines,
    {
        &self.text_area
    }
}

/// Whether `fields` are the six fields of the form, in their order, each with
/// its label and kind.
pub open spec fn is_form(fields: Seq<FieldView>) -> bool {
    &&& fields.len() == FIELDS
    &&& fields[0].title == "Topic Name"@ && fields[0].kind == AreaType::String
    &&& fields[1].title == "Item Name"@ && fields[1].kind == AreaType::String
    &&& fields[2].title == "Is Recurring? (Yes OR No)"@ && fields[2].kind == AreaType::Confirm
    &&& fields[3].title == "% Completed [0, 100]"@ && fields[3].kind == AreaType::Percentage
    &&& fields[4].title == "# Completed [0, ...]"@ && fields[4].kind == AreaType::UInt
    &&& fields[5].title == "Day Limit [0, ...]"@ && fields[5].kind == AreaType::UInt
}

/// Whether every one of `fields` is marked as accepted.
pub open spec fn all_ok(fields: Seq<FieldView>) -> bool {
    forall|i: int| 0 <= i < fields.len() ==> (#[trigger] fields[i]).ok
}

/// The views of the fields of an array.
pub open spec fn views(text_areas: [TextAreaContainer; 6]) -> Seq<FieldView> {
    Seq::new(FIELDS as nat, |i: int| text_areas[i]@)
}

/// The six fields of an empty form: topic name, item name, recurring flag,
/// starting percentage, starting completion count and day limit. The first
/// one is highlighted.
pub fn get_text_areas() -> (text_areas: [TextAreaContainer; 6])
    ensures
        is_form(views(text_areas)),
        forall|i: int|
            0 <= i < FIELDS ==> {
                &&& (#[trigger] text_areas[i])@.is_blank()
                &&& text_areas[i]@.wf()
                &&& text_areas[i]@.active == (i == 0)
            },
{
    let mut topic = TextAreaContainer::new(String::from_str("Topic Name"), AreaType::String);
    let item = TextAreaContainer::new(String::from_str("Item Name"), AreaType::String);
    let recurring = TextAreaContainer::new(
        String::from_str("Is Recurring? (Yes OR No)"),
        AreaType::Confirm,
    );
    let percentage = TextAreaContainer::new(
        String::from_str("% Completed [0, 100]"),
        AreaType::Percentage,
    );
    let completed = TextAreaContainer::new(String::from_str("# Completed [0, ...]"), AreaType::UInt);
    let limit = TextAreaContainer::new(String::from_str("Day Limit [0, ...]"), AreaType::UInt);
    topic.activate();
    [topic, item, recurring, percentage, completed, limit]
}

/// Whether the form is ready: whether every field is accepted.
pub fn validate_text_areas(text_areas: &[TextAreaContainer; 6]) -> (ready: bool)
    requires
        forall|i: int| 0 <= i < FIELDS ==> (#[trigger] text_areas[i])@.wf(),
    ensures
        ready == all_ok(views(*text_areas)),
        ready == forall|i: int|
            0 <= i < FIELDS ==> field_valid(
                (#[trigger] text_areas[i])@.kind,
                text_areas[i]@.text(),
            ),
{
    let mut i: usize = 0;
    while i < FIELDS
        invariant
            i <= FIELDS,
            forall|j: int| 0 <= j < i ==> (#[trigger] text_areas[j])@.ok,
            forall|j: int| 0 <= j < FIELDS ==> (#[trigger] text_areas[j])@.wf(),
        decreases FIELDS - i,
    {
        if text_areas[i].is_ok() != 1 {
            assert(!views(*text_areas)[i as int].ok);
            return false;
        }
        i += 1;
    }
    assert forall|j: int| 0 <= j < FIELDS implies (#[trigger] views(*text_areas)[j]).ok by {}
    true
}

} // verus!
