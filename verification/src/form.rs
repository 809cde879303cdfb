//! The form controller: six fields, the focus among them, and the flag that
//! tells whether the form may be submitted.

use crate::add::all_ok;
use crate::add::get_text_areas;
use crate::add::is_form;
use crate::add::validate_text_areas;
use crate::add::views;
use crate::add::FieldView;
use crate::add::TextAreaContainer;
use crate::add::FIELDS;
use crate::area::inserts;
use crate::area::scrolls;
use crate::area::steers;
use crate::input::KeyInput;
use crate::validate::parse_uint;
use crate::validate::parsed_confirm;
use crate::validate::parsed_uint;
use crate::validate::trim;
use crate::validate::trimmed;
use crate::validate::Confirm;
use crate::validate::MAX_PERCENTAGE;
use vstd::prelude::*;
use vstd::string::*;

verus! {

/// The mathematical content of a [`NewItem`].
pub struct NewItemView {
    pub topicname: Seq<char>,
    pub name: Seq<char>,
    pub isrecurring: bool,
    pub percentage: nat,
    pub timesfinished: nat,
    pub daylimit: nat,
}

/// What a submitted form asks the storage to create: a topic of this name,
/// unless there is one, and in it an item with these values.
pub struct NewItem {
    pub topicname: String,
    pub name: String,
    pub isrecurring: bool,
    pub percentage: u8,
    pub timesfinished: usize,
    pub daylimit: usize,
}

impl View for NewItem {
    type V = NewItemView;

    open spec fn view(&self) -> NewItemView {
        NewItemView {
            topicname: self.topicname@,
            name: self.name@,
            isrecurring: self.isrecurring,
            percentage: self.percentage as nat,
            timesfinished: self.timesfinished as nat,
            daylimit: self.daylimit as nat,
        }
    }
}

/// The number that a field holds, or 0 where it holds none that is at most `max`.
pub open spec fn number_of(text: Seq<char>, max: nat) -> nat {
    match parsed_uint(text, max) {
        Some(value) => value,
        None => 0,
    }
}

/// What the fields of a form ask to create: the two names without the
/// whitespace around them, and the values that the other fields denote.
pub open spec fn submitted(fields: Seq<FieldView>) -> NewItemView {
    NewItemView {
        topicname: trimmed(fields[0].text()),
        name: trimmed(fields[1].text()),
        isrecurring: parsed_confirm(fields[2].text()) == Some(Confirm::Yes),
        percentage: number_of(fields[3].text(), MAX_PERCENTAGE as nat),
        timesfinished: number_of(fields[4].text(), usize::MAX as nat),
        daylimit: number_of(fields[5].text(), usize::MAX as nat),
    }
}

/// The mathematical content of a [`Form`].
pub struct FormView {
    /// The fields, in their order.
    pub fields: Seq<FieldView>,
    /// The index of the field that takes the input.
    pub which: nat,
    /// Whether the form is ready: whether every field is accepted.
    pub add_given_ok: bool,
}

impl FormView {
    /// What holds of every form: it has its six fields, each of them is marked
    /// as accepted exactly when its text is, the focused field and no other
    /// is highlighted, and the form is ready exactly when every field is
    /// accepted.
    pub open spec fn wf(self) -> bool {
        &&& is_form(self.fields)
        &&& self.which < FIELDS
        &&& forall|i: int| 0 <= i < FIELDS ==> (#[trigger] self.fields[i]).wf()
        &&& forall|i: int| 0 <= i < FIELDS ==> (#[trigger] self.fields[i]).active == (i == self.which)
        &&& self.add_given_ok == all_ok(self.fields)
    }

    /// Whether the form is as it is before anything was typed: every field
    /// empty and not accepted, the focus on the first.
    pub open spec fn is_fresh(self) -> bool {
        &&& self.wf()
        &&& self.which == 0
        &&& !self.add_given_ok
        &&& forall|i: int| 0 <= i < FIELDS ==> (#[trigger] self.fields[i]).is_blank()
    }

    /// Whether the focus is on the last field.
    pub open spec fn on_last(self) -> bool {
        self.which + 1 >= FIELDS
    }

    /// Whether `after` may be this form after its focused field took the key
    /// press `input`: the focus has stayed, no other field has changed, the
    /// focused field has taken the key, and the form is well formed, so that
    /// it is ready exactly when every field is accepted.
    pub open spec fn takes(self, input: KeyInput, after: FormView) -> bool {
        &&& after.wf()
        &&& after.which == self.which
        &&& forall|i: int|
            0 <= i < FIELDS && i != self.which ==> after.fields[i] == self.fields[i]
        &&& self.fields[self.which as int].takes(input, after.fields[self.which as int])
    }

    /// The form with the focus, and the highlight, on field `which`.
    pub open spec fn focused_on(self, which: nat) -> FormView {
        FormView {
            fields: Seq::new(
                FIELDS as nat,
                |i: int| FieldView { active: i == which, ..self.fields[i] },
            ),
            which,
            ..self
        }
    }
}

/// The form that creates a topic and an item.
pub struct Form {
    text_areas: [TextAreaContainer; 6],
    which: usize,
    add_given_ok: bool,
}

impl View for Form {
    type V = FormView;

    closed spec fn view(&self) -> FormView {
        FormView {
            fields: views(self.text_areas),
            which: self.which as nat,
            add_given_ok: self.add_given_ok,
        }
    }
}

impl Form {
    /// An empty form, with the focus on its first field.
    pub fn new() -> (form: Form)
        ensures
            form@.is_fresh(),
    {
        let text_areas = get_text_areas();
        Form { text_areas, which: 0, add_given_ok: false }
    }

    /// The index of the field that takes the input.
    pub fn which(&self) -> (which: usize)
        ensures
            which == self@.which,
    {
        self.which
    }

    /// Whether the form is ready: whether every field is accepted.
    pub fn add_given_ok(&self) -> (ready: bool)
        ensures
            ready == self@.add_given_ok,
    {
        self.add_given_ok
    }

    /// The fields of the form, in their order.
    pub fn text_areas(&self) -> (text_areas: &[TextAreaContainer; 6])
        ensures
            views(*text_areas) == self@.fields,
    {
        &self.text_areas
    }

    /// Moves the focus to the next field. On the last field it stays.
    pub fn focus_next(&mut self)
        requires
            old(self)@.wf(),
        ensures
            final(self)@.wf(),
            final(self)@ == old(self)@.focused_on(
                if old(self)@.on_last() {
                    old(self)@.which
                } else {
                    old(self)@.which + 1
                },
            ),
    {
        if self.which + 1 < FIELDS {
            let ghost before = self@;
            self.text_areas[self.which].inactivate();
            self.which += 1;
            self.text_areas[self.which].activate();
            assert(self@.fields =~= before.focused_on(self.which as nat).fields);
        } else {
            assert(self@.fields =~= self@.focused_on(self.which as nat).fields);
        }
    }

    /// Moves the focus to the field before. On the first field it stays.
    pub fn focus_previous(&mut self)
        requires
            old(self)@.wf(),
        ensures
            final(self)@.wf(),
            final(self)@ == old(self)@.focused_on(
                if old(self)@.which == 0 {
                    0
                } else {
                    (old(self)@.which - 1) as nat
                },
            ),
    {
        let ghost before = self@;
        self.text_areas[self.which].inactivate();
        self.which = self.which.saturating_sub(1);
        self.text_areas[self.which].activate();
        assert(self@.fields =~= before.focused_on(self.which as nat).fields);
    }

    /// Hands a key press to the focused field, which validates its text anew
    /// where that was modified; then tells anew whether the form is ready.
    ///
    /// No other field changes, and the focus stays.
    pub fn input(&mut self, input: &KeyInput) -> (modified: bool)
        requires
            old(self)@.wf(),
        ensures
            old(self)@.takes(*input, final(self)@),
            !modified ==> final(self)@.fields[old(self)@.which as int] == (FieldView {
                cursor: final(self)@.fields[old(self)@.which as int].cursor,
                ..old(self)@.fields[old(self)@.which as int]
            }),
            inserts(*input) ==> modified,
            steers(*input) || scrolls(*input) ==> !modified,
    {
        let modified = self.text_areas[self.which].input(input);
        self.add_given_ok = validate_text_areas(&self.text_areas);
        modified
    }

    /// What the form asks to create, where the focus is on the last field and
    /// the form is ready; `None` where it is not, and then nothing is to be
    /// done.
    pub fn try_submit(&self) -> (values: Option<NewItem>)
        requires
            self@.wf(),
        ensures
            values is Some <==> self@.on_last() && self@.add_given_ok,
            values matches Some(item) ==> item@ == submitted(self@.fields),
    {
        if self.which + 1 < FIELDS || !self.add_given_ok {
            return None;
        }
        let topicname = String::from_str(trim(self.text_areas[0].text().as_str()));
        let name = String::from_str(trim(self.text_areas[1].text().as_str()));
        let isrecurring = match Confirm::parse(self.text_areas[2].text().as_str()) {
            Some(Confirm::Yes) => true,
            _ => false,
        };
        let percentage = parse_uint(self.text_areas[3].text().as_str(), MAX_PERCENTAGE);
        let timesfinished = parse_uint(self.text_areas[4].text().as_str(), usize::MAX);
        let daylimit = parse_uint(self.text_areas[5].text().as_str(), usize::MAX);
        match (percentage, timesfinished, daylimit) {
            (Some(percentage), Some(timesfinished), Some(daylimit)) => Some(
                NewItem {
                    topicname,
                    name,
                    isrecurring,
                    percentage: percentage as u8,
                    timesfinished,
                    daylimit,
                },
            ),
            _ => None,
        }
    }

    /// Empties every field and moves the focus to the first.
    pub fn reset(&mut self)
        requires
            old(self)@.wf(),
        ensures
            final(self)@.is_fresh(),
    {
        let mut i: usize = 0;
        while i < FIELDS
            invariant
                i <= FIELDS,
                is_form(self@.fields),
                forall|j: int| 0 <= j < FIELDS ==> (#[trigger] self@.fields[j]).wf(),
                forall|j: int| 0 <= j < i ==> (#[trigger] self@.fields[j]).is_blank(),
                forall|j: int| 0 <= j < i ==> !(#[trigger] self@.fields[j]).active,
            decreases FIELDS - i,
        {
            self.text_areas[i].clear_text();
            self.text_areas[i].inactivate();
            i += 1;
        }
        self.text_areas[0].activate();
        self.which = 0;
        self.add_given_ok = false;
    }
}

/// What a ready form asks to create is fit to be stored: the two names are
/// not empty, and the percentage is at most 100.
pub proof fn lemma_submitted_is_fit(form: FormView)
    requires
        form.wf(),
        form.add_given_ok,
    ensures
        submitted(form.fields).topicname.len() > 0,
        submitted(form.fields).name.len() > 0,
        submitted(form.fields).percentage <= MAX_PERCENTAGE,
        parsed_confirm(form.fields[2].text()) is Some,
        parsed_uint(form.fields[3].text(), MAX_PERCENTAGE as nat) is Some,
        parsed_uint(form.fields[4].text(), usize::MAX as nat) is Some,
        parsed_uint(form.fields[5].text(), usize::MAX as nat) is Some,
{
}

/// A form that is fresh is not ready.
pub proof fn lemma_fresh_is_not_ready(form: FormView)
    requires
        form.is_fresh(),
    ensures
        !form.add_given_ok,
        forall|i: int| 0 <= i < FIELDS ==> !(#[trigger] form.fields[i]).ok,
{
}

} // verus!
