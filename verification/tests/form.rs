use finish_it::add::get_text_areas;
use finish_it::add::validate_text_areas;
use finish_it::add::TextAreaContainer;
use finish_it::form::Form;
use finish_it::input::Key;
use finish_it::input::KeyInput;
use finish_it::validate::AreaType;
use tui::buffer::Buffer;
use tui::layout::Rect;
use tui::widgets::Widget;

fn type_into(field: &mut TextAreaContainer, text: &str) {
    for c in text.chars() {
        assert!(field.input(&KeyInput::plain(Key::Char(c))));
    }
}

fn type_in_form(form: &mut Form, text: &str) {
    for c in text.chars() {
        assert!(form.input(&KeyInput::plain(Key::Char(c))));
    }
}

fn fill(form: &mut Form, texts: [&str; 6]) {
    for (i, text) in texts.iter().enumerate() {
        type_in_form(form, text);
        if i + 1 < texts.len() {
            form.focus_next();
        }
    }
}

fn field_texts(form: &Form) -> Vec<String> {
    form.text_areas().iter().map(|f| f.text().clone()).collect()
}

#[test]
fn new_field_is_empty_and_invalid() {
    let field = TextAreaContainer::new("Label".to_string(), AreaType::String);
    assert_eq!(field.title(), "Label");
    assert_eq!(field.area_type(), AreaType::String);
    assert_eq!(field.text(), "");
    assert_eq!(field.is_ok(), 0);
    assert!(!field.is_active());
    assert_eq!(field.text_area().inner.lines(), [""]);
}

#[test]
fn typing_validates_the_field_anew() {
    let mut field = TextAreaContainer::new("%".to_string(), AreaType::Percentage);
    type_into(&mut field, "10");
    assert_eq!(field.text(), "10");
    assert_eq!(field.is_ok(), 1);
    type_into(&mut field, "0");
    assert_eq!(field.text(), "100");
    assert_eq!(field.is_ok(), 1);
    type_into(&mut field, "1");
    assert_eq!(field.text(), "1001");
    assert_eq!(field.is_ok(), 0);
    assert!(field.input(&KeyInput::plain(Key::Backspace)));
    assert_eq!(field.text(), "100");
    assert_eq!(field.is_ok(), 1);
}

#[test]
fn keys_that_do_not_modify_leave_the_field_alone() {
    let mut field = TextAreaContainer::new("n".to_string(), AreaType::UInt);
    type_into(&mut field, "12");
    assert!(!field.input(&KeyInput::plain(Key::Left)));
    assert!(!field.input(&KeyInput::plain(Key::Null)));
    assert!(!field.input(&KeyInput::plain(Key::Insert)));
    assert!(!field.input(&KeyInput::plain(Key::Home)));
    assert_eq!(field.text(), "12");
    assert_eq!(field.is_ok(), 1);
    assert!(field.input(&KeyInput::plain(Key::Delete)));
    assert_eq!(field.text(), "2");
    assert!(!field.input(&KeyInput::plain(Key::Backspace)));
    assert_eq!(field.text(), "2");
}

#[test]
fn modifiers_reach_the_text_area() {
    let mut field = TextAreaContainer::new("t".to_string(), AreaType::String);
    type_into(&mut field, "ab cd");
    let kill_word = KeyInput { key: Key::Char('w'), ctrl: true, alt: false, other: false };
    assert!(field.input(&kill_word));
    assert_eq!(field.text(), "ab ");
    assert_eq!(field.is_ok(), 1);
    let to_head = KeyInput { key: Key::Char('a'), ctrl: true, alt: false, other: false };
    assert!(!field.input(&to_head));
    let kill_line = KeyInput { key: Key::Char('k'), ctrl: true, alt: false, other: false };
    assert!(field.input(&kill_line));
    assert_eq!(field.text(), "");
    assert_eq!(field.is_ok(), 0);
}

#[test]
fn clear_text_empties_even_a_field_of_several_lines() {
    let mut field = TextAreaContainer::new("t".to_string(), AreaType::String);
    type_into(&mut field, "first");
    let newline = KeyInput { key: Key::Char('m'), ctrl: true, alt: false, other: false };
    assert!(field.input(&newline));
    type_into(&mut field, "second");
    assert_eq!(field.text(), "first");
    assert_eq!(field.text_area().inner.lines(), ["first", "second"]);
    field.activate();
    field.clear_text();
    assert_eq!(field.text(), "");
    assert_eq!(field.text_area().inner.lines(), [""]);
    assert_eq!(field.is_ok(), 0);
    assert!(field.is_active());
    assert_eq!(field.title(), "t");
}

#[test]
fn validate_keeps_a_field_as_it_is() {
    let mut field = TextAreaContainer::new("t".to_string(), AreaType::Confirm);
    field.validate();
    assert_eq!(field.is_ok(), 0);
    type_into(&mut field, "Yes");
    field.validate();
    assert_eq!(field.is_ok(), 1);
    assert_eq!(field.text(), "Yes");
}

#[test]
fn activate_and_inactivate_move_the_highlight() {
    let mut field = TextAreaContainer::new("t".to_string(), AreaType::String);
    field.activate();
    assert!(field.is_active());
    field.inactivate();
    assert!(!field.is_active());
}

#[test]
fn inner_data_is_trimmed() {
    let mut field = TextAreaContainer::new("t".to_string(), AreaType::String);
    type_into(&mut field, "  my topic \t");
    assert_eq!(field.text(), "  my topic \t");
    assert_eq!(field.get_inner_data(), "my topic");
    let mut number = TextAreaContainer::new("n".to_string(), AreaType::UInt);
    type_into(&mut number, "42");
    assert_eq!(number.get_inner_data(), "42");
    let empty = TextAreaContainer::new("n".to_string(), AreaType::UInt);
    assert_eq!(empty.get_inner_data(), "");
}

#[test]
fn inner_data_of_an_answer_is_its_flag() {
    let mut yes = TextAreaContainer::new("r".to_string(), AreaType::Confirm);
    type_into(&mut yes, "Yes");
    assert_eq!(yes.get_inner_data(), "1");
    let mut no = TextAreaContainer::new("r".to_string(), AreaType::Confirm);
    type_into(&mut no, "n");
    assert_eq!(no.get_inner_data(), "0");
    let mut padded = TextAreaContainer::new("r".to_string(), AreaType::Confirm);
    type_into(&mut padded, " y ");
    assert_eq!(padded.is_ok(), 0);
    assert_eq!(padded.get_inner_data(), "1");
    let mut other = TextAreaContainer::new("r".to_string(), AreaType::Confirm);
    type_into(&mut other, "perhaps");
    assert_eq!(other.get_inner_data(), "0");
}

#[test]
fn text_areas_are_the_six_fields_of_the_form() {
    let areas = get_text_areas();
    let titles: Vec<&str> = areas.iter().map(|a| a.title().as_str()).collect();
    assert_eq!(
        titles,
        [
            "Topic Name",
            "Item Name",
            "Is Recurring? (Yes OR No)",
            "% Completed [0, 100]",
            "# Completed [0, ...]",
            "Day Limit [0, ...]",
        ]
    );
    let kinds: Vec<AreaType> = areas.iter().map(|a| a.area_type()).collect();
    assert_eq!(
        kinds,
        [
            AreaType::String,
            AreaType::String,
            AreaType::Confirm,
            AreaType::Percentage,
            AreaType::UInt,
            AreaType::UInt,
        ]
    );
    for (i, area) in areas.iter().enumerate() {
        assert_eq!(area.text(), "");
        assert_eq!(area.is_ok(), 0);
        assert_eq!(area.is_active(), i == 0);
    }
    assert!(!validate_text_areas(&areas));
}

#[test]
fn text_areas_are_ready_when_every_field_is_valid() {
    let mut areas = get_text_areas();
    let texts = ["books", "read", "no", "0", "0", "30"];
    for (i, text) in texts.iter().enumerate() {
        assert!(!validate_text_areas(&areas));
        type_into(&mut areas[i], text);
    }
    assert!(validate_text_areas(&areas));
    type_into(&mut areas[3], "00");
    assert!(validate_text_areas(&areas));
    type_into(&mut areas[3], "101");
    assert!(!validate_text_areas(&areas));
}

#[test]
fn new_form_is_fresh() {
    let form = Form::new();
    assert_eq!(form.which(), 0);
    assert!(!form.add_given_ok());
    assert!(form.try_submit().is_none());
    assert_eq!(field_texts(&form), ["", "", "", "", "", ""]);
}

#[test]
fn focus_is_clamped_at_both_ends() {
    let mut form = Form::new();
    form.focus_previous();
    assert_eq!(form.which(), 0);
    assert!(form.text_areas()[0].is_active());
    for expected in 1..6 {
        form.focus_next();
        assert_eq!(form.which(), expected);
        for (i, area) in form.text_areas().iter().enumerate() {
            assert_eq!(area.is_active(), i == expected);
        }
    }
    form.focus_next();
    assert_eq!(form.which(), 5);
    assert!(form.text_areas()[5].is_active());
    form.focus_previous();
    assert_eq!(form.which(), 4);
    assert!(form.text_areas()[4].is_active());
    assert!(!form.text_areas()[5].is_active());
}

#[test]
fn input_goes_to_the_focused_field_only() {
    let mut form = Form::new();
    form.focus_next();
    type_in_form(&mut form, "read");
    assert_eq!(field_texts(&form), ["", "read", "", "", "", ""]);
    assert_eq!(form.which(), 1);
    assert_eq!(form.text_areas()[1].is_ok(), 1);
    assert!(!form.add_given_ok());
    assert!(!form.input(&KeyInput::plain(Key::Left)));
    assert_eq!(field_texts(&form), ["", "read", "", "", "", ""]);
}

#[test]
fn form_is_ready_exactly_when_every_field_is_valid() {
    let mut form = Form::new();
    fill(&mut form, ["books", "read", "yes", "10", "2", ""]);
    assert!(!form.add_given_ok());
    assert!(form.try_submit().is_none());
    type_in_form(&mut form, "7");
    assert!(form.add_given_ok());
    assert!(form.input(&KeyInput::plain(Key::Backspace)));
    assert!(!form.add_given_ok());
    type_in_form(&mut form, "x");
    assert!(!form.add_given_ok());
}

#[test]
fn values_are_what_the_fields_denote() {
    let mut form = Form::new();
    fill(&mut form, [" books ", "read a lot", "Y", "+100", "007", "30"]);
    assert!(form.add_given_ok());
    let values = form.try_submit().expect("a ready form");
    assert_eq!(values.topicname, "books");
    assert_eq!(values.name, "read a lot");
    assert!(values.isrecurring);
    assert_eq!(values.percentage, 100);
    assert_eq!(values.timesfinished, 7);
    assert_eq!(values.daylimit, 30);
}

#[test]
fn values_of_a_one_shot_item() {
    let mut form = Form::new();
    fill(&mut form, ["t", "i", "No", "0", "0", "0"]);
    let values = form.try_submit().expect("a ready form");
    assert_eq!(values.topicname, "t");
    assert_eq!(values.name, "i");
    assert!(!values.isrecurring);
    assert_eq!(values.percentage, 0);
    assert_eq!(values.timesfinished, 0);
    assert_eq!(values.daylimit, 0);
}

#[test]
fn reset_makes_the_form_fresh() {
    let mut form = Form::new();
    fill(&mut form, ["books", "read", "yes", "10", "2", "7"]);
    assert!(form.add_given_ok());
    form.reset();
    assert_eq!(form.which(), 0);
    assert!(!form.add_given_ok());
    assert_eq!(field_texts(&form), ["", "", "", "", "", ""]);
    for (i, area) in form.text_areas().iter().enumerate() {
        assert_eq!(area.is_ok(), 0);
        assert_eq!(area.is_active(), i == 0);
    }
    assert_eq!(form.text_areas()[0].title(), "Topic Name");
    assert_eq!(form.text_areas()[5].title(), "Day Limit [0, ...]");
}

#[test]
fn typing_inserts_at_the_cursor() {
    let mut field = TextAreaContainer::new("t".to_string(), AreaType::String);
    type_into(&mut field, "ac");
    assert!(!field.input(&KeyInput::plain(Key::Left)));
    type_into(&mut field, "b");
    assert_eq!(field.text(), "abc");
    assert_eq!(field.text_area().inner.cursor(), (0, 2));
    assert!(field.input(&KeyInput::plain(Key::Backspace)));
    assert_eq!(field.text(), "ac");
    assert_eq!(field.text_area().inner.cursor(), (0, 1));
    assert!(field.input(&KeyInput::plain(Key::Backspace)));
    assert_eq!(field.text(), "c");
    assert!(!field.input(&KeyInput::plain(Key::Backspace)));
    assert_eq!(field.text(), "c");
    assert_eq!(field.text_area().inner.cursor(), (0, 0));
}

#[test]
fn typing_goes_to_the_line_of_the_cursor() {
    let mut field = TextAreaContainer::new("t".to_string(), AreaType::UInt);
    type_into(&mut field, "12");
    let newline = KeyInput { key: Key::Char('m'), ctrl: true, alt: false, other: false };
    assert!(field.input(&newline));
    type_into(&mut field, "x\u{00e9}");
    assert_eq!(field.text(), "12");
    assert_eq!(field.is_ok(), 1);
    assert_eq!(field.text_area().inner.lines(), ["12", "x\u{00e9}"]);
    assert_eq!(field.text_area().inner.cursor(), (1, 2));
    assert!(field.input(&KeyInput::plain(Key::Backspace)));
    assert_eq!(field.text_area().inner.lines(), ["12", "x"]);
}

#[test]
fn try_submit_needs_the_focus_on_the_last_field() {
    let mut form = Form::new();
    fill(&mut form, ["books", "read", "yes", "10", "2", "7"]);
    assert!(form.try_submit().is_some());
    form.focus_previous();
    assert!(form.add_given_ok());
    assert!(form.try_submit().is_none());
    form.focus_next();
    assert!(form.try_submit().is_some());
}

#[test]
fn delete_removes_the_character_at_the_cursor() {
    let mut field = TextAreaContainer::new("t".to_string(), AreaType::String);
    type_into(&mut field, "abc");
    assert!(!field.input(&KeyInput::plain(Key::Delete)));
    assert_eq!(field.text(), "abc");
    assert!(!field.input(&KeyInput::plain(Key::Left)));
    assert!(!field.input(&KeyInput::plain(Key::Left)));
    assert!(field.input(&KeyInput::plain(Key::Delete)));
    assert_eq!(field.text(), "ac");
    assert_eq!(field.text_area().inner.cursor(), (0, 1));
    assert!(field.input(&KeyInput::plain(Key::Delete)));
    assert_eq!(field.text(), "a");
    assert_eq!(field.text_area().inner.cursor(), (0, 1));
    assert_eq!(field.is_ok(), 1);
}

#[test]
fn keys_that_scroll_by_a_page_change_nothing() {
    let mut field = TextAreaContainer::new("t".to_string(), AreaType::UInt);
    type_into(&mut field, "12");
    let keys = [
        KeyInput::plain(Key::PageUp),
        KeyInput::plain(Key::PageDown),
        KeyInput { key: Key::PageUp, ctrl: true, alt: true, other: true },
        KeyInput { key: Key::Char('v'), ctrl: true, alt: false, other: false },
        KeyInput { key: Key::Char('v'), ctrl: false, alt: true, other: false },
    ];
    for key in keys {
        assert!(!field.input(&key));
        assert_eq!(field.text(), "12");
        assert_eq!(field.text_area().inner.cursor(), (0, 2));
        assert_eq!(field.is_ok(), 1);
    }
    type_into(&mut field, "v");
    assert_eq!(field.text(), "12v");
    assert_eq!(field.is_ok(), 0);
}

#[test]
fn keys_that_scroll_by_a_page_are_safe_on_a_very_tall_area() {
    let mut field = TextAreaContainer::new("t".to_string(), AreaType::String);
    type_into(&mut field, "ab");
    let tall = Rect { x: 0, y: 0, width: 1, height: 32768 };
    let mut buffer = Buffer::empty(tall);
    field.text_area().inner.widget().render(tall, &mut buffer);
    assert!(!field.input(&KeyInput::plain(Key::PageUp)));
    assert!(!field.input(&KeyInput::plain(Key::PageDown)));
    assert!(!field.input(&KeyInput { key: Key::Char('v'), ctrl: true, alt: false, other: false }));
    assert!(!field.input(&KeyInput { key: Key::Char('v'), ctrl: false, alt: true, other: false }));
    assert_eq!(field.text(), "ab");
    assert_eq!(field.text_area().inner.cursor(), (0, 2));
}
