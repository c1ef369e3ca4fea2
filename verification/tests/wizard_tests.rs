use layout::project::{ColorMode, ProjectType, Sides};
use layout::wizard::{
    handle_color_input, handle_domains_input, handle_multiline_input, handle_name_input,
    handle_physical_input, handle_review_input, handle_text_input, InputEvent, Step, Wizard,
};

#[test]
fn step_order_is_fixed() {
    assert_eq!(Step::Name.index(), 0);
    assert_eq!(Step::Review.index(), 8);
    assert_eq!(Step::Name.next(), Some(Step::Physical));
    assert_eq!(Step::Output.next(), Some(Step::Review));
    assert_eq!(Step::Review.next(), None);
    assert_eq!(Step::Name.prev(), None);
    assert_eq!(Step::Physical.prev(), Some(Step::Name));
    assert_eq!(Step::Name.title(), "Project Name & Type");
    assert_eq!(Step::Review.title(), "Review & Confirm");
}

#[test]
fn new_wizard_initial_state() {
    let w = Wizard::new();
    assert_eq!(w.step, Step::Name);
    assert_eq!(w.input_buf, "");
    assert_eq!(w.field_index, 0);
    assert_eq!(w.type_index, 0);
    assert_eq!(w.sides_index, 1);
    assert_eq!(w.color_mode_index, 1);
    assert_eq!(w.domain_toggles, vec![true, false, false, true, false]);
    assert!(!w.scaffolded);
}

#[test]
fn field_counts_per_step() {
    let mut w = Wizard::new();
    assert_eq!(w.field_count(), 2);
    w.step = Step::Physical;
    assert_eq!(w.field_count(), 4);
    w.step = Step::Domains;
    assert_eq!(w.field_count(), 5);
    w.step = Step::Review;
    assert_eq!(w.field_count(), 1);
}

#[test]
fn typing_a_name_and_advancing_commits_it() {
    let mut w = Wizard::new();
    handle_name_input(&mut w, InputEvent::Char(' '));
    handle_name_input(&mut w, InputEvent::Char('Z'));
    handle_name_input(&mut w, InputEvent::Char('i'));
    handle_name_input(&mut w, InputEvent::Char('n'));
    handle_name_input(&mut w, InputEvent::Char('e'));
    handle_name_input(&mut w, InputEvent::Char('!'));
    handle_name_input(&mut w, InputEvent::Backspace);
    handle_name_input(&mut w, InputEvent::Enter);
    assert_eq!(w.project.name, "Zine");
    assert_eq!(w.step, Step::Physical);
    assert_eq!(w.field_index, 0);
}

#[test]
fn name_step_type_cursor_moves_on_second_field() {
    let mut w = Wizard::new();
    handle_name_input(&mut w, InputEvent::Up);
    assert_eq!(w.type_index, 0);
    w.field_index = 1;
    handle_name_input(&mut w, InputEvent::Down);
    handle_name_input(&mut w, InputEvent::Down);
    assert_eq!(w.type_index, 2);
    handle_name_input(&mut w, InputEvent::Up);
    assert_eq!(w.type_index, 1);
    handle_name_input(&mut w, InputEvent::Enter);
    assert!(matches!(w.project.project_type, ProjectType::Zine));
}

#[test]
fn physical_step_picks_sides() {
    let mut w = Wizard::new();
    w.step = Step::Physical;
    w.field_index = 2;
    handle_physical_input(&mut w, InputEvent::Left);
    assert_eq!(w.sides_index, 0);
    handle_physical_input(&mut w, InputEvent::Enter);
    assert!(matches!(w.project.physical.sides, Sides::Single));
    assert_eq!(w.step, Step::Color);
}

#[test]
fn color_step_picks_mode() {
    let mut w = Wizard::new();
    w.step = Step::Color;
    handle_color_input(&mut w, InputEvent::Right);
    assert_eq!(w.color_mode_index, 2);
    handle_color_input(&mut w, InputEvent::Right);
    assert_eq!(w.color_mode_index, 2);
    handle_color_input(&mut w, InputEvent::Enter);
    assert!(matches!(w.project.color.mode, ColorMode::FullProcess));
}

#[test]
fn typography_fields_commit_separately() {
    let mut w = Wizard::new();
    w.step = Step::Typography;
    handle_text_input(&mut w, InputEvent::Char('A'));
    handle_text_input(&mut w, InputEvent::Tab);
    assert_eq!(w.project.typography.primary_font, "A");
    assert_eq!(w.field_index, 1);
    handle_text_input(&mut w, InputEvent::Char('B'));
    handle_text_input(&mut w, InputEvent::Enter);
    assert_eq!(w.project.typography.secondary_font, "B");
    assert_eq!(w.step, Step::Brief);
}

#[test]
fn brief_step_keeps_newlines_and_trims() {
    let mut w = Wizard::new();
    w.step = Step::Brief;
    handle_multiline_input(&mut w, InputEvent::Char('a'));
    handle_multiline_input(&mut w, InputEvent::Enter);
    handle_multiline_input(&mut w, InputEvent::Char('b'));
    handle_multiline_input(&mut w, InputEvent::Esc);
    assert_eq!(w.project.brief, "a\nb");
    assert_eq!(w.step, Step::Domains);
}

#[test]
fn domains_step_commits_toggled_names() {
    let mut w = Wizard::new();
    w.step = Step::Domains;
    // Toggle the second domain on and the first off.
    handle_domains_input(&mut w, InputEvent::Char(' '));
    handle_domains_input(&mut w, InputEvent::Down);
    handle_domains_input(&mut w, InputEvent::Char(' '));
    handle_domains_input(&mut w, InputEvent::Enter);
    assert_eq!(
        w.project.domains,
        vec!["dataviz".to_string(), "creative-production".to_string()]
    );
    assert_eq!(w.step, Step::References);
}

#[test]
fn references_step_splits_trims_and_drops_blanks() {
    let mut w = Wizard::new();
    w.step = Step::References;
    for c in "  one \n\n two\nthree ".chars() {
        if c == '\n' {
            handle_multiline_input(&mut w, InputEvent::Enter);
        } else {
            handle_multiline_input(&mut w, InputEvent::Char(c));
        }
    }
    handle_multiline_input(&mut w, InputEvent::Esc);
    assert_eq!(
        w.project.references,
        vec!["one".to_string(), "two".to_string(), "three".to_string()]
    );
    // Going back reloads the buffer as one reference per line.
    w.step = Step::References;
    w.load_step_buf();
    assert_eq!(w.input_buf, "one\ntwo\nthree");
}

#[test]
fn output_step_commits_delivery_notes() {
    let mut w = Wizard::new();
    w.step = Step::Output;
    handle_text_input(&mut w, InputEvent::Char('x'));
    handle_text_input(&mut w, InputEvent::Enter);
    assert_eq!(w.project.output.delivery_notes, "x");
    assert_eq!(w.step, Step::Review);
}

#[test]
fn review_step_requests_scaffold_once() {
    let mut w = Wizard::new();
    w.step = Step::Review;
    assert!(handle_review_input(&mut w, InputEvent::Enter));
    w.scaffolded = true;
    assert!(!handle_review_input(&mut w, InputEvent::Enter));
    assert!(!handle_review_input(&mut w, InputEvent::Char('q')));
    assert!(!handle_review_input(&mut w, InputEvent::Backspace));
    assert_eq!(w.step, Step::Output);
}

#[test]
fn go_back_stops_at_first_step() {
    let mut w = Wizard::new();
    w.go_back();
    assert_eq!(w.step, Step::Name);
    w.advance();
    assert_eq!(w.step, Step::Physical);
    w.go_back();
    assert_eq!(w.step, Step::Name);
}

#[test]
fn load_step_buf_restores_committed_text() {
    let mut w = Wizard::new();
    w.project.name = "Poster".to_string();
    w.load_step_buf();
    assert_eq!(w.input_buf, "Poster");
    w.step = Step::Physical;
    w.load_step_buf();
    assert_eq!(w.input_buf, "");
}

#[test]
fn toggle_domain_flips_under_cursor() {
    let mut w = Wizard::new();
    w.step = Step::Domains;
    w.field_index = 4;
    w.toggle_domain();
    assert_eq!(w.domain_toggles, vec![true, false, false, true, true]);
    w.field_index = 99;
    w.toggle_domain();
    assert_eq!(w.domain_toggles, vec![true, false, false, true, true]);
}

#[test]
fn available_domains_lists_all() {
    let w = Wizard::new();
    assert_eq!(
        w.available_domains(),
        vec!["design", "dataviz", "editorial", "creative-production", "agency-mix"]
    );
}
