use overlay_hook::overlay::SharedState;
use overlay_hook::survey::{
    BugReportWin, CvarSnapshot, EssayConfig, FormConfig, OneToTenConfig, RadioChoicesConfig,
    SurveyWin, WidgetConfig, WidgetForm, WidgetState,
};

fn rating(text: &str, required: bool) -> WidgetConfig {
    WidgetConfig::OneToTen(OneToTenConfig {
        text: String::from(text),
        label_at_one: String::from("bad"),
        label_at_ten: String::from("great"),
        required,
    })
}

fn essay(text: &str, required: bool) -> WidgetConfig {
    WidgetConfig::Essay(EssayConfig { text: String::from(text), required })
}

fn radio(text: &str, required: bool) -> WidgetConfig {
    WidgetConfig::RadioChoices(RadioChoicesConfig {
        text: String::from(text),
        choices: vec![String::from("yes"), String::from("no")],
        required,
    })
}

fn sample_form() -> WidgetForm {
    let config = FormConfig {
        title: String::from("Feedback"),
        widgets: vec![rating("Rate it", true), essay("Tell us more", false), radio("Again?", true)],
    };
    WidgetForm::new(config, String::from("survey/feedback.json"))
}

#[test]
fn widget_required_and_text_follow_the_configuration() {
    let w = rating("Rate it", true);
    assert!(w.is_required());
    assert_eq!(w.text(), "Rate it");
    let w = essay("Tell us more", false);
    assert!(!w.is_required());
    assert_eq!(w.text(), "Tell us more");
    let w = radio("Again?", true);
    assert!(w.is_required());
    assert_eq!(w.text(), "Again?");
}

#[test]
fn initial_state_is_unanswered_per_widget_kind() {
    let form = sample_form();
    assert_eq!(form.state.len(), 3);
    assert!(matches!(form.state[0], WidgetState::OneToTen(None)));
    assert!(matches!(form.state[1], WidgetState::Essay(ref s) if s.is_empty()));
    assert!(matches!(form.state[2], WidgetState::RadioChoices(None)));
    assert!(!form.opened);
}

#[test]
fn answered_means_picked_or_visibly_written() {
    assert!(WidgetState::OneToTen(Some(3)).is_answered());
    assert!(!WidgetState::OneToTen(None).is_answered());
    assert!(WidgetState::RadioChoices(Some(String::from("yes"))).is_answered());
    assert!(!WidgetState::RadioChoices(None).is_answered());
    assert!(WidgetState::Essay(String::from("it crashed")).is_answered());
    assert!(!WidgetState::Essay(String::new()).is_answered());
    assert!(!WidgetState::Essay(String::from(" \t\r\n")).is_answered());
    assert!(!WidgetState::Essay(String::from("\u{2003}\u{00A0}")).is_answered());
    assert!(WidgetState::Essay(String::from("  x  ")).is_answered());
}

#[test]
fn submission_needs_every_required_answer() {
    let mut form = sample_form();
    assert!(!form.are_all_required_filled());
    form.state[0] = WidgetState::OneToTen(Some(9));
    assert!(!form.are_all_required_filled());
    form.state[2] = WidgetState::RadioChoices(Some(String::from("yes")));
    // The optional essay may stay empty.
    assert!(form.are_all_required_filled());
}

#[test]
fn reset_clears_every_answer_and_keeps_the_configuration() {
    let mut form = sample_form();
    form.state[0] = WidgetState::OneToTen(Some(9));
    form.state[1] = WidgetState::Essay(String::from("words"));
    form.reset_state();
    assert!(matches!(form.state[0], WidgetState::OneToTen(None)));
    assert!(matches!(form.state[1], WidgetState::Essay(ref s) if s.is_empty()));
    assert_eq!(form.config.title, "Feedback");
    assert_eq!(form.config_path, "survey/feedback.json");
}

#[test]
fn answers_pair_each_question_with_its_rendered_answer() {
    let mut form = sample_form();
    form.state[0] = WidgetState::OneToTen(Some(7));
    form.state[1] = WidgetState::Essay(String::from("fine"));
    form.state[2] = WidgetState::RadioChoices(Some(String::from("no")));
    let answers = form.collect_answers();
    assert_eq!(answers.len(), 3);
    assert_eq!(answers[0], (String::from("Rate it"), String::from("7")));
    assert_eq!(answers[1], (String::from("Tell us more"), String::from("fine")));
    assert_eq!(answers[2], (String::from("Again?"), String::from("no")));
}

#[test]
fn a_ten_renders_as_two_digits_and_unanswered_as_empty() {
    let mut form = sample_form();
    form.state[0] = WidgetState::OneToTen(Some(10));
    let answers = form.collect_answers();
    assert_eq!(answers[0].1, "10");
    assert_eq!(answers[1].1, "");
    assert_eq!(answers[2].1, "");
}

#[test]
fn every_decimal_width_renders_exactly() {
    assert_eq!(WidgetState::OneToTen(Some(0)).answer_text(), "0");
    assert_eq!(WidgetState::OneToTen(Some(7)).answer_text(), "7");
    assert_eq!(WidgetState::OneToTen(Some(10)).answer_text(), "10");
    assert_eq!(WidgetState::OneToTen(Some(99)).answer_text(), "99");
    assert_eq!(WidgetState::OneToTen(Some(100)).answer_text(), "100");
    assert_eq!(WidgetState::OneToTen(Some(255)).answer_text(), "255");
    assert_eq!(WidgetState::OneToTen(None).answer_text(), "");
}

#[test]
fn survey_renders_for_a_path_or_a_nonzero_number() {
    let win = SurveyWin::new(sample_form());
    let path = CvarSnapshot { text: String::from("survey/feedback.json"), int_value: 0 };
    assert!(win.is_should_render(Some(&path)).render);
    let on = CvarSnapshot { text: String::from("1"), int_value: 1 };
    assert!(win.is_should_render(Some(&on)).render);
    let off = CvarSnapshot { text: String::from("0"), int_value: 0 };
    assert!(!win.is_should_render(Some(&off)).render);
}

#[test]
fn a_missing_survey_variable_asks_for_initialisation() {
    let win = SurveyWin::new(sample_form());
    let decision = win.is_should_render(None);
    assert!(!decision.render);
    assert!(decision.initialize_cvar);
}

#[test]
fn an_open_survey_consumes_keyboard_input_only() {
    let mut win = SurveyWin::new(sample_form());
    assert!(win.on_raw_input(0x0100, 0x41));
    win.is_opened = true;
    assert!(!win.on_raw_input(0x0100, 0x41)); // key down
    assert!(!win.on_raw_input(0x0102, 0x41)); // character
    assert!(win.on_raw_input(0x0200, 0)); // mouse move passes
}

#[test]
fn bug_report_renders_only_paused_in_game_without_a_survey() {
    let win = BugReportWin::new(sample_form());
    let mut shared = SharedState::new();
    assert!(win.is_should_render(true, true, &shared));
    assert!(!win.is_should_render(false, true, &shared));
    assert!(!win.is_should_render(true, false, &shared));
    shared.surver_is_opened = true;
    assert!(!win.is_should_render(true, true, &shared));
}

#[test]
fn closing_the_bug_report_resets_the_form_and_releases_focus() {
    let mut win = BugReportWin::new(sample_form());
    let mut shared = SharedState::new();
    shared.is_overlay_focused = true;
    win.is_modal_open = true;
    win.form.state[0] = WidgetState::OneToTen(Some(2));
    win.close_window(&mut shared);
    assert!(!win.is_modal_open);
    assert!(!shared.is_overlay_focused);
    assert!(matches!(win.form.state[0], WidgetState::OneToTen(None)));
}

#[test]
fn an_open_bug_report_consumes_keyboard_input_only() {
    let mut win = BugReportWin::new(sample_form());
    assert!(win.on_raw_input(0x0101, 0x41));
    win.is_modal_open = true;
    assert!(!win.on_raw_input(0x0101, 0x41)); // key up
    assert!(win.on_raw_input(0x0201, 0)); // mouse button passes
}

#[test]
fn window_names_are_stable() {
    let survey = SurveyWin::new(sample_form());
    let report = BugReportWin::new(sample_form());
    assert_eq!(survey.name(), "Survey");
    assert_eq!(report.name(), "Bug Report");
    assert!(survey.is_open());
    assert!(report.is_open());
}
