use output_router::config::{ConfigValue, UiConfig};
use output_router::progress::{select_width, term_width};
use output_router::prompt::{
    accept_prompt_line, prompt_choice_begin, prompt_choice_step, prompt_supported,
    rendered_prompt, trimmed, yes_no_choices, yes_no_default_choice, yes_no_hint, yes_no_value,
    PromptError,
};
use output_router::router::Ui;

fn bytes(s: &str) -> Vec<u8> {
    s.as_bytes().to_vec()
}

/// Drives the yes/no question as the shell does: feed one line, interpret
/// the accepted answer, or learn that a warning and another round are owed.
fn yes_no_round(input: &str, default: Option<bool>) -> Option<bool> {
    let choices = yes_no_choices();
    let default_choice = yes_no_default_choice(&default);
    prompt_choice_step(&bytes(input), &choices, &default_choice)
        .map(|answer| yes_no_value(&answer))
}

#[test]
fn can_prompt_needs_terminal_or_override() {
    assert!(Ui::can_prompt(true, false));
    assert!(Ui::can_prompt(false, true));
    assert!(Ui::can_prompt(true, true));
    assert!(!Ui::can_prompt(false, false));
}

#[test]
fn prompt_line_strips_terminator() {
    assert_eq!(accept_prompt_line(&bytes("answer\n")), Ok(bytes("answer")));
    assert_eq!(accept_prompt_line(&bytes("answer")), Ok(bytes("answer")));
    // A bare terminator is a short read, not a cancellation.
    assert_eq!(accept_prompt_line(&bytes("\n")), Ok(bytes("")));
}

#[test]
fn empty_read_without_terminator_is_cancellation() {
    assert_eq!(accept_prompt_line(&bytes("")), Err(PromptError::Cancelled));
}

#[test]
fn trimming_removes_edge_whitespace() {
    assert_eq!(trimmed(&bytes("  yes \t\n")), bytes("yes"));
    assert_eq!(trimmed(&bytes("yes")), bytes("yes"));
    assert_eq!(trimmed(&bytes(" \t\r\n ")), bytes(""));
    // Vertical tab and form feed are whitespace too.
    assert_eq!(trimmed(&bytes("\x0b\x0cok\x0c")), bytes("ok"));
    assert_eq!(trimmed(&bytes("a b")), bytes("a b"));
}

#[test]
fn trimming_matches_unicode_whitespace() {
    // No-break space, em space and ideographic space are stripped, exactly
    // as the standard library's trim strips them.
    for padded in ["\u{a0}yes\u{a0}", "\u{2003}yes\u{3000}", "\u{85}\u{1680}yes\u{2028} "] {
        assert_eq!(trimmed(&bytes(padded)), bytes(padded.trim()));
        assert_eq!(trimmed(&bytes(padded)), bytes("yes"));
    }
    // Whitespace inside the answer stays.
    assert_eq!(trimmed(&bytes("a\u{a0}b")), bytes("a\u{a0}b"));
}

#[test]
fn choice_prompt_auto_answers_default_without_reading() {
    let default = Some(bytes("Y"));
    assert_eq!(prompt_choice_begin(false, &default), Some(bytes("Y")));
    // With capability, or without a default, input must be read.
    assert_eq!(prompt_choice_begin(true, &default), None);
    assert_eq!(prompt_choice_begin(false, &None), None);
}

#[test]
fn choice_step_accepts_exact_matches_only() {
    let choices = vec![bytes("y"), bytes("n")];
    assert_eq!(prompt_choice_step(&bytes("y\n"), &choices, &None), Some(bytes("y")));
    assert_eq!(prompt_choice_step(&bytes(" y "), &choices, &None), Some(bytes("y")));
    assert_eq!(prompt_choice_step(&bytes("Y"), &choices, &None), None);
    assert_eq!(prompt_choice_step(&bytes(""), &choices, &Some(bytes("n"))), Some(bytes("n")));
    assert_eq!(prompt_choice_step(&bytes(""), &choices, &None), None);
}

#[test]
fn yes_no_accepts_each_spelling() {
    assert_eq!(yes_no_round("", Some(true)), Some(true));
    assert_eq!(yes_no_round("y", Some(true)), Some(true));
    assert_eq!(yes_no_round("Yes", Some(true)), Some(true));
    assert_eq!(yes_no_round("YES", Some(true)), Some(true));
    assert_eq!(yes_no_round("n", Some(true)), Some(false));
    assert_eq!(yes_no_round("No", Some(true)), Some(false));
    // Unrecognized input asks for another round rather than erroring.
    assert_eq!(yes_no_round("maybe", Some(true)), None);
    // Without a default, an empty answer is not accepted either.
    assert_eq!(yes_no_round("", None), None);
}

#[test]
fn yes_no_hint_follows_default() {
    assert_eq!(yes_no_hint(&Some(true)), "(Yn)");
    assert_eq!(yes_no_hint(&Some(false)), "(yN)");
    assert_eq!(yes_no_hint(&None), "(yn)");
    assert_eq!(yes_no_default_choice(&Some(true)), Some(bytes("Y")));
    assert_eq!(yes_no_default_choice(&Some(false)), Some(bytes("N")));
    assert_eq!(yes_no_default_choice(&None), None);
}

#[test]
fn password_prompt_requires_real_terminal() {
    let cfg = UiConfig {
        color: Some("never".to_string()),
        paginate: Some(ConfigValue::Str("never".to_string())),
        pager: Some(ConfigValue::Str("less".to_string())),
        progress_indicator: Some(false),
    };
    let ui = Ui::with_config(&cfg, false).unwrap();
    assert_eq!(ui.prompt_password("pw", false), Err(PromptError::Unsupported));
}

#[test]
fn prompt_gate_matches_capability() {
    assert!(prompt_supported(true, false).is_ok());
    assert!(prompt_supported(false, true).is_ok());
    assert_eq!(prompt_supported(false, false), Err(PromptError::Unsupported));
}

#[test]
fn prompt_rendering_appends_colon_and_space() {
    assert_eq!(rendered_prompt("continue"), bytes("continue: "));
    assert_eq!(rendered_prompt(""), bytes(": "));
}

#[test]
fn free_term_width_override_wins() {
    assert_eq!(term_width(Some(80)), Some(80));
}

#[test]
fn width_selection_falls_back_to_detected_columns() {
    assert_eq!(select_width(Some(80), Some((120, 40))), Some(80));
    assert_eq!(select_width(None, Some((120, 40))), Some(120));
    assert_eq!(select_width(None, None), None);
}
