use output_router::choice::PaginationChoice;
use output_router::config::{CommandError, ConfigField, ConfigValue, UiConfig};
use output_router::router::{ChildStderr, Ui, UiOutput, UiStderr, UiStdout};

fn full_config() -> UiConfig {
    UiConfig {
        color: Some("never".to_string()),
        paginate: Some(ConfigValue::Str("auto".to_string())),
        pager: Some(ConfigValue::Str("less".to_string())),
        progress_indicator: Some(true),
    }
}

fn terminal_ui() -> Ui {
    Ui::with_config(&full_config(), true).unwrap()
}

fn path(segments: &[&str]) -> Vec<String> {
    segments.iter().map(|s| s.to_string()).collect()
}

#[test]
fn with_config_reads_every_setting() {
    let ui = terminal_ui();
    assert!(!ui.color());
    assert!(ui.sanitize);
    assert!(ui.progress_indicator);
    assert_eq!(ui.pager_cmd.name, "less");
    assert_eq!(ui.paginate.default, PaginationChoice::Auto);
    assert_eq!(ui.output, UiOutput::Terminal);
}

#[test]
fn with_config_missing_pager_is_fatal() {
    let mut cfg = full_config();
    cfg.pager = None;
    let err = Ui::with_config(&cfg, true).unwrap_err();
    assert_eq!(err, CommandError::ConfigError(ConfigField::Pager));
}

#[test]
fn with_config_malformed_paginate_is_fatal() {
    let mut cfg = full_config();
    cfg.paginate = Some(ConfigValue::Str("page".to_string()));
    let err = Ui::with_config(&cfg, true).unwrap_err();
    assert_eq!(err, CommandError::ConfigError(ConfigField::Paginate));
}

#[test]
fn with_config_color_auto_follows_terminal() {
    let mut cfg = full_config();
    cfg.color = Some("auto".to_string());
    assert!(Ui::with_config(&cfg, true).unwrap().color());
    assert!(!Ui::with_config(&cfg, false).unwrap().color());
    cfg.color = None;
    assert!(Ui::with_config(&cfg, true).unwrap().color());
    cfg.color = Some("nonsense".to_string());
    assert!(Ui::with_config(&cfg, true).unwrap().color());
}

#[test]
fn reset_rereads_and_keeps_output_state() {
    let mut ui = terminal_ui();
    assert!(ui.request_pager(&path(&["log"]), true));
    assert!(ui.note_spawn_result(true).is_none());
    assert_eq!(ui.output, UiOutput::Paged);

    let mut cfg = full_config();
    cfg.color = Some("always".to_string());
    cfg.progress_indicator = Some(false);
    ui.reset(&cfg, false).unwrap();
    assert!(ui.color());
    assert!(!ui.progress_indicator);
    assert_eq!(ui.output, UiOutput::Paged);
}

#[test]
fn reset_error_leaves_later_settings() {
    let mut ui = terminal_ui();
    let mut cfg = full_config();
    cfg.color = Some("always".to_string());
    cfg.paginate = Some(ConfigValue::Bool(true));
    let err = ui.reset(&cfg, true).unwrap_err();
    assert_eq!(err, CommandError::ConfigError(ConfigField::Paginate));
    // The color decision was already updated; the pager command was not lost.
    assert!(ui.color());
    assert_eq!(ui.pager_cmd.name, "less");
    assert_eq!(ui.paginate.default, PaginationChoice::Auto);
}

#[test]
fn request_pager_decision_matrix() {
    let ui = terminal_ui();
    // auto policy, terminal state, real terminal: spawn.
    assert!(ui.request_pager(&path(&["log"]), true));
    // no terminal attached: no-op.
    assert!(!ui.request_pager(&path(&["log"]), false));

    let mut cfg = full_config();
    cfg.paginate = Some(ConfigValue::Str("never".to_string()));
    let ui = Ui::with_config(&cfg, true).unwrap();
    assert!(!ui.request_pager(&path(&["log"]), true));

    cfg.paginate = Some(ConfigValue::Table(vec![
        ("default".to_string(), ConfigValue::Str("always".to_string())),
        ("status".to_string(), ConfigValue::Str("never".to_string())),
    ]));
    let ui = Ui::with_config(&cfg, true).unwrap();
    assert!(ui.request_pager(&path(&["log"]), true));
    assert!(!ui.request_pager(&path(&["status"]), true));
}

#[test]
fn request_pager_is_idempotent_once_paged() {
    let mut ui = terminal_ui();
    assert!(ui.request_pager(&path(&["log"]), true));
    assert!(ui.note_spawn_result(true).is_none());
    assert_eq!(ui.output, UiOutput::Paged);
    // A second request never directs a second spawn.
    assert!(!ui.request_pager(&path(&["log"]), true));
    assert!(!ui.request_pager(&path(&[]), true));
    assert_eq!(ui.output, UiOutput::Paged);
}

#[test]
fn spawn_failure_stays_terminal_with_one_warning() {
    let mut ui = terminal_ui();
    assert!(ui.request_pager(&path(&["log"]), true));
    let warning = ui.note_spawn_result(false);
    assert_eq!(warning, Some("less".to_string()));
    assert_eq!(ui.output, UiOutput::Terminal);
    // The router still works unpaged, and would direct a fresh attempt.
    assert!(ui.request_pager(&path(&["log"]), true));
}

#[test]
fn streams_merge_when_paged() {
    let mut ui = terminal_ui();
    assert_eq!(ui.stdout(), UiStdout::Terminal);
    assert_eq!(ui.stderr(), UiStderr::Terminal);
    assert_eq!(ui.stderr_for_child(), ChildStderr::Inherit);
    ui.note_spawn_result(true);
    assert_eq!(ui.stdout(), UiStdout::Paged);
    assert_eq!(ui.stderr(), UiStderr::Paged);
    assert_eq!(ui.stderr_for_child(), ChildStderr::PagerPipe);
}

#[test]
fn formatters_carry_color_and_sanitize() {
    let ui = terminal_ui();
    let f = ui.stdout_formatter();
    assert!(!f.color);
    assert!(f.sanitize);
    assert!(!f.paged);
    let f = ui.stderr_formatter();
    assert!(!f.color);
    assert!(f.sanitize);

    assert_eq!(ui.hint().label, "hint");
    assert_eq!(ui.warning().label, "warning");
    assert_eq!(ui.error().label, "error");
    assert_eq!(ui.error().formatter, ui.stderr_formatter());
}

#[test]
fn progress_indicator_needs_terminal_shape_and_tty() {
    let mut ui = terminal_ui();
    assert!(ui.use_progress_indicator(true));
    assert!(!ui.use_progress_indicator(false));
    assert!(ui.progress_output(true).is_some());
    assert!(ui.progress_output(false).is_none());
    ui.note_spawn_result(true);
    assert!(!ui.use_progress_indicator(true));
    assert!(ui.progress_output(true).is_none());

    let mut cfg = full_config();
    cfg.progress_indicator = Some(false);
    let ui = Ui::with_config(&cfg, true).unwrap();
    assert!(!ui.use_progress_indicator(true));
}

#[test]
fn finalize_in_terminal_state_owes_no_wait() {
    let mut ui = terminal_ui();
    let before_pager = ui.pager_cmd.name.clone();
    assert!(!ui.finalize_pager());
    assert_eq!(ui.output, UiOutput::Terminal);
    assert_eq!(ui.pager_cmd.name, before_pager);
}

#[test]
fn finalize_after_paging_owes_one_wait() {
    let mut ui = terminal_ui();
    ui.request_pager(&path(&["log"]), true);
    ui.note_spawn_result(true);
    assert!(ui.finalize_pager());
    assert_eq!(ui.output, UiOutput::Terminal);
    // A second finalize finds the terminal shape: no wait.
    assert!(!ui.finalize_pager());
}

#[test]
fn sanitizer_strips_control_bytes_only_on_terminals() {
    // Attached to a terminal: printed content is sanitized.
    let ui = terminal_ui();
    let f = ui.stdout_formatter();
    assert!(f.sanitize);
    let cleaned = f.sanitize_content(&b"ok\x1b[31mred\x07 end\n".to_vec());
    assert_eq!(cleaned, b"ok[31mred end\n".to_vec());
    // Tab, line feed and carriage return survive.
    assert_eq!(f.sanitize_content(&b"a\tb\r\n".to_vec()), b"a\tb\r\n".to_vec());

    // Not a terminal: content passes through unchanged.
    let ui = Ui::with_config(&full_config(), false).unwrap();
    let f = ui.stdout_formatter();
    assert!(!f.sanitize);
    let raw = b"\x1b[31m".to_vec();
    assert_eq!(f.sanitize_content(&raw), raw);
}

#[test]
fn term_width_override_wins() {
    let ui = terminal_ui();
    assert_eq!(ui.term_width(Some(132)), Some(132));
}
