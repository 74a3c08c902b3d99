use web_sw_cor24_ocaml::demos::default_demo_index;
use web_sw_cor24_ocaml::ui::{
    input_row_key, parse_index, AppState, Clock, FollowUp, HelpTab, KeyPress, Msg, SessionReport,
    Status, DEFAULT_MAX_INSTRS,
};

fn report(instructions: u64, done: bool, halted: bool, reason: &str, awaiting: bool, out: &str) -> SessionReport {
    SessionReport {
        instructions,
        done,
        halted,
        stop_reason: reason.to_string(),
        awaiting_input: awaiting,
        clean_output: out.to_string(),
    }
}

fn idle() -> SessionReport {
    report(0, false, false, "", false, "")
}

fn key(k: &str, ctrl: bool, meta: bool) -> KeyPress {
    KeyPress { key: k.to_string(), ctrl, meta }
}

fn position(state: &AppState, name: &str) -> usize {
    state.catalog.iter().position(|d| d.name == name).unwrap()
}

#[test]
fn page_opens_on_hello() {
    let s = AppState::new();
    assert_eq!(s.selected, default_demo_index());
    assert_eq!(s.catalog[s.selected].name, "hello");
    assert_eq!(s.source, s.catalog[s.selected].source);
    assert!(matches!(s.status, Status::Idle));
    assert_eq!(s.max_instrs, DEFAULT_MAX_INSTRS);
    assert_eq!(s.help_tab, HelpTab::UserGuide);
    assert!(!s.running && !s.has_session);
}

#[test]
fn run_asks_for_a_session_and_ticks() {
    let mut s = AppState::new();
    s.update(Msg::SourceChanged("print_int 7".to_string()), None);
    let e = s.update(Msg::Run, None);
    assert_eq!(e.start_session, Some(("print_int 7".to_string(), false)));
    assert!(e.schedule_tick && e.render);
    assert_eq!(e.clock, Clock::Reset);
    assert!(s.running && s.has_session);
    assert!(matches!(s.status, Status::Running));
    let e = s.update(Msg::Tick, Some(idle()));
    assert!(e.tick_session);
    assert_eq!(e.set_switch, Some(false));
    let e = s.after_tick(report(100, false, false, "", false, "4"), true);
    assert!(e.schedule_tick);
    assert!(s.led_on);
    assert_eq!(s.output, "4");
    assert!(matches!(s.status, Status::RunningFor(100)));
    let e = s.after_tick(report(200, true, true, "halted", false, "42"), false);
    assert!(!e.schedule_tick);
    assert_eq!(e.clock, Clock::Refresh);
    assert!(!s.running && !s.error);
    assert_eq!(s.output, "42");
    match &s.status {
        Status::Finished(reason, n) => {
            assert_eq!(reason, "halted");
            assert_eq!(*n, 200);
        }
        _ => panic!("run should have finished"),
    }
}

#[test]
fn abnormal_stop_is_an_error() {
    let mut s = AppState::new();
    s.update(Msg::Run, None);
    s.after_tick(report(9, true, false, "stalled", false, ""), false);
    assert!(s.error && !s.running);
}

#[test]
fn budget_exhaustion_and_increase() {
    let mut s = AppState::new();
    s.update(Msg::Run, None);
    s.max_instrs = 10;
    let e = s.update(Msg::Tick, Some(report(10, false, false, "", false, "partial")));
    assert!(!e.tick_session);
    assert!(s.budget_exhausted && s.error && !s.running);
    assert!(matches!(s.status, Status::BudgetHalted(10)));
    assert_eq!(s.output, "partial");
    let e = s.update(Msg::IncreaseBudget, Some(idle()));
    assert_eq!(e.start_session.as_ref().map(|p| p.1), Some(false));
    assert_eq!(s.max_instrs, 40);
    assert!(s.running && !s.budget_exhausted);
    s.max_instrs = u64::MAX / 2;
    s.update(Msg::IncreaseBudget, Some(idle()));
    assert_eq!(s.max_instrs, u64::MAX);
    s.update(Msg::Run, Some(idle()));
    assert_eq!(s.max_instrs, DEFAULT_MAX_INSTRS);
}

#[test]
fn interactive_run_takes_input_with_history() {
    let mut s = AppState::new();
    let idx = position(&s, "echo-loop");
    let e = s.update(Msg::SelectDemo(idx), None);
    assert!(e.drop_session);
    assert_eq!(s.selected, idx);
    let e = s.update(Msg::Run, None);
    let (text, interactive) = e.start_session.unwrap();
    assert!(interactive);
    assert_eq!(text, s.catalog[idx].source);
    s.after_tick(report(50, false, false, "", true, "ready"), false);
    assert!(s.awaiting_input);
    assert!(matches!(s.status, Status::AwaitingInput(50)));
    s.update(Msg::InputChanged("hello".to_string()), Some(idle()));
    let e = s.update(Msg::InputSubmit, Some(report(50, false, false, "", true, "ready")));
    assert_eq!(e.feed_line.as_deref(), Some("hello"));
    assert!(e.schedule_tick);
    assert_eq!(s.input_history, vec!["hello".to_string()]);
    assert_eq!(s.output_len_at_feed, Some(5));
    assert!(!s.awaiting_input);
    assert_eq!(s.input_line, "");
    // The output has not grown yet: the interpreter is still at work.
    let e = s.after_tick(report(60, false, false, "", true, "ready"), false);
    assert!(e.schedule_tick);
    assert!(!s.awaiting_input);
    let e = s.after_tick(report(70, false, false, "", true, "ready\nhello"), false);
    assert!(!e.schedule_tick);
    assert!(s.awaiting_input);
    assert_eq!(s.output_len_at_feed, None);
    // Submitting the same line again records nothing new.
    s.update(Msg::InputChanged("hello".to_string()), Some(idle()));
    s.update(Msg::InputSubmit, Some(idle()));
    assert_eq!(s.input_history.len(), 1);
    s.awaiting_input = true;
    s.update(Msg::InputSubmit, Some(idle()));
    assert_eq!(s.input_history.len(), 1);
    s.awaiting_input = true;
    s.update(Msg::InputChanged("quit".to_string()), Some(idle()));
    s.update(Msg::InputSubmit, Some(idle()));
    assert_eq!(s.input_history, vec!["hello".to_string(), "quit".to_string()]);
    s.update(Msg::HistoryPrev, Some(idle()));
    assert_eq!(s.input_line, "quit");
    s.update(Msg::HistoryPrev, Some(idle()));
    assert_eq!(s.input_line, "hello");
    s.update(Msg::HistoryPrev, Some(idle()));
    assert_eq!(s.input_line, "hello");
    assert_eq!(s.history_cursor, Some(1));
    s.update(Msg::HistoryNext, Some(idle()));
    assert_eq!(s.input_line, "quit");
    s.update(Msg::HistoryNext, Some(idle()));
    assert_eq!(s.input_line, "");
    assert_eq!(s.history_cursor, None);
    let e = s.update(Msg::HistoryNext, Some(idle()));
    assert!(!e.render);
}

#[test]
fn submit_is_ignored_unless_awaiting_input() {
    let mut s = AppState::new();
    s.update(Msg::InputChanged("x".to_string()), None);
    let e = s.update(Msg::InputSubmit, None);
    assert!(e.feed_line.is_none() && !e.render);
    assert_eq!(s.input_line, "x");
}

#[test]
fn keys_run_stop_and_close_help() {
    let mut s = AppState::new();
    let e = s.update(Msg::KeyDown(key("Enter", true, false)), None);
    assert_eq!(e.follow_up, Some(FollowUp::Run));
    assert!(e.prevent_default);
    let e = s.update(Msg::KeyDown(key("Enter", false, true)), None);
    assert_eq!(e.follow_up, Some(FollowUp::Run));
    let e = s.update(Msg::KeyDown(key("Enter", false, false)), None);
    assert_eq!(e.follow_up, None);
    assert!(!e.prevent_default);
    let e = s.update(Msg::KeyDown(key("Escape", false, false)), None);
    assert_eq!(e.follow_up, None);
    s.update(Msg::OpenHelp, None);
    let e = s.update(Msg::KeyDown(key("Escape", false, false)), None);
    assert_eq!(e.follow_up, Some(FollowUp::CloseHelp));
    s.update(Msg::CloseHelp, None);
    assert!(!s.help_open);
    s.update(Msg::Run, None);
    let e = s.update(Msg::KeyDown(key("Escape", false, false)), Some(idle()));
    assert_eq!(e.follow_up, Some(FollowUp::Stop));
    s.update(Msg::Stop, Some(report(3, false, false, "", false, "so far")));
    assert!(!s.running);
    assert!(matches!(s.status, Status::Stopped));
    assert_eq!(s.output, "so far");
}

#[test]
fn clear_reset_and_select() {
    let mut s = AppState::new();
    let hello = s.selected;
    s.update(Msg::SourceChanged("print_int 1".to_string()), None);
    s.update(Msg::Clear, None);
    assert_eq!(s.source, "print_int 1");
    assert_eq!(s.output, "");
    s.update(Msg::ToggleS2, None);
    assert!(s.s2_on);
    s.max_instrs = 7;
    let e = s.update(Msg::Reset, None);
    assert!(e.drop_session);
    assert_eq!(s.source, s.catalog[hello].source);
    assert!(!s.s2_on);
    assert_eq!(s.max_instrs, DEFAULT_MAX_INSTRS);
    let e = s.update(Msg::SelectDemo(10_000), None);
    assert!(!e.drop_session);
    assert_eq!(s.selected, hello);
    s.update(Msg::SetHelpTab(HelpTab::LanguageReference), None);
    assert_eq!(s.help_tab, HelpTab::LanguageReference);
}

#[test]
fn toggle_s2_sets_the_switch() {
    let mut s = AppState::new();
    let e = s.update(Msg::ToggleS2, None);
    assert_eq!(e.set_switch, Some(true));
    let e = s.update(Msg::ToggleS2, None);
    assert_eq!(e.set_switch, Some(false));
}

#[test]
fn input_row_keys() {
    let (m, p) = input_row_key(key("Enter", false, false));
    assert!(matches!(m, Msg::InputSubmit) && p);
    let (m, p) = input_row_key(key("ArrowUp", false, false));
    assert!(matches!(m, Msg::HistoryPrev) && p);
    let (m, p) = input_row_key(key("ArrowDown", false, false));
    assert!(matches!(m, Msg::HistoryNext) && p);
    let (m, p) = input_row_key(key("a", false, false));
    assert!(matches!(m, Msg::KeyDown(ref k) if k.key == "a") && !p);
}

#[test]
fn dropdown_values_parse_as_indices() {
    assert_eq!(parse_index("12"), 12);
    assert_eq!(parse_index("+3"), 3);
    assert_eq!(parse_index("007"), 7);
    assert_eq!(parse_index(""), 0);
    assert_eq!(parse_index("+"), 0);
    assert_eq!(parse_index("x"), 0);
    assert_eq!(parse_index("-1"), 0);
    assert_eq!(parse_index("1 "), 0);
    assert_eq!(parse_index("99999999999999999999999"), 0);
}

#[test]
fn run_joins_auxiliary_files_with_the_edited_source() {
    let mut s = AppState::new();
    let idx = position(&s, "modules-multifile");
    s.update(Msg::SelectDemo(idx), None);
    s.update(Msg::SourceChanged("print_int (Math.double 4)\n".to_string()), None);
    let e = s.update(Msg::Run, None);
    let (text, interactive) = e.start_session.unwrap();
    assert!(!interactive);
    assert_eq!(
        text,
        "let __module = \"Math\"\nlet add x y = x + y\nlet square x = x * x\nlet double x = add x x\nlet __module = \"Main\"\nprint_int (Math.double 4)\n"
    );
}
