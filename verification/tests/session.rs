use termux_theme::action::{
    apply_theme, colors_file, config_dir, delete_colors_file, reload_termux, write_data_to_file,
    Action, Report, COLORS_FILE, CONFIG_DIR, HOME_VARIABLE, RELOAD_PROGRAM,
};
use termux_theme::session::{
    classify, dispatch, start, step, Command, Event, Request, State, ERROR_PREFIX, INVALID_INPUT,
    MARKER_VARIABLE, NOT_IN_TERMUX, PROMPT, STATUS_NOT_IN_TERMUX, STATUS_OK, THEME_RESET,
    THEME_UPDATED,
};
use termux_theme::theme_data::{BASE16_DEFAULT_DARK, BASE16_GREENSCREEN_DARK, ZENBURN};

fn text(value: &str) -> Event {
    Event::Text(String::from(value))
}

fn failed(cause: &str) -> Event {
    Event::Failed(String::from(cause))
}

fn read_variable(name: &str) -> Action {
    Action::ReadVariable { name: String::from(name) }
}

fn reload() -> Action {
    Action::Run {
        program: String::from("am"),
        arguments: vec![
            String::from("broadcast"),
            String::from("--user"),
            String::from("0"),
            String::from("-a"),
            String::from("com.termux.app.reload_style"),
            String::from("com.termux"),
        ],
    }
}

fn finish_with_error(line: &str, status: i32) -> Action {
    Action::Finish { report: Report::Error(String::from(line)), status }
}

fn finish_with_output(line: &str) -> Action {
    Action::Finish { report: Report::Output(String::from(line)), status: 0 }
}

/// Feeds `events` to a new session one by one and returns the state it ends
/// in and the actions it asked for.
fn play(events: Vec<Event>) -> Option<(State, Vec<Action>)> {
    let (mut state, first) = start();
    let mut actions = vec![first];
    for event in events {
        let (state_after, action) = step(state, event)?;
        state = state_after;
        actions.push(action);
    }
    Some((state, actions))
}

fn touches_the_system(action: &Action) -> bool {
    matches!(
        action,
        Action::CreateDirectories { .. }
            | Action::WriteFile { .. }
            | Action::RemoveFile { .. }
            | Action::Run { .. }
    )
}

#[test]
fn texts_of_the_session() {
    assert_eq!(MARKER_VARIABLE, "TERMUX_VERSION");
    assert_eq!(HOME_VARIABLE, "HOME");
    assert_eq!(PROMPT, "Enter theme: ");
    assert_eq!(NOT_IN_TERMUX, "Termux environment not found");
    assert_eq!(INVALID_INPUT, "Invalid input");
    assert_eq!(THEME_UPDATED, "Theme updated");
    assert_eq!(THEME_RESET, "Theme reset");
    assert_eq!(ERROR_PREFIX, "Error: ");
    assert_eq!(STATUS_OK, 0);
    assert_eq!(STATUS_NOT_IN_TERMUX, 1);
    assert_eq!(CONFIG_DIR, "/.termux");
    assert_eq!(COLORS_FILE, "/colors.properties");
    assert_eq!(RELOAD_PROGRAM, "am");
}

#[test]
fn paths_lie_below_the_home_directory() {
    assert_eq!(config_dir("/data/data/com.termux/files/home"), "/data/data/com.termux/files/home/.termux");
    assert_eq!(
        colors_file("/data/data/com.termux/files/home"),
        "/data/data/com.termux/files/home/.termux/colors.properties"
    );
    assert_eq!(config_dir(""), "/.termux");
    assert_eq!(colors_file(""), "/.termux/colors.properties");
    assert_eq!(colors_file("/home/ü"), "/home/ü/.termux/colors.properties");
}

#[test]
fn reload_is_a_broadcast_to_the_terminal() {
    assert_eq!(reload_termux(), reload());
}

#[test]
fn write_plan_creates_the_directory_then_the_file() {
    assert_eq!(
        write_data_to_file("/home/u", "background=#000000\n"),
        vec![
            Action::CreateDirectories { path: String::from("/home/u/.termux") },
            Action::WriteFile {
                path: String::from("/home/u/.termux/colors.properties"),
                contents: String::from("background=#000000\n"),
            },
        ]
    );
}

#[test]
fn apply_plan_writes_then_reloads() {
    assert_eq!(
        apply_theme("/home/u", ZENBURN),
        vec![
            Action::CreateDirectories { path: String::from("/home/u/.termux") },
            Action::WriteFile {
                path: String::from("/home/u/.termux/colors.properties"),
                contents: String::from(ZENBURN),
            },
            reload(),
        ]
    );
}

#[test]
fn apply_plan_hands_the_payload_on_unchanged() {
    let odd = "  spaces, ünïcode and no line break at the end";
    let plan = apply_theme("/h", odd);
    assert_eq!(
        plan[1],
        Action::WriteFile {
            path: String::from("/h/.termux/colors.properties"),
            contents: String::from(odd),
        }
    );
    let empty = apply_theme("/h", "");
    assert_eq!(
        empty[1],
        Action::WriteFile {
            path: String::from("/h/.termux/colors.properties"),
            contents: String::new(),
        }
    );
}

#[test]
fn reset_plan_removes_then_reloads() {
    assert_eq!(
        delete_colors_file("/home/u"),
        vec![
            Action::RemoveFile { path: String::from("/home/u/.termux/colors.properties") },
            reload(),
        ]
    );
}

#[test]
fn classify_takes_the_word_as_it_stands() {
    assert_eq!(classify("q"), Command::Quit);
    assert_eq!(classify("r"), Command::Reset);
    assert_eq!(classify("3"), Command::Apply(BASE16_GREENSCREEN_DARK));
    assert_eq!(classify("99"), Command::Invalid);
    assert_eq!(classify(""), Command::Invalid);
    assert_eq!(classify(" q"), Command::Invalid);
    assert_eq!(classify("r\n"), Command::Invalid);
    assert_eq!(classify("  3  "), Command::Invalid);
}

#[test]
fn dispatch_knows_the_reserved_keys() {
    assert_eq!(dispatch("q"), Command::Quit);
    assert_eq!(dispatch("r"), Command::Reset);
    assert_eq!(dispatch("q\n"), Command::Quit);
    assert_eq!(dispatch("  r\t\n"), Command::Reset);
}

#[test]
fn dispatch_is_case_sensitive() {
    assert_eq!(dispatch("Q"), Command::Invalid);
    assert_eq!(dispatch("R"), Command::Invalid);
    assert_eq!(dispatch("quit"), Command::Invalid);
    assert_eq!(dispatch("reset"), Command::Invalid);
}

#[test]
fn dispatch_finds_themes_by_key() {
    assert_eq!(dispatch("1"), Command::Apply(BASE16_DEFAULT_DARK));
    assert_eq!(dispatch("15"), Command::Apply(ZENBURN));
    assert_eq!(dispatch("15\n"), Command::Apply(ZENBURN));
}

#[test]
fn padded_input_dispatches_like_the_bare_key() {
    assert_eq!(dispatch("  3  "), dispatch("3"));
    assert_eq!(dispatch("  3  "), Command::Apply(BASE16_GREENSCREEN_DARK));
    assert_eq!(dispatch("\t3\r\n"), dispatch("3"));
    assert_eq!(dispatch(" q "), dispatch("q"));
    assert_eq!(dispatch(" 99 "), dispatch("99"));
}

#[test]
fn dispatch_rejects_what_is_no_key() {
    assert_eq!(dispatch("99"), Command::Invalid);
    assert_eq!(dispatch("0"), Command::Invalid);
    assert_eq!(dispatch("16"), Command::Invalid);
    assert_eq!(dispatch("1 5"), Command::Invalid);
    assert_eq!(dispatch("1q"), Command::Invalid);
    assert_eq!(dispatch("dracula"), Command::Invalid);
}

#[test]
fn empty_line_is_invalid_input() {
    assert_eq!(dispatch(""), Command::Invalid);
    assert_eq!(dispatch("\n"), Command::Invalid);
    assert_eq!(dispatch("   "), Command::Invalid);
}

#[test]
fn session_begins_with_the_marker_variable() {
    let (state, action) = start();
    assert_eq!(state, State::Gate);
    assert_eq!(action, read_variable("TERMUX_VERSION"));
}

#[test]
fn key_one_writes_base16_default_dark() {
    let events = vec![
        text("0.118.0"),
        text("1\n"),
        text("/data/data/com.termux/files/home"),
        Event::Done,
        Event::Done,
        Event::Done,
    ];
    let (state, actions) = play(events).unwrap();
    assert_eq!(state, State::Finished);
    assert_eq!(
        actions,
        vec![
            read_variable("TERMUX_VERSION"),
            Action::Ask { prompt: String::from("Enter theme: ") },
            read_variable("HOME"),
            Action::CreateDirectories {
                path: String::from("/data/data/com.termux/files/home/.termux"),
            },
            Action::WriteFile {
                path: String::from("/data/data/com.termux/files/home/.termux/colors.properties"),
                contents: String::from(BASE16_DEFAULT_DARK),
            },
            reload(),
            finish_with_output("Theme updated"),
        ]
    );
}

#[test]
fn quit_ends_the_session_with_nothing_touched() {
    let (state, actions) = play(vec![text("0.118.0"), text("q\n")]).unwrap();
    assert_eq!(state, State::Finished);
    assert_eq!(
        actions,
        vec![
            read_variable("TERMUX_VERSION"),
            Action::Ask { prompt: String::from("Enter theme: ") },
            Action::Finish { report: Report::Nothing, status: 0 },
        ]
    );
    assert!(!actions.iter().any(touches_the_system));
}

#[test]
fn reset_removes_the_file_and_reloads() {
    let events = vec![text("0.118.0"), text("r\n"), text("/home/u"), Event::Done, Event::Done];
    let (state, actions) = play(events).unwrap();
    assert_eq!(state, State::Finished);
    assert_eq!(
        actions,
        vec![
            read_variable("TERMUX_VERSION"),
            Action::Ask { prompt: String::from("Enter theme: ") },
            read_variable("HOME"),
            Action::RemoveFile { path: String::from("/home/u/.termux/colors.properties") },
            reload(),
            finish_with_output("Theme reset"),
        ]
    );
}

#[test]
fn unknown_key_is_reported_as_invalid_input() {
    let (state, actions) = play(vec![text("0.118.0"), text("99\n")]).unwrap();
    assert_eq!(state, State::Finished);
    assert_eq!(
        actions,
        vec![
            read_variable("TERMUX_VERSION"),
            Action::Ask { prompt: String::from("Enter theme: ") },
            finish_with_error("Invalid input", 0),
        ]
    );
    assert!(!actions.iter().any(touches_the_system));
}

#[test]
fn missing_marker_ends_the_session_with_status_one() {
    let (state, actions) = play(vec![failed("environment variable not found")]).unwrap();
    assert_eq!(state, State::Finished);
    assert_eq!(
        actions,
        vec![
            read_variable("TERMUX_VERSION"),
            finish_with_error("Termux environment not found", 1),
        ]
    );
}

#[test]
fn empty_marker_still_counts_as_present() {
    let (state, actions) = play(vec![text("")]).unwrap();
    assert_eq!(state, State::AwaitingInput);
    assert_eq!(actions[1], Action::Ask { prompt: String::from("Enter theme: ") });
}

#[test]
fn missing_home_is_reported_and_nothing_is_touched() {
    for line in ["4", "r"] {
        let events = vec![text("0.118.0"), text(line), failed("environment variable not found")];
        let (state, actions) = play(events).unwrap();
        assert_eq!(state, State::Finished);
        assert_eq!(actions.len(), 4);
        assert_eq!(actions[2], read_variable("HOME"));
        assert_eq!(actions[3], finish_with_error("Error: environment variable not found", 0));
        assert!(!actions.iter().any(touches_the_system));
    }
}

#[test]
fn failed_directory_ends_the_session_before_the_write() {
    let events =
        vec![text("0.118.0"), text("2"), text("/home/u"), failed("Permission denied (os error 13)")];
    let (state, actions) = play(events).unwrap();
    assert_eq!(state, State::Finished);
    assert_eq!(actions.len(), 5);
    assert_eq!(actions[3], Action::CreateDirectories { path: String::from("/home/u/.termux") });
    assert_eq!(actions[4], finish_with_error("Error: Permission denied (os error 13)", 0));
}

#[test]
fn failed_write_ends_the_session_before_the_reload() {
    let events = vec![
        text("0.118.0"),
        text("2"),
        text("/home/u"),
        Event::Done,
        failed("No space left on device (os error 28)"),
    ];
    let (state, actions) = play(events).unwrap();
    assert_eq!(state, State::Finished);
    assert_eq!(actions.len(), 6);
    assert_eq!(actions[5], finish_with_error("Error: No space left on device (os error 28)", 0));
    assert!(!actions.iter().any(|action| matches!(action, Action::Run { .. })));
}

#[test]
fn failed_reload_is_reported_after_the_write() {
    let events = vec![
        text("0.118.0"),
        text("2"),
        text("/home/u"),
        Event::Done,
        Event::Done,
        failed("No such file or directory (os error 2)"),
    ];
    let (state, actions) = play(events).unwrap();
    assert_eq!(state, State::Finished);
    assert_eq!(actions.len(), 7);
    assert_eq!(actions[5], reload());
    assert_eq!(actions[6], finish_with_error("Error: No such file or directory (os error 2)", 0));
}

#[test]
fn reset_of_an_absent_file_is_an_error() {
    let events = vec![
        text("0.118.0"),
        text("r"),
        text("/home/u"),
        failed("No such file or directory (os error 2)"),
    ];
    let (state, actions) = play(events).unwrap();
    assert_eq!(state, State::Finished);
    assert_eq!(actions.len(), 5);
    assert_eq!(
        actions[3],
        Action::RemoveFile { path: String::from("/home/u/.termux/colors.properties") }
    );
    assert_eq!(actions[4], finish_with_error("Error: No such file or directory (os error 2)", 0));
    assert!(!actions.iter().any(|action| matches!(action, Action::Run { .. })));
}

#[test]
fn failed_reload_after_reset_is_reported() {
    let events =
        vec![text("0.118.0"), text("r"), text("/home/u"), Event::Done, failed("am: not found")];
    let (state, actions) = play(events).unwrap();
    assert_eq!(state, State::Finished);
    assert_eq!(actions[5], finish_with_error("Error: am: not found", 0));
}

#[test]
fn empty_cause_is_reported_with_the_prefix_alone() {
    let events = vec![text("0.118.0"), text("r"), failed("")];
    let (_, actions) = play(events).unwrap();
    assert_eq!(actions[3], finish_with_error("Error: ", 0));
}

#[test]
fn finished_session_takes_no_event() {
    assert_eq!(step(State::Finished, Event::Done), None);
    assert_eq!(step(State::Finished, text("1")), None);
    assert_eq!(step(State::Finished, failed("x")), None);
    assert_eq!(play(vec![text("0.118.0"), text("q"), Event::Done]), None);
    assert_eq!(play(vec![failed("x"), text("1")]), None);
}

#[test]
fn events_that_answer_nothing_are_refused() {
    assert_eq!(step(State::Gate, Event::Done), None);
    assert_eq!(step(State::AwaitingInput, Event::Done), None);
    assert_eq!(step(State::AwaitingInput, failed("stdin closed")), None);
    assert_eq!(step(State::AwaitingHome { request: Request::Reset }, Event::Done), None);
    assert_eq!(
        step(State::Running { request: Request::Reset, pending: vec![] }, text("x")),
        None
    );
}

#[test]
fn session_asks_for_the_home_directory_on_a_request() {
    assert_eq!(
        step(State::AwaitingInput, text(" 3 ")),
        Some((
            State::AwaitingHome { request: Request::Apply(BASE16_GREENSCREEN_DARK) },
            read_variable("HOME"),
        ))
    );
    assert_eq!(
        step(State::AwaitingInput, text("r")),
        Some((State::AwaitingHome { request: Request::Reset }, read_variable("HOME")))
    );
}

#[test]
fn running_session_hands_out_pending_steps_in_order() {
    let state = State::Running { request: Request::Reset, pending: vec![reload()] };
    let (state, action) = step(state, Event::Done).unwrap();
    assert_eq!(action, reload());
    assert_eq!(state, State::Running { request: Request::Reset, pending: vec![] });
    let (state, action) = step(state, Event::Done).unwrap();
    assert_eq!(state, State::Finished);
    assert_eq!(action, finish_with_output("Theme reset"));
}

#[test]
fn no_session_takes_more_than_six_events() {
    let mut events = vec![text("0.118.0"), text("1"), text("/home/u")];
    for _ in 0..4 {
        events.push(Event::Done);
    }
    assert_eq!(play(events), None);
}

#[test]
fn padded_line_runs_the_same_session() {
    let bare = play(vec![text("v"), text("3"), text("/h"), Event::Done, Event::Done, Event::Done]);
    let padded =
        play(vec![text("v"), text("  3  "), text("/h"), Event::Done, Event::Done, Event::Done]);
    assert!(bare.is_some());
    assert_eq!(bare, padded);
}
