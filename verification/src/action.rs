//! What a session asks its surroundings to do, and the plans that apply a
//! theme or remove the configuration: which files are touched, under which
//! paths, and how the terminal is told to reload.
use vstd::prelude::*;

verus! {

/// The environment variable that names the user's home directory.
pub const HOME_VARIABLE: &'static str = "HOME";

/// The directory of the terminal's configuration, below the home directory.
pub const CONFIG_DIR: &'static str = "/.termux";

/// The file that holds the colours, below the configuration directory.
pub const COLORS_FILE: &'static str = "/colors.properties";

/// The program that sends the reload request.
pub const RELOAD_PROGRAM: &'static str = "am";

/// What is printed when a session ends.
#[derive(Debug, Clone, PartialEq, Eq)]
pub enum Report {
    /// Nothing is printed.
    Nothing,
    /// A line on standard output.
    Output(String),
    /// A line on standard error.
    Error(String),
}

/// A report as contracts see it.
pub enum ReportView {
    Nothing,
    Output(Seq<char>),
    Error(Seq<char>),
}

impl View for Report {
    type V = ReportView;

    open spec fn view(&self) -> ReportView {
        match *self {
            Report::Nothing => ReportView::Nothing,
            Report::Output(line) => ReportView::Output(line@),
            Report::Error(line) => ReportView::Error(line@),
        }
    }
}

/// One thing a session asks its surroundings to do.
#[derive(Debug, Clone, PartialEq, Eq)]
pub enum Action {
    /// Read the environment variable `name`.
    ReadVariable { name: String },
    /// Show the menu, then `prompt` without a line break, and read one line
    /// from standard input.
    Ask { prompt: String },
    /// Create the directory `path` and the directories above it that are
    /// missing.
    CreateDirectories { path: String },
    /// Create the file `path`, or empty it if it exists, and write
    /// `contents` to it.
    WriteFile { path: String, contents: String },
    /// Remove the file `path`.
    RemoveFile { path: String },
    /// Run `program` with `arguments`, its output discarded, and wait for it
    /// to end.
    Run { program: String, arguments: Vec<String> },
    /// Print `report` and end the process with `status`.
    Finish { report: Report, status: i32 },
}

/// An action as contracts see it.
pub enum ActionView {
    ReadVariable { name: Seq<char> },
    Ask { prompt: Seq<char> },
    CreateDirectories { path: Seq<char> },
    WriteFile { path: Seq<char>, contents: Seq<char> },
    RemoveFile { path: Seq<char> },
    Run { program: Seq<char>, arguments: Seq<Seq<char>> },
    Finish { report: ReportView, status: i32 },
}

impl View for Action {
    type V = ActionView;

    open spec fn view(&self) -> ActionView {
        match *self {
            Action::ReadVariable { name } => ActionView::ReadVariable { name: name@ },
            Action::Ask { prompt } => ActionView::Ask { prompt: prompt@ },
            Action::CreateDirectories { path } => ActionView::CreateDirectories { path: path@ },
            Action::WriteFile { path, contents } => ActionView::WriteFile {
                path: path@,
                contents: contents@,
            },
            Action::RemoveFile { path } => ActionView::RemoveFile { path: path@ },
            Action::Run { program, arguments } => ActionView::Run {
                program: program@,
                arguments: arguments.deep_view(),
            },
            Action::Finish { report, status } => ActionView::Finish { report: report@, status },
        }
    }
}

impl DeepView for Action {
    type V = ActionView;

    open spec fn deep_view(&self) -> ActionView {
        self.view()
    }
}

impl ActionView {
    /// The action touches a file or a directory, or runs a program.
    pub open spec fn has_side_effect(self) -> bool {
        self is CreateDirectories || self is WriteFile || self is RemoveFile || self is Run
    }
}

/// The configuration directory of the user whose home directory is `home`.
pub open spec fn config_dir_of(home: Seq<char>) -> Seq<char> {
    home + CONFIG_DIR@
}

/// The colours file of the user whose home directory is `home`.
pub open spec fn colors_file_of(home: Seq<char>) -> Seq<char> {
    home + CONFIG_DIR@ + COLORS_FILE@
}

/// The arguments with which the reload request is sent: a broadcast, to the
/// first user, of the intent to reload the style, addressed to the terminal's
/// package.
pub open spec fn reload_arguments() -> Seq<Seq<char>> {
    seq![
        "broadcast"@,
        "--user"@,
        "0"@,
        "-a"@,
        "com.termux.app.reload_style"@,
        "com.termux"@,
    ]
}

/// The action that tells the terminal to reload its configuration.
pub open spec fn reload_action() -> ActionView {
    ActionView::Run { program: RELOAD_PROGRAM@, arguments: reload_arguments() }
}

/// The steps that put `data` into the colours file: make sure the
/// configuration directory exists, then write the file anew.
pub open spec fn write_plan(home: Seq<char>, data: Seq<char>) -> Seq<ActionView> {
    seq![
        ActionView::CreateDirectories { path: config_dir_of(home) },
        ActionView::WriteFile { path: colors_file_of(home), contents: data },
    ]
}

/// The steps that apply a theme: write its colours, then have the terminal
/// reload.
pub open spec fn apply_plan(home: Seq<char>, data: Seq<char>) -> Seq<ActionView> {
    write_plan(home, data).push(reload_action())
}

/// The steps that reset the colours: remove the file, then have the terminal
/// reload.
pub open spec fn reset_plan(home: Seq<char>) -> Seq<ActionView> {
    seq![ActionView::RemoveFile { path: colors_file_of(home) }, reload_action()]
}

/// The path of the configuration directory below `home`.
pub fn config_dir(home: &str) -> (path: String)
    ensures
        path@ == config_dir_of(home@),
{
    let mut path = String::from_str(home);
    path.append(CONFIG_DIR);
    path
}

/// The path of the colours file below `home`.
pub fn colors_file(home: &str) -> (path: String)
    ensures
        path@ == colors_file_of(home@),
{
    let mut path = config_dir(home);
    path.append(COLORS_FILE);
    path
}

/// The action that tells the terminal to reload its configuration.
pub fn reload_termux() -> (action: Action)
    ensures
        action@ == reload_action(),
{
    let mut arguments: Vec<String> = Vec::new();
    arguments.push(String::from_str("broadcast"));
    arguments.push(String::from_str("--user"));
    arguments.push(String::from_str("0"));
    arguments.push(String::from_str("-a"));
    arguments.push(String::from_str("com.termux.app.reload_style"));
    arguments.push(String::from_str("com.termux"));
    assert(arguments.deep_view() =~= reload_arguments());
    Action::Run { program: String::from_str(RELOAD_PROGRAM), arguments }
}

/// The steps that put `data` into the colours file below `home`, whatever
/// the file held before.
pub fn write_data_to_file(home: &str, data: &str) -> (plan: Vec<Action>)
    ensures
        plan.deep_view() == write_plan(home@, data@),
{
    let mut plan: Vec<Action> = Vec::new();
    plan.push(Action::CreateDirectories { path: config_dir(home) });
    plan.push(Action::WriteFile { path: colors_file(home), contents: String::from_str(data) });
    plan
}

/// The steps that apply the theme whose colours are `theme_data` for the
/// user whose home directory is `home`.
pub fn apply_theme(home: &str, theme_data: &str) -> (plan: Vec<Action>)
    ensures
        plan.deep_view() == apply_plan(home@, theme_data@),
{
    let mut plan = write_data_to_file(home, theme_data);
    plan.push(reload_termux());
    plan
}

/// The steps that reset the colours of the user whose home directory is
/// `home`.
pub fn delete_colors_file(home: &str) -> (plan: Vec<Action>)
    ensures
        plan.deep_view() == reset_plan(home@),
{
    let mut plan: Vec<Action> = Vec::new();
    plan.push(Action::RemoveFile { path: colors_file(home) });
    plan.push(reload_termux());
    plan
}

} // verus!
