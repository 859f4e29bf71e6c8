//! Setting up the MCP server: its directory, its files and its configuration.

use crate::cli::McpCommand;
use crate::cli::OutputFormat;
use crate::github;
use crate::json;
use crate::json::Json;
use crate::place;
use crate::place::Place;
use crate::place::PlaceView;
use crate::report;
use crate::report::Fields;
use crate::report::Line;
use crate::report::LineView;
use crate::text;
use serde_json::Value;
use vstd::prelude::*;
use vstd::string::*;

verus! {

/// The directory of the repository that holds the MCP server.
pub const REPOSITORY_DIR: &'static str = "screenpipe-integrations/screenpipe-mcp";

/// The argument that a command is run with to see whether it is there.
pub const PROBE_ARGUMENT: &'static str = "--version";

/// Tells whether a command is there, given how its run went: whether it
/// succeeded, or that it could not be run.
pub fn is_command_available(run: Option<bool>) -> (b: bool)
    ensures
        b == (run == Some(true)),
{
    match run {
        Some(success) => success,
        None => false,
    }
}

/// Where the MCP server goes: into the directory that the user gave, or into
/// `mcp` in the base directory.
pub open spec fn mcp_place(command: McpCommand, base: PlaceView) -> PlaceView {
    match command {
        McpCommand::Setup { directory, .. } => match directory {
            Some(path) => place::given_place(path@),
            None => base.join("mcp"@),
        },
    }
}

/// Where the MCP server goes.
pub fn mcp_directory(command: &McpCommand, base: &Place) -> (r: Place)
    ensures
        r@ == mcp_place(*command, base@),
{
    match command {
        McpCommand::Setup { directory, .. } => match directory {
            Some(path) => Place::given(path.as_str()),
            None => base.join("mcp"),
        },
    }
}

/// Where the configuration of the MCP server stands: in its directory.
pub open spec fn config_place(directory: PlaceView) -> PlaceView {
    directory.join("config.json"@)
}

/// Where the configuration of the MCP server stands.
pub fn mcp_config_file(directory: &Place) -> (r: Place)
    ensures
        r@ == config_place(directory@),
{
    directory.join("config.json")
}

/// How the places of the MCP server are shown on this machine, where that is
/// up to the machine: the text of the path that `mcp` in the base directory
/// stands for, and that of the path of the configuration file.
#[derive(Debug, PartialEq, Eq)]
pub struct Shown {
    pub default_directory: String,
    pub config_file: String,
}

/// How the directory of the MCP server is shown: as the user gave it, or as
/// the machine shows the one in the base directory.
pub open spec fn directory_text(command: McpCommand, shown: Shown) -> Seq<char> {
    match command {
        McpCommand::Setup { directory, .. } => match directory {
            Some(path) => path@,
            None => shown.default_directory@,
        },
    }
}

/// How the directory of the MCP server is shown.
pub fn shown_directory(command: &McpCommand, shown: &Shown) -> (r: String)
    ensures
        r@ == directory_text(*command, *shown),
{
    match command {
        McpCommand::Setup { directory, .. } => match directory {
            Some(path) => path.clone(),
            None => shown.default_directory.clone(),
        },
    }
}

/// A directory that the user gave is both where the MCP server goes and what
/// is shown, whatever the base directory and the machine.
pub proof fn law_a_given_directory_is_shown_as_given(
    command: McpCommand,
    base: PlaceView,
    shown: Shown,
)
    requires
        given_directory(command) is Some,
    ensures
        set_up(command, base, shown).place() == place::given_place(given_directory(command)->0),
        set_up(command, base, shown).directory == given_directory(command)->0,
{
}

/// The directory that the user gave, if any.
pub open spec fn given_directory(command: McpCommand) -> Option<Seq<char>> {
    match command {
        McpCommand::Setup { directory, .. } => match directory {
            Some(path) => Some(path@),
            None => None,
        },
    }
}

/// The arguments that the MCP server is run with.
pub open spec fn run_arguments(directory: Seq<char>, port: u16) -> Seq<Seq<char>> {
    seq![
        "--directory"@,
        directory,
        "run"@,
        "screenpipe-mcp"@,
        "--port"@,
        text::decimal(port as nat),
    ]
}

/// The configuration of the MCP server: how to run it.
pub open spec fn config_document(directory: Seq<char>, port: u16) -> Json {
    Json::Object(
        report::no_fields().insert(
            "mcpServers"@,
            Json::Object(
                report::no_fields().insert(
                    "screenpipe"@,
                    Json::Object(
                        report::no_fields().insert("command"@, Json::Str("uv"@)).insert(
                            "args"@,
                            Json::Array(
                                run_arguments(directory, port).map_values(
                                    |s: Seq<char>| Json::Str(s),
                                ),
                            ),
                        ),
                    ),
                ),
            ),
        ),
    )
}

/// The command line that runs the MCP server.
pub open spec fn run_line(directory: Seq<char>, port: u16) -> Seq<char> {
    "uv --directory "@ + directory + " run screenpipe-mcp --port "@ + text::decimal(port as nat)
}

/// Words, with a space before each.
pub open spec fn spaced(words: Seq<Seq<char>>) -> Seq<char>
    decreases words.len(),
{
    if words.len() == 0 {
        Seq::empty()
    } else {
        spaced(words.drop_last()) + " "@ + words.last()
    }
}

/// The command line that the user is shown runs the command of the
/// configuration with its arguments.
pub proof fn law_the_shown_command_is_the_configured_one(directory: Seq<char>, port: u16)
    ensures
        run_line(directory, port) == "uv"@ + spaced(run_arguments(directory, port)),
{
    let words = run_arguments(directory, port);
    reveal_with_fuel(spaced, 7);
    reveal_strlit(" ");
    reveal_strlit("uv");
    reveal_strlit("run");
    reveal_strlit("--port");
    reveal_strlit("--directory");
    reveal_strlit("screenpipe-mcp");
    reveal_strlit("uv --directory ");
    reveal_strlit(" run screenpipe-mcp --port ");
    let w5 = words.drop_last();
    let w4 = w5.drop_last();
    let w3 = w4.drop_last();
    let w2 = w3.drop_last();
    let w1 = w2.drop_last();
    assert("uv --directory "@ =~= "uv"@ + " "@ + "--directory"@ + " "@);
    assert(" run screenpipe-mcp --port "@ =~= " "@ + "run"@ + " "@ + "screenpipe-mcp"@ + " "@
        + "--port"@ + " "@);
    assert(run_line(directory, port) =~= "uv"@ + spaced(words));
}

/// A set-up: the command, the base directory, and how the directory of the MCP
/// server and its configuration file are shown.
pub struct SetUp {
    pub command: McpCommand,
    pub base: PlaceView,
    pub directory: Seq<char>,
    pub config_file: Seq<char>,
}

impl SetUp {
    /// Where the MCP server goes.
    pub open spec fn place(self) -> PlaceView {
        mcp_place(self.command, self.base)
    }

    /// Where its configuration stands.
    pub open spec fn config_place(self) -> PlaceView {
        config_place(self.place())
    }
}

/// What the set-up asks to be done.
#[derive(Debug, PartialEq, Eq)]
pub enum McpWork {
    /// Run the command with the argument, to see whether it is there.
    Probe { command: String, argument: String },
    /// See whether the directory exists.
    LookForDirectory { directory: Place },
    /// Remove the directory with all that is in it.
    RemoveDirectory { directory: Place },
    /// See whether the directory is empty.
    LookInside { directory: Place },
    /// Create the directory, and those around it.
    CreateDirectory { directory: Place },
    /// Download what this address lists into the directory, unless the user
    /// cancels that.
    Download { url: String, directory: Place },
    /// Write this text into the file.
    WriteConfig { file: Place, text: String },
    /// Nothing: the set-up is over.
    Finish,
    /// Nothing: the set-up failed.
    Fail { error: String },
}

/// The view of what is asked.
pub enum McpWorkView {
    Probe { command: Seq<char>, argument: Seq<char> },
    LookForDirectory { directory: PlaceView },
    RemoveDirectory { directory: PlaceView },
    LookInside { directory: PlaceView },
    CreateDirectory { directory: PlaceView },
    Download { url: Seq<char>, directory: PlaceView },
    WriteConfig { file: PlaceView, text: Seq<char> },
    Finish,
    Fail { error: Seq<char> },
}

impl View for McpWork {
    type V = McpWorkView;

    open spec fn view(&self) -> McpWorkView {
        match self {
            McpWork::Probe { command, argument } => McpWorkView::Probe {
                command: command@,
                argument: argument@,
            },
            McpWork::LookForDirectory { directory } => McpWorkView::LookForDirectory {
                directory: directory@,
            },
            McpWork::RemoveDirectory { directory } => McpWorkView::RemoveDirectory {
                directory: directory@,
            },
            McpWork::LookInside { directory } => McpWorkView::LookInside { directory: directory@ },
            McpWork::CreateDirectory { directory } => McpWorkView::CreateDirectory {
                directory: directory@,
            },
            McpWork::Download { url, directory } => McpWorkView::Download {
                url: url@,
                directory: directory@,
            },
            McpWork::WriteConfig { file, text } => McpWorkView::WriteConfig {
                file: file@,
                text: text@,
            },
            McpWork::Finish => McpWorkView::Finish,
            McpWork::Fail { error } => McpWorkView::Fail { error: error@ },
        }
    }
}

/// How far the set-up has come.
#[derive(Debug, PartialEq, Eq)]
enum McpStage {
    /// Not begun.
    Start,
    /// Seeing whether `python` is there.
    Python,
    /// Seeing whether `python3` is there.
    Python3,
    /// Seeing whether `uv` is there.
    Uv,
    /// Seeing whether the directory exists.
    Looking,
    /// Removing the directory, and no more.
    Purging,
    /// Removing the directory before its files are downloaded anew.
    Updating,
    /// Seeing whether the directory is empty.
    Inside,
    /// Creating the directory.
    Creating,
    /// Downloading into the directory.
    Downloading,
    /// Writing the configuration next to what was downloaded.
    Downloaded,
    /// Writing the configuration; `fresh` tells whether there was a download.
    Configuring { fresh: bool },
    /// Seeing whether a failed download left the directory behind.
    Leftover { error: String },
    /// Removing what a failed download left behind.
    Cleaning { error: String },
    /// Over.
    Over,
}

/// The view of a stage.
pub enum McpStageView {
    Start,
    Python,
    Python3,
    Uv,
    Looking,
    Purging,
    Updating,
    Inside,
    Creating,
    Downloading,
    Downloaded,
    Configuring { fresh: bool },
    Leftover { error: Seq<char> },
    Cleaning { error: Seq<char> },
    Over,
}

impl View for McpStage {
    type V = McpStageView;

    closed spec fn view(&self) -> McpStageView {
        match self {
            McpStage::Start => McpStageView::Start,
            McpStage::Python => McpStageView::Python,
            McpStage::Python3 => McpStageView::Python3,
            McpStage::Uv => McpStageView::Uv,
            McpStage::Looking => McpStageView::Looking,
            McpStage::Purging => McpStageView::Purging,
            McpStage::Updating => McpStageView::Updating,
            McpStage::Inside => McpStageView::Inside,
            McpStage::Creating => McpStageView::Creating,
            McpStage::Downloading => McpStageView::Downloading,
            McpStage::Downloaded => McpStageView::Downloaded,
            McpStage::Configuring { fresh } => McpStageView::Configuring { fresh: *fresh },
            McpStage::Leftover { error } => McpStageView::Leftover { error: error@ },
            McpStage::Cleaning { error } => McpStageView::Cleaning { error: error@ },
            McpStage::Over => McpStageView::Over,
        }
    }
}

/// How far a set-up has come, as handed from turn to turn.
#[derive(Debug, PartialEq, Eq)]
pub struct McpProgress {
    stage: McpStage,
}

impl View for McpProgress {
    type V = McpStageView;

    closed spec fn view(&self) -> McpStageView {
        self.stage@
    }
}

impl McpProgress {
    /// A set-up that has not begun.
    pub fn start() -> (r: McpProgress)
        ensures
            r@ == McpStageView::Start,
    {
        McpProgress { stage: McpStage::Start }
    }
}

/// What the set-up is told.
#[derive(Debug, PartialEq, Eq)]
pub enum McpNews {
    /// That it begins.
    Begin,
    /// Whether the probed command is there.
    Probed { available: bool },
    /// Whether the directory exists.
    Found { there: bool },
    /// Whether the directory is empty, or why that cannot be seen.
    Inside { result: Result<bool, String> },
    /// That what was asked is done, or why it is not.
    Done { error: Option<String> },
    /// That the user cancelled the download.
    Cancelled,
}

/// The view of what the set-up is told.
pub enum McpNewsView {
    Begin,
    Probed { available: bool },
    Found { there: bool },
    Inside { result: Result<bool, Seq<char>> },
    Done { error: Option<Seq<char>> },
    Cancelled,
}

impl View for McpNews {
    type V = McpNewsView;

    open spec fn view(&self) -> McpNewsView {
        match self {
            McpNews::Begin => McpNewsView::Begin,
            McpNews::Probed { available } => McpNewsView::Probed { available: *available },
            McpNews::Found { there } => McpNewsView::Found { there: *there },
            McpNews::Inside { result } => McpNewsView::Inside {
                result: match result {
                    Ok(empty) => Ok(*empty),
                    Err(error) => Err(error@),
                },
            },
            McpNews::Done { error } => McpNewsView::Done {
                error: match error {
                    Some(e) => Some(e@),
                    None => None,
                },
            },
            McpNews::Cancelled => McpNewsView::Cancelled,
        }
    }
}

/// A turn of the set-up: the lines to print, what is then to be done, and how
/// far the set-up has come with that.
#[derive(Debug, PartialEq, Eq)]
pub struct McpTurn {
    pub lines: Vec<Line>,
    pub work: McpWork,
    pub progress: McpProgress,
}

/// The view of a turn.
pub struct McpTurnView {
    pub lines: Seq<LineView>,
    pub work: McpWorkView,
    pub stage: McpStageView,
}

impl View for McpTurn {
    type V = McpTurnView;

    open spec fn view(&self) -> McpTurnView {
        McpTurnView { lines: report::lines(self.lines@), work: self.work@, stage: self.progress@ }
    }
}

/// Whether the news answer what the set-up waits for.
pub open spec fn answers(stage: McpStageView, news: McpNewsView) -> bool {
    match (stage, news) {
        (McpStageView::Start, McpNewsView::Begin) => true,
        (McpStageView::Python, McpNewsView::Probed { .. }) => true,
        (McpStageView::Python3, McpNewsView::Probed { .. }) => true,
        (McpStageView::Uv, McpNewsView::Probed { .. }) => true,
        (McpStageView::Looking, McpNewsView::Found { .. }) => true,
        (McpStageView::Purging, McpNewsView::Done { .. }) => true,
        (McpStageView::Updating, McpNewsView::Done { .. }) => true,
        (McpStageView::Inside, McpNewsView::Inside { .. }) => true,
        (McpStageView::Creating, McpNewsView::Done { .. }) => true,
        (McpStageView::Downloading, McpNewsView::Done { .. }) => true,
        (McpStageView::Downloading, McpNewsView::Cancelled) => true,
        (McpStageView::Downloaded, McpNewsView::Done { .. }) => true,
        (McpStageView::Configuring { .. }, McpNewsView::Done { .. }) => true,
        (McpStageView::Leftover { .. }, McpNewsView::Found { .. }) => true,
        (McpStageView::Cleaning { .. }, McpNewsView::Done { .. }) => true,
        _ => false,
    }
}

/// The format that the set-up reports in.
pub open spec fn output(command: McpCommand) -> OutputFormat {
    match command {
        McpCommand::Setup { output, .. } => output,
    }
}

/// The port that the MCP server is run with.
pub open spec fn port(command: McpCommand) -> u16 {
    match command {
        McpCommand::Setup { port, .. } => port,
    }
}

/// Whether the directory is only to be removed.
pub open spec fn purge(command: McpCommand) -> bool {
    match command {
        McpCommand::Setup { purge, .. } => purge,
    }
}

/// Whether files that are there are to be downloaded anew.
pub open spec fn update(command: McpCommand) -> bool {
    match command {
        McpCommand::Setup { update, .. } => update,
    }
}

/// A turn.
pub open spec fn turn(lines: Seq<LineView>, work: McpWorkView, stage: McpStageView) -> McpTurnView {
    McpTurnView { lines, work, stage }
}

/// A turn that prints nothing.
pub open spec fn go_on(work: McpWorkView, stage: McpStageView) -> McpTurnView {
    turn(Seq::empty(), work, stage)
}

/// The last turn, with its lines.
pub open spec fn over(lines: Seq<LineView>) -> McpTurnView {
    turn(lines, McpWorkView::Finish, McpStageView::Over)
}

/// The last turn of a set-up that fails.
pub open spec fn fail(error: Seq<char>) -> McpTurnView {
    go_on(McpWorkView::Fail { error }, McpStageView::Over)
}

/// The last turn of a set-up that prints a document, given the document's
/// text, or the error that came in its place.
pub open spec fn show(text: Result<Seq<char>, Seq<char>>) -> McpTurnView {
    match text {
        Ok(line) => say(line),
        Err(error) => fail(error),
    }
}

/// The last turn, with one line.
pub open spec fn say(line: Seq<char>) -> McpTurnView {
    over(seq![report::out(line)])
}

/// What says how a purge went.
pub open spec fn purge_document(message: Seq<char>, directory: Seq<char>) -> Json {
    report::success_document(
        Json::Object(
            report::no_fields().insert("message"@, Json::Str(message)).insert(
                "directory"@,
                Json::Str(directory),
            ),
        ),
    )
}

/// Reports a purge.
pub open spec fn purge_report(
    output: OutputFormat,
    existed: bool,
    directory: Seq<char>,
) -> McpTurnView {
    match (output, existed) {
        (OutputFormat::Json, true) => say(
            json::pretty_text(purge_document("MCP directory purged successfully"@, directory)),
        ),
        (OutputFormat::Json, false) => say(
            json::pretty_text(purge_document("MCP directory does not exist"@, directory)),
        ),
        (OutputFormat::Text, true) => over(
            seq![
                report::out("MCP directory purged successfully"@),
                report::out("Directory: "@ + directory),
            ],
        ),
        (OutputFormat::Text, false) => over(
            seq![report::out("MCP directory does not exist: "@ + directory)],
        ),
    }
}

/// What says how a set-up went.
pub open spec fn setup_document(
    fresh: bool,
    directory: Seq<char>,
    config_file: Seq<char>,
    port: u16,
) -> Json {
    report::success_document(
        Json::Object(
            report::no_fields().insert(
                "message"@,
                Json::Str(
                    if fresh {
                        "MCP setup completed successfully"@
                    } else {
                        "MCP files already exist"@
                    },
                ),
            ).insert("config"@, config_document(directory, port)).insert(
                "config_path"@,
                Json::Str(config_file),
            ).insert("directory"@, Json::Str(directory)).insert(
                "port"@,
                Json::Number(text::decimal(port as nat)),
            ),
        ),
    )
}

/// Reports a set-up.
pub open spec fn setup_report(
    output: OutputFormat,
    fresh: bool,
    directory: Seq<char>,
    config_file: Seq<char>,
    port: u16,
) -> McpTurnView {
    match output {
        OutputFormat::Json => say(
            json::pretty_text(setup_document(fresh, directory, config_file, port)),
        ),
        OutputFormat::Text => over(
            (if fresh {
                seq![report::out("MCP setup completed successfully"@)]
            } else {
                seq![
                    report::out("MCP files already exist at: "@ + directory),
                    report::out(
                        "Use --update flag to force update or --purge to start fresh"@,
                    ),
                ]
            }) + seq![
                report::out("Directory: "@ + directory),
                report::out("Config file: "@ + config_file),
                report::out("\nTo run the MCP server, use this command:"@),
                report::out("$ "@ + run_line(directory, port)),
            ],
        ),
    }
}

/// The turn that writes the configuration into the file, given the
/// configuration's text, or the error that came in its place.
pub open spec fn write_config(
    text: Result<Seq<char>, Seq<char>>,
    file: PlaceView,
    stage: McpStageView,
) -> McpTurnView {
    match text {
        Ok(text) => go_on(McpWorkView::WriteConfig { file, text }, stage),
        Err(error) => fail(error),
    }
}

/// The text of the configuration.
pub open spec fn config_text(setup: SetUp) -> Seq<char> {
    json::pretty_text(config_document(setup.directory, port(setup.command)))
}

/// The turn that writes the configuration of a set-up.
pub open spec fn configuring(setup: SetUp, stage: McpStageView) -> McpTurnView {
    go_on(
        McpWorkView::WriteConfig { file: setup.config_place(), text: config_text(setup) },
        stage,
    )
}

/// Says that Python is missing.
pub open spec fn python_note() -> LineView {
    report::warning(
        "note: python is not installed. please install it from the official website: https://www.python.org/"@,
    )
}

/// Says that uv is missing.
pub open spec fn uv_note() -> LineView {
    report::warning(
        "note: uv is not installed. please install it using the instructions at: https://docs.astral.sh/uv/#installation"@,
    )
}

/// The work that sees whether a command is there.
pub open spec fn probing(command: Seq<char>) -> McpWorkView {
    McpWorkView::Probe { command, argument: PROBE_ARGUMENT@ }
}

/// The next turn of a set-up, given how far it has come and what it is told.
pub open spec fn next_turn(
    setup: SetUp,
    stage: McpStageView,
    news: McpNewsView,
) -> McpTurnView {
    let command = setup.command;
    let directory = setup.place();
    match (stage, news) {
        (McpStageView::Start, _) => go_on(
            probing("python"@),
            McpStageView::Python,
        ),
        (McpStageView::Python, McpNewsView::Probed { available: true }) => go_on(
            probing("python3"@),
            McpStageView::Python3,
        ),
        (McpStageView::Python, McpNewsView::Probed { available: false }) => turn(
            seq![python_note()],
            probing("uv"@),
            McpStageView::Uv,
        ),
        (McpStageView::Python3, McpNewsView::Probed { available }) => turn(
            if available {
                Seq::empty()
            } else {
                seq![python_note()]
            },
            probing("uv"@),
            McpStageView::Uv,
        ),
        (McpStageView::Uv, McpNewsView::Probed { available }) => turn(
            if available {
                Seq::empty()
            } else {
                seq![uv_note()]
            },
            McpWorkView::LookForDirectory { directory },
            McpStageView::Looking,
        ),
        (McpStageView::Looking, McpNewsView::Found { there }) => if purge(command) {
            if there {
                go_on(McpWorkView::RemoveDirectory { directory }, McpStageView::Purging)
            } else {
                purge_report(output(command), false, setup.directory)
            }
        } else if !there {
            go_on(McpWorkView::CreateDirectory { directory }, McpStageView::Creating)
        } else if update(command) {
            go_on(McpWorkView::RemoveDirectory { directory }, McpStageView::Updating)
        } else {
            go_on(McpWorkView::LookInside { directory }, McpStageView::Inside)
        },
        (McpStageView::Purging, McpNewsView::Done { error: None }) => purge_report(
            output(command),
            true,
            setup.directory,
        ),
        (McpStageView::Updating, McpNewsView::Done { error: None }) => go_on(
            McpWorkView::CreateDirectory { directory },
            McpStageView::Creating,
        ),
        (McpStageView::Inside, McpNewsView::Inside { result }) => match result {
            Ok(true) => go_on(McpWorkView::CreateDirectory { directory }, McpStageView::Creating),
            Ok(false) => configuring(setup, McpStageView::Configuring { fresh: false }),
            Err(error) => fail(error),
        },
        (McpStageView::Creating, McpNewsView::Done { error: None }) => go_on(
            McpWorkView::Download { url: github::contents_address(REPOSITORY_DIR@), directory },
            McpStageView::Downloading,
        ),
        (McpStageView::Downloading, McpNewsView::Done { error: None }) => configuring(setup, McpStageView::Downloaded),
        (McpStageView::Downloading, McpNewsView::Done { error: Some(error) }) => go_on(
            McpWorkView::LookForDirectory { directory },
            McpStageView::Leftover { error },
        ),
        (McpStageView::Downloading, McpNewsView::Cancelled) => go_on(
            McpWorkView::LookForDirectory { directory },
            McpStageView::Leftover { error: "Download cancelled by user"@ },
        ),
        (McpStageView::Downloaded, McpNewsView::Done { error: None }) => configuring(setup, McpStageView::Configuring { fresh: true }),
        (
            McpStageView::Configuring { fresh },
            McpNewsView::Done { error: None },
        ) => setup_report(
            output(command),
            fresh,
            setup.directory,
            setup.config_file,
            port(command),
        ),
        (McpStageView::Leftover { error }, McpNewsView::Found { there }) => if there {
            go_on(McpWorkView::RemoveDirectory { directory }, McpStageView::Cleaning { error })
        } else {
            fail(error)
        },
        (McpStageView::Cleaning { error }, _) => fail(error),
        (_, McpNewsView::Done { error: Some(error) }) => fail(error),
        _ => fail(Seq::empty()),
    }
}

fn make_turn(lines: Vec<Line>, work: McpWork, stage: McpStage) -> (r: McpTurn)
    ensures
        r@ == turn(report::lines(lines@), work@, stage@),
{
    McpTurn { lines, work, progress: McpProgress { stage } }
}

fn work_on(work: McpWork, stage: McpStage) -> (r: McpTurn)
    ensures
        r@ == go_on(work@, stage@),
{
    make_turn(report::no_lines(), work, stage)
}

fn finish(lines: Vec<Line>) -> (r: McpTurn)
    ensures
        r@ == over(report::lines(lines@)),
{
    make_turn(lines, McpWork::Finish, McpStage::Over)
}

fn finish_failing(error: String) -> (r: McpTurn)
    ensures
        r@ == fail(error@),
{
    work_on(McpWork::Fail { error }, McpStage::Over)
}

/// Ends the set-up with a document, given the document's text, or the error
/// that came in its place.
pub fn show_text(text: Result<String, String>) -> (r: McpTurn)
    ensures
        r@ == show(json::text_result(text)),
{
    match text {
        Ok(line) => finish(report::one_line(line)),
        Err(error) => finish_failing(error),
    }
}

/// Writes the configuration into the file, given its text, or the error that
/// came in its place; `progress` is how far the set-up has come with that.
pub fn write_text(text: Result<String, String>, file: Place, progress: McpProgress) -> (r: McpTurn)
    ensures
        r@ == write_config(json::text_result(text), file@, progress@),
{
    match text {
        Ok(text) => work_on(McpWork::WriteConfig { file, text }, progress.stage),
        Err(error) => finish_failing(error),
    }
}

/// The configuration of the MCP server.
pub fn config_value(directory: &str, port: u16) -> (r: Value)
    ensures
        json::json_of(r) == config_document(directory@, port),
{
    let mut args: Vec<Value> = Vec::new();
    args.push(json::string_value("--directory"));
    args.push(json::string_value(directory));
    args.push(json::string_value("run"));
    args.push(json::string_value("screenpipe-mcp"));
    args.push(json::string_value("--port"));
    args.push(json::string_value(text::decimal_text(port as u64).as_str()));
    assert(json::json_seq(args@) =~= run_arguments(directory@, port).map_values(
        |s: Seq<char>| Json::Str(s),
    ));
    let server = Fields::new().with("command", json::string_value("uv")).with(
        "args",
        json::array_value(args),
    ).build();
    let servers = Fields::new().with("screenpipe", server).build();
    Fields::new().with("mcpServers", servers).build()
}

/// The command line that runs the MCP server.
pub fn run_command(directory: &str, port: u16) -> (r: String)
    ensures
        r@ == run_line(directory@, port),
{
    let mut r = report::joined3("uv --directory ", directory, " run screenpipe-mcp --port ");
    r.append(text::decimal_text(port as u64).as_str());
    r
}

fn purge_value(message: &str, directory: &str) -> (r: Value)
    ensures
        json::json_of(r) == purge_document(message@, directory@),
{
    let data = Fields::new().with("message", json::string_value(message)).with(
        "directory",
        json::string_value(directory),
    ).build();
    report::success_value(data)
}

/// Reports a purge.
pub fn report_purge(output: OutputFormat, existed: bool, directory: &str) -> (r: McpTurn)
    ensures
        r@ == purge_report(output, existed, directory@),
{
    match output {
        OutputFormat::Json => {
            let document = if existed {
                purge_value("MCP directory purged successfully", directory)
            } else {
                purge_value("MCP directory does not exist", directory)
            };
            show_text(json::to_pretty(&document))
        },
        OutputFormat::Text => if existed {
            let mut lines = report::one_line("MCP directory purged successfully".to_owned());
            report::print_line(&mut lines, report::joined("Directory: ", directory));
            assert(report::lines(lines@) =~= seq![
                report::out("MCP directory purged successfully"@),
                report::out("Directory: "@ + directory@),
            ]);
            finish(lines)
        } else {
            finish(report::one_line(report::joined("MCP directory does not exist: ", directory)))
        },
    }
}

/// Reports a set-up.
pub fn report_setup(
    output: OutputFormat,
    fresh: bool,
    directory: &str,
    config_file: &str,
    port: u16,
) -> (r: McpTurn)
    ensures
        r@ == setup_report(output, fresh, directory@, config_file@, port),
{
    match output {
        OutputFormat::Json => {
            let message = if fresh {
                "MCP setup completed successfully"
            } else {
                "MCP files already exist"
            };
            let data = Fields::new().with("message", json::string_value(message)).with(
                "config",
                config_value(directory, port),
            ).with("config_path", json::string_value(config_file)).with(
                "directory",
                json::string_value(directory),
            ).with("port", json::number_value(port as u64)).build();
            show_text(json::to_pretty(&report::success_value(data)))
        },
        OutputFormat::Text => {
            let mut lines = report::no_lines();
            if fresh {
                report::print_line(&mut lines, "MCP setup completed successfully".to_owned());
            } else {
                report::print_line(
                    &mut lines,
                    report::joined("MCP files already exist at: ", directory),
                );
                report::print_line(
                    &mut lines,
                    "Use --update flag to force update or --purge to start fresh".to_owned(),
                );
            }
            report::print_line(&mut lines, report::joined("Directory: ", directory));
            report::print_line(&mut lines, report::joined("Config file: ", config_file));
            report::print_line(
                &mut lines,
                "\nTo run the MCP server, use this command:".to_owned(),
            );
            report::print_line(
                &mut lines,
                report::joined("$ ", run_command(directory, port).as_str()),
            );
            let r = finish(lines);
            assert(r@.lines =~= setup_report(
                output,
                fresh,
                directory@,
                config_file@,
                port,
            ).lines);
            r
        },
    }
}

/// The set-up that a command makes.
pub open spec fn set_up(command: McpCommand, base: PlaceView, shown: Shown) -> SetUp {
    SetUp {
        command,
        base,
        directory: directory_text(command, shown),
        config_file: shown.config_file@,
    }
}

fn configure(command: &McpCommand, base: &Place, shown: &Shown, stage: McpStage) -> (r: McpTurn)
    ensures
        r@ == configuring(set_up(*command, base@, *shown), stage@),
{
    let McpCommand::Setup { port, .. } = command;
    let file = mcp_config_file(&mcp_directory(command, base));
    let directory = shown_directory(command, shown);
    let text = json::to_pretty(&config_value(directory.as_str(), *port));
    write_text(text, file, McpProgress { stage })
}

fn probe(command: &str) -> (r: McpWork)
    ensures
        r@ == probing(command@),
{
    McpWork::Probe { command: command.to_owned(), argument: PROBE_ARGUMENT.to_owned() }
}

fn probe_uv(python_there: bool) -> (r: McpTurn)
    ensures
        r@ == turn(
            if python_there {
                Seq::empty()
            } else {
                seq![python_note()]
            },
            probing("uv"@),
            McpStageView::Uv,
        ),
{
    let lines = if python_there {
        report::no_lines()
    } else {
        report::one_warning(
            "note: python is not installed. please install it from the official website: https://www.python.org/",
        )
    };
    make_turn(lines, probe("uv"), McpStage::Uv)
}

/// Takes the set-up of the MCP server one turn further: given how far it has
/// come and what it is told, what is printed and what is to be done.
pub fn handle_mcp_command(
    command: &McpCommand,
    base: &Place,
    shown: &Shown,
    progress: McpProgress,
    news: McpNews,
) -> (r: McpTurn)
    requires
        answers(progress@, news@),
    ensures
        r@ == next_turn(set_up(*command, base@, *shown), progress@, news@),
{
    let McpCommand::Setup { output, port, update, purge, .. } = command;
    let directory = mcp_directory(command, base);
    let shown_as = shown_directory(command, shown);
    match (progress.stage, news) {
        (McpStage::Start, _) => work_on(
            probe("python"),
            McpStage::Python,
        ),
        (McpStage::Python, McpNews::Probed { available }) => if available {
            work_on(probe("python3"), McpStage::Python3)
        } else {
            probe_uv(false)
        },
        (McpStage::Python3, McpNews::Probed { available }) => probe_uv(available),
        (McpStage::Uv, McpNews::Probed { available }) => {
            let lines = if available {
                report::no_lines()
            } else {
                report::one_warning(
                    "note: uv is not installed. please install it using the instructions at: https://docs.astral.sh/uv/#installation",
                )
            };
            make_turn(lines, McpWork::LookForDirectory { directory }, McpStage::Looking)
        },
        (McpStage::Looking, McpNews::Found { there }) => if *purge {
            if there {
                work_on(McpWork::RemoveDirectory { directory }, McpStage::Purging)
            } else {
                report_purge(*output, false, shown_as.as_str())
            }
        } else if !there {
            work_on(McpWork::CreateDirectory { directory }, McpStage::Creating)
        } else if *update {
            work_on(McpWork::RemoveDirectory { directory }, McpStage::Updating)
        } else {
            work_on(McpWork::LookInside { directory }, McpStage::Inside)
        },
        (McpStage::Purging, McpNews::Done { error: None }) => report_purge(
            *output,
            true,
            shown_as.as_str(),
        ),
        (McpStage::Updating, McpNews::Done { error: None }) => work_on(
            McpWork::CreateDirectory { directory },
            McpStage::Creating,
        ),
        (McpStage::Inside, McpNews::Inside { result }) => match result {
            Ok(empty) => if empty {
                work_on(McpWork::CreateDirectory { directory }, McpStage::Creating)
            } else {
                configure(command, base, shown, McpStage::Configuring { fresh: false })
            },
            Err(error) => finish_failing(error),
        },
        (McpStage::Creating, McpNews::Done { error: None }) => work_on(
            McpWork::Download { url: github::contents_url(REPOSITORY_DIR), directory },
            McpStage::Downloading,
        ),
        (McpStage::Downloading, McpNews::Done { error: None }) => configure(command, base, shown, McpStage::Downloaded),
        (McpStage::Downloading, McpNews::Done { error: Some(error) }) => work_on(
            McpWork::LookForDirectory { directory },
            McpStage::Leftover { error },
        ),
        (McpStage::Downloading, McpNews::Cancelled) => work_on(
            McpWork::LookForDirectory { directory },
            McpStage::Leftover { error: "Download cancelled by user".to_owned() },
        ),
        (McpStage::Downloaded, McpNews::Done { error: None }) => configure(command, base, shown, McpStage::Configuring { fresh: true }),
        (McpStage::Configuring { fresh }, McpNews::Done { error: None }) => report_setup(
            *output,
            fresh,
            shown_as.as_str(),
            shown.config_file.as_str(),
            *port,
        ),
        (McpStage::Leftover { error }, McpNews::Found { there }) => if there {
            work_on(McpWork::RemoveDirectory { directory }, McpStage::Cleaning { error })
        } else {
            finish_failing(error)
        },
        (McpStage::Cleaning { error }, _) => finish_failing(error),
        (_, McpNews::Done { error: Some(error) }) => finish_failing(error),
        _ => finish_failing(String::new()),
    }
}

} // verus!
