//! The pipe commands: each asks the running server, and falls back on the
//! local pipes where no server answers.

use crate::cli;
use crate::cli::OutputFormat;
use crate::cli::PipeCommand;
use crate::json;
use crate::json::Json;
use crate::report;
use crate::report::Fields;
use crate::report::Line;
use crate::report::LineView;
use crate::text;
use serde_json::Value;
use vstd::prelude::*;
use vstd::string::*;

verus! {

/// A pipe: its name, whether it is enabled, and all that is known of it as a
/// JSON document.
#[derive(Debug, PartialEq, Eq)]
pub struct PipeInfo {
    pub id: String,
    pub enabled: bool,
    pub document: Value,
}

/// The view of a pipe.
pub struct PipeView {
    pub id: Seq<char>,
    pub enabled: bool,
    pub document: Json,
}

impl View for PipeInfo {
    type V = PipeView;

    open spec fn view(&self) -> PipeView {
        PipeView { id: self.id@, enabled: self.enabled, document: json::json_of(self.document) }
    }
}

/// The views of some pipes.
pub open spec fn pipe_views(pipes: Seq<PipeInfo>) -> Seq<PipeView> {
    pipes.map_values(|p: PipeInfo| p@)
}

/// A description of one pipe: the indented text of it as JSON, or why there is
/// none, and the text of it as shown to a developer.
#[derive(Debug, PartialEq, Eq)]
pub struct PipeDetail {
    pub printed: Result<String, String>,
    pub shown: String,
}

/// The view of a description.
pub struct DetailView {
    pub printed: Result<Seq<char>, Seq<char>>,
    pub shown: Seq<char>,
}

impl View for PipeDetail {
    type V = DetailView;

    open spec fn view(&self) -> DetailView {
        DetailView { printed: json::text_result(self.printed), shown: self.shown@ }
    }
}

/// An HTTP method.
#[derive(Clone, Copy, Debug, PartialEq, Eq, Structural)]
pub enum Method {
    Get,
    Post,
    Delete,
}

/// What is read from an answer of success.
#[derive(Clone, Copy, Debug, PartialEq, Eq, Structural)]
pub enum Reads {
    /// A JSON document.
    Document,
    /// The description of a pipe.
    Detail,
    /// Nothing.
    Nothing,
}

/// A request to the server.
#[derive(Debug, PartialEq, Eq)]
pub struct HttpRequest {
    pub method: Method,
    pub url: String,
    pub body: Option<Value>,
    pub reads: Reads,
}

/// The view of a request.
pub struct HttpView {
    pub method: Method,
    pub url: Seq<char>,
    pub body: Option<Json>,
    pub reads: Reads,
}

impl View for HttpRequest {
    type V = HttpView;

    open spec fn view(&self) -> HttpView {
        HttpView {
            method: self.method,
            url: self.url@,
            body: match self.body {
                Some(value) => Some(json::json_of(value)),
                None => None,
            },
            reads: self.reads,
        }
    }
}

/// What a pipe command asks to be done.
#[derive(Debug, PartialEq, Eq)]
pub enum PipeWork {
    /// Show the question and read a line.
    Ask { question: String },
    /// Send the request to the server.
    Send { request: HttpRequest },
    /// Read each document as a pipe.
    Decode { documents: Vec<Value> },
    /// List the local pipes.
    ListLocal,
    /// Download a pipe into the local ones.
    DownloadLocal { url: String },
    /// Describe a local pipe.
    DescribeLocal { id: String },
    /// Change the configuration of a local pipe.
    ConfigureLocal { id: String, config: Value },
    /// Delete a local pipe.
    DeleteLocal { id: String },
    /// Delete all local pipes.
    PurgeLocal,
    /// Nothing: the command is over.
    Finish,
    /// Nothing: the command failed.
    Fail { error: String },
}

/// The view of what is asked.
pub enum PipeWorkView {
    Ask { question: Seq<char> },
    Send { request: HttpView },
    Decode { documents: Seq<Json> },
    ListLocal,
    DownloadLocal { url: Seq<char> },
    DescribeLocal { id: Seq<char> },
    ConfigureLocal { id: Seq<char>, config: Json },
    DeleteLocal { id: Seq<char> },
    PurgeLocal,
    Finish,
    Fail { error: Seq<char> },
}

impl View for PipeWork {
    type V = PipeWorkView;

    open spec fn view(&self) -> PipeWorkView {
        match self {
            PipeWork::Ask { question } => PipeWorkView::Ask { question: question@ },
            PipeWork::Send { request } => PipeWorkView::Send { request: request@ },
            PipeWork::Decode { documents } => PipeWorkView::Decode {
                documents: json::json_seq(documents@),
            },
            PipeWork::ListLocal => PipeWorkView::ListLocal,
            PipeWork::DownloadLocal { url } => PipeWorkView::DownloadLocal { url: url@ },
            PipeWork::DescribeLocal { id } => PipeWorkView::DescribeLocal { id: id@ },
            PipeWork::ConfigureLocal { id, config } => PipeWorkView::ConfigureLocal {
                id: id@,
                config: json::json_of(*config),
            },
            PipeWork::DeleteLocal { id } => PipeWorkView::DeleteLocal { id: id@ },
            PipeWork::PurgeLocal => PipeWorkView::PurgeLocal,
            PipeWork::Finish => PipeWorkView::Finish,
            PipeWork::Fail { error } => PipeWorkView::Fail { error: error@ },
        }
    }
}

/// How far a pipe command has come.
#[derive(Clone, Copy, Debug, PartialEq, Eq, Structural)]
pub enum Stage {
    /// Not begun.
    Start,
    /// The user has been asked.
    Asked,
    /// The server has been asked.
    Sent,
    /// The pipes of the server's answer are being read.
    Decoding,
    /// The local pipes are being worked on.
    Local,
    /// Over.
    Over,
}

/// How far a pipe command has come, as handed from turn to turn.
#[derive(Debug, PartialEq, Eq)]
pub struct PipeProgress {
    stage: Stage,
}

impl View for PipeProgress {
    type V = Stage;

    closed spec fn view(&self) -> Stage {
        self.stage
    }
}

impl PipeProgress {
    /// A command that has not begun.
    pub fn start() -> (r: PipeProgress)
        ensures
            r@ == Stage::Start,
    {
        PipeProgress { stage: Stage::Start }
    }
}

/// What a pipe command is told.
#[derive(Debug, PartialEq, Eq)]
pub enum News {
    /// That it begins.
    Begin,
    /// What the user typed.
    Typed { line: String },
    /// That no server answered with success.
    NoServer,
    /// That the server answered with success, but the answer cannot be read.
    Unreadable { error: String },
    /// The document that the server answered.
    Document { document: Value },
    /// The description that the server answered.
    Detail { detail: PipeDetail },
    /// That the server answered with success.
    Accepted,
    /// The pipes that were read, with a gap for each document that is none.
    Decoded { read: Vec<Option<PipeInfo>> },
    /// The local pipes.
    Listed { pipes: Vec<PipeInfo> },
    /// The description of the local pipe, if there is one.
    Described { local: Option<PipeDetail> },
    /// The name of the downloaded pipe, or why there is none.
    Downloaded { result: Result<String, String> },
    /// That the local pipes were changed, or why not.
    Changed { problem: Option<String> },
}

/// The view of what a pipe command is told.
pub enum NewsView {
    Begin,
    Typed { line: Seq<char> },
    NoServer,
    Unreadable { error: Seq<char> },
    Document { document: Json },
    Detail { detail: DetailView },
    Accepted,
    Decoded { read: Seq<Option<PipeView>> },
    Listed { pipes: Seq<PipeView> },
    Described { local: Option<DetailView> },
    Downloaded { result: Result<Seq<char>, Seq<char>> },
    Changed { problem: Option<Seq<char>> },
}

/// The view of a pipe that may be missing.
pub open spec fn gap_view(pipe: Option<PipeInfo>) -> Option<PipeView> {
    match pipe {
        Some(p) => Some(p@),
        None => None,
    }
}

impl View for News {
    type V = NewsView;

    open spec fn view(&self) -> NewsView {
        match self {
            News::Begin => NewsView::Begin,
            News::Typed { line } => NewsView::Typed { line: line@ },
            News::NoServer => NewsView::NoServer,
            News::Unreadable { error } => NewsView::Unreadable { error: error@ },
            News::Document { document } => NewsView::Document {
                document: json::json_of(*document),
            },
            News::Detail { detail } => NewsView::Detail { detail: detail@ },
            News::Accepted => NewsView::Accepted,
            News::Decoded { read } => NewsView::Decoded {
                read: read@.map_values(|p: Option<PipeInfo>| gap_view(p)),
            },
            News::Listed { pipes } => NewsView::Listed { pipes: pipe_views(pipes@) },
            News::Described { local } => NewsView::Described {
                local: match local {
                    Some(d) => Some(d@),
                    None => None,
                },
            },
            News::Downloaded { result } => NewsView::Downloaded {
                result: json::text_result(*result),
            },
            News::Changed { problem } => NewsView::Changed {
                problem: match problem {
                    Some(e) => Some(e@),
                    None => None,
                },
            },
        }
    }
}

/// A turn of a pipe command: the lines to print, what is then to be done, and
/// how far the command has come with that.
#[derive(Debug, PartialEq, Eq)]
pub struct Turn {
    pub lines: Vec<Line>,
    pub work: PipeWork,
    pub progress: PipeProgress,
}

/// The view of a turn.
pub struct TurnView {
    pub lines: Seq<LineView>,
    pub work: PipeWorkView,
    pub stage: Stage,
}

impl View for Turn {
    type V = TurnView;

    open spec fn view(&self) -> TurnView {
        TurnView { lines: report::lines(self.lines@), work: self.work@, stage: self.progress@ }
    }
}

/// The address of the server.
pub open spec fn server(port: u16) -> Seq<char> {
    "http://localhost:"@ + text::decimal(port as nat)
}

/// An object with one field that holds a text.
pub open spec fn text_object(key: Seq<char>, value: Seq<char>) -> Json {
    Json::Object(report::no_fields().insert(key, Json::Str(value)))
}

/// The configuration that sets whether a pipe is enabled.
pub open spec fn enabled_config(enabled: bool) -> Json {
    Json::Object(report::no_fields().insert("enabled"@, Json::Bool(enabled)))
}

/// A new configuration for a pipe.
pub open spec fn update_document(id: Seq<char>, config: Json) -> Json {
    Json::Object(report::no_fields().insert("pipe_id"@, Json::Str(id)).insert("config"@, config))
}

/// The request that a command makes of the server, or why it makes none: the
/// configuration of an update has to be JSON.
pub open spec fn request(command: PipeCommand) -> Result<HttpView, Seq<char>> {
    match command {
        PipeCommand::List { port, .. } => Ok(
            HttpView {
                method: Method::Get,
                url: server(port) + "/pipes/list"@,
                body: None,
                reads: Reads::Document,
            },
        ),
        PipeCommand::Download { url, port, .. } => Ok(download_request(url@, port)),
        PipeCommand::Install { url, port, .. } => Ok(download_request(url@, port)),
        PipeCommand::Info { id, port, .. } => Ok(
            HttpView {
                method: Method::Get,
                url: server(port) + "/pipes/info/"@ + id@,
                body: None,
                reads: Reads::Detail,
            },
        ),
        PipeCommand::Enable { id, port } => Ok(
            HttpView {
                method: Method::Post,
                url: server(port) + "/pipes/enable"@,
                body: Some(text_object("pipe_id"@, id@)),
                reads: Reads::Nothing,
            },
        ),
        PipeCommand::Disable { id, port } => Ok(
            HttpView {
                method: Method::Post,
                url: server(port) + "/pipes/disable"@,
                body: Some(text_object("pipe_id"@, id@)),
                reads: Reads::Nothing,
            },
        ),
        PipeCommand::Update { id, config, port } => update_request_of(
            id@,
            port,
            json::parsed_text(config@),
        ),
        PipeCommand::Delete { id, port, .. } => Ok(
            HttpView {
                method: Method::Delete,
                url: server(port) + "/pipes/delete/"@ + id@,
                body: None,
                reads: Reads::Nothing,
            },
        ),
        PipeCommand::Purge { port, .. } => Ok(
            HttpView {
                method: Method::Post,
                url: server(port) + "/pipes/purge"@,
                body: None,
                reads: Reads::Nothing,
            },
        ),
    }
}

/// The request to download a pipe.
pub open spec fn download_request(url: Seq<char>, port: u16) -> HttpView {
    HttpView {
        method: Method::Post,
        url: server(port) + "/pipes/download"@,
        body: Some(text_object("url"@, url)),
        reads: Reads::Document,
    }
}

/// The request to change a configuration, given what was read of it.
pub open spec fn update_request_of(
    id: Seq<char>,
    port: u16,
    config: Result<Json, Seq<char>>,
) -> Result<HttpView, Seq<char>> {
    match config {
        Ok(document) => Ok(
            HttpView {
                method: Method::Post,
                url: server(port) + "/pipes/update"@,
                body: Some(update_document(id, document)),
                reads: Reads::Nothing,
            },
        ),
        Err(error) => Err("invalid json: "@ + error),
    }
}

/// What the user is asked before a command goes on, if anything.
pub open spec fn question(command: PipeCommand) -> Option<Seq<char>> {
    match command {
        PipeCommand::Delete { id, yes, .. } => if yes {
            None
        } else {
            Some("are you sure you want to delete pipe '"@ + id@ + "'? [y/N] "@)
        },
        PipeCommand::Purge { yes, .. } => if yes {
            None
        } else {
            Some(
                "are you sure you want to purge all pipes? this action cannot be undone. (y/N): "@,
            )
        },
        _ => None,
    }
}

/// Whether what the user typed means yes: the letter alone, in either case.
pub open spec fn confirms(line: Seq<char>) -> bool {
    text::trimmed(line) == "y"@ || text::trimmed(line) == "Y"@
}

/// A turn.
pub open spec fn turn(lines: Seq<LineView>, work: PipeWorkView, stage: Stage) -> TurnView {
    TurnView { lines, work, stage }
}

/// The last turn, with its lines.
pub open spec fn over(lines: Seq<LineView>) -> TurnView {
    turn(lines, PipeWorkView::Finish, Stage::Over)
}

/// The last turn, with one line.
pub open spec fn say(line: Seq<char>) -> TurnView {
    over(seq![report::out(line)])
}

/// The last turn of a command that fails.
pub open spec fn fail(error: Seq<char>) -> TurnView {
    turn(Seq::empty(), PipeWorkView::Fail { error }, Stage::Over)
}

/// The last turn of a command that prints a document, given the document's
/// text.
pub open spec fn show(text: Result<Seq<char>, Seq<char>>) -> TurnView {
    match text {
        Ok(line) => say(line),
        Err(error) => fail(error),
    }
}

/// The turn that asks the server.
pub open spec fn ask_server(command: PipeCommand) -> TurnView {
    match request(command) {
        Ok(request) => turn(Seq::empty(), PipeWorkView::Send { request }, Stage::Sent),
        Err(error) => fail(error),
    }
}

/// The pipes among what was read.
pub open spec fn kept(pipes: Seq<Option<PipeView>>) -> Seq<PipeView>
    decreases pipes.len(),
{
    if pipes.len() == 0 {
        Seq::empty()
    } else {
        match pipes.last() {
            Some(pipe) => kept(pipes.drop_last()).push(pipe),
            None => kept(pipes.drop_last()),
        }
    }
}

/// The line that shows a pipe in a list.
pub open spec fn pipe_line(pipe: PipeView) -> LineView {
    report::out(
        "  id: "@ + pipe.id + ", enabled: "@ + (if pipe.enabled {
            "true"@
        } else {
            "false"@
        }),
    )
}

/// Reports a list of pipes.
pub open spec fn list_report(output: OutputFormat, pipes: Seq<PipeView>) -> TurnView {
    match output {
        OutputFormat::Json => say(
            json::pretty_text(
                report::success_document(
                    Json::Array(pipes.map_values(|p: PipeView| p.document)),
                ),
            ),
        ),
        OutputFormat::Text => over(
            seq![report::out("available pipes:"@)] + pipes.map_values(|p: PipeView| pipe_line(p)),
        ),
    }
}

/// Reports the description of a pipe.
pub open spec fn detail_report(output: OutputFormat, detail: DetailView) -> TurnView {
    match output {
        OutputFormat::Json => show(detail.printed),
        OutputFormat::Text => say("pipe info: "@ + detail.shown),
    }
}

/// Reports a download that the server made.
pub open spec fn server_download_report(output: OutputFormat, answer: Json) -> TurnView {
    match output {
        OutputFormat::Json => say(json::pretty_text(answer)),
        OutputFormat::Text => say(
            "pipe downloaded successfully. id: "@ + (match json::field(answer, "pipe_id"@) {
                Some(Json::Str(id)) => id,
                _ => "unknown"@,
            }),
        ),
    }
}

/// What says that a pipe was downloaded.
pub open spec fn downloaded_document(id: Seq<char>) -> Json {
    report::success_document(
        Json::Object(
            report::no_fields().insert("pipe_id"@, Json::Str(id)).insert(
                "message"@,
                Json::Str("pipe downloaded successfully"@),
            ),
        ),
    )
}

/// Reports a download into the local pipes.
pub open spec fn local_download_report(
    output: OutputFormat,
    result: Result<Seq<char>, Seq<char>>,
) -> TurnView {
    match (result, output) {
        (Ok(id), OutputFormat::Json) => say(json::pretty_text(downloaded_document(id))),
        (Ok(id), OutputFormat::Text) => say("pipe downloaded successfully. id: "@ + id),
        (Err(error), OutputFormat::Json) => say(
            json::pretty_text(report::failure_document("failed to download pipe: "@ + error)),
        ),
        (Err(error), OutputFormat::Text) => over(
            seq![report::err("failed to download pipe: "@ + error)],
        ),
    }
}

/// What a command does where no server answers.
pub open spec fn fall_back(command: PipeCommand) -> TurnView {
    match command {
        PipeCommand::List { .. } => turn(
            seq![report::out("note: server not running, showing pipe configurations"@)],
            PipeWorkView::ListLocal,
            Stage::Local,
        ),
        PipeCommand::Download { url, .. } => turn(
            Seq::empty(),
            PipeWorkView::DownloadLocal { url: url@ },
            Stage::Local,
        ),
        PipeCommand::Install { url, .. } => turn(
            Seq::empty(),
            PipeWorkView::DownloadLocal { url: url@ },
            Stage::Local,
        ),
        PipeCommand::Info { id, .. } => turn(
            seq![report::out("note: server not running, showing pipe configuration"@)],
            PipeWorkView::DescribeLocal { id: id@ },
            Stage::Local,
        ),
        PipeCommand::Enable { id, .. } => turn(
            Seq::empty(),
            PipeWorkView::ConfigureLocal { id: id@, config: enabled_config(true) },
            Stage::Local,
        ),
        PipeCommand::Disable { id, .. } => turn(
            Seq::empty(),
            PipeWorkView::ConfigureLocal { id: id@, config: enabled_config(false) },
            Stage::Local,
        ),
        PipeCommand::Update { id, config, .. } => match json::parsed_text(config@) {
            Ok(document) => turn(
                Seq::empty(),
                PipeWorkView::ConfigureLocal { id: id@, config: document },
                Stage::Local,
            ),
            Err(error) => fail("invalid json: "@ + error),
        },
        PipeCommand::Delete { id, .. } => turn(
            Seq::empty(),
            PipeWorkView::DeleteLocal { id: id@ },
            Stage::Local,
        ),
        PipeCommand::Purge { .. } => turn(Seq::empty(), PipeWorkView::PurgeLocal, Stage::Local),
    }
}

/// What is said once the server has done what was asked.
pub open spec fn accepted_line(command: PipeCommand) -> Seq<char> {
    match command {
        PipeCommand::Enable { id, .. } => "pipe "@ + id@ + " enabled in running server"@,
        PipeCommand::Disable { id, .. } => "pipe "@ + id@ + " disabled in running server"@,
        PipeCommand::Update { id, .. } => "pipe "@ + id@ + " config updated in running server"@,
        PipeCommand::Delete { id, .. } => "pipe '"@ + id@ + "' deleted from running server"@,
        PipeCommand::Purge { .. } => "all pipes purged from running server"@,
        _ => Seq::empty(),
    }
}

/// What is said once the local pipes have been changed.
pub open spec fn changed_line(command: PipeCommand) -> Seq<char> {
    match command {
        PipeCommand::Enable { .. } =>
            "note: server not running, updated config only. pipe will start on next server launch"@,
        PipeCommand::Delete { id, .. } => "pipe '"@ + id@ + "' deleted from local files"@,
        PipeCommand::Purge { .. } => "all pipes purged from local files"@,
        _ => "note: server not running, updated config only"@,
    }
}

/// Reports a change of the local pipes: that a deletion went wrong is only
/// said, that a configuration did is a failure.
pub open spec fn changed_report(command: PipeCommand, error: Option<Seq<char>>) -> TurnView {
    match (error, command) {
        (None, _) => say(changed_line(command)),
        (Some(error), PipeCommand::Delete { .. }) => say("failed to delete pipe: "@ + error),
        (Some(error), PipeCommand::Purge { .. }) => say("failed to purge pipes: "@ + error),
        (Some(error), _) => fail(error),
    }
}

/// Whether the news answer what the command waits for at that stage.
pub open spec fn answers(command: PipeCommand, stage: Stage, news: NewsView) -> bool {
    match (stage, news) {
        (Stage::Start, NewsView::Begin) => true,
        (Stage::Asked, NewsView::Typed { .. }) => question(command) is Some,
        (Stage::Sent, NewsView::NoServer) => true,
        (Stage::Sent, NewsView::Unreadable { .. }) => command is List || command is Download
            || command is Install || command is Info,
        (Stage::Sent, NewsView::Document { .. }) => command is List || command is Download
            || command is Install,
        (Stage::Sent, NewsView::Detail { .. }) => command is Info,
        (Stage::Sent, NewsView::Accepted) => command is Enable || command is Disable
            || command is Update || command is Delete || command is Purge,
        (Stage::Decoding, NewsView::Decoded { .. }) => command is List,
        (Stage::Local, NewsView::Listed { .. }) => command is List,
        (Stage::Local, NewsView::Described { .. }) => command is Info,
        (Stage::Local, NewsView::Downloaded { .. }) => command is Download || command is Install,
        (Stage::Local, NewsView::Changed { .. }) => command is Enable || command is Disable
            || command is Update || command is Delete || command is Purge,
        _ => false,
    }
}

/// The next turn of a command, given what it is told. The news alone tell how
/// far it has come, where they answer what it waits for.
pub open spec fn next_turn(command: PipeCommand, news: NewsView) -> TurnView {
    match news {
        NewsView::Begin => match question(command) {
            Some(question) => turn(Seq::empty(), PipeWorkView::Ask { question }, Stage::Asked),
            None => ask_server(command),
        },
        NewsView::Typed { line } => if confirms(line) {
            ask_server(command)
        } else if command is Delete {
            say("pipe deletion cancelled"@)
        } else {
            say("pipe purge cancelled"@)
        },
        NewsView::NoServer => fall_back(command),
        NewsView::Unreadable { error } => fail(error),
        NewsView::Document { document } => match command {
            PipeCommand::List { .. } => match json::field(document, "data"@) {
                Some(Json::Array(documents)) => turn(
                    Seq::empty(),
                    PipeWorkView::Decode { documents },
                    Stage::Decoding,
                ),
                _ => fail("invalid response format"@),
            },
            _ => server_download_report(cli::pipe_output(command)->0, document),
        },
        NewsView::Detail { detail } => detail_report(cli::pipe_output(command)->0, detail),
        NewsView::Accepted => say(accepted_line(command)),
        NewsView::Decoded { read } => list_report(cli::pipe_output(command)->0, kept(read)),
        NewsView::Listed { pipes } => list_report(cli::pipe_output(command)->0, pipes),
        NewsView::Described { local } => match local {
            Some(detail) => detail_report(cli::pipe_output(command)->0, detail),
            None => fail("pipe not found"@),
        },
        NewsView::Downloaded { result } => local_download_report(
            cli::pipe_output(command)->0,
            result,
        ),
        NewsView::Changed { problem } => changed_report(command, problem),
    }
}

fn make_turn(lines: Vec<Line>, work: PipeWork, stage: Stage) -> (r: Turn)
    ensures
        r@ == turn(report::lines(lines@), work@, stage),
{
    Turn { lines, work, progress: PipeProgress { stage } }
}

fn finish(line: String) -> (r: Turn)
    ensures
        r@ == say(line@),
{
    make_turn(report::one_line(line), PipeWork::Finish, Stage::Over)
}

fn finish_failing(error: String) -> (r: Turn)
    ensures
        r@ == fail(error@),
{
    make_turn(report::no_lines(), PipeWork::Fail { error }, Stage::Over)
}

fn work_on(work: PipeWork, stage: Stage) -> (r: Turn)
    ensures
        r@ == turn(Seq::empty(), work@, stage),
{
    make_turn(report::no_lines(), work, stage)
}

/// Ends a command with a document, given the document's text, or the error
/// that came in its place.
pub fn show_text(text: Result<String, String>) -> (r: Turn)
    ensures
        r@ == show(json::text_result(text)),
{
    match text {
        Ok(line) => finish(line),
        Err(error) => finish_failing(error),
    }
}

fn show_value(value: &Value) -> (r: Turn)
    ensures
        r@ == say(json::pretty_text(json::json_of(*value))),
{
    show_text(json::to_pretty(value))
}

fn server_url(port: u16) -> (r: String)
    ensures
        r@ == server(port),
{
    report::joined("http://localhost:", text::decimal_text(port as u64).as_str())
}

fn endpoint(port: u16, path: &str) -> (r: String)
    ensures
        r@ == server(port) + path@,
{
    report::joined(server_url(port).as_str(), path)
}

fn text_field(key: &str, value: &str) -> (r: Value)
    ensures
        json::json_of(r) == text_object(key@, value@),
{
    Fields::new().with(key, json::string_value(value)).build()
}

fn enabled_value(enabled: bool) -> (r: Value)
    ensures
        json::json_of(r) == enabled_config(enabled),
{
    Fields::new().with("enabled", json::bool_value(enabled)).build()
}

/// The view of a document that was read, or of the error that came in its
/// place.
pub open spec fn read_result(r: Result<Value, String>) -> Result<Json, Seq<char>> {
    match r {
        Ok(value) => Ok(json::json_of(value)),
        Err(error) => Err(error@),
    }
}

/// The request to change the configuration of a pipe, given what was read of
/// the configuration.
pub fn update_request(id: &str, port: u16, config: Result<Value, String>) -> (r: Result<
    HttpRequest,
    String,
>)
    ensures
        match r {
            Ok(request) => Ok::<HttpView, Seq<char>>(request@),
            Err(error) => Err(error@),
        } == update_request_of(id@, port, read_result(config)),
{
    match config {
        Ok(document) => {
            let body = Fields::new().with("pipe_id", json::string_value(id)).with(
                "config",
                document,
            ).build();
            Ok(
                HttpRequest {
                    method: Method::Post,
                    url: endpoint(port, "/pipes/update"),
                    body: Some(body),
                    reads: Reads::Nothing,
                },
            )
        },
        Err(error) => Err(report::joined("invalid json: ", error.as_str())),
    }
}

fn post(port: u16, path: &str, body: Option<Value>, reads: Reads) -> (r: HttpRequest)
    ensures
        r.method == Method::Post,
        r.url@ == server(port) + path@,
        r.body == body,
        r.reads == reads,
{
    HttpRequest { method: Method::Post, url: endpoint(port, path), body, reads }
}

/// The request that a command makes of the server.
pub fn server_request(command: &PipeCommand) -> (r: Result<HttpRequest, String>)
    ensures
        match r {
            Ok(request) => Ok::<HttpView, Seq<char>>(request@),
            Err(error) => Err(error@),
        } == request(*command),
{
    match command {
        PipeCommand::List { port, .. } => Ok(
            HttpRequest {
                method: Method::Get,
                url: endpoint(*port, "/pipes/list"),
                body: None,
                reads: Reads::Document,
            },
        ),
        PipeCommand::Download { url, port, .. } => Ok(
            post(
                *port,
                "/pipes/download",
                Some(text_field("url", url.as_str())),
                Reads::Document,
            ),
        ),
        PipeCommand::Install { url, port, .. } => Ok(
            post(
                *port,
                "/pipes/download",
                Some(text_field("url", url.as_str())),
                Reads::Document,
            ),
        ),
        PipeCommand::Info { id, port, .. } => {
            let mut url = endpoint(*port, "/pipes/info/");
            url.append(id.as_str());
            Ok(HttpRequest { method: Method::Get, url, body: None, reads: Reads::Detail })
        },
        PipeCommand::Enable { id, port } => Ok(
            post(
                *port,
                "/pipes/enable",
                Some(text_field("pipe_id", id.as_str())),
                Reads::Nothing,
            ),
        ),
        PipeCommand::Disable { id, port } => Ok(
            post(
                *port,
                "/pipes/disable",
                Some(text_field("pipe_id", id.as_str())),
                Reads::Nothing,
            ),
        ),
        PipeCommand::Update { id, config, port } => update_request(
            id.as_str(),
            *port,
            json::parse_json(config.as_str()),
        ),
        PipeCommand::Delete { id, port, .. } => {
            let mut url = endpoint(*port, "/pipes/delete/");
            url.append(id.as_str());
            Ok(HttpRequest { method: Method::Delete, url, body: None, reads: Reads::Nothing })
        },
        PipeCommand::Purge { port, .. } => Ok(post(*port, "/pipes/purge", None, Reads::Nothing)),
    }
}

/// What the user is asked before the command goes on.
fn ask_first(command: &PipeCommand) -> (r: Option<String>)
    ensures
        match r {
            Some(text) => question(*command) == Some(text@),
            None => question(*command) is None,
        },
{
    match command {
        PipeCommand::Delete { id, yes, .. } => if *yes {
            None
        } else {
            Some(
                report::joined3(
                    "are you sure you want to delete pipe '",
                    id.as_str(),
                    "'? [y/N] ",
                ),
            )
        },
        PipeCommand::Purge { yes, .. } => if *yes {
            None
        } else {
            Some(
                "are you sure you want to purge all pipes? this action cannot be undone. (y/N): ".to_owned(),
            )
        },
        _ => None,
    }
}

/// Tells whether what the user typed means yes.
pub fn is_confirmed(line: &str) -> (b: bool)
    ensures
        b == confirms(line@),
{
    let typed = text::trim(line);
    text::same_text(typed.as_str(), "y") || text::same_text(typed.as_str(), "Y")
}

fn send(command: &PipeCommand) -> (r: Turn)
    ensures
        r@ == ask_server(*command),
{
    match server_request(command) {
        Ok(request) => work_on(PipeWork::Send { request }, Stage::Sent),
        Err(error) => finish_failing(error),
    }
}

/// Keeps the pipes among what was read, in order.
pub fn keep_pipes(pipes: Vec<Option<PipeInfo>>) -> (r: Vec<PipeInfo>)
    ensures
        pipe_views(r@) == kept(pipes@.map_values(|p: Option<PipeInfo>| gap_view(p))),
{
    let ghost all = pipes@.map_values(|p: Option<PipeInfo>| gap_view(p));
    let mut r: Vec<PipeInfo> = Vec::new();
    proof {
        assert(all.take(0) =~= Seq::empty());
        assert(pipe_views(r@) =~= kept(all.take(0)));
    }
    for entry in it: pipes
        invariant
            it.seq() == pipes@,
            all == pipes@.map_values(|p: Option<PipeInfo>| gap_view(p)),
            pipe_views(r@) == kept(all.take(it.index() as int)),
    {
        let ghost before = r@;
        proof {
            let i = it.index() as int;
            assert(all.take(i + 1).drop_last() =~= all.take(i));
            assert(all.take(i + 1).last() == gap_view(entry));
        }
        match entry {
            Some(pipe) => {
                r.push(pipe);
                assert(pipe_views(r@) =~= pipe_views(before).push(pipe@));
            },
            None => {},
        }
    }
    assert(all.take(all.len() as int) =~= all);
    r
}

/// Reports a list of pipes.
pub fn report_list(output: OutputFormat, pipes: Vec<PipeInfo>) -> (r: Turn)
    ensures
        r@ == list_report(output, pipe_views(pipes@)),
{
    match output {
        OutputFormat::Json => {
            let mut documents: Vec<Value> = Vec::new();
            for i in 0..pipes.len()
                invariant
                    documents@.len() == i,
                    forall|j: int|
                        0 <= j < i ==> json::json_of(#[trigger] documents@[j]) == json::json_of(
                            pipes@[j].document,
                        ),
            {
                documents.push(pipes[i].document.clone());
            }
            assert(json::json_seq(documents@) =~= pipe_views(pipes@).map_values(
                |p: PipeView| p.document,
            ));
            show_value(&report::success_value(json::array_value(documents)))
        },
        OutputFormat::Text => {
            let mut lines = report::one_line("available pipes:".to_owned());
            let ghost wanted = pipe_views(pipes@).map_values(|p: PipeView| pipe_line(p));
            proof {
                assert(wanted.take(0) =~= Seq::empty());
                assert(report::lines(lines@) =~= seq![report::out("available pipes:"@)]
                    + wanted.take(0));
            }
            for i in 0..pipes.len()
                invariant
                    wanted == pipe_views(pipes@).map_values(|p: PipeView| pipe_line(p)),
                    report::lines(lines@) == seq![report::out("available pipes:"@)] + wanted.take(
                        i as int,
                    ),
            {
                let mut line = report::joined3("  id: ", pipes[i].id.as_str(), ", enabled: ");
                line.append(
                    if pipes[i].enabled {
                        "true"
                    } else {
                        "false"
                    },
                );
                report::print_line(&mut lines, line);
                assert(wanted.take(i + 1) =~= wanted.take(i as int).push(wanted[i as int]));
                assert(report::lines(lines@) =~= seq![report::out("available pipes:"@)]
                    + wanted.take(i + 1));
            }
            assert(wanted.take(pipes@.len() as int) =~= wanted);
            make_turn(lines, PipeWork::Finish, Stage::Over)
        },
    }
}

/// Reports the description of a pipe.
pub fn report_detail(output: OutputFormat, detail: PipeDetail) -> (r: Turn)
    ensures
        r@ == detail_report(output, detail@),
{
    match output {
        OutputFormat::Json => show_text(detail.printed),
        OutputFormat::Text => finish(report::joined("pipe info: ", detail.shown.as_str())),
    }
}

/// Reports a download that the server made.
pub fn report_server_download(output: OutputFormat, answer: Value) -> (r: Turn)
    ensures
        r@ == server_download_report(output, json::json_of(answer)),
{
    match output {
        OutputFormat::Json => show_value(&answer),
        OutputFormat::Text => {
            let mut line = "pipe downloaded successfully. id: ".to_owned();
            match json::get_field(&answer, "pipe_id") {
                Some(field) => match json::as_text(field) {
                    Some(id) => line.append(id),
                    None => line.append("unknown"),
                },
                None => line.append("unknown"),
            }
            finish(line)
        },
    }
}

/// Reports a download into the local pipes.
pub fn report_local_download(output: OutputFormat, result: Result<String, String>) -> (r: Turn)
    ensures
        r@ == local_download_report(output, json::text_result(result)),
{
    match result {
        Ok(id) => match output {
            OutputFormat::Json => {
                let data = Fields::new().with("pipe_id", json::string_value(id.as_str())).with(
                    "message",
                    json::string_value("pipe downloaded successfully"),
                ).build();
                show_value(&report::success_value(data))
            },
            OutputFormat::Text => finish(
                report::joined("pipe downloaded successfully. id: ", id.as_str()),
            ),
        },
        Err(error) => {
            let message = report::joined("failed to download pipe: ", error.as_str());
            match output {
                OutputFormat::Json => show_value(&report::failure_value(message.as_str())),
                OutputFormat::Text => make_turn(
                    report::one_error_line(message),
                    PipeWork::Finish,
                    Stage::Over,
                ),
            }
        },
    }
}

/// What the command does where no server answers.
fn work_locally(command: &PipeCommand) -> (r: Turn)
    ensures
        r@ == fall_back(*command),
{
    match command {
        PipeCommand::List { .. } => make_turn(
            report::one_line("note: server not running, showing pipe configurations".to_owned()),
            PipeWork::ListLocal,
            Stage::Local,
        ),
        PipeCommand::Download { url, .. } => work_on(
            PipeWork::DownloadLocal { url: url.clone() },
            Stage::Local,
        ),
        PipeCommand::Install { url, .. } => work_on(
            PipeWork::DownloadLocal { url: url.clone() },
            Stage::Local,
        ),
        PipeCommand::Info { id, .. } => make_turn(
            report::one_line("note: server not running, showing pipe configuration".to_owned()),
            PipeWork::DescribeLocal { id: id.clone() },
            Stage::Local,
        ),
        PipeCommand::Enable { id, .. } => work_on(
            PipeWork::ConfigureLocal { id: id.clone(), config: enabled_value(true) },
            Stage::Local,
        ),
        PipeCommand::Disable { id, .. } => work_on(
            PipeWork::ConfigureLocal { id: id.clone(), config: enabled_value(false) },
            Stage::Local,
        ),
        PipeCommand::Update { id, config, .. } => match json::parse_json(config.as_str()) {
            Ok(document) => work_on(
                PipeWork::ConfigureLocal { id: id.clone(), config: document },
                Stage::Local,
            ),
            Err(error) => finish_failing(report::joined("invalid json: ", error.as_str())),
        },
        PipeCommand::Delete { id, .. } => work_on(
            PipeWork::DeleteLocal { id: id.clone() },
            Stage::Local,
        ),
        PipeCommand::Purge { .. } => work_on(PipeWork::PurgeLocal, Stage::Local),
    }
}

/// Says that the server has done what was asked.
fn say_accepted(command: &PipeCommand) -> (r: String)
    ensures
        r@ == accepted_line(*command),
{
    match command {
        PipeCommand::Enable { id, .. } => report::joined3(
            "pipe ",
            id.as_str(),
            " enabled in running server",
        ),
        PipeCommand::Disable { id, .. } => report::joined3(
            "pipe ",
            id.as_str(),
            " disabled in running server",
        ),
        PipeCommand::Update { id, .. } => report::joined3(
            "pipe ",
            id.as_str(),
            " config updated in running server",
        ),
        PipeCommand::Delete { id, .. } => report::joined3(
            "pipe '",
            id.as_str(),
            "' deleted from running server",
        ),
        PipeCommand::Purge { .. } => "all pipes purged from running server".to_owned(),
        _ => String::new(),
    }
}

/// Says that the local pipes have been changed.
fn say_changed(command: &PipeCommand) -> (r: String)
    ensures
        r@ == changed_line(*command),
{
    match command {
        PipeCommand::Enable { .. } =>
            "note: server not running, updated config only. pipe will start on next server launch".to_owned(),
        PipeCommand::Delete { id, .. } => report::joined3(
            "pipe '",
            id.as_str(),
            "' deleted from local files",
        ),
        PipeCommand::Purge { .. } => "all pipes purged from local files".to_owned(),
        _ => "note: server not running, updated config only".to_owned(),
    }
}

fn report_changed(command: &PipeCommand, error: Option<String>) -> (r: Turn)
    ensures
        r@ == changed_report(
            *command,
            match error {
                Some(e) => Some(e@),
                None => None,
            },
        ),
{
    match error {
        None => finish(say_changed(command)),
        Some(error) => match command {
            PipeCommand::Delete { .. } => finish(
                report::joined("failed to delete pipe: ", error.as_str()),
            ),
            PipeCommand::Purge { .. } => finish(
                report::joined("failed to purge pipes: ", error.as_str()),
            ),
            _ => finish_failing(error),
        },
    }
}

/// Finds the pipes in the server's answer.
fn read_list(document: &Value) -> (r: Turn)
    ensures
        r@ == (match json::field(json::json_of(*document), "data"@) {
            Some(Json::Array(documents)) => turn(
                Seq::empty(),
                PipeWorkView::Decode { documents },
                Stage::Decoding,
            ),
            _ => fail("invalid response format"@),
        }),
{
    let found: Option<Vec<Value>> = match json::get_field(document, "data") {
        Some(data) => match json::as_array(data) {
            Some(items) => {
                let mut documents: Vec<Value> = Vec::new();
                for i in 0..items.len()
                    invariant
                        documents@.len() == i,
                        forall|j: int|
                            0 <= j < i ==> json::json_of(#[trigger] documents@[j])
                                == json::json_of(items@[j]),
                {
                    documents.push(items[i].clone());
                }
                assert(json::json_seq(documents@) =~= json::json_seq(items@));
                Some(documents)
            },
            None => None,
        },
        None => None,
    };
    match found {
        Some(documents) => work_on(PipeWork::Decode { documents }, Stage::Decoding),
        None => finish_failing("invalid response format".to_owned()),
    }
}

/// The format that the command reports in.
fn output_of(command: &PipeCommand) -> (r: OutputFormat)
    requires
        cli::pipe_output(*command) is Some,
    ensures
        Some(r) == cli::pipe_output(*command),
{
    match command {
        PipeCommand::List { output, .. } => *output,
        PipeCommand::Download { output, .. } => *output,
        PipeCommand::Install { output, .. } => *output,
        PipeCommand::Info { output, .. } => *output,
        _ => OutputFormat::Text,
    }
}

/// Takes a pipe command one turn further: given how far it has come and what
/// it is told, what is printed and what is to be done.
pub fn handle_pipe_command(command: &PipeCommand, progress: PipeProgress, news: News) -> (r: Turn)
    requires
        answers(*command, progress@, news@),
    ensures
        r@ == next_turn(*command, news@),
{
    match news {
        News::Begin => match ask_first(command) {
            Some(question) => work_on(PipeWork::Ask { question }, Stage::Asked),
            None => send(command),
        },
        News::Typed { line } => if is_confirmed(line.as_str()) {
            send(command)
        } else {
            match command {
                PipeCommand::Delete { .. } => finish("pipe deletion cancelled".to_owned()),
                _ => finish("pipe purge cancelled".to_owned()),
            }
        },
        News::NoServer => work_locally(command),
        News::Unreadable { error } => finish_failing(error),
        News::Document { document } => match command {
            PipeCommand::List { .. } => read_list(&document),
            _ => report_server_download(output_of(command), document),
        },
        News::Detail { detail } => report_detail(output_of(command), detail),
        News::Accepted => finish(say_accepted(command)),
        News::Decoded { read } => report_list(output_of(command), keep_pipes(read)),
        News::Listed { pipes } => report_list(output_of(command), pipes),
        News::Described { local } => match local {
            Some(detail) => report_detail(output_of(command), detail),
            None => finish_failing("pipe not found".to_owned()),
        },
        News::Downloaded { result } => report_local_download(output_of(command), result),
        News::Changed { problem } => report_changed(command, problem),
    }
}

} // verus!
