//! What the views show: the very texts, numbers and lists of the values.

use crate::github;
use crate::github::GitHubContent;
use crate::github::Outcome;
use crate::github::OutcomeView;
use crate::github::Work;
use crate::github::WorkView;
use crate::json;
use crate::mcp::McpNews;
use crate::mcp::McpNewsView;
use crate::mcp::McpTurn;
use crate::mcp::McpWork;
use crate::mcp::McpWorkView;
use crate::migrate;
use crate::migrate::MigrationCommand;
use crate::migrate::MigrationNews;
use crate::migrate::MigrationNewsView;
use crate::migrate::MigrationTurn;
use crate::migrate::MigrationWork;
use crate::migrate::MigrationWorkView;
use crate::migrate::Notice;
use crate::migrate::NoticeView;
use crate::migrate::StatusReport;
use crate::pipes;
use crate::pipes::HttpRequest;
use crate::pipes::News;
use crate::pipes::NewsView;
use crate::pipes::PipeDetail;
use crate::pipes::PipeInfo;
use crate::pipes::PipeWork;
use crate::pipes::PipeWorkView;
use crate::pipes::Turn;
use crate::place::Place;
use crate::place::Root;
use crate::place::RootView;
use crate::report;
use crate::report::Line;
use serde_json::Value;
use vstd::prelude::*;

verus! {

/// The lines of a report are seen as they are, each at its place.
pub proof fn law_lines_are_seen_whole(lines: Seq<Line>, i: int)
    ensures
        report::lines(lines).len() == lines.len(),
        0 <= i < lines.len() ==> report::lines(lines)[i].stream == lines[i].stream
            && report::lines(lines)[i].text == lines[i].text@,
{
}

/// A place is seen by its root and its names, each at its place.
pub proof fn law_a_place_is_seen_whole(place: Place, path: String, i: int)
    ensures
        place@.root == place.root@,
        place@.names.len() == place.names@.len(),
        0 <= i < place.names@.len() ==> place@.names[i] == place.names@[i]@,
        Root::Given(path)@ == RootView::Given(path@),
        Root::Home@ == RootView::Home,
{
}

/// The entries of a listing are seen with their own texts, each at its place.
pub proof fn law_a_listing_is_seen_whole(contents: Seq<GitHubContent>, i: int)
    ensures
        github::listing(contents).len() == contents.len(),
        0 <= i < contents.len() ==> ({
            let entry = contents[i];
            let seen = github::listing(contents)[i];
            &&& seen.name == entry.name@
            &&& seen.path == entry.path@
            &&& seen.content_type == entry.content_type@
            &&& seen.download_url is Some <==> entry.download_url is Some
            &&& entry.download_url is Some ==> seen.download_url->0 == entry.download_url->0@
        }),
{
}

/// What a download asks for, and what it is told, is seen as it is.
pub proof fn law_a_download_is_seen_whole(
    contents: Vec<GitHubContent>,
    a: String,
    b: String,
    place: Place,
)
    ensures
        (Work::List { url: a })@ == (WorkView::List { url: a@ }),
        (Work::Get { url: a })@ == (WorkView::Get { url: a@ }),
        (Work::Write { path: place })@ == (WorkView::Write { path: place@ }),
        (Work::CreateDir { path: place })@ == (WorkView::CreateDir { path: place@ }),
        Work::Done@ == WorkView::Done,
        (Work::Fail { error: a })@ == (WorkView::Fail { error: a@ }),
        (Outcome::Listed { contents })@ == (OutcomeView::Listed {
            contents: github::listing(contents@),
        }),
        (Outcome::NotSent { error: a })@ == (OutcomeView::NotSent { error: a@ }),
        (Outcome::Refused { status: a, body: b })@ == (OutcomeView::Refused { status: a@, body: b@ }),
        (Outcome::NotRead { error: a })@ == (OutcomeView::NotRead { error: a@ }),
        Outcome::Received@ == OutcomeView::Received,
        (Outcome::NotReceived { error: a })@ == (OutcomeView::NotReceived { error: a@ }),
        (Outcome::NoContent { error: a })@ == (OutcomeView::NoContent { error: a@ }),
        Outcome::Stored@ == OutcomeView::Stored,
        (Outcome::NotStored { path: a, error: b })@ == (OutcomeView::NotStored {
            path: a@,
            error: b@,
        }),
{
}

/// Pipes, descriptions and requests are seen with their own parts.
pub proof fn law_pipes_are_seen_whole(
    pipes: Seq<PipeInfo>,
    i: int,
    detail: PipeDetail,
    request: HttpRequest,
)
    ensures
        pipes::pipe_views(pipes).len() == pipes.len(),
        0 <= i < pipes.len() ==> ({
            let seen = pipes::pipe_views(pipes)[i];
            &&& seen.id == pipes[i].id@
            &&& seen.enabled == pipes[i].enabled
            &&& seen.document == json::json_of(pipes[i].document)
        }),
        detail@.shown == detail.shown@,
        detail.printed matches Ok(text) ==> detail@.printed == Ok::<Seq<char>, Seq<char>>(text@),
        detail.printed matches Err(error) ==> detail@.printed == Err::<Seq<char>, Seq<char>>(
            error@,
        ),
        request@.method == request.method,
        request@.url == request.url@,
        request@.reads == request.reads,
        request@.body is Some <==> request.body is Some,
        request.body is Some ==> request@.body->0 == json::json_of(request.body->0),
{
}

/// What a pipe command asks for is seen as it is.
pub proof fn law_pipe_work_is_seen_whole(
    a: String,
    config: Value,
    documents: Vec<Value>,
    i: int,
    request: HttpRequest,
)
    ensures
        (PipeWork::Ask { question: a })@ == (PipeWorkView::Ask { question: a@ }),
        (PipeWork::Send { request })@ == (PipeWorkView::Send { request: request@ }),
        (PipeWork::Decode { documents })@ matches PipeWorkView::Decode { documents: seen }
            && seen.len() == documents@.len() && (0 <= i < seen.len() ==> seen[i] == json::json_of(
            documents@[i],
        )),
        PipeWork::ListLocal@ == PipeWorkView::ListLocal,
        (PipeWork::DownloadLocal { url: a })@ == (PipeWorkView::DownloadLocal { url: a@ }),
        (PipeWork::DescribeLocal { id: a })@ == (PipeWorkView::DescribeLocal { id: a@ }),
        (PipeWork::ConfigureLocal { id: a, config })@ == (PipeWorkView::ConfigureLocal {
            id: a@,
            config: json::json_of(config),
        }),
        (PipeWork::DeleteLocal { id: a })@ == (PipeWorkView::DeleteLocal { id: a@ }),
        PipeWork::PurgeLocal@ == PipeWorkView::PurgeLocal,
        PipeWork::Finish@ == PipeWorkView::Finish,
        (PipeWork::Fail { error: a })@ == (PipeWorkView::Fail { error: a@ }),
{
}

/// What a pipe command is told, and its turn, is seen as it is.
pub proof fn law_pipe_news_are_seen_whole(
    a: String,
    document: Value,
    detail: PipeDetail,
    pipes: Vec<PipeInfo>,
    read: Vec<Option<PipeInfo>>,
    i: int,
    turn: Turn,
)
    ensures
        News::Begin@ == NewsView::Begin,
        (News::Typed { line: a })@ == (NewsView::Typed { line: a@ }),
        News::NoServer@ == NewsView::NoServer,
        (News::Unreadable { error: a })@ == (NewsView::Unreadable { error: a@ }),
        (News::Document { document })@ == (NewsView::Document { document: json::json_of(document) }),
        (News::Detail { detail })@ == (NewsView::Detail { detail: detail@ }),
        News::Accepted@ == NewsView::Accepted,
        (News::Decoded { read })@ matches NewsView::Decoded { read: seen } && seen.len()
            == read@.len() && (0 <= i < seen.len() ==> (seen[i] is Some <==> read@[i] is Some) && (
        read@[i] is Some ==> seen[i]->0 == read@[i]->0@)),
        (News::Listed { pipes })@ == (NewsView::Listed { pipes: pipes::pipe_views(pipes@) }),
        (News::Described { local: Some(detail) })@ == (NewsView::Described { local: Some(detail@) }),
        (News::Described { local: None })@ == (NewsView::Described { local: None }),
        (News::Downloaded { result: Ok(a) })@ == (NewsView::Downloaded { result: Ok(a@) }),
        (News::Downloaded { result: Err(a) })@ == (NewsView::Downloaded { result: Err(a@) }),
        (News::Changed { problem: Some(a) })@ == (NewsView::Changed { problem: Some(a@) }),
        (News::Changed { problem: None })@ == (NewsView::Changed { problem: None }),
        turn@.lines == report::lines(turn.lines@),
        turn@.work == turn.work@,
        turn@.stage == turn.progress@,
{
}

/// What a set-up asks for, what it is told, and its turn, is seen as it is.
pub proof fn law_a_set_up_is_seen_whole(
    a: String,
    b: String,
    place: Place,
    flag: bool,
    turn: McpTurn,
)
    ensures
        (McpWork::Probe { command: a, argument: b })@ == (McpWorkView::Probe {
            command: a@,
            argument: b@,
        }),
        (McpWork::LookForDirectory { directory: place })@ == (McpWorkView::LookForDirectory {
            directory: place@,
        }),
        (McpWork::RemoveDirectory { directory: place })@ == (McpWorkView::RemoveDirectory {
            directory: place@,
        }),
        (McpWork::LookInside { directory: place })@ == (McpWorkView::LookInside {
            directory: place@,
        }),
        (McpWork::CreateDirectory { directory: place })@ == (McpWorkView::CreateDirectory {
            directory: place@,
        }),
        (McpWork::Download { url: a, directory: place })@ == (McpWorkView::Download {
            url: a@,
            directory: place@,
        }),
        (McpWork::WriteConfig { file: place, text: a })@ == (McpWorkView::WriteConfig {
            file: place@,
            text: a@,
        }),
        McpWork::Finish@ == McpWorkView::Finish,
        (McpWork::Fail { error: a })@ == (McpWorkView::Fail { error: a@ }),
        McpNews::Begin@ == McpNewsView::Begin,
        (McpNews::Probed { available: flag })@ == (McpNewsView::Probed { available: flag }),
        (McpNews::Found { there: flag })@ == (McpNewsView::Found { there: flag }),
        (McpNews::Inside { result: Ok(flag) })@ == (McpNewsView::Inside { result: Ok(flag) }),
        (McpNews::Inside { result: Err(a) })@ == (McpNewsView::Inside { result: Err(a@) }),
        (McpNews::Done { error: Some(a) })@ == (McpNewsView::Done { error: Some(a@) }),
        (McpNews::Done { error: None })@ == (McpNewsView::Done { error: None }),
        McpNews::Cancelled@ == McpNewsView::Cancelled,
        turn@.lines == report::lines(turn.lines@),
        turn@.work == turn.work@,
        turn@.stage == turn.progress@,
{
}

/// What is shown of a migration is seen as it is, each notice at its place.
pub proof fn law_notices_are_seen_whole(
    list: Seq<Notice>,
    i: int,
    a: String,
    processed_records: i64,
    total_records: i64,
)
    ensures
        migrate::notices(list).len() == list.len(),
        0 <= i < list.len() ==> migrate::notices(list)[i] == list[i]@,
        (Notice::Print { text: a })@ == (NoticeView::Print { text: a@ }),
        (Notice::Log { text: a })@ == (NoticeView::Log { text: a@ }),
        (Notice::LogError { text: a })@ == (NoticeView::LogError { text: a@ }),
        (Notice::Progress { what: a, processed_records, total_records })@ == (NoticeView::Progress {
            what: a@,
            processed_records,
            total_records,
        }),
{
}

/// What a migration asks for, what it is told, and its turn, is seen as it is.
pub proof fn law_a_migration_is_seen_whole(
    a: String,
    command: MigrationCommand,
    done: bool,
    told: StatusReport,
    turn: MigrationTurn,
)
    ensures
        (MigrationWork::Send { command })@ == (MigrationWorkView::Send { command }),
        MigrationWork::Receive@ == MigrationWorkView::Receive,
        MigrationWork::Poll@ == MigrationWorkView::Poll,
        MigrationWork::Join@ == MigrationWorkView::Join,
        MigrationWork::Finish@ == MigrationWorkView::Finish,
        (MigrationWork::Fail { error: a })@ == (MigrationWorkView::Fail { error: a@ }),
        MigrationNews::Begin@ == MigrationNewsView::Begin,
        (MigrationNews::Sent { done })@ == (MigrationNewsView::Sent { done }),
        MigrationNews::Closed@ == MigrationNewsView::Closed,
        MigrationNews::Joined@ == MigrationNewsView::Joined,
        (MigrationNews::Told { report: told })@ matches MigrationNewsView::Told {
            status,
            printed,
            shown,
        } && {
            &&& status == told.status
            &&& shown == told.shown@
            &&& told.printed matches Ok(text) ==> printed == Ok::<Seq<char>, Seq<char>>(text@)
            &&& told.printed matches Err(error) ==> printed == Err::<Seq<char>, Seq<char>>(error@)
        },
        turn@.notices == migrate::notices(turn.notices@),
        turn@.work == turn.work@,
        turn@.stage == turn.progress@,
{
}

} // verus!
