//! Driving a migration worker: one command is sent to it, and a migration that
//! was started is watched.

use crate::cli::MigrationSubCommand;
use crate::cli::OutputFormat;
use crate::json;
use crate::report;
use crate::text;
use crate::text_laws;
use vstd::prelude::*;
use vstd::string::*;

verus! {

/// A command for the migration worker.
#[derive(Clone, Copy, Debug, PartialEq, Eq, Structural)]
pub enum MigrationCommand {
    Start,
    Pause,
    Stop,
    Status,
}

/// The command that is sent for a subcommand: to ask for the status where
/// there is none.
pub open spec fn command_for(subcommand: Option<MigrationSubCommand>) -> MigrationCommand {
    match subcommand {
        Some(MigrationSubCommand::Start) => MigrationCommand::Start,
        Some(MigrationSubCommand::Pause) => MigrationCommand::Pause,
        Some(MigrationSubCommand::Stop) => MigrationCommand::Stop,
        Some(MigrationSubCommand::Status) => MigrationCommand::Status,
        None => MigrationCommand::Status,
    }
}

/// The command that is sent for a subcommand.
pub fn migration_command(subcommand: Option<MigrationSubCommand>) -> (r: MigrationCommand)
    ensures
        r == command_for(subcommand),
{
    match subcommand {
        Some(MigrationSubCommand::Start) => MigrationCommand::Start,
        Some(MigrationSubCommand::Pause) => MigrationCommand::Pause,
        Some(MigrationSubCommand::Stop) => MigrationCommand::Stop,
        Some(MigrationSubCommand::Status) | None => MigrationCommand::Status,
    }
}

/// How a migration stands.
#[derive(Debug, PartialEq, Eq)]
pub enum MigrationStatus {
    Running { total_records: i64, processed_records: i64 },
    Paused { total_records: i64, processed_records: i64 },
    Completed { total_records: i64, duration_secs: u64 },
    Failed { total_records: i64, processed_records: i64, error: String },
    /// Anything else.
    Other,
}

/// A status that the worker told: what it is, the indented text of it as JSON,
/// or why there is none, and the text of it as shown to a developer.
#[derive(Debug, PartialEq, Eq)]
pub struct StatusReport {
    pub status: MigrationStatus,
    pub printed: Result<String, String>,
    pub shown: String,
}

/// What is to be shown of a migration.
#[derive(Debug, PartialEq, Eq)]
pub enum Notice {
    /// A line on the standard output.
    Print { text: String },
    /// A line in the log.
    Log { text: String },
    /// An error in the log.
    LogError { text: String },
    /// A line in the log: what goes on, how many records of how many are
    /// done, and the percentage of that.
    Progress { what: String, processed_records: i64, total_records: i64 },
}

/// The view of a notice.
pub enum NoticeView {
    Print { text: Seq<char> },
    Log { text: Seq<char> },
    LogError { text: Seq<char> },
    Progress { what: Seq<char>, processed_records: i64, total_records: i64 },
}

impl View for Notice {
    type V = NoticeView;

    open spec fn view(&self) -> NoticeView {
        match self {
            Notice::Print { text } => NoticeView::Print { text: text@ },
            Notice::Log { text } => NoticeView::Log { text: text@ },
            Notice::LogError { text } => NoticeView::LogError { text: text@ },
            Notice::Progress { what, processed_records, total_records } => NoticeView::Progress {
                what: what@,
                processed_records: *processed_records,
                total_records: *total_records,
            },
        }
    }
}

/// The views of some notices.
pub open spec fn notices(v: Seq<Notice>) -> Seq<NoticeView> {
    v.map_values(|n: Notice| n@)
}

/// What is asked to be done.
#[derive(Debug, PartialEq, Eq)]
pub enum MigrationWork {
    /// Send the command to the worker.
    Send { command: MigrationCommand },
    /// Wait for the worker to tell a status.
    Receive,
    /// Wait for the next tick, then send the worker the command to tell its
    /// status.
    Poll,
    /// Wait for the worker to end.
    Join,
    /// Nothing: the command is over.
    Finish,
    /// Nothing: the command failed.
    Fail { error: String },
}

/// The view of what is asked.
pub enum MigrationWorkView {
    Send { command: MigrationCommand },
    Receive,
    Poll,
    Join,
    Finish,
    Fail { error: Seq<char> },
}

impl View for MigrationWork {
    type V = MigrationWorkView;

    open spec fn view(&self) -> MigrationWorkView {
        match self {
            MigrationWork::Send { command } => MigrationWorkView::Send { command: *command },
            MigrationWork::Receive => MigrationWorkView::Receive,
            MigrationWork::Poll => MigrationWorkView::Poll,
            MigrationWork::Join => MigrationWorkView::Join,
            MigrationWork::Finish => MigrationWorkView::Finish,
            MigrationWork::Fail { error } => MigrationWorkView::Fail { error: error@ },
        }
    }
}

/// How far the command has come.
#[derive(Clone, Copy, Debug, PartialEq, Eq, Structural)]
pub enum MigrationStage {
    /// Not begun.
    Start,
    /// The command is being sent.
    Sending,
    /// Waiting for the first status of a migration that was started.
    First,
    /// The status is being asked for.
    Polling,
    /// Waiting for a further status.
    Watching,
    /// Waiting for the only status.
    Only,
    /// Waiting for the worker to end.
    Joining,
    /// Over.
    Over,
}

/// How far a command has come, as handed from turn to turn.
#[derive(Debug, PartialEq, Eq)]
pub struct MigrationProgress {
    stage: MigrationStage,
}

impl View for MigrationProgress {
    type V = MigrationStage;

    closed spec fn view(&self) -> MigrationStage {
        self.stage
    }
}

impl MigrationProgress {
    /// A command that has not begun.
    pub fn start() -> (r: MigrationProgress)
        ensures
            r@ == MigrationStage::Start,
    {
        MigrationProgress { stage: MigrationStage::Start }
    }
}

/// What the command is told.
#[derive(Debug, PartialEq, Eq)]
pub enum MigrationNews {
    /// That it begins.
    Begin,
    /// Whether what was to be sent was sent.
    Sent { done: bool },
    /// A status.
    Told { report: StatusReport },
    /// That the worker will tell no more.
    Closed,
    /// That the worker has ended.
    Joined,
}

/// The view of what the command is told.
pub enum MigrationNewsView {
    Begin,
    Sent { done: bool },
    Told { status: MigrationStatus, printed: Result<Seq<char>, Seq<char>>, shown: Seq<char> },
    Closed,
    Joined,
}

impl View for MigrationNews {
    type V = MigrationNewsView;

    open spec fn view(&self) -> MigrationNewsView {
        match self {
            MigrationNews::Begin => MigrationNewsView::Begin,
            MigrationNews::Sent { done } => MigrationNewsView::Sent { done: *done },
            MigrationNews::Told { report } => MigrationNewsView::Told {
                status: report.status,
                printed: json::text_result(report.printed),
                shown: report.shown@,
            },
            MigrationNews::Closed => MigrationNewsView::Closed,
            MigrationNews::Joined => MigrationNewsView::Joined,
        }
    }
}

/// A turn: what is to be shown, what is then to be done, and how far the
/// command has come with that.
#[derive(Debug, PartialEq, Eq)]
pub struct MigrationTurn {
    pub notices: Vec<Notice>,
    pub work: MigrationWork,
    pub progress: MigrationProgress,
}

/// The view of a turn.
pub struct MigrationTurnView {
    pub notices: Seq<NoticeView>,
    pub work: MigrationWorkView,
    pub stage: MigrationStage,
}

impl View for MigrationTurn {
    type V = MigrationTurnView;

    open spec fn view(&self) -> MigrationTurnView {
        MigrationTurnView {
            notices: notices(self.notices@),
            work: self.work@,
            stage: self.progress@,
        }
    }
}

/// Whether the news answer what the command waits for.
pub open spec fn answers(stage: MigrationStage, news: MigrationNewsView) -> bool {
    match stage {
        MigrationStage::Start => news is Begin,
        MigrationStage::Sending => news is Sent,
        MigrationStage::First => news is Told || news is Closed,
        MigrationStage::Polling => news is Sent,
        MigrationStage::Watching => news is Told || news is Closed,
        MigrationStage::Only => news is Told || news is Closed,
        MigrationStage::Joining => news is Joined,
        MigrationStage::Over => false,
    }
}

/// A turn.
pub open spec fn turn(
    notices: Seq<NoticeView>,
    work: MigrationWorkView,
    stage: MigrationStage,
) -> MigrationTurnView {
    MigrationTurnView { notices, work, stage }
}

/// The last turn of a command that fails.
pub open spec fn fail(error: Seq<char>) -> MigrationTurnView {
    turn(Seq::empty(), MigrationWorkView::Fail { error }, MigrationStage::Over)
}

/// The turn that asks for the status once more.
pub open spec fn poll(notices: Seq<NoticeView>) -> MigrationTurnView {
    turn(notices, MigrationWorkView::Poll, MigrationStage::Polling)
}

/// The turn once there is nothing more to be told: a worker that was stopped
/// is waited for.
pub open spec fn close(command: MigrationCommand, notices: Seq<NoticeView>) -> MigrationTurnView {
    if command == MigrationCommand::Stop {
        turn(notices, MigrationWorkView::Join, MigrationStage::Joining)
    } else {
        turn(notices, MigrationWorkView::Finish, MigrationStage::Over)
    }
}

/// The status as shown to a developer.
pub open spec fn status_line(shown: Seq<char>) -> NoticeView {
    NoticeView::Log { text: "Migration status: "@ + shown }
}

/// How far a running migration is.
pub open spec fn progress(processed_records: i64, total_records: i64) -> NoticeView {
    NoticeView::Progress { what: "Processing records"@, processed_records, total_records }
}

/// What is shown of the first status of a migration that was started.
pub open spec fn first_notices(
    name: Seq<char>,
    status: MigrationStatus,
    shown: Seq<char>,
) -> Seq<NoticeView> {
    seq![
        NoticeView::Log { text: "Started migration: "@ + name },
        match status {
            MigrationStatus::Running { total_records, processed_records } => progress(
                processed_records,
                total_records,
            ),
            _ => status_line(shown),
        },
    ]
}

/// What is shown of a further status.
pub open spec fn watch_notice(status: MigrationStatus, shown: Seq<char>) -> NoticeView {
    match status {
        MigrationStatus::Running { total_records, processed_records } => progress(
            processed_records,
            total_records,
        ),
        MigrationStatus::Completed { total_records, duration_secs } => NoticeView::Log {
            text: "Migration completed: "@ + text::signed_decimal(total_records as int)
                + " records processed in "@ + text::decimal(duration_secs as nat) + " seconds"@,
        },
        MigrationStatus::Paused { total_records, processed_records } => NoticeView::Progress {
            what: "Migration paused"@,
            processed_records,
            total_records,
        },
        MigrationStatus::Failed { total_records, processed_records, error } => NoticeView::LogError {
            text: "Migration failed: "@ + text::signed_decimal(processed_records as int) + "/"@
                + text::signed_decimal(total_records as int) + " records processed. Error: "@
                + error@,
        },
        MigrationStatus::Other => status_line(shown),
    }
}

/// Whether a migration with that status is over.
pub open spec fn is_over(status: MigrationStatus) -> bool {
    status is Completed || status is Failed
}

/// A status as JSON, given its text: printed, and then on to
/// the next turn; or the command fails.
pub open spec fn show(
    text: Result<Seq<char>, Seq<char>>,
    after: spec_fn(Seq<NoticeView>) -> MigrationTurnView,
) -> MigrationTurnView {
    match text {
        Ok(text) => after(seq![NoticeView::Print { text }]),
        Err(error) => fail(error),
    }
}

/// The next turn, given how far the command has come and what it is told. A
/// migration is watched until it is over, or the worker tells no more.
pub open spec fn next_turn(
    command: MigrationCommand,
    output: OutputFormat,
    name: Seq<char>,
    stage: MigrationStage,
    news: MigrationNewsView,
) -> MigrationTurnView {
    match (stage, news) {
        (MigrationStage::Start, _) => turn(
            Seq::empty(),
            MigrationWorkView::Send { command },
            MigrationStage::Sending,
        ),
        (MigrationStage::Sending, MigrationNewsView::Sent { done }) => if !done {
            fail("Failed to send command to migration worker"@)
        } else if command == MigrationCommand::Start {
            turn(Seq::empty(), MigrationWorkView::Receive, MigrationStage::First)
        } else {
            turn(Seq::empty(), MigrationWorkView::Receive, MigrationStage::Only)
        },
        (
            MigrationStage::First,
            MigrationNewsView::Told { status, printed, shown },
        ) => match output {
            OutputFormat::Json => show(printed, |n: Seq<NoticeView>| poll(n)),
            OutputFormat::Text => poll(first_notices(name, status, shown)),
        },
        (MigrationStage::First, _) => poll(Seq::empty()),
        (MigrationStage::Polling, MigrationNewsView::Sent { done }) => if done {
            turn(Seq::empty(), MigrationWorkView::Receive, MigrationStage::Watching)
        } else {
            close(command, Seq::empty())
        },
        (
            MigrationStage::Watching,
            MigrationNewsView::Told { status, printed, shown },
        ) => match output {
            OutputFormat::Json => if is_over(status) {
                show(printed, |n: Seq<NoticeView>| close(command, n))
            } else {
                show(printed, |n: Seq<NoticeView>| poll(n))
            },
            OutputFormat::Text => if is_over(status) {
                close(command, seq![watch_notice(status, shown)])
            } else {
                poll(seq![watch_notice(status, shown)])
            },
        },
        (
            MigrationStage::Only,
            MigrationNewsView::Told { printed, shown, .. },
        ) => match output {
            OutputFormat::Json => show(printed, |n: Seq<NoticeView>| close(command, n)),
            OutputFormat::Text => close(command, seq![status_line(shown)]),
        },
        (MigrationStage::Joining, _) => turn(
            Seq::empty(),
            MigrationWorkView::Finish,
            MigrationStage::Over,
        ),
        _ => close(command, Seq::empty()),
    }
}

fn make_turn(list: Vec<Notice>, work: MigrationWork, stage: MigrationStage) -> (r: MigrationTurn)
    ensures
        r@ == turn(notices(list@), work@, stage),
{
    MigrationTurn { notices: list, work, progress: MigrationProgress { stage } }
}

fn no_notices() -> (r: Vec<Notice>)
    ensures
        notices(r@) == Seq::<NoticeView>::empty(),
{
    let r: Vec<Notice> = Vec::new();
    assert(notices(r@) =~= Seq::<NoticeView>::empty());
    r
}

fn one_notice(notice: Notice) -> (r: Vec<Notice>)
    ensures
        notices(r@) == seq![notice@],
{
    let r = vec![notice];
    assert(notices(r@) =~= seq![notice@]);
    r
}

fn finish_failing(error: String) -> (r: MigrationTurn)
    ensures
        r@ == fail(error@),
{
    make_turn(no_notices(), MigrationWork::Fail { error }, MigrationStage::Over)
}

fn poll_again(list: Vec<Notice>) -> (r: MigrationTurn)
    ensures
        r@ == poll(notices(list@)),
{
    make_turn(list, MigrationWork::Poll, MigrationStage::Polling)
}

fn close_with(command: MigrationCommand, list: Vec<Notice>) -> (r: MigrationTurn)
    ensures
        r@ == close(command, notices(list@)),
{
    match command {
        MigrationCommand::Stop => make_turn(list, MigrationWork::Join, MigrationStage::Joining),
        _ => make_turn(list, MigrationWork::Finish, MigrationStage::Over),
    }
}

fn log_status(shown: &str) -> (r: Notice)
    ensures
        r@ == status_line(shown@),
{
    Notice::Log { text: report::joined("Migration status: ", shown) }
}

/// Shows the first status of a migration that was started.
pub fn notices_of_first(name: &str, status: &MigrationStatus, shown: &str) -> (r: Vec<Notice>)
    ensures
        notices(r@) == first_notices(name@, *status, shown@),
{
    let started = Notice::Log { text: report::joined("Started migration: ", name) };
    let state = match status {
        MigrationStatus::Running { total_records, processed_records } => Notice::Progress {
            what: "Processing records".to_owned(),
            processed_records: *processed_records,
            total_records: *total_records,
        },
        _ => log_status(shown),
    };
    let r = vec![started, state];
    assert(notices(r@) =~= first_notices(name@, *status, shown@));
    r
}

/// Shows a further status.
pub fn notice_of_watched(status: &MigrationStatus, shown: &str) -> (r: Notice)
    ensures
        r@ == watch_notice(*status, shown@),
{
    match status {
        MigrationStatus::Running { total_records, processed_records } => Notice::Progress {
            what: "Processing records".to_owned(),
            processed_records: *processed_records,
            total_records: *total_records,
        },
        MigrationStatus::Completed { total_records, duration_secs } => {
            let mut text = report::joined3(
                "Migration completed: ",
                text::signed_decimal_text(*total_records).as_str(),
                " records processed in ",
            );
            text.append(text::decimal_text(*duration_secs).as_str());
            text.append(" seconds");
            Notice::Log { text }
        },
        MigrationStatus::Paused { total_records, processed_records } => Notice::Progress {
            what: "Migration paused".to_owned(),
            processed_records: *processed_records,
            total_records: *total_records,
        },
        MigrationStatus::Failed { total_records, processed_records, error } => {
            let mut text = report::joined3(
                "Migration failed: ",
                text::signed_decimal_text(*processed_records).as_str(),
                "/",
            );
            text.append(text::signed_decimal_text(*total_records).as_str());
            text.append(" records processed. Error: ");
            text.append(error.as_str());
            Notice::LogError { text }
        },
        MigrationStatus::Other => log_status(shown),
    }
}

/// Tells whether a migration with that status is over.
pub fn has_ended(status: &MigrationStatus) -> (b: bool)
    ensures
        b == is_over(*status),
{
    match status {
        MigrationStatus::Completed { .. } => true,
        MigrationStatus::Failed { .. } => true,
        _ => false,
    }
}

/// Prints a status as JSON, given its text, and polls again.
fn show_and_poll(text: Result<String, String>) -> (r: MigrationTurn)
    ensures
        r@ == show(json::text_result(text), |n: Seq<NoticeView>| poll(n)),
{
    match text {
        Ok(text) => poll_again(one_notice(Notice::Print { text })),
        Err(error) => finish_failing(error),
    }
}

/// Prints a status as JSON, given its text, and closes.
fn show_and_close(command: MigrationCommand, text: Result<String, String>) -> (r: MigrationTurn)
    ensures
        r@ == show(json::text_result(text), |n: Seq<NoticeView>| close(command, n)),
{
    match text {
        Ok(text) => close_with(command, one_notice(Notice::Print { text })),
        Err(error) => finish_failing(error),
    }
}

/// Takes a migration command one turn further: given how far it has come and
/// what it is told, what is shown and what is to be done.
pub fn handle_migration(
    command: MigrationCommand,
    output: OutputFormat,
    name: &str,
    progress: MigrationProgress,
    news: MigrationNews,
) -> (r: MigrationTurn)
    requires
        answers(progress@, news@),
    ensures
        r@ == next_turn(command, output, name@, progress@, news@),
{
    match (progress.stage, news) {
        (MigrationStage::Start, _) => make_turn(
            no_notices(),
            MigrationWork::Send { command },
            MigrationStage::Sending,
        ),
        (MigrationStage::Sending, MigrationNews::Sent { done }) => if !done {
            finish_failing("Failed to send command to migration worker".to_owned())
        } else {
            match command {
                MigrationCommand::Start => make_turn(
                    no_notices(),
                    MigrationWork::Receive,
                    MigrationStage::First,
                ),
                _ => make_turn(no_notices(), MigrationWork::Receive, MigrationStage::Only),
            }
        },
        (MigrationStage::First, MigrationNews::Told { report }) => match output {
            OutputFormat::Json => show_and_poll(report.printed),
            OutputFormat::Text => poll_again(
                notices_of_first(name, &report.status, report.shown.as_str()),
            ),
        },
        (MigrationStage::First, _) => poll_again(no_notices()),
        (MigrationStage::Polling, MigrationNews::Sent { done }) => if done {
            make_turn(no_notices(), MigrationWork::Receive, MigrationStage::Watching)
        } else {
            close_with(command, no_notices())
        },
        (MigrationStage::Watching, MigrationNews::Told { report }) => {
            let ends = has_ended(&report.status);
            match output {
                OutputFormat::Json => if ends {
                    show_and_close(command, report.printed)
                } else {
                    show_and_poll(report.printed)
                },
                OutputFormat::Text => {
                    let list = one_notice(
                        notice_of_watched(&report.status, report.shown.as_str()),
                    );
                    if ends {
                        close_with(command, list)
                    } else {
                        poll_again(list)
                    }
                },
            }
        },
        (MigrationStage::Only, MigrationNews::Told { report }) => match output {
            OutputFormat::Json => show_and_close(command, report.printed),
            OutputFormat::Text => close_with(
                command,
                one_notice(log_status(report.shown.as_str())),
            ),
        },
        (MigrationStage::Joining, _) => make_turn(
            no_notices(),
            MigrationWork::Finish,
            MigrationStage::Over,
        ),
        _ => close_with(command, no_notices()),
    }
}

/// A run of the command.
pub struct MigrationRun {
    pub command: MigrationCommand,
    pub output: OutputFormat,
    pub name: Seq<char>,
    pub news: Seq<MigrationNewsView>,
}

impl MigrationRun {
    /// How far the command has come when it gets the news of that index.
    pub open spec fn stage_before(self, i: int) -> MigrationStage
        decreases i,
    {
        if i <= 0 {
            MigrationStage::Start
        } else {
            self.turn_on(self.stage_before(i - 1), i - 1).stage
        }
    }

    /// The turn at that stage on the news of that index.
    pub open spec fn turn_on(self, stage: MigrationStage, i: int) -> MigrationTurnView {
        next_turn(self.command, self.output, self.name, stage, self.news[i])
    }

    /// What is asked to be done on the news of that index.
    pub open spec fn work_at(self, i: int) -> MigrationWorkView {
        self.turn_on(self.stage_before(i), i).work
    }

    /// Whether the command can be told these news, one after the other.
    pub open spec fn valid(self) -> bool {
        forall|i: int|
            0 <= i < self.news.len() ==> answers(#[trigger] self.stage_before(i), self.news[i])
    }
}

/// Whether the news are a reply to what was asked.
pub open spec fn replies(work: MigrationWorkView, news: MigrationNewsView) -> bool {
    match work {
        MigrationWorkView::Send { .. } => news is Sent,
        MigrationWorkView::Receive => news is Told || news is Closed,
        MigrationWorkView::Poll => news is Sent,
        MigrationWorkView::Join => news is Joined,
        MigrationWorkView::Finish => false,
        MigrationWorkView::Fail { .. } => false,
    }
}

/// Whatever a command asks for, any reply to that takes it further; it is over
/// when it finishes or fails, and then only.
pub proof fn law_a_migration_takes_any_reply(
    run: MigrationRun,
    stage: MigrationStage,
    i: int,
    reply: MigrationNewsView,
)
    requires
        answers(stage, run.news[i]),
    ensures
        replies(run.turn_on(stage, i).work, reply) ==> answers(run.turn_on(stage, i).stage, reply),
        run.turn_on(stage, i).stage == MigrationStage::Over <==> (run.turn_on(
            stage,
            i,
        ).work is Finish || run.turn_on(stage, i).work is Fail),
{
}

/// The worker is told what the user chose, and nothing else: the first work of
/// every run is to send the command, and no other command is ever sent.
pub proof fn law_the_chosen_command_is_sent(run: MigrationRun, i: int)
    requires
        run.valid(),
        0 <= i < run.news.len(),
    ensures
        run.work_at(0) == (MigrationWorkView::Send { command: run.command }),
        run.work_at(i) matches MigrationWorkView::Send { command } ==> command == run.command,
        run.work_at(i) is Send <==> i == 0,
{
    assert(answers(run.stage_before(i), run.news[i]));
    lemma_start_once(run, i);
}

proof fn lemma_start_once(run: MigrationRun, i: int)
    requires
        run.valid(),
        0 <= i < run.news.len(),
    ensures
        run.stage_before(i) is Start <==> i == 0,
    decreases i,
{
    if i > 0 {
        lemma_start_once(run, i - 1);
        assert(answers(run.stage_before(i - 1), run.news[i - 1]));
    }
}

/// What the user chose is what is sent: each subcommand is its own command, and
/// without one the status is asked for.
pub proof fn law_subcommands_are_told_apart(
    a: Option<MigrationSubCommand>,
    b: Option<MigrationSubCommand>,
)
    ensures
        command_for(a) == command_for(b) <==> a == b || ((a is None || a == Some(
            MigrationSubCommand::Status,
        )) && (b is None || b == Some(MigrationSubCommand::Status))),
        command_for(a) == MigrationCommand::Start <==> a == Some(MigrationSubCommand::Start),
        command_for(a) == MigrationCommand::Pause <==> a == Some(MigrationSubCommand::Pause),
        command_for(a) == MigrationCommand::Stop <==> a == Some(MigrationSubCommand::Stop),
{
}

/// What is done rests neither on the name of the migration nor, in text, on
/// the numbers: these are only shown.
pub proof fn law_names_are_only_shown(
    command: MigrationCommand,
    output: OutputFormat,
    names: (Seq<char>, Seq<char>),
    stage: MigrationStage,
    news: MigrationNewsView,
)
    ensures
        ({
            let a = next_turn(command, output, names.0, stage, news);
            let b = next_turn(command, output, names.1, stage, news);
            a.work == b.work && a.stage == b.stage && a.notices.len() == b.notices.len()
        }),
{
}

/// As JSON every status is printed as the worker told it, and nothing else is.
pub proof fn law_a_told_status_is_printed(
    command: MigrationCommand,
    name: Seq<char>,
    stage: MigrationStage,
    status: MigrationStatus,
    text: Seq<char>,
    shown: Seq<char>,
)
    requires
        stage == MigrationStage::First || stage == MigrationStage::Watching || stage
            == MigrationStage::Only,
    ensures
        ({
            let told = MigrationNewsView::Told { status, printed: Ok(text), shown };
            let turn = next_turn(command, OutputFormat::Json, name, stage, told);
            turn.notices.len() == 1 && turn.notices[0] == (NoticeView::Print { text })
        }),
        ({
            let told = MigrationNewsView::Told { status, printed: Err(text), shown };
            let turn = next_turn(command, OutputFormat::Json, name, stage, told);
            turn.notices.len() == 0 && turn.work == (MigrationWorkView::Fail { error: text })
        }),
{
}

/// As text the first status comes with the name of the migration, and shows how
/// far it is, where it runs, or else the status itself.
pub proof fn law_a_start_is_told(
    command: MigrationCommand,
    name: Seq<char>,
    status: MigrationStatus,
    printed: Result<Seq<char>, Seq<char>>,
    shown: Seq<char>,
)
    ensures
        ({
            let told = MigrationNewsView::Told { status, printed, shown };
            let turn = next_turn(command, OutputFormat::Text, name, MigrationStage::First, told);
            &&& turn.notices.len() == 2
            &&& turn.notices[0] matches NoticeView::Log { text } && text_laws::reads_as(
                text,
                "Started migration: "@,
                name,
                Seq::empty(),
            )
            &&& tells_status(turn.notices[1], status, shown)
        }),
{
    text_laws::lemma_reads_as_two("Started migration: "@, name);
    text_laws::lemma_reads_as_two("Migration status: "@, shown);
}

/// Whether the notice tells how far the migration is, where it runs, or else
/// its status.
pub open spec fn tells_status(
    notice: NoticeView,
    status: MigrationStatus,
    shown: Seq<char>,
) -> bool {
    match status {
        MigrationStatus::Running { total_records, processed_records } => {
            &&& notice matches NoticeView::Progress {
                processed_records: p,
                total_records: t,
                what,
            }
            &&& p == processed_records
            &&& t == total_records
            &&& what == "Processing records"@
        },
        _ => notice matches NoticeView::Log { text } && text_laws::reads_as(
            text,
            "Migration status: "@,
            shown,
            Seq::empty(),
        ),
    }
}

/// Whether the digits are the number.
pub open spec fn is_digits_of(digits: Seq<char>, n: int) -> bool {
    if n < 0 {
        digits.len() > 0 && digits[0] == '-' && text_laws::is_number(digits.skip(1))
            && text_laws::reading(digits.skip(1)) == -n
    } else {
        text_laws::is_number(digits) && text_laws::reading(digits) == n
    }
}

/// As text a watched status is told with its own numbers and error, each in
/// its place, and the only status with its text.
pub proof fn law_a_watched_status_is_told(
    command: MigrationCommand,
    name: Seq<char>,
    status: MigrationStatus,
    printed: Result<Seq<char>, Seq<char>>,
    shown: Seq<char>,
)
    ensures
        ({
            let told = MigrationNewsView::Told { status, printed, shown };
            let turn = next_turn(command, OutputFormat::Text, name, MigrationStage::Watching, told);
            &&& turn.notices.len() == 1
            &&& match status {
                MigrationStatus::Running { .. } => tells_status(turn.notices[0], status, shown),
                MigrationStatus::Other => tells_status(turn.notices[0], status, shown),
                MigrationStatus::Paused { total_records, processed_records } => {
                    &&& turn.notices[0] matches NoticeView::Progress {
                        processed_records: p,
                        total_records: t,
                        what,
                    }
                    &&& p == processed_records
                    &&& t == total_records
                    &&& what == "Migration paused"@
                },
                MigrationStatus::Completed { total_records, duration_secs } => {
                    &&& turn.notices[0] matches NoticeView::Log { text }
                    &&& exists|records: Seq<char>, seconds: Seq<char>|
                        #![trigger text_laws::reading(records), text_laws::reading(seconds)]
                        {
                            &&& is_digits_of(records, total_records as int)
                            &&& is_digits_of(seconds, duration_secs as int)
                            &&& text_laws::reads_as(
                                text,
                                "Migration completed: "@,
                                records,
                                " records processed in "@ + seconds + " seconds"@,
                            )
                        }
                },
                MigrationStatus::Failed { total_records, processed_records, error } => {
                    &&& turn.notices[0] matches NoticeView::LogError { text }
                    &&& exists|processed: Seq<char>, total: Seq<char>|
                        #![trigger text_laws::reading(processed), text_laws::reading(total)]
                        {
                            &&& is_digits_of(processed, processed_records as int)
                            &&& is_digits_of(total, total_records as int)
                            &&& text_laws::reads_as(
                                text,
                                "Migration failed: "@,
                                processed,
                                "/"@ + total + " records processed. Error: "@ + error@,
                            )
                        }
                },
            }
        }),
        ({
            let told = MigrationNewsView::Told { status, printed, shown };
            let turn = next_turn(command, OutputFormat::Text, name, MigrationStage::Only, told);
            turn.notices.len() == 1 && tells_status(turn.notices[0], MigrationStatus::Other, shown)
        }),
{
    text_laws::lemma_reads_as_two("Migration status: "@, shown);
    match status {
        MigrationStatus::Completed { total_records, duration_secs } => {
            let records = text::signed_decimal(total_records as int);
            let seconds = text::decimal(duration_secs as nat);
            text_laws::law_a_signed_decimal_reads_back(total_records as int);
            text_laws::law_a_decimal_reads_back(duration_secs as nat);
            let a = "Migration completed: "@;
            let c = " records processed in "@ + seconds + " seconds"@;
            text_laws::lemma_reads_as(a, records, c);
            let text = a + records + " records processed in "@ + seconds + " seconds"@;
            assert(text =~= a + records + c);
            assert(text_laws::reading(records) >= 0 && text_laws::reading(seconds) >= 0);
        },
        MigrationStatus::Failed { total_records, processed_records, error } => {
            let processed = text::signed_decimal(processed_records as int);
            let total = text::signed_decimal(total_records as int);
            text_laws::law_a_signed_decimal_reads_back(total_records as int);
            text_laws::law_a_signed_decimal_reads_back(processed_records as int);
            let a = "Migration failed: "@;
            let c = "/"@ + total + " records processed. Error: "@ + error@;
            text_laws::lemma_reads_as(a, processed, c);
            let text = a + processed + "/"@ + total + " records processed. Error: "@ + error@;
            assert(text =~= a + processed + c);
            assert(text_laws::reading(processed) >= 0 && text_laws::reading(total) >= 0);
        },
        _ => {},
    }
}

proof fn lemma_watched(run: MigrationRun, i: int)
    requires
        run.valid(),
        run.command != MigrationCommand::Start,
        0 <= i <= run.news.len(),
    ensures
        !(run.stage_before(i) is First),
        !(run.stage_before(i) is Polling),
        !(run.stage_before(i) is Watching),
    decreases i,
{
    if i > 0 {
        lemma_watched(run, i - 1);
        assert(answers(run.stage_before(i - 1), run.news[i - 1]));
    }
}

/// Only a migration that this command started is watched: of any other the
/// status is received once at most, and never asked for again.
pub proof fn law_only_a_started_migration_is_watched(run: MigrationRun, i: int)
    requires
        run.valid(),
        run.command != MigrationCommand::Start,
        0 <= i < run.news.len(),
    ensures
        !(run.work_at(i) is Poll),
        run.work_at(i) is Receive ==> run.stage_before(i) is Sending,
{
    lemma_watched(run, i);
    assert(answers(run.stage_before(i), run.news[i]));
}

/// Only a worker that was told to stop is waited for.
pub proof fn law_only_a_stopped_worker_is_joined(run: MigrationRun, i: int)
    requires
        run.valid(),
        0 <= i < run.news.len(),
        run.work_at(i) is Join,
    ensures
        run.command == MigrationCommand::Stop,
{
}

/// In either format a migration is watched exactly until it is completed or has
/// failed, as far as its status can be printed.
pub proof fn law_when_a_watch_ends(
    command: MigrationCommand,
    output: OutputFormat,
    name: Seq<char>,
    status: MigrationStatus,
    printed: Result<Seq<char>, Seq<char>>,
    shown: Seq<char>,
)
    requires
        output == OutputFormat::Json ==> printed is Ok,
    ensures
        ({
            let told = MigrationNewsView::Told { status, printed, shown };
            next_turn(command, output, name, MigrationStage::Watching, told).work is Poll
                <==> !(status is Completed || status is Failed)
        }),
{
}

/// Whether a command that has nothing more to be told ends: a worker that was
/// told to stop is waited for, any other is not.
pub open spec fn winds_up(turn: MigrationTurnView, command: MigrationCommand) -> bool {
    if command == MigrationCommand::Stop {
        turn.work is Join
    } else {
        turn.work is Finish
    }
}

/// A command that was sent waits for a status, and one that could not be sent
/// fails; whatever comes first of a migration that was started, it is watched;
/// a watch goes on as long as the worker can be asked and tells something.
pub proof fn law_what_follows(
    command: MigrationCommand,
    output: OutputFormat,
    name: Seq<char>,
    told: MigrationNewsView,
)
    requires
        told matches MigrationNewsView::Told { printed, .. } && printed is Ok,
    ensures
        ({
            let on = |stage: MigrationStage, news: MigrationNewsView|
                next_turn(command, output, name, stage, news);
            let sent = MigrationNewsView::Sent { done: true };
            let not_sent = MigrationNewsView::Sent { done: false };
            let closed = MigrationNewsView::Closed;
            &&& on(MigrationStage::Sending, sent).work is Receive
            &&& on(MigrationStage::Sending, sent).stage == MigrationStage::First <==> command
                == MigrationCommand::Start
            &&& on(MigrationStage::Sending, not_sent).work == (MigrationWorkView::Fail {
                error: "Failed to send command to migration worker"@,
            })
            &&& on(MigrationStage::First, told).work is Poll
            &&& on(MigrationStage::First, closed).work is Poll
            &&& on(MigrationStage::First, closed).notices.len() == 0
            &&& on(MigrationStage::Polling, sent).work is Receive
            &&& on(MigrationStage::Polling, sent).stage == MigrationStage::Watching
            &&& winds_up(on(MigrationStage::Polling, not_sent), command)
            &&& winds_up(on(MigrationStage::Watching, closed), command)
            &&& winds_up(on(MigrationStage::Only, told), command)
            &&& winds_up(on(MigrationStage::Only, closed), command)
            &&& on(MigrationStage::Polling, not_sent).notices.len() == 0
            &&& on(MigrationStage::Watching, closed).notices.len() == 0
            &&& on(MigrationStage::Only, closed).notices.len() == 0
            &&& on(MigrationStage::Joining, MigrationNewsView::Joined).work is Finish
        }),
{
}

} // verus!
