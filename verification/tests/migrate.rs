use screenpipe_cli::cli::{MigrationSubCommand, OutputFormat};
use screenpipe_cli::migrate::{
    handle_migration, has_ended, migration_command, notice_of_watched, notices_of_first, MigrationCommand,
    MigrationNews, MigrationProgress, MigrationStatus, MigrationTurn, MigrationWork, Notice, StatusReport,
};

fn text(s: &str) -> String {
    s.to_string()
}

fn running() -> MigrationStatus {
    MigrationStatus::Running { total_records: 8, processed_records: 2 }
}

fn paused() -> MigrationStatus {
    MigrationStatus::Paused { total_records: 8, processed_records: 3 }
}

fn completed() -> MigrationStatus {
    MigrationStatus::Completed { total_records: 8, duration_secs: 12 }
}

fn failed() -> MigrationStatus {
    MigrationStatus::Failed { total_records: 8, processed_records: 4, error: text("disk full") }
}

fn told(status: MigrationStatus) -> MigrationNews {
    let printed = Ok(text(PRINTED));
    MigrationNews::Told { report: StatusReport { status, printed, shown: text("Shown") } }
}

fn unprintable() -> MigrationNews {
    let printed = Err(text("no"));
    MigrationNews::Told { report: StatusReport { status: running(), printed, shown: text("Shown") } }
}

/// How far a command has come.
#[derive(Clone, Copy)]
enum Waits {
    ToBegin,
    ForTheCommandToBeSent,
    ForTheFirstStatus,
    ForTheNextPoll,
    ForAFurtherStatus,
    ForTheOnlyStatus,
    ForTheWorker,
}

/// Takes a command there, from its start.
fn reach(command: MigrationCommand, output: OutputFormat, waits: Waits) -> MigrationProgress {
    let closed = || MigrationNews::Closed;
    let sent = || MigrationNews::Sent { done: true };
    let news = match waits {
        Waits::ToBegin => vec![],
        Waits::ForTheCommandToBeSent => vec![MigrationNews::Begin],
        Waits::ForTheFirstStatus | Waits::ForTheOnlyStatus => vec![MigrationNews::Begin, sent()],
        Waits::ForTheNextPoll | Waits::ForTheWorker => {
            vec![MigrationNews::Begin, sent(), closed()]
        }
        Waits::ForAFurtherStatus => vec![MigrationNews::Begin, sent(), closed(), sent()],
    };
    news.into_iter().fold(MigrationProgress::start(), |progress, one| {
        handle_migration(command, output, "ocr", progress, one).progress
    })
}

fn turn(
    command: MigrationCommand,
    output: OutputFormat,
    waits: Waits,
    news: MigrationNews,
) -> MigrationTurn {
    handle_migration(command, output, "ocr", reach(command, output, waits), news)
}

fn log(s: &str) -> Notice {
    Notice::Log { text: text(s) }
}

fn progress(what: &str, processed_records: i64) -> Notice {
    Notice::Progress { what: text(what), processed_records, total_records: 8 }
}

const PRINTED: &str = "{\n  \"state\": 1\n}";

#[test]
fn without_a_subcommand_the_status_is_asked_for() {
    assert_eq!(migration_command(None), MigrationCommand::Status);
    assert_eq!(migration_command(Some(MigrationSubCommand::Start)), MigrationCommand::Start);
    assert_eq!(migration_command(Some(MigrationSubCommand::Pause)), MigrationCommand::Pause);
    assert_eq!(migration_command(Some(MigrationSubCommand::Stop)), MigrationCommand::Stop);
    assert_eq!(migration_command(Some(MigrationSubCommand::Status)), MigrationCommand::Status);
}

#[test]
fn the_command_is_sent_first() {
    let t = turn(
        MigrationCommand::Pause,
        OutputFormat::Text,
        Waits::ToBegin,
        MigrationNews::Begin,
    );
    assert_eq!(t.work, MigrationWork::Send { command: MigrationCommand::Pause });
    assert!(t.notices.is_empty());
}

#[test]
fn a_command_that_cannot_be_sent_fails() {
    let t = turn(
        MigrationCommand::Start,
        OutputFormat::Json,
        Waits::ForTheCommandToBeSent,
        MigrationNews::Sent { done: false },
    );
    let error = text("Failed to send command to migration worker");
    assert_eq!(t.work, MigrationWork::Fail { error });
}

#[test]
fn only_a_started_migration_is_watched() {
    let sent = || MigrationNews::Sent { done: true };
    let stage = Waits::ForTheCommandToBeSent;
    let t = turn(MigrationCommand::Start, OutputFormat::Text, stage, sent());
    assert_eq!(t.work, MigrationWork::Receive);
    for command in [MigrationCommand::Pause, MigrationCommand::Stop, MigrationCommand::Status] {
        let t = turn(command, OutputFormat::Text, stage, sent());
        assert_eq!(t.work, MigrationWork::Receive);
    }
}

#[test]
fn the_first_status_is_shown_with_the_name() {
    assert_eq!(
        notices_of_first("ocr", &running(), "Shown"),
        vec![log("Started migration: ocr"), progress("Processing records", 2)]
    );
    for status in [completed(), paused(), failed(), MigrationStatus::Other] {
        assert_eq!(
            notices_of_first("ocr", &status, "Shown"),
            vec![log("Started migration: ocr"), log("Migration status: Shown")]
        );
    }
    let t = turn(
        MigrationCommand::Start,
        OutputFormat::Text,
        Waits::ForTheFirstStatus,
        told(completed()),
    );
    assert_eq!(t.work, MigrationWork::Poll);
    assert_eq!(t.notices.len(), 2);
}

#[test]
fn a_watched_status_is_shown() {
    assert_eq!(notice_of_watched(&running(), "Shown"), progress("Processing records", 2));
    assert_eq!(notice_of_watched(&paused(), "Shown"), progress("Migration paused", 3));
    assert_eq!(
        notice_of_watched(&completed(), "Shown"),
        log("Migration completed: 8 records processed in 12 seconds")
    );
    assert_eq!(
        notice_of_watched(&failed(), "Shown"),
        Notice::LogError { text: text("Migration failed: 4/8 records processed. Error: disk full") }
    );
    assert_eq!(
        notice_of_watched(&MigrationStatus::Other, "Shown"),
        log("Migration status: Shown")
    );
    let odd = MigrationStatus::Completed { total_records: -1, duration_secs: 0 };
    assert_eq!(
        notice_of_watched(&odd, ""),
        log("Migration completed: -1 records processed in 0 seconds")
    );
}

#[test]
fn a_watch_ends_with_the_migration() {
    let watch = |status| {
        turn(MigrationCommand::Start, OutputFormat::Text, Waits::ForAFurtherStatus, told(status))
    };
    for status in [running(), paused(), MigrationStatus::Other] {
        let t = watch(status);
        assert_eq!(t.work, MigrationWork::Poll);
        assert_eq!(t.notices.len(), 1);
    }
    for status in [completed(), failed()] {
        let t = watch(status);
        assert_eq!(t.work, MigrationWork::Finish);
        assert_eq!(t.notices.len(), 1);
    }
}

#[test]
fn as_json_a_watch_ends_with_the_migration_too() {
    let start = MigrationCommand::Start;
    let printed = || vec![Notice::Print { text: text(PRINTED) }];
    for status in [running(), paused(), MigrationStatus::Other] {
        let t = turn(start, OutputFormat::Json, Waits::ForAFurtherStatus, told(status));
        assert_eq!(t.work, MigrationWork::Poll);
        assert_eq!(t.notices, printed());
    }
    for status in [completed(), failed()] {
        let t = turn(start, OutputFormat::Json, Waits::ForAFurtherStatus, told(status));
        assert_eq!(t.work, MigrationWork::Finish);
        assert_eq!(t.notices, printed());
    }
}

#[test]
fn after_the_first_status_a_migration_is_watched_in_any_case() {
    for status in [running(), completed(), failed()] {
        let t = turn(
            MigrationCommand::Start,
            OutputFormat::Json,
            Waits::ForTheFirstStatus,
            told(status),
        );
        assert_eq!(t.work, MigrationWork::Poll);
        assert_eq!(t.notices, vec![Notice::Print { text: text(PRINTED) }]);
    }
}

#[test]
fn a_migration_is_over_once_completed_or_failed() {
    assert!(has_ended(&completed()));
    assert!(has_ended(&failed()));
    assert!(!has_ended(&running()));
    assert!(!has_ended(&paused()));
    assert!(!has_ended(&MigrationStatus::Other));
}

#[test]
fn a_watch_ends_when_the_worker_is_silent() {
    let start = MigrationCommand::Start;
    let output = OutputFormat::Json;
    let t = turn(start, output, Waits::ForTheFirstStatus, MigrationNews::Closed);
    assert_eq!(t.work, MigrationWork::Poll);
    let t = turn(start, output, Waits::ForTheNextPoll, MigrationNews::Sent { done: true });
    assert_eq!(t.work, MigrationWork::Receive);
    let t = turn(start, output, Waits::ForTheNextPoll, MigrationNews::Sent { done: false });
    assert_eq!(t.work, MigrationWork::Finish);
    let t = turn(start, output, Waits::ForAFurtherStatus, MigrationNews::Closed);
    assert_eq!(t.work, MigrationWork::Finish);
}

#[test]
fn only_a_stopped_worker_is_joined() {
    for command in [MigrationCommand::Pause, MigrationCommand::Stop, MigrationCommand::Status] {
        let after = if command == MigrationCommand::Stop {
            MigrationWork::Join
        } else {
            MigrationWork::Finish
        };
        let t = turn(command, OutputFormat::Text, Waits::ForTheOnlyStatus, told(running()));
        assert_eq!(t.notices, vec![log("Migration status: Shown")]);
        assert_eq!(t.work, after);
        let t = turn(command, OutputFormat::Json, Waits::ForTheOnlyStatus, told(running()));
        assert_eq!(t.notices, vec![Notice::Print { text: text(PRINTED) }]);
        assert_eq!(t.work, after);
        let t = turn(command, OutputFormat::Text, Waits::ForTheOnlyStatus, MigrationNews::Closed);
        assert!(t.notices.is_empty());
        assert_eq!(t.work, after);
    }
    let t = turn(
        MigrationCommand::Stop,
        OutputFormat::Text,
        Waits::ForTheWorker,
        MigrationNews::Joined,
    );
    assert_eq!(t.work, MigrationWork::Finish);
}

#[test]
fn a_status_that_cannot_be_printed_is_an_error() {
    let fail = MigrationWork::Fail { error: text("no") };
    for stage in [Waits::ForTheFirstStatus, Waits::ForAFurtherStatus] {
        let t = turn(MigrationCommand::Start, OutputFormat::Json, stage, unprintable());
        assert_eq!(t.work, fail);
        assert!(t.notices.is_empty());
        let t = turn(MigrationCommand::Start, OutputFormat::Text, stage, unprintable());
        assert_eq!(t.work, MigrationWork::Poll);
    }
    let t = turn(MigrationCommand::Stop, OutputFormat::Json, Waits::ForTheOnlyStatus, unprintable());
    assert_eq!(t.work, fail);
}
