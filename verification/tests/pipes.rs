use screenpipe_cli::cli::{OutputFormat, PipeCommand};
use screenpipe_cli::pipes::{
    handle_pipe_command, is_confirmed, keep_pipes, report_detail, report_list,
    report_local_download, report_server_download, server_request, show_text, update_request,
    HttpRequest, Method, News, PipeDetail, PipeInfo, PipeProgress,
    PipeWork, Reads, Turn,
};
use screenpipe_cli::report::Stream;
use serde_json::Value;

fn text(s: &str) -> String {
    s.to_string()
}

fn json(s: &str) -> Value {
    serde_json::from_str(s).unwrap()
}

fn begin(command: &PipeCommand) -> Turn {
    handle_pipe_command(command, PipeProgress::start(), News::Begin)
}

/// A command that waits for the server.
fn sent(command: &PipeCommand) -> PipeProgress {
    let turn = begin(command);
    match turn.work {
        PipeWork::Ask { .. } => {
            handle_pipe_command(command, turn.progress, News::Typed { line: text("y") }).progress
        }
        _ => turn.progress,
    }
}

/// A command that works on the local pipes.
fn local(command: &PipeCommand) -> PipeProgress {
    handle_pipe_command(command, sent(command), News::NoServer).progress
}

fn request(turn: Turn) -> HttpRequest {
    assert!(turn.lines.is_empty());
    match turn.work {
        PipeWork::Send { request } => request,
        work => panic!("{work:?}"),
    }
}

fn printed(turn: &Turn) -> Vec<&str> {
    turn.lines
        .iter()
        .map(|l| {
            assert_eq!(l.stream, Stream::Output);
            l.text.as_str()
        })
        .collect()
}

/// What a command prints as it finishes.
fn last_words(turn: Turn) -> Vec<String> {
    assert_eq!(turn.work, PipeWork::Finish);
    printed(&turn).into_iter().map(text).collect()
}

fn failure(turn: Turn) -> String {
    assert!(turn.lines.is_empty());
    match turn.work {
        PipeWork::Fail { error } => error,
        work => panic!("{work:?}"),
    }
}

fn list(output: OutputFormat) -> PipeCommand {
    PipeCommand::List { output, port: 3030 }
}

fn install(output: OutputFormat) -> PipeCommand {
    PipeCommand::Install { url: text("https://github.com/a/b"), output, port: 3030 }
}

fn info(output: OutputFormat) -> PipeCommand {
    PipeCommand::Info { id: text("search"), output, port: 3030 }
}

fn delete(yes: bool) -> PipeCommand {
    PipeCommand::Delete { id: text("search"), yes, port: 3030 }
}

fn purge(yes: bool) -> PipeCommand {
    PipeCommand::Purge { yes, port: 3030 }
}

fn pipe(id: &str, enabled: bool) -> PipeInfo {
    PipeInfo {
        id: text(id),
        enabled,
        document: json(&format!("{{\"id\": \"{id}\", \"enabled\": {enabled}}}")),
    }
}

#[test]
fn a_list_is_asked_of_the_server() {
    let request = request(begin(&list(OutputFormat::Text)));
    assert_eq!(request.method, Method::Get);
    assert_eq!(request.url, "http://localhost:3030/pipes/list");
    assert_eq!(request.body, None);
    assert_eq!(request.reads, Reads::Document);
}

#[test]
fn a_download_is_asked_of_the_server() {
    let download = PipeCommand::Download {
        url: text("https://github.com/a/b"),
        output: OutputFormat::Text,
        port: 3030,
    };
    for command in [install(OutputFormat::Text), download] {
        let request = request(begin(&command));
        assert_eq!(request.method, Method::Post);
        assert_eq!(request.url, "http://localhost:3030/pipes/download");
        assert_eq!(request.body, Some(json("{\"url\": \"https://github.com/a/b\"}")));
        assert_eq!(request.reads, Reads::Document);
    }
}

#[test]
fn a_description_is_asked_of_the_server() {
    let request = request(begin(&info(OutputFormat::Text)));
    assert_eq!(request.method, Method::Get);
    assert_eq!(request.url, "http://localhost:3030/pipes/info/search");
    assert_eq!(request.reads, Reads::Detail);
}

#[test]
fn changes_are_asked_of_the_server() {
    let id = || text("search");
    let enable = request(begin(&PipeCommand::Enable { id: id(), port: 1 }));
    assert_eq!(enable.method, Method::Post);
    assert_eq!(enable.url, "http://localhost:1/pipes/enable");
    assert_eq!(enable.body, Some(json("{\"pipe_id\": \"search\"}")));
    assert_eq!(enable.reads, Reads::Nothing);
    let disable = request(begin(&PipeCommand::Disable { id: id(), port: 65535 }));
    assert_eq!(disable.url, "http://localhost:65535/pipes/disable");
    assert_eq!(disable.body, Some(json("{\"pipe_id\": \"search\"}")));
    let config = text("{\"fields\": [1, 2.5, null]}");
    let update = request(begin(&PipeCommand::Update { id: id(), config, port: 0 }));
    assert_eq!(update.url, "http://localhost:0/pipes/update");
    assert_eq!(
        update.body,
        Some(json("{\"pipe_id\": \"search\", \"config\": {\"fields\": [1, 2.5, null]}}"))
    );
}

#[test]
fn removals_are_asked_of_the_server() {
    let deletion = request(begin(&delete(true)));
    assert_eq!(deletion.method, Method::Delete);
    assert_eq!(deletion.url, "http://localhost:3030/pipes/delete/search");
    assert_eq!(deletion.body, None);
    let purging = request(begin(&purge(true)));
    assert_eq!(purging.method, Method::Post);
    assert_eq!(purging.url, "http://localhost:3030/pipes/purge");
    assert_eq!(purging.body, None);
}

#[test]
fn only_json_is_a_configuration() {
    let command = PipeCommand::Update { id: text("search"), config: text("{oops"), port: 1 };
    let problem = serde_json::from_str::<Value>("{oops").unwrap_err();
    assert_eq!(failure(begin(&command)), format!("invalid json: {problem}"));
    assert_eq!(server_request(&command), Err(format!("invalid json: {problem}")));
}

#[test]
fn an_update_is_made_of_what_was_read() {
    assert_eq!(update_request("a", 1, Err(text("bad"))), Err(text("invalid json: bad")));
    let request = update_request("a", 1, Ok(json("7"))).unwrap();
    assert_eq!(request.body, Some(json("{\"pipe_id\": \"a\", \"config\": 7}")));
    assert_eq!(request.method, Method::Post);
}

#[test]
fn the_user_is_asked_before_a_removal() {
    let turn = begin(&delete(false));
    let question = text("are you sure you want to delete pipe 'search'? [y/N] ");
    assert_eq!(turn.work, PipeWork::Ask { question });
    let turn = begin(&purge(false));
    let question =
        text("are you sure you want to purge all pipes? this action cannot be undone. (y/N): ");
    assert_eq!(turn.work, PipeWork::Ask { question });
}

#[test]
fn a_refusal_does_nothing() {
    for line in ["", "\n", "n\n", "yes\n", "yy", "no y"] {
        let typed = || News::Typed { line: text(line) };
        let turn = handle_pipe_command(&delete(false), begin(&delete(false)).progress, typed());
        assert_eq!(last_words(turn), vec!["pipe deletion cancelled"]);
        let turn = handle_pipe_command(&purge(false), begin(&purge(false)).progress, typed());
        assert_eq!(last_words(turn), vec!["pipe purge cancelled"]);
    }
}

#[test]
fn a_confirmed_removal_is_asked_of_the_server() {
    for line in ["y", "Y\n", "  y \r\n"] {
        assert!(is_confirmed(line));
        let typed = || News::Typed { line: text(line) };
        let turn = handle_pipe_command(&delete(false), begin(&delete(false)).progress, typed());
        assert_eq!(request(turn).method, Method::Delete);
        let turn = handle_pipe_command(&purge(false), begin(&purge(false)).progress, typed());
        assert_eq!(request(turn).url, "http://localhost:3030/pipes/purge");
    }
}

#[test]
fn confirmation_is_that_of_std() {
    for line in ["y", "Y", " y\n", "yes", "", "ý", "\u{3000}Y", "y y"] {
        assert_eq!(is_confirmed(line), line.trim().eq_ignore_ascii_case("y"));
    }
}

#[test]
fn without_a_server_the_local_pipes_are_listed() {
    let command = list(OutputFormat::Text);
    let turn = handle_pipe_command(&command, sent(&command), News::NoServer);
    assert_eq!(printed(&turn), vec!["note: server not running, showing pipe configurations"]);
    assert_eq!(turn.work, PipeWork::ListLocal);
    let pipes = vec![pipe("search", true), pipe("memories", false)];
    let turn = handle_pipe_command(&command, turn.progress, News::Listed { pipes });
    assert_eq!(
        last_words(turn),
        vec!["available pipes:", "  id: search, enabled: true", "  id: memories, enabled: false"]
    );
}

#[test]
fn pipes_are_listed_as_json() {
    let wanted = r#"{
  "data": [
    {
      "enabled": true,
      "id": "search"
    }
  ],
  "success": true
}"#;
    let turn = report_list(OutputFormat::Json, vec![pipe("search", true)]);
    assert_eq!(last_words(turn), vec![wanted]);
    let command = list(OutputFormat::Json);
    let pipes = vec![pipe("search", true)];
    let turn = handle_pipe_command(&command, local(&command), News::Listed { pipes });
    assert_eq!(last_words(turn), vec![wanted]);
}

#[test]
fn the_pipes_of_an_answer_are_read_one_by_one() {
    let command = list(OutputFormat::Text);
    let document = json("{\"data\": [{\"id\": \"a\"}, 7], \"success\": true}");
    let turn = handle_pipe_command(&command, sent(&command), News::Document { document });
    assert_eq!(turn.work, PipeWork::Decode { documents: vec![json("{\"id\": \"a\"}"), json("7")] });
    let read = vec![Some(pipe("a", true)), None];
    let turn = handle_pipe_command(&command, turn.progress, News::Decoded { read });
    assert_eq!(last_words(turn), vec!["available pipes:", "  id: a, enabled: true"]);
}

#[test]
fn documents_that_are_no_pipes_are_left_out() {
    let read = vec![None, Some(pipe("a", true)), None, Some(pipe("b", false))];
    assert_eq!(keep_pipes(read), vec![pipe("a", true), pipe("b", false)]);
    assert_eq!(keep_pipes(vec![None]), vec![]);
}

#[test]
fn an_answer_without_a_list_is_an_error() {
    for document in ["{}", "[]", "null", "{\"data\": {}}", "{\"data\": \"a\"}"] {
        let news = News::Document { document: json(document) };
        let turn = handle_pipe_command(&list(OutputFormat::Text), sent(&list(OutputFormat::Text)), news);
        assert_eq!(failure(turn), "invalid response format");
    }
}

#[test]
fn an_unreadable_answer_is_an_error() {
    for command in [list(OutputFormat::Json), install(OutputFormat::Text), info(OutputFormat::Text)] {
        let news = News::Unreadable { error: text("cut off") };
        assert_eq!(failure(handle_pipe_command(&command, sent(&command), news)), "cut off");
    }
}

#[test]
fn a_download_by_the_server_is_reported() {
    let answer = || json("{\"pipe_id\": \"b\", \"success\": true}");
    let news = News::Document { document: answer() };
    let turn = handle_pipe_command(&install(OutputFormat::Text), sent(&install(OutputFormat::Text)), news);
    assert_eq!(last_words(turn), vec!["pipe downloaded successfully. id: b"]);
    let turn = report_server_download(OutputFormat::Json, answer());
    assert_eq!(last_words(turn), vec!["{\n  \"pipe_id\": \"b\",\n  \"success\": true\n}"]);
    for other in ["{}", "[]", "{\"pipe_id\": 7}"] {
        let turn = report_server_download(OutputFormat::Text, json(other));
        assert_eq!(last_words(turn), vec!["pipe downloaded successfully. id: unknown"]);
    }
}

#[test]
fn a_local_download_is_reported() {
    let command = install(OutputFormat::Text);
    let turn = handle_pipe_command(&command, sent(&command), News::NoServer);
    assert_eq!(turn.work, PipeWork::DownloadLocal { url: text("https://github.com/a/b") });
    assert!(turn.lines.is_empty());
    let turn = handle_pipe_command(&command, turn.progress, News::Downloaded { result: Ok(text("b")) });
    assert_eq!(last_words(turn), vec!["pipe downloaded successfully. id: b"]);
    let turn = report_local_download(OutputFormat::Json, Ok(text("b")));
    let wanted = r#"{
  "data": {
    "message": "pipe downloaded successfully",
    "pipe_id": "b"
  },
  "success": true
}"#;
    assert_eq!(last_words(turn), vec![wanted]);
}

#[test]
fn a_failed_local_download_is_reported() {
    let turn = report_local_download(OutputFormat::Text, Err(text("no such repo")));
    assert_eq!(turn.work, PipeWork::Finish);
    assert_eq!(turn.lines.len(), 1);
    assert_eq!(turn.lines[0].stream, Stream::Error);
    assert_eq!(turn.lines[0].text, "failed to download pipe: no such repo");
    let turn = report_local_download(OutputFormat::Json, Err(text("no such repo")));
    assert_eq!(
        last_words(turn),
        vec!["{\n  \"error\": \"failed to download pipe: no such repo\",\n  \"success\": false\n}"]
    );
}

fn detail() -> PipeDetail {
    let printed = Ok(text("{\n  \"id\": \"search\"\n}"));
    PipeDetail { printed, shown: text("PipeInfo { id: \"search\" }") }
}

#[test]
fn a_description_is_reported() {
    let turn = report_detail(OutputFormat::Text, detail());
    assert_eq!(last_words(turn), vec!["pipe info: PipeInfo { id: \"search\" }"]);
    let news = News::Detail { detail: detail() };
    let turn = handle_pipe_command(&info(OutputFormat::Json), sent(&info(OutputFormat::Json)), news);
    assert_eq!(last_words(turn), vec!["{\n  \"id\": \"search\"\n}"]);
}

#[test]
fn a_description_that_cannot_be_printed_is_an_error() {
    let broken = || PipeDetail { printed: Err(text("no")), shown: text("Pipe") };
    assert_eq!(failure(report_detail(OutputFormat::Json, broken())), "no");
    assert_eq!(last_words(report_detail(OutputFormat::Text, broken())), vec!["pipe info: Pipe"]);
}

#[test]
fn a_local_pipe_may_be_missing() {
    let command = info(OutputFormat::Text);
    let turn = handle_pipe_command(&command, sent(&command), News::NoServer);
    assert_eq!(printed(&turn), vec!["note: server not running, showing pipe configuration"]);
    assert_eq!(turn.work, PipeWork::DescribeLocal { id: text("search") });
    let turn = handle_pipe_command(&command, local(&command), News::Described { local: None });
    assert_eq!(failure(turn), "pipe not found");
    let news = News::Described { local: Some(detail()) };
    let turn = handle_pipe_command(&command, local(&command), news);
    assert_eq!(last_words(turn), vec!["pipe info: PipeInfo { id: \"search\" }"]);
}

fn changes() -> Vec<PipeCommand> {
    let id = || text("search");
    vec![
        PipeCommand::Enable { id: id(), port: 1 },
        PipeCommand::Disable { id: id(), port: 1 },
        PipeCommand::Update { id: id(), config: text("{\"a\": 1}"), port: 1 },
        delete(true),
        purge(true),
    ]
}

#[test]
fn what_the_server_has_done_is_said() {
    let said: Vec<String> = changes()
        .iter()
        .flat_map(|c| last_words(handle_pipe_command(c, sent(c), News::Accepted)))
        .collect();
    assert_eq!(
        said,
        vec![
            "pipe search enabled in running server",
            "pipe search disabled in running server",
            "pipe search config updated in running server",
            "pipe 'search' deleted from running server",
            "all pipes purged from running server",
        ]
    );
}

#[test]
fn without_a_server_the_local_pipes_are_changed() {
    let id = || text("search");
    let works: Vec<PipeWork> = changes()
        .iter()
        .map(|c| handle_pipe_command(c, sent(c), News::NoServer).work)
        .collect();
    assert_eq!(
        works,
        vec![
            PipeWork::ConfigureLocal { id: id(), config: json("{\"enabled\": true}") },
            PipeWork::ConfigureLocal { id: id(), config: json("{\"enabled\": false}") },
            PipeWork::ConfigureLocal { id: id(), config: json("{\"a\": 1}") },
            PipeWork::DeleteLocal { id: id() },
            PipeWork::PurgeLocal,
        ]
    );
}

#[test]
fn local_changes_are_said() {
    let changed = || News::Changed { problem: None };
    let said: Vec<String> = changes()
        .iter()
        .flat_map(|c| last_words(handle_pipe_command(c, local(c), changed())))
        .collect();
    assert_eq!(
        said,
        vec![
            "note: server not running, updated config only. pipe will start on next server launch",
            "note: server not running, updated config only",
            "note: server not running, updated config only",
            "pipe 'search' deleted from local files",
            "all pipes purged from local files",
        ]
    );
}

#[test]
fn local_changes_can_fail() {
    let changed = || News::Changed { problem: Some(text("read only")) };
    let all = changes();
    for command in &all[..3] {
        assert_eq!(failure(handle_pipe_command(command, local(command), changed())), "read only");
    }
    assert_eq!(
        last_words(handle_pipe_command(&all[3], local(&all[3]), changed())),
        vec!["failed to delete pipe: read only"]
    );
    assert_eq!(
        last_words(handle_pipe_command(&all[4], local(&all[4]), changed())),
        vec!["failed to purge pipes: read only"]
    );
}

#[test]
fn a_pipe_document_is_its_text_or_the_error() {
    assert_eq!(last_words(show_text(Ok(text("{}")))), vec!["{}"]);
    assert_eq!(failure(show_text(Err(text("no")))), "no");
}
