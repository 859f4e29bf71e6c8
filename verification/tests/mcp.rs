use screenpipe_cli::cli::{McpCommand, OutputFormat};
use screenpipe_cli::mcp::{
    config_value, handle_mcp_command, is_command_available, mcp_config_file, mcp_directory,
    report_purge, report_setup, run_command, show_text, shown_directory, write_text, McpNews, McpProgress, McpTurn,
    McpWork, Shown,
};
use screenpipe_cli::place::Place;
use screenpipe_cli::report::Stream;

const LISTING: &str = "https://api.github.com/repos/mediar-ai/screenpipe/contents/screenpipe-integrations/screenpipe-mcp?ref=main";

const CONFIG: &str = r#"{
  "mcpServers": {
    "screenpipe": {
      "args": [
        "--directory",
        "/sp/mcp",
        "run",
        "screenpipe-mcp",
        "--port",
        "3030"
      ],
      "command": "uv"
    }
  }
}"#;

fn text(s: &str) -> String {
    s.to_string()
}

fn setup(output: OutputFormat, update: bool, purge: bool) -> McpCommand {
    McpCommand::Setup { directory: None, output, port: 3030, update, purge }
}

fn shown() -> Shown {
    Shown { default_directory: text("/sp/mcp"), config_file: text("/sp/mcp/config.json") }
}

fn base() -> Place {
    Place::given("/sp")
}

fn directory() -> Place {
    base().join("mcp")
}

fn look() -> McpWork {
    McpWork::LookForDirectory { directory: directory() }
}

fn inside() -> McpWork {
    McpWork::LookInside { directory: directory() }
}

fn remove() -> McpWork {
    McpWork::RemoveDirectory { directory: directory() }
}

fn create() -> McpWork {
    McpWork::CreateDirectory { directory: directory() }
}

fn fill() -> McpWork {
    McpWork::Download { url: text(LISTING), directory: directory() }
}

fn probe(command: &str) -> McpWork {
    McpWork::Probe { command: text(command), argument: text("--version") }
}

fn done() -> McpNews {
    McpNews::Done { error: None }
}

fn probed(available: bool) -> McpNews {
    McpNews::Probed { available }
}

/// Tells a set-up the news, one after the other, and gives its turns.
fn run(command: &McpCommand, news: Vec<McpNews>) -> Vec<McpTurn> {
    let mut turns: Vec<McpTurn> = vec![handle_mcp_command(
        command,
        &base(),
        &shown(),
        McpProgress::start(),
        McpNews::Begin,
    )];
    for one in news {
        let last = turns.len() - 1;
        let progress = std::mem::replace(&mut turns[last].progress, McpProgress::start());
        turns.push(handle_mcp_command(command, &base(), &shown(), progress, one));
    }
    turns
}

/// The news that come first where all commands are there.
fn after_probes(news: Vec<McpNews>) -> Vec<McpNews> {
    let mut all = vec![probed(true), probed(true), probed(true)];
    all.extend(news);
    all
}

fn works(turns: Vec<McpTurn>) -> Vec<McpWork> {
    turns.into_iter().map(|t| t.work).collect()
}

fn printed(turn: &McpTurn) -> Vec<&str> {
    assert_eq!(turn.work, McpWork::Finish);
    turn.lines
        .iter()
        .map(|l| {
            assert_eq!(l.stream, Stream::Output);
            l.text.as_str()
        })
        .collect()
}

fn write_config() -> McpWork {
    McpWork::WriteConfig { file: directory().join("config.json"), text: text(CONFIG) }
}

#[test]
fn a_command_is_there_where_its_run_succeeds() {
    assert!(is_command_available(Some(true)));
    assert!(!is_command_available(Some(false)));
    assert!(!is_command_available(None));
}

#[test]
fn the_server_goes_into_the_base_directory_unless_told_otherwise() {
    let base = Place::home().join(".screenpipe");
    let directory = mcp_directory(&setup(OutputFormat::Text, false, false), &base);
    assert_eq!(directory, base.join("mcp"));
    assert_eq!(mcp_config_file(&directory), base.join("mcp").join("config.json"));
    let command = McpCommand::Setup {
        directory: Some(text("/elsewhere")),
        output: OutputFormat::Text,
        port: 1,
        update: false,
        purge: false,
    };
    assert_eq!(mcp_directory(&command, &base), Place::given("/elsewhere"));
}

#[test]
fn the_configuration_is_written_as_json() {
    let value = config_value("/sp/mcp", 3030);
    assert_eq!(serde_json::to_string_pretty(&value).unwrap(), CONFIG);
}

#[test]
fn the_shown_command_is_the_configured_one() {
    let line = run_command("/sp/mcp", 3030);
    assert_eq!(line, "uv --directory /sp/mcp run screenpipe-mcp --port 3030");
    let value = config_value("/sp/mcp", 3030);
    let server = &value["mcpServers"]["screenpipe"];
    let mut words = vec![server["command"].as_str().unwrap()];
    words.extend(server["args"].as_array().unwrap().iter().map(|a| a.as_str().unwrap()));
    assert_eq!(line, words.join(" "));
}

#[test]
fn a_missing_directory_is_created_and_filled() {
    let command = setup(OutputFormat::Text, false, false);
    let news = after_probes(vec![McpNews::Found { there: false }, done(), done(), done(), done()]);
    let turns = run(&command, news);
    assert_eq!(
        printed(turns.last().unwrap()),
        vec![
            "MCP setup completed successfully",
            "Directory: /sp/mcp",
            "Config file: /sp/mcp/config.json",
            "\nTo run the MCP server, use this command:",
            "$ uv --directory /sp/mcp run screenpipe-mcp --port 3030",
        ]
    );
    assert_eq!(
        works(turns),
        vec![
            probe("python"),
            probe("python3"),
            probe("uv"),
            look(),
            create(),
            fill(),
            write_config(),
            write_config(),
            McpWork::Finish,
        ]
    );
}

#[test]
fn found_files_are_kept() {
    let command = setup(OutputFormat::Text, false, false);
    let within = McpNews::Inside { result: Ok(false) };
    let turns = run(&command, after_probes(vec![McpNews::Found { there: true }, within, done()]));
    assert_eq!(
        printed(turns.last().unwrap()),
        vec![
            "MCP files already exist at: /sp/mcp",
            "Use --update flag to force update or --purge to start fresh",
            "Directory: /sp/mcp",
            "Config file: /sp/mcp/config.json",
            "\nTo run the MCP server, use this command:",
            "$ uv --directory /sp/mcp run screenpipe-mcp --port 3030",
        ]
    );
    assert_eq!(
        works(turns)[3..],
        [look(), inside(), write_config(), McpWork::Finish]
    );
}

#[test]
fn an_empty_directory_is_filled() {
    let command = setup(OutputFormat::Text, false, false);
    let within = McpNews::Inside { result: Ok(true) };
    let turns = run(&command, after_probes(vec![McpNews::Found { there: true }, within, done()]));
    assert_eq!(
        works(turns)[4..],
        [inside(), create(), fill()]
    );
}

#[test]
fn an_update_removes_the_files_first() {
    let command = setup(OutputFormat::Text, true, false);
    let turns = run(&command, after_probes(vec![McpNews::Found { there: true }, done(), done()]));
    assert_eq!(
        works(turns)[4..],
        [
            remove(),
            create(),
            fill()
        ]
    );
}

#[test]
fn a_purge_only_removes() {
    let command = setup(OutputFormat::Text, true, true);
    let turns = run(&command, after_probes(vec![McpNews::Found { there: true }, done()]));
    assert_eq!(
        printed(turns.last().unwrap()),
        vec!["MCP directory purged successfully", "Directory: /sp/mcp"]
    );
    assert_eq!(works(turns)[4..], [remove(), McpWork::Finish]);
    let turns = run(&command, after_probes(vec![McpNews::Found { there: false }]));
    assert_eq!(printed(turns.last().unwrap()), vec!["MCP directory does not exist: /sp/mcp"]);
}

#[test]
fn a_purge_is_reported_as_json() {
    let turn = report_purge(OutputFormat::Json, true, "/sp/mcp");
    let wanted = r#"{
  "data": {
    "directory": "/sp/mcp",
    "message": "MCP directory purged successfully"
  },
  "success": true
}"#;
    assert_eq!(printed(&turn), vec![wanted]);
    let turn = report_purge(OutputFormat::Json, false, "/sp/mcp");
    assert_eq!(
        printed(&turn),
        vec![wanted.replace("MCP directory purged successfully", "MCP directory does not exist")]
    );
}

#[test]
fn a_set_up_is_reported_as_json() {
    let turn = report_setup(OutputFormat::Json, true, "/sp/mcp", "/sp/mcp/config.json", 3030);
    let wanted = r#"{
  "data": {
    "config": {
      "mcpServers": {
        "screenpipe": {
          "args": [
            "--directory",
            "/sp/mcp",
            "run",
            "screenpipe-mcp",
            "--port",
            "3030"
          ],
          "command": "uv"
        }
      }
    },
    "config_path": "/sp/mcp/config.json",
    "directory": "/sp/mcp",
    "message": "MCP setup completed successfully",
    "port": 3030
  },
  "success": true
}"#;
    assert_eq!(printed(&turn), vec![wanted]);
    let turn = report_setup(OutputFormat::Json, false, "/sp/mcp", "/sp/mcp/config.json", 3030);
    assert_eq!(
        printed(&turn),
        vec![wanted.replace("MCP setup completed successfully", "MCP files already exist")]
    );
}

#[test]
fn missing_commands_are_warned_of() {
    let command = setup(OutputFormat::Text, false, false);
    let python = "note: python is not installed. please install it from the official website: https://www.python.org/";
    let uv = "note: uv is not installed. please install it using the instructions at: https://docs.astral.sh/uv/#installation";
    // Without `python` there is no need to look for `python3`.
    let turns = run(&command, vec![probed(false), probed(false)]);
    assert_eq!(turns[1].work, probe("uv"));
    assert_eq!(turns[1].lines[0].stream, Stream::Warning);
    assert_eq!(turns[1].lines[0].text, python);
    assert_eq!(turns[2].work, look());
    assert_eq!(turns[2].lines[0].stream, Stream::Warning);
    assert_eq!(turns[2].lines[0].text, uv);
    let turns = run(&command, vec![probed(true), probed(false), probed(true)]);
    assert!(turns[1].lines.is_empty());
    assert_eq!(turns[2].lines[0].text, python);
    assert!(turns[3].lines.is_empty());
}

#[test]
fn a_failed_download_is_cleaned_up() {
    let command = setup(OutputFormat::Text, false, false);
    let failed = |last: Vec<McpNews>| {
        let mut news = vec![
            McpNews::Found { there: false },
            done(),
            McpNews::Done { error: Some(text("offline")) },
        ];
        news.extend(last);
        works(run(&command, after_probes(news)))[6..].iter().map(|w| format!("{w:?}")).collect()
    };
    let fail = format!("{:?}", McpWork::Fail { error: text("offline") });
    let look = format!("{:?}", look());
    let remove = format!("{:?}", remove());
    let seen: Vec<String> = failed(vec![McpNews::Found { there: true }, done()]);
    assert_eq!(seen, vec![look.clone(), remove.clone(), fail.clone()]);
    let denied = McpNews::Done { error: Some(text("denied")) };
    let seen: Vec<String> = failed(vec![McpNews::Found { there: true }, denied]);
    assert_eq!(seen, vec![look.clone(), remove, fail.clone()]);
    let seen: Vec<String> = failed(vec![McpNews::Found { there: false }]);
    assert_eq!(seen, vec![look, fail]);
}

#[test]
fn a_cancelled_download_fails() {
    let command = setup(OutputFormat::Json, false, false);
    let news = after_probes(vec![
        McpNews::Found { there: false },
        done(),
        McpNews::Cancelled,
        McpNews::Found { there: true },
        done(),
    ]);
    let turns = run(&command, news);
    assert_eq!(
        turns.last().unwrap().work,
        McpWork::Fail { error: text("Download cancelled by user") }
    );
}

#[test]
fn every_step_of_a_set_up_can_fail() {
    let denied = || McpNews::Done { error: Some(text("denied")) };
    let fail = McpWork::Fail { error: text("denied") };
    let plain = setup(OutputFormat::Text, false, false);
    let there = || McpNews::Found { there: true };
    let missing = || McpNews::Found { there: false };
    let runs = vec![
        run(&setup(OutputFormat::Text, false, true), after_probes(vec![there(), denied()])),
        run(&setup(OutputFormat::Text, true, false), after_probes(vec![there(), denied()])),
        run(&plain, after_probes(vec![missing(), denied()])),
        run(&plain, after_probes(vec![missing(), done(), done(), denied()])),
        run(&plain, after_probes(vec![missing(), done(), done(), done(), denied()])),
        run(
            &plain,
            after_probes(vec![there(), McpNews::Inside { result: Err(text("denied")) }]),
        ),
    ];
    for turns in runs {
        assert_eq!(turns.last().unwrap().work, fail);
        assert!(turns.last().unwrap().lines.is_empty());
    }
}

#[test]
fn a_set_up_document_is_its_text_or_the_error() {
    assert_eq!(printed(&show_text(Ok(text("{}")))), vec!["{}"]);
    assert_eq!(show_text(Err(text("no"))).work, McpWork::Fail { error: text("no") });
    let file = || Place::given("/f");
    let turn = write_text(Ok(text("{}")), file(), McpProgress::start());
    assert_eq!(turn.work, McpWork::WriteConfig { file: file(), text: text("{}") });
    assert_eq!(turn.progress, McpProgress::start());
    let turn = write_text(Err(text("no")), file(), McpProgress::start());
    assert_eq!(turn.work, McpWork::Fail { error: text("no") });
    assert_ne!(turn.progress, McpProgress::start());
}

#[test]
fn only_the_directory_is_touched() {
    let command = McpCommand::Setup {
        directory: Some(text("/elsewhere")),
        output: OutputFormat::Text,
        port: 3030,
        update: true,
        purge: false,
    };
    let news = after_probes(vec![McpNews::Found { there: true }, done(), done(), done(), done()]);
    let elsewhere = || Place::given("/elsewhere");
    let file = || elsewhere().join("config.json");
    assert_eq!(
        works(run(&command, news))[3..],
        [
            McpWork::LookForDirectory { directory: elsewhere() },
            McpWork::RemoveDirectory { directory: elsewhere() },
            McpWork::CreateDirectory { directory: elsewhere() },
            McpWork::Download { url: text(LISTING), directory: elsewhere() },
            McpWork::WriteConfig { file: file(), text: CONFIG.replace("/sp/mcp", "/elsewhere") },
            McpWork::WriteConfig { file: file(), text: CONFIG.replace("/sp/mcp", "/elsewhere") },
        ]
    );
}

#[test]
fn a_given_directory_is_shown_as_given() {
    let given = |path: &str| McpCommand::Setup {
        directory: Some(text(path)),
        output: OutputFormat::Text,
        port: 3030,
        update: false,
        purge: true,
    };
    for path in ["/elsewhere", "", "./a/../b//", "C:\\mcp"] {
        assert_eq!(shown_directory(&given(path), &shown()), path);
        let turns = run(&given(path), after_probes(vec![McpNews::Found { there: false }]));
        assert_eq!(
            printed(turns.last().unwrap()),
            vec![format!("MCP directory does not exist: {path}")]
        );
    }
    assert_eq!(shown_directory(&setup(OutputFormat::Text, false, false), &shown()), "/sp/mcp");
}

#[test]
fn a_second_set_up_keeps_the_files() {
    let command = setup(OutputFormat::Json, false, false);
    let news = after_probes(vec![McpNews::Found { there: false }, done(), done(), done(), done()]);
    let first = works(run(&command, news));
    assert_eq!(first.last(), Some(&McpWork::Finish));
    let within = McpNews::Inside { result: Ok(false) };
    let news = after_probes(vec![McpNews::Found { there: true }, within, done()]);
    let second = works(run(&command, news));
    assert_eq!(second[3..], [look(), inside(), write_config(), McpWork::Finish]);
    assert_eq!(second[5], first[first.len() - 2]);
}
