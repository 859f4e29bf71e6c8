use screenpipe_cli::cli::{
    should_log, AudioCommand, Command, McpCommand, MigrationSubCommand, OutputFormat, PipeCommand,
    VisionCommand,
};
use screenpipe_cli::devices::{
    choose_devices, choose_monitors, complain_of_devices, list_audio, list_vision, monitor_text,
    needs_default_devices, realtime_enabled, report_document, AudioDevice, Monitor,
};
use screenpipe_cli::lifecycle::{
    changelog_notice, cloud_notice, enabled_pipes, greeting, recording_step, refuse_taken_port,
    refuse_without_ffmpeg, release_name, stops_tasks, telemetry_notice, ui_monitoring_step, Color,
    StopCause, TaskEvent, TaskStep, BANNER,
};
use screenpipe_cli::place::{database_path, get_base_dir, Place, Root};
use screenpipe_cli::report::Stream;
use screenpipe_cli::table::PipeState;

fn text(s: &str) -> String {
    s.to_string()
}

fn pipe(subcommand: PipeCommand) -> Option<Command> {
    Some(Command::Pipe { subcommand })
}

#[test]
fn a_pipe_command_logs_only_where_it_prints_text() {
    for (output, logs) in [(OutputFormat::Text, true), (OutputFormat::Json, false)] {
        assert_eq!(should_log(&pipe(PipeCommand::List { output, port: 3030 })), logs);
        let url = text("https://github.com/a/b");
        assert_eq!(should_log(&pipe(PipeCommand::Install { url, output, port: 3030 })), logs);
        assert_eq!(should_log(&pipe(PipeCommand::Info { id: text("a"), output, port: 3030 })), logs);
    }
}

#[test]
fn the_old_download_command_never_logs() {
    for output in [OutputFormat::Text, OutputFormat::Json] {
        assert!(!should_log(&pipe(PipeCommand::Download { url: text("u"), output, port: 1 })));
    }
}

#[test]
fn pipe_commands_without_a_format_log() {
    assert!(should_log(&pipe(PipeCommand::Enable { id: text("a"), port: 1 })));
    assert!(should_log(&pipe(PipeCommand::Disable { id: text("a"), port: 1 })));
    let config = text("{}");
    assert!(should_log(&pipe(PipeCommand::Update { id: text("a"), config, port: 1 })));
    assert!(should_log(&pipe(PipeCommand::Delete { id: text("a"), yes: true, port: 1 })));
    assert!(should_log(&pipe(PipeCommand::Purge { yes: false, port: 1 })));
}

#[test]
fn other_commands_log_in_either_format() {
    assert!(should_log(&None));
    assert!(should_log(&Some(Command::Completions)));
    for output in [OutputFormat::Text, OutputFormat::Json] {
        assert!(should_log(&Some(Command::Audio { subcommand: AudioCommand::List { output } })));
        assert!(should_log(&Some(Command::Vision { subcommand: VisionCommand::List { output } })));
        assert!(should_log(&Some(Command::Add { output })));
        let subcommand = Some(MigrationSubCommand::Start);
        assert!(should_log(&Some(Command::Migrate { subcommand, output })));
        let subcommand = McpCommand::Setup {
            directory: None,
            output,
            port: 3030,
            update: false,
            purge: false,
        };
        assert!(should_log(&Some(Command::Mcp { subcommand })));
    }
}

#[test]
fn the_base_directory_stands_in_the_home_directory() {
    let dirs = get_base_dir(&None, true).unwrap();
    assert_eq!(dirs.base, Place { root: Root::Home, names: vec![text(".screenpipe")] });
    assert_eq!(dirs.data, Place { root: Root::Home, names: vec![text(".screenpipe"), text("data")] });
}

#[test]
fn a_given_base_directory_is_taken() {
    let dirs = get_base_dir(&Some(text("/tmp/sp")), true).unwrap();
    assert_eq!(dirs.base, Place::given("/tmp/sp"));
    assert_eq!(dirs.data, Place::given("/tmp/sp").join("data"));
}

#[test]
fn without_a_home_directory_there_is_no_base_directory() {
    for custom in [None, Some(text("/tmp/sp"))] {
        match get_base_dir(&custom, false) {
            Ok(_) => panic!("a base directory was found"),
            Err(error) => assert_eq!(error, "failed to get home directory"),
        }
    }
}

#[test]
fn a_base_directory_is_found_again() {
    for custom in [None, Some(text("/tmp/sp"))] {
        let first = get_base_dir(&custom, true).unwrap();
        let second = get_base_dir(&custom, true).unwrap();
        assert_eq!(first.base, second.base);
        assert_eq!(first.data, second.data);
    }
}

#[test]
fn places_are_joined_name_by_name() {
    let place = Place::home().join("a").join("b");
    assert_eq!(place.names, vec!["a", "b"]);
    assert_eq!(place.copy(), place);
    assert_eq!(place.root, Root::Home);
}

#[test]
fn the_database_stands_in_the_base_directory() {
    assert_eq!(database_path("/tmp/sp"), "/tmp/sp/db.sqlite");
}

fn devices() -> Vec<AudioDevice> {
    vec![
        AudioDevice { name: text("mic"), shown: text("mic (input)") },
        AudioDevice { name: text("screen"), shown: text("screen (output)") },
        AudioDevice { name: text("spare"), shown: text("spare (input)") },
    ]
}

#[test]
fn audio_devices_are_listed_as_text() {
    let lines = list_audio(OutputFormat::Text, &devices(), "mic", "screen", false).unwrap();
    assert_eq!(
        lines,
        vec!["available audio devices:", "  mic (input)", "  screen (output)", "  spare (input)"]
    );
}

#[test]
fn on_macos_a_note_follows_the_audio_devices() {
    let lines = list_audio(OutputFormat::Text, &vec![], "mic", "screen", true).unwrap();
    assert_eq!(
        lines,
        vec!["available audio devices:", "note: on macos, output devices are your displays"]
    );
}

#[test]
fn audio_devices_are_listed_as_json() {
    let lines = list_audio(OutputFormat::Json, &devices(), "mic", "screen", true).unwrap();
    let wanted = r#"{
  "data": [
    {
      "is_default": true,
      "name": "mic (input)"
    },
    {
      "is_default": true,
      "name": "screen (output)"
    },
    {
      "is_default": false,
      "name": "spare (input)"
    }
  ],
  "success": true
}"#;
    assert_eq!(lines, vec![wanted]);
}

fn monitors() -> Vec<Monitor> {
    vec![
        Monitor { id: 1, name: text("built-in"), width: 1920, height: 1080, is_primary: true },
        Monitor { id: 65536, name: text("a \"b\""), width: 800, height: 600, is_primary: false },
    ]
}

#[test]
fn monitors_are_listed_as_text() {
    let lines = list_vision(OutputFormat::Text, &monitors()).unwrap();
    assert_eq!(
        lines,
        vec!["available monitors:", "  1. \"built-in\"", "  65536. \"a \\\"b\\\"\""]
    );
}

#[test]
fn monitors_are_listed_as_json() {
    let lines = list_vision(OutputFormat::Json, &monitors()).unwrap();
    let wanted = r#"{
  "data": [
    {
      "height": 1080,
      "id": 1,
      "is_default": true,
      "name": "built-in",
      "width": 1920
    },
    {
      "height": 600,
      "id": 65536,
      "is_default": false,
      "name": "a \"b\"",
      "width": 800
    }
  ],
  "success": true
}"#;
    assert_eq!(lines, vec![wanted]);
}

#[test]
fn no_monitors_make_an_empty_list() {
    assert_eq!(list_vision(OutputFormat::Text, &vec![]).unwrap(), vec!["available monitors:"]);
    assert_eq!(
        list_vision(OutputFormat::Json, &vec![]).unwrap(),
        vec!["{\n  \"data\": [],\n  \"success\": true\n}"]
    );
}

#[test]
fn a_listing_is_its_document_or_the_error() {
    assert_eq!(monitor_text(7, "x"), "  7. x");
    assert_eq!(report_document(Ok(text("{}"))), Ok(vec![text("{}")]));
    assert_eq!(report_document(Err(text("no"))), Err(text("no")));
}

#[test]
fn disabled_audio_has_no_devices() {
    let named = vec![text("mic (input)")];
    assert_eq!(choose_devices(false, &named, &Some(text("a")), &None), Vec::<String>::new());
    assert!(!needs_default_devices(false, &vec![]));
}

#[test]
fn named_devices_replace_the_defaults() {
    let named = vec![text("x"), text("y")];
    assert_eq!(choose_devices(true, &named, &Some(text("a")), &Some(text("b"))), named);
    assert_eq!(choose_devices(true, &named, &None, &None), named);
    assert!(!needs_default_devices(true, &named));
}

#[test]
fn without_named_devices_the_defaults_are_used() {
    let (a, b) = (Some(text("a")), Some(text("b")));
    assert!(needs_default_devices(true, &vec![]));
    assert_eq!(choose_devices(true, &vec![], &a, &b), vec!["a", "b"]);
    assert_eq!(choose_devices(true, &vec![], &None, &b), vec!["b"]);
    assert_eq!(choose_devices(true, &vec![], &a, &None), vec!["a"]);
    assert_eq!(choose_devices(true, &vec![], &None, &None), Vec::<String>::new());
}

#[test]
fn realtime_transcription_needs_audio() {
    assert!(realtime_enabled(false, true));
    assert!(!realtime_enabled(true, true));
    assert!(!realtime_enabled(false, false));
    assert!(!realtime_enabled(true, false));
}

#[test]
fn missing_devices_are_complained_of() {
    let lines = complain_of_devices(true, 0, false);
    assert_eq!(lines.len(), 1);
    assert_eq!(lines[0].stream, Stream::Warning);
    assert_eq!(lines[0].text, "no audio devices available.");
    let lines = complain_of_devices(true, 0, true);
    assert_eq!(lines.len(), 1);
    assert_eq!(lines[0].stream, Stream::Error);
    assert_eq!(
        lines[0].text,
        "no realtime audio devices available. realtime audio transcription will be disabled."
    );
    assert!(complain_of_devices(true, 1, false).is_empty());
    assert!(complain_of_devices(false, 0, true).is_empty());
}

#[test]
fn all_monitors_are_recorded_unless_some_are_named() {
    assert_eq!(choose_monitors(&vec![], &vec![1, 2]), vec![1, 2]);
    assert_eq!(choose_monitors(&vec![7], &vec![1, 2]), vec![7]);
    assert_eq!(choose_monitors(&vec![], &vec![]), Vec::<u32>::new());
}

#[test]
fn the_release_name_has_its_suffix() {
    assert_eq!(release_name(&Some(text("sp@1")), &Some(text("-dev"))), "sp@1-dev");
    assert_eq!(release_name(&Some(text("sp@1")), &None), "sp@1");
    assert_eq!(release_name(&None, &Some(text("-dev"))), "-dev");
    assert_eq!(release_name(&None, &None), "");
}

#[test]
fn the_program_exits_without_ffmpeg() {
    let message = "ffmpeg not found and installation failed. please install ffmpeg manually.";
    assert_eq!(refuse_without_ffmpeg(false, false), Some((text(message), 1)));
    assert_eq!(refuse_without_ffmpeg(true, false), None);
    assert_eq!(refuse_without_ffmpeg(false, true), None);
}

#[test]
fn a_taken_port_is_refused() {
    assert_eq!(refuse_taken_port(true), None);
    assert_eq!(refuse_taken_port(false), Some(text("port already in use")));
}

#[test]
fn the_greeting_shows_the_banner_first() {
    let notices = greeting();
    assert_eq!(notices.len(), 3);
    assert_eq!(notices[0].text, BANNER);
    assert_eq!(notices[0].before, "\n\n");
    assert_eq!(notices[0].color, Color::Rgb { red: 147, green: 112, blue: 219 });
    assert!(notices[0].bold);
    assert_eq!(notices[1].text, "build ai apps that have the full context");
    assert!(notices[1].italic);
    assert_eq!(notices[2].text, "open source | runs locally | developer friendly");
    assert_eq!(notices[2].after, "\n\n");
    let lines: Vec<&str> = BANNER.split('\n').collect();
    assert_eq!(lines.len(), 9);
    assert_eq!(lines[0], "");
    assert_eq!(lines[1], "                                            _          ");
    assert_eq!(lines[4], " (__  / /__/ /  /  __/  __/ / / /  / /_/ / / /_/ /  __/");
}

#[test]
fn the_cloud_is_warned_of() {
    let local = "you are using local processing. all your data stays on your computer.\n";
    let cloud = "warning: you are using cloud now. make sure to understand the data privacy risks.";
    assert_eq!(cloud_notice(false, false).text, local);
    assert_eq!(cloud_notice(false, false).color, Color::BrightGreen);
    for (audio, ocr) in [(true, false), (false, true), (true, true)] {
        assert_eq!(cloud_notice(audio, ocr).text, cloud);
        assert_eq!(cloud_notice(audio, ocr).color, Color::BrightYellow);
    }
}

#[test]
fn telemetry_is_told_of() {
    assert_eq!(
        telemetry_notice(false).text,
        "warning: telemetry is enabled. only error-level data will be sent.\nto disable, use the --disable-telemetry flag."
    );
    assert_eq!(telemetry_notice(false).color, Color::BrightYellow);
    assert_eq!(
        telemetry_notice(true).text,
        "telemetry is disabled. no data will be sent to external services."
    );
    assert_eq!(telemetry_notice(true).color, Color::BrightGreen);
}

#[test]
fn the_changelog_is_linked() {
    let notice = changelog_notice();
    assert_eq!(notice.before, "\n");
    assert_eq!(
        notice.text,
        "check latest changes here: https://github.com/mediar-ai/screenpipe/releases"
    );
    assert_eq!(notice.color, Color::BrightBlue);
    assert!(notice.italic && !notice.bold);
}

#[test]
fn exactly_the_enabled_pipes_are_started() {
    let pipes = vec![
        PipeState { id: text("a"), enabled: true },
        PipeState { id: text("b"), enabled: false },
        PipeState { id: text("c"), enabled: true },
    ];
    assert_eq!(enabled_pipes(&pipes), vec!["a", "c"]);
    assert_eq!(enabled_pipes(&vec![]), Vec::<String>::new());
}

#[test]
fn recording_goes_on_until_shutdown() {
    assert_eq!(recording_step(TaskEvent::Ended), TaskStep::Again);
    assert_eq!(recording_step(TaskEvent::Failed), TaskStep::Again);
    assert_eq!(recording_step(TaskEvent::Shutdown), TaskStep::Stop);
}

#[test]
fn monitoring_the_interface_is_tried_again_after_a_failure() {
    assert_eq!(ui_monitoring_step(TaskEvent::Failed), TaskStep::AgainAfter { seconds: 5 });
    assert_eq!(ui_monitoring_step(TaskEvent::Ended), TaskStep::Stop);
    assert_eq!(ui_monitoring_step(TaskEvent::Shutdown), TaskStep::Stop);
}

#[test]
fn only_an_interrupt_stops_the_tasks() {
    assert!(stops_tasks(StopCause::Interrupted));
    assert!(!stops_tasks(StopCause::RecordingEnded));
    assert!(!stops_tasks(StopCause::ServerStopped));
}
