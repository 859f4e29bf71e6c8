use screenpipe_cli::table::{
    bracketed, push_list, settings_table, table_item, table_row, PipeState, Settings, BOTTOM_EDGE, INNER_EDGE,
    TOP_EDGE,
};

fn text(s: &str) -> String {
    s.to_string()
}

fn texts(items: &[&str]) -> Vec<String> {
    items.iter().map(|s| s.to_string()).collect()
}

fn settings() -> Settings {
    Settings {
        fps: text("1"),
        audio_chunk_duration: 30,
        video_chunk_duration: 60,
        port: 3030,
        realtime_audio: false,
        disable_audio: false,
        disable_vision: false,
        audio_engine: text("WhisperLargeV3Turbo"),
        ocr_engine: text("Tesseract"),
        vad_engine: text("Silero"),
        vad_sensitivity: text("High"),
        data_directory: text("/home/user/.screenpipe"),
        debug: false,
        disable_telemetry: false,
        local_llm: false,
        use_pii_removal: true,
        ignored_windows: vec![],
        included_windows: texts(&["a", "b"]),
        ui_monitoring: false,
        frame_cache: true,
        capture_unfocused_windows: false,
        auto_destruct_pid: None,
        deepgram_key_set: false,
        named_languages: 0,
        languages: vec![],
        monitors: vec![1],
        audio_devices: texts(&["mic (input)"]),
        realtime_audio_devices: vec![],
        pipes: vec![],
    }
}

fn line(name: &str, value: &str) -> String {
    format!("│ {:<22} │ {:<34} │", name, value)
}

/// The lines between the head of a section and the next edge.
fn section(lines: &[String], title: &str) -> Vec<String> {
    let head = lines.iter().position(|l| *l == line(title, "")).unwrap();
    assert_eq!(lines[head - 1], INNER_EDGE);
    lines[head + 1..]
        .iter()
        .take_while(|l| *l != INNER_EDGE && *l != BOTTOM_EDGE)
        .cloned()
        .collect()
}

#[test]
fn the_table_is_drawn_line_by_line() {
    let wanted = "\
┌────────────────────────┬────────────────────────────────────┐
│ setting                │ value                              │
├────────────────────────┼────────────────────────────────────┤
│ fps                    │ 1                                  │
│ audio chunk duration   │ 30 seconds                         │
│ video chunk duration   │ 60 seconds                         │
│ port                   │ 3030                               │
│ realtime audio enabled │ false                              │
│ audio disabled         │ false                              │
│ vision disabled        │ false                              │
│ audio engine           │ WhisperLargeV3Turbo                │
│ ocr engine             │ Tesseract                          │
│ vad engine             │ Silero                             │
│ vad sensitivity        │ High                               │
│ data directory         │ /home/user/.screenpipe             │
│ debug mode             │ false                              │
│ telemetry              │ true                               │
│ local llm              │ false                              │
│ use pii removal        │ true                               │
│ ignored windows        │ []                                 │
│ included windows       │ [\"a\", \"b\"]                         │
│ ui monitoring          │ false                              │
│ frame cache            │ true                               │
│ capture unfocused wins │ false                              │
│ auto-destruct pid      │ 0                                  │
│ deepgram key           │ not set                            │
├────────────────────────┼────────────────────────────────────┤
│ languages              │                                    │
│                        │ all languages                      │
├────────────────────────┼────────────────────────────────────┤
│ monitors               │                                    │
│                        │ id: 1                              │
├────────────────────────┼────────────────────────────────────┤
│ audio devices          │                                    │
│                        │ mic (input)                        │
├────────────────────────┼────────────────────────────────────┤
│ realtime audio devices │                                    │
│                        │ disabled                           │
├────────────────────────┼────────────────────────────────────┤
│ pipes                  │                                    │
│                        │ no pipes available                 │
└────────────────────────┴────────────────────────────────────┘";
    assert_eq!(settings_table(&settings()).join("\n"), wanted);
}

#[test]
fn rows_are_aligned() {
    for row in settings_table(&settings()) {
        assert_eq!(row.chars().count(), 63);
    }
    assert_eq!(TOP_EDGE.chars().count(), 63);
    assert_eq!(table_row("port", "3030"), line("port", "3030"));
}

#[test]
fn long_items_are_cut_and_stay_aligned() {
    let row = table_item("a device whose name is far too long for the column");
    assert_eq!(row, line("", "a device whose name is far too ..."));
    assert_eq!(row.chars().count(), 63);
    let row = table_item(&"日".repeat(20));
    assert_eq!(row, line("", &format!("{}...", "日".repeat(10))));
    assert_eq!(row.chars().count(), 63);
}

#[test]
fn a_long_list_of_windows_is_cut() {
    let mut s = settings();
    s.ignored_windows = texts(&["first window", "second window", "third window"]);
    let row = line("ignored windows", "[\"first window\", \"second window...");
    assert!(settings_table(&s).contains(&row));
}

#[test]
fn no_item_of_a_list_is_lost() {
    let five = texts(&["1", "2", "3", "4", "5"]);
    let mut lines = vec![];
    push_list(&mut lines, &five, five.len());
    assert_eq!(lines.len(), 5);
    assert_eq!(lines[4], line("", "5"));
    let seven = texts(&["1", "2", "3", "4", "5", "6", "7"]);
    let mut lines = vec![text("before")];
    push_list(&mut lines, &seven, seven.len());
    assert_eq!(lines.len(), 7);
    assert_eq!(lines[0], "before");
    assert_eq!(lines[5], line("", "5"));
    assert_eq!(lines[6], line("", "... and 2 more"));
}

#[test]
fn languages_are_counted_as_they_were_named() {
    let mut s = settings();
    s.named_languages = 6;
    s.languages = texts(&["english"]);
    assert_eq!(
        section(&settings_table(&s), "languages"),
        vec![line("", "id: english"), line("", "... and 1 more")]
    );
}

#[test]
fn monitors_may_be_missing_or_disabled() {
    let mut s = settings();
    s.monitors = vec![];
    assert_eq!(section(&settings_table(&s), "monitors"), vec![line("", "no monitors available")]);
    s.disable_vision = true;
    s.monitors = vec![1, 2];
    assert_eq!(section(&settings_table(&s), "monitors"), vec![line("", "vision disabled")]);
}

#[test]
fn many_monitors_are_counted() {
    let mut s = settings();
    s.monitors = vec![1, 2, 3, 4, 5, 6];
    let rows = section(&settings_table(&s), "monitors");
    assert_eq!(rows.len(), 6);
    assert_eq!(rows[0], line("", "id: 1"));
    assert_eq!(rows[5], line("", "... and 1 more"));
}

#[test]
fn audio_devices_may_be_missing_or_disabled() {
    let mut s = settings();
    s.audio_devices = vec![];
    s.realtime_audio = true;
    let lines = settings_table(&s);
    assert_eq!(section(&lines, "audio devices"), vec![line("", "no devices available")]);
    assert_eq!(section(&lines, "realtime audio devices"), vec![line("", "no devices available")]);
    s.disable_audio = true;
    let lines = settings_table(&s);
    assert_eq!(section(&lines, "audio devices"), vec![line("", "disabled")]);
    assert_eq!(section(&lines, "realtime audio devices"), vec![line("", "disabled")]);
}

#[test]
fn realtime_devices_are_shown_where_they_are_used() {
    let mut s = settings();
    s.realtime_audio = true;
    s.realtime_audio_devices = texts(&["mic (input)", "screen (output)"]);
    assert_eq!(
        section(&settings_table(&s), "realtime audio devices"),
        vec![line("", "mic (input)"), line("", "screen (output)")]
    );
}

#[test]
fn pipes_are_shown_with_their_state() {
    let mut s = settings();
    s.pipes = vec![
        PipeState { id: text("search"), enabled: true },
        PipeState { id: text("memories"), enabled: false },
    ];
    assert_eq!(
        section(&settings_table(&s), "pipes"),
        vec![line("", "(enabled) search"), line("", "(disabled) memories")]
    );
}

#[test]
fn keys_and_processes_are_shown() {
    let mut s = settings();
    s.deepgram_key_set = true;
    s.auto_destruct_pid = Some(4242);
    s.disable_telemetry = true;
    let lines = settings_table(&s);
    assert!(lines.contains(&line("deepgram key", "set (masked)")));
    assert!(lines.contains(&line("auto-destruct pid", "4242")));
    assert!(lines.contains(&line("telemetry", "false")));
}

#[test]
fn lists_of_windows_are_shown_as_std_shows_them() {
    for windows in [vec![], vec!["a"], vec!["a", "b\"", ""], vec!["é\n", "x", "y"]] {
        let shown: Vec<String> = windows.iter().map(|w| format!("{w:?}")).collect();
        assert_eq!(bracketed(&shown), format!("{windows:?}"));
        let mut s = settings();
        s.ignored_windows = texts(&windows);
        let row = line("ignored windows", &format!("{windows:?}"));
        assert!(settings_table(&s).contains(&row));
    }
}
