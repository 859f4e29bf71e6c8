//! The table of settings that the program starts with.

use crate::report;
use crate::text;
use vstd::prelude::*;
use vstd::string::*;

verus! {

/// The width of the column of names.
pub const NAME_WIDTH: usize = 22;

/// The width of the column of values.
pub const VALUE_WIDTH: usize = 34;

/// How many items of a list are shown.
pub const MAX_ITEMS_TO_DISPLAY: usize = 5;

/// Texts with a comma and a space between them.
pub open spec fn listed(items: Seq<Seq<char>>) -> Seq<char>
    decreases items.len(),
{
    if items.len() == 0 {
        Seq::empty()
    } else if items.len() == 1 {
        items[0]
    } else {
        listed(items.drop_last()) + ", "@ + items.last()
    }
}

/// A list of texts as shown to a developer: each as it is shown, in brackets.
pub open spec fn debug_list_text(items: Seq<Seq<char>>) -> Seq<char> {
    "["@ + listed(items.map_values(|i: Seq<char>| text::debug_text(i))) + "]"@
}

/// A list in brackets, given how each item is shown.
pub fn bracketed(shown: &Vec<String>) -> (r: String)
    ensures
        r@ == "["@ + listed(text::views(shown@)) + "]"@,
{
    let ghost all = text::views(shown@);
    let mut r = "[".to_owned();
    assert(r@ =~= "["@ + listed(all.take(0)));
    for i in 0..shown.len()
        invariant
            all == text::views(shown@),
            r@ == "["@ + listed(all.take(i as int)),
    {
        let ghost before = listed(all.take(i as int));
        if i > 0 {
            r.append(", ");
        }
        r.append(shown[i].as_str());
        proof {
            assert(all.take(i + 1).drop_last() =~= all.take(i as int));
            assert(all.take(i + 1).last() == shown@[i as int]@);
            assert(r@ =~= "["@ + listed(all.take(i + 1)));
        }
    }
    assert(all.take(all.len() as int) =~= all);
    r.append("]");
    r
}

/// The upper edge.
pub const TOP_EDGE: &'static str =
    "┌────────────────────────┬────────────────────────────────────┐";

/// The line between two sections.
pub const INNER_EDGE: &'static str =
    "├────────────────────────┼────────────────────────────────────┤";

/// The lower edge.
pub const BOTTOM_EDGE: &'static str =
    "└────────────────────────┴────────────────────────────────────┘";

/// A row of the table.
pub open spec fn row(name: Seq<char>, value: Seq<char>) -> Seq<char> {
    "│ "@ + text::padded(name, NAME_WIDTH as nat) + " │ "@ + text::padded(
        value,
        VALUE_WIDTH as nat,
    ) + " │"@
}

/// A row for an item of a list, cut where it is too long.
pub open spec fn item_row(item: Seq<char>) -> Seq<char> {
    row(""@, text::cell(item, VALUE_WIDTH as nat))
}

/// A row for the items that are not shown.
pub open spec fn more_row(hidden: nat) -> Seq<char> {
    row(""@, "... and "@ + text::decimal(hidden) + " more"@)
}

/// The rows of a list that counts `total` items: the first few items, and how
/// many more there are.
pub open spec fn list_rows(items: Seq<Seq<char>>, total: nat) -> Seq<Seq<char>> {
    let shown = if items.len() < MAX_ITEMS_TO_DISPLAY {
        items.len() as int
    } else {
        MAX_ITEMS_TO_DISPLAY as int
    };
    items.take(shown).map_values(|i: Seq<char>| item_row(i)) + (if total > MAX_ITEMS_TO_DISPLAY {
        seq![more_row((total - MAX_ITEMS_TO_DISPLAY) as nat)]
    } else {
        Seq::empty()
    })
}

/// The head of a section.
pub open spec fn head(title: Seq<char>) -> Seq<Seq<char>> {
    seq![INNER_EDGE@, row(title, ""@)]
}

fn push_row(to: &mut Vec<String>, line: String)
    ensures
        text::views(final(to)@) == text::views(old(to)@).push(line@),
{
    to.push(line);
    assert(text::views(to@) =~= text::views(old(to)@).push(line@));
}

/// A row of the table.
pub fn table_row(name: &str, value: &str) -> (r: String)
    ensures
        r@ == row(name@, value@),
{
    let mut r = report::joined3(
        "│ ",
        text::pad_right(name, NAME_WIDTH).as_str(),
        " │ ",
    );
    r.append(text::pad_right(value, VALUE_WIDTH).as_str());
    r.append(" │");
    r
}

/// A row for an item of a list.
pub fn table_item(item: &str) -> (r: String)
    ensures
        r@ == item_row(item@),
{
    table_row("", text::format_cell(item, VALUE_WIDTH).as_str())
}

/// Adds the rows of a list that counts `total` items.
pub fn push_list(to: &mut Vec<String>, items: &Vec<String>, total: usize)
    ensures
        text::views(final(to)@) == text::views(old(to)@) + list_rows(
            text::views(items@),
            total as nat,
        ),
{
    let ghost before = text::views(to@);
    let ghost rows = text::views(items@).map_values(|i: Seq<char>| item_row(i));
    let mut n: usize = 0;
    assert(before + rows.take(0) =~= before);
    while n < items.len() && n < MAX_ITEMS_TO_DISPLAY
        invariant
            n <= items@.len(),
            n <= MAX_ITEMS_TO_DISPLAY,
            rows == text::views(items@).map_values(|i: Seq<char>| item_row(i)),
            text::views(to@) == before + rows.take(n as int),
        decreases items@.len() - n,
    {
        push_row(to, table_item(items[n].as_str()));
        assert(rows.take(n + 1) =~= rows.take(n as int).push(rows[n as int]));
        assert(text::views(to@) =~= before + rows.take(n + 1));
        n = n + 1;
    }
    assert(rows.take(n as int) =~= text::views(items@).take(n as int).map_values(
        |i: Seq<char>| item_row(i),
    ));
    if total > MAX_ITEMS_TO_DISPLAY {
        let hidden: usize = total - MAX_ITEMS_TO_DISPLAY;
        let value = report::joined3(
            "... and ",
            text::decimal_text(hidden as u64).as_str(),
            " more",
        );
        push_row(to, table_row("", value.as_str()));
    }
    assert(text::views(to@) =~= before + list_rows(text::views(items@), total as nat));
}

/// What the table shows. Texts that are computed elsewhere are given as they
/// are shown.
#[derive(Debug, PartialEq, Eq)]
pub struct Settings {
    pub fps: String,
    pub audio_chunk_duration: u64,
    pub video_chunk_duration: u64,
    pub port: u16,
    pub realtime_audio: bool,
    pub disable_audio: bool,
    pub disable_vision: bool,
    pub audio_engine: String,
    pub ocr_engine: String,
    pub vad_engine: String,
    pub vad_sensitivity: String,
    pub data_directory: String,
    pub debug: bool,
    pub disable_telemetry: bool,
    pub local_llm: bool,
    pub use_pii_removal: bool,
    pub ignored_windows: Vec<String>,
    pub included_windows: Vec<String>,
    pub ui_monitoring: bool,
    pub frame_cache: bool,
    pub capture_unfocused_windows: bool,
    pub auto_destruct_pid: Option<u32>,
    pub deepgram_key_set: bool,
    /// How many languages the user named, repetitions counted.
    pub named_languages: usize,
    /// The languages, each once.
    pub languages: Vec<String>,
    pub monitors: Vec<u32>,
    pub audio_devices: Vec<String>,
    pub realtime_audio_devices: Vec<String>,
    pub pipes: Vec<PipeState>,
}

/// A pipe's name, and whether it is enabled.
#[derive(Debug, PartialEq, Eq)]
pub struct PipeState {
    pub id: String,
    pub enabled: bool,
}

/// A truth value as shown.
pub open spec fn truth(b: bool) -> Seq<char> {
    if b {
        "true"@
    } else {
        "false"@
    }
}

/// A duration as shown.
pub open spec fn seconds(n: u64) -> Seq<char> {
    text::decimal(n as nat) + " seconds"@
}

/// The rows on what is captured.
pub open spec fn capture_rows(s: Settings) -> Seq<Seq<char>> {
    seq![
        row("fps"@, s.fps@),
        row("audio chunk duration"@, seconds(s.audio_chunk_duration)),
        row("video chunk duration"@, seconds(s.video_chunk_duration)),
        row("port"@, text::decimal(s.port as nat)),
        row("realtime audio enabled"@, truth(s.realtime_audio)),
        row("audio disabled"@, truth(s.disable_audio)),
        row("vision disabled"@, truth(s.disable_vision)),
    ]
}

/// The rows on the engines, and on where the data goes.
pub open spec fn engine_rows(s: Settings) -> Seq<Seq<char>> {
    seq![
        row("audio engine"@, s.audio_engine@),
        row("ocr engine"@, s.ocr_engine@),
        row("vad engine"@, s.vad_engine@),
        row("vad sensitivity"@, s.vad_sensitivity@),
        row("data directory"@, s.data_directory@),
    ]
}

/// The rows on debugging and privacy.
pub open spec fn privacy_rows(s: Settings) -> Seq<Seq<char>> {
    seq![
        row("debug mode"@, truth(s.debug)),
        row("telemetry"@, truth(!s.disable_telemetry)),
        row("local llm"@, truth(s.local_llm)),
        row("use pii removal"@, truth(s.use_pii_removal)),
        row("ignored windows"@, windows_cell(s.ignored_windows@)),
        row("included windows"@, windows_cell(s.included_windows@)),
    ]
}

/// The rows on what else runs.
pub open spec fn feature_rows(s: Settings) -> Seq<Seq<char>> {
    seq![
        row("ui monitoring"@, truth(s.ui_monitoring)),
        row("frame cache"@, truth(s.frame_cache)),
        row("capture unfocused wins"@, truth(s.capture_unfocused_windows)),
        row("auto-destruct pid"@, text::decimal(pid_or_zero(s.auto_destruct_pid))),
        row(
            "deepgram key"@,
            if s.deepgram_key_set {
                "set (masked)"@
            } else {
                "not set"@
            },
        ),
    ]
}

/// The rows of single settings.
pub open spec fn setting_rows(s: Settings) -> Seq<Seq<char>> {
    capture_rows(s) + engine_rows(s) + privacy_rows(s) + feature_rows(s)
}

/// A list of windows as shown.
pub open spec fn windows_cell(windows: Seq<String>) -> Seq<char> {
    text::cell(debug_list_text(text::views(windows)), VALUE_WIDTH as nat)
}

/// The process that is watched, or zero.
pub open spec fn pid_or_zero(pid: Option<u32>) -> nat {
    match pid {
        Some(n) => n as nat,
        None => 0,
    }
}

/// Texts with `id: ` before each.
pub open spec fn with_id(items: Seq<Seq<char>>) -> Seq<Seq<char>> {
    items.map_values(|i: Seq<char>| "id: "@ + i)
}

/// The rows for the languages.
pub open spec fn language_rows(s: Settings) -> Seq<Seq<char>> {
    head("languages"@) + (if s.named_languages == 0 {
        seq![row(""@, "all languages"@)]
    } else {
        list_rows(with_id(text::views(s.languages@)), s.named_languages as nat)
    })
}

/// The identifiers of monitors as shown.
pub open spec fn numbers(items: Seq<u32>) -> Seq<Seq<char>> {
    items.map_values(|n: u32| text::decimal(n as nat))
}

/// The rows for the monitors.
pub open spec fn monitor_rows(s: Settings) -> Seq<Seq<char>> {
    head("monitors"@) + (if s.disable_vision {
        seq![row(""@, "vision disabled"@)]
    } else if s.monitors@.len() == 0 {
        seq![row(""@, "no monitors available"@)]
    } else {
        list_rows(with_id(numbers(s.monitors@)), s.monitors@.len())
    })
}

/// The rows for audio devices.
pub open spec fn device_rows(disabled: bool, devices: Seq<String>) -> Seq<Seq<char>> {
    if disabled {
        seq![row(""@, "disabled"@)]
    } else if devices.len() == 0 {
        seq![row(""@, "no devices available"@)]
    } else {
        list_rows(text::views(devices), devices.len())
    }
}

/// A pipe as shown.
pub open spec fn pipe_text(pipe: PipeState) -> Seq<char> {
    "("@ + (if pipe.enabled {
        "enabled"@
    } else {
        "disabled"@
    }) + ") "@ + pipe.id@
}

/// Pipes as shown.
pub open spec fn pipe_texts(pipes: Seq<PipeState>) -> Seq<Seq<char>> {
    pipes.map_values(|p: PipeState| pipe_text(p))
}

/// The rows for the pipes.
pub open spec fn pipe_rows(s: Settings) -> Seq<Seq<char>> {
    head("pipes"@) + (if s.pipes@.len() == 0 {
        seq![row(""@, "no pipes available"@)]
    } else {
        list_rows(pipe_texts(s.pipes@), s.pipes@.len())
    })
}

/// The whole table, line by line.
pub open spec fn table(s: Settings) -> Seq<Seq<char>> {
    seq![TOP_EDGE@, row("setting"@, "value"@), INNER_EDGE@] + setting_rows(s) + language_rows(s)
        + monitor_rows(s) + head("audio devices"@) + device_rows(
        s.disable_audio,
        s.audio_devices@,
    ) + head("realtime audio devices"@) + device_rows(
        s.disable_audio || !s.realtime_audio,
        s.realtime_audio_devices@,
    ) + pipe_rows(s) + seq![BOTTOM_EDGE@]
}

fn truth_text(b: bool) -> (r: &'static str)
    ensures
        r@ == truth(b),
{
    if b {
        "true"
    } else {
        "false"
    }
}

fn seconds_text(n: u64) -> (r: String)
    ensures
        r@ == seconds(n),
{
    report::joined(text::decimal_text(n).as_str(), " seconds")
}

fn windows_text(windows: &Vec<String>) -> (r: String)
    ensures
        r@ == windows_cell(windows@),
{
    let ghost wanted = text::views(windows@).map_values(|i: Seq<char>| text::debug_text(i));
    let mut shown: Vec<String> = Vec::new();
    for i in 0..windows.len()
        invariant
            wanted == text::views(windows@).map_values(|i: Seq<char>| text::debug_text(i)),
            text::views(shown@) == wanted.take(i as int),
    {
        push_row(&mut shown, text::debug_str(windows[i].as_str()));
        assert(text::views(shown@) =~= wanted.take(i + 1));
    }
    assert(wanted.take(windows@.len() as int) =~= wanted);
    text::format_cell(bracketed(&shown).as_str(), VALUE_WIDTH)
}

/// Adds the rows on what is captured.
fn push_capture(to: &mut Vec<String>, s: &Settings)
    ensures
        text::views(final(to)@) == text::views(old(to)@) + capture_rows(*s),
{
    push_row(to, table_row("fps", s.fps.as_str()));
    push_row(to, table_row("audio chunk duration", seconds_text(s.audio_chunk_duration).as_str()));
    push_row(to, table_row("video chunk duration", seconds_text(s.video_chunk_duration).as_str()));
    push_row(to, table_row("port", text::decimal_text(s.port as u64).as_str()));
    push_row(to, table_row("realtime audio enabled", truth_text(s.realtime_audio)));
    push_row(to, table_row("audio disabled", truth_text(s.disable_audio)));
    push_row(to, table_row("vision disabled", truth_text(s.disable_vision)));
    assert(text::views(to@) =~= text::views(old(to)@) + capture_rows(*s));
}

/// Adds the rows on the engines, and on where the data goes.
fn push_engines(to: &mut Vec<String>, s: &Settings)
    ensures
        text::views(final(to)@) == text::views(old(to)@) + engine_rows(*s),
{
    push_row(to, table_row("audio engine", s.audio_engine.as_str()));
    push_row(to, table_row("ocr engine", s.ocr_engine.as_str()));
    push_row(to, table_row("vad engine", s.vad_engine.as_str()));
    push_row(to, table_row("vad sensitivity", s.vad_sensitivity.as_str()));
    push_row(to, table_row("data directory", s.data_directory.as_str()));
    assert(text::views(to@) =~= text::views(old(to)@) + engine_rows(*s));
}

/// Adds the rows on debugging and privacy.
fn push_privacy(to: &mut Vec<String>, s: &Settings)
    ensures
        text::views(final(to)@) == text::views(old(to)@) + privacy_rows(*s),
{
    push_row(to, table_row("debug mode", truth_text(s.debug)));
    push_row(to, table_row("telemetry", truth_text(!s.disable_telemetry)));
    push_row(to, table_row("local llm", truth_text(s.local_llm)));
    push_row(to, table_row("use pii removal", truth_text(s.use_pii_removal)));
    push_row(to, table_row("ignored windows", windows_text(&s.ignored_windows).as_str()));
    push_row(to, table_row("included windows", windows_text(&s.included_windows).as_str()));
    assert(text::views(to@) =~= text::views(old(to)@) + privacy_rows(*s));
}

/// Adds the rows on what else runs.
fn push_features(to: &mut Vec<String>, s: &Settings)
    ensures
        text::views(final(to)@) == text::views(old(to)@) + feature_rows(*s),
{
    let pid: u32 = match s.auto_destruct_pid {
        Some(n) => n,
        None => 0,
    };
    let key = if s.deepgram_key_set {
        "set (masked)"
    } else {
        "not set"
    };
    push_row(to, table_row("ui monitoring", truth_text(s.ui_monitoring)));
    push_row(to, table_row("frame cache", truth_text(s.frame_cache)));
    push_row(to, table_row("capture unfocused wins", truth_text(s.capture_unfocused_windows)));
    push_row(to, table_row("auto-destruct pid", text::decimal_text(pid as u64).as_str()));
    push_row(to, table_row("deepgram key", key));
    assert(text::views(to@) =~= text::views(old(to)@) + feature_rows(*s));
}

/// Adds the rows of single settings.
fn push_settings(to: &mut Vec<String>, s: &Settings)
    ensures
        text::views(final(to)@) == text::views(old(to)@) + setting_rows(*s),
{
    push_capture(to, s);
    push_engines(to, s);
    push_privacy(to, s);
    push_features(to, s);
    assert(text::views(to@) =~= text::views(old(to)@) + setting_rows(*s));
}

fn push_head(to: &mut Vec<String>, title: &str)
    ensures
        text::views(final(to)@) == text::views(old(to)@) + head(title@),
{
    push_row(to, INNER_EDGE.to_owned());
    push_row(to, table_row(title, ""));
    assert(text::views(to@) =~= text::views(old(to)@) + head(title@));
}

fn push_only(to: &mut Vec<String>, value: &str)
    ensures
        text::views(final(to)@) == text::views(old(to)@) + seq![row(""@, value@)],
{
    push_row(to, table_row("", value));
    assert(text::views(to@) =~= text::views(old(to)@) + seq![row(""@, value@)]);
}

/// Adds the rows for the languages.
fn push_languages(to: &mut Vec<String>, s: &Settings)
    ensures
        text::views(final(to)@) == text::views(old(to)@) + language_rows(*s),
{
    push_head(to, "languages");
    if s.named_languages == 0 {
        push_only(to, "all languages");
    } else {
        let mut items: Vec<String> = Vec::new();
        let ghost wanted = with_id(text::views(s.languages@));
        for i in 0..s.languages.len()
            invariant
                wanted == with_id(text::views(s.languages@)),
                text::views(items@) == wanted.take(i as int),
        {
            push_row(&mut items, report::joined("id: ", s.languages[i].as_str()));
            assert(text::views(items@) =~= wanted.take(i + 1));
        }
        assert(wanted.take(s.languages@.len() as int) =~= wanted);
        push_list(to, &items, s.named_languages);
    }
    assert(text::views(to@) =~= text::views(old(to)@) + language_rows(*s));
}

/// Adds the rows for the monitors.
fn push_monitors(to: &mut Vec<String>, s: &Settings)
    ensures
        text::views(final(to)@) == text::views(old(to)@) + monitor_rows(*s),
{
    push_head(to, "monitors");
    if s.disable_vision {
        push_only(to, "vision disabled");
    } else if s.monitors.len() == 0 {
        push_only(to, "no monitors available");
    } else {
        let mut items: Vec<String> = Vec::new();
        let ghost wanted = with_id(numbers(s.monitors@));
        for i in 0..s.monitors.len()
            invariant
                wanted == with_id(numbers(s.monitors@)),
                text::views(items@) == wanted.take(i as int),
        {
            let number = text::decimal_text(s.monitors[i] as u64);
            push_row(&mut items, report::joined("id: ", number.as_str()));
            assert(text::views(items@) =~= wanted.take(i + 1));
        }
        assert(wanted.take(s.monitors@.len() as int) =~= wanted);
        push_list(to, &items, s.monitors.len());
    }
    assert(text::views(to@) =~= text::views(old(to)@) + monitor_rows(*s));
}

/// Adds the rows for audio devices.
fn push_devices(to: &mut Vec<String>, disabled: bool, devices: &Vec<String>)
    ensures
        text::views(final(to)@) == text::views(old(to)@) + device_rows(disabled, devices@),
{
    if disabled {
        push_only(to, "disabled");
    } else if devices.len() == 0 {
        push_only(to, "no devices available");
    } else {
        push_list(to, devices, devices.len());
    }
}

/// Adds the rows for the pipes.
fn push_pipes(to: &mut Vec<String>, s: &Settings)
    ensures
        text::views(final(to)@) == text::views(old(to)@) + pipe_rows(*s),
{
    push_head(to, "pipes");
    if s.pipes.len() == 0 {
        push_only(to, "no pipes available");
    } else {
        let mut items: Vec<String> = Vec::new();
        let ghost wanted = pipe_texts(s.pipes@);
        for i in 0..s.pipes.len()
            invariant
                wanted == pipe_texts(s.pipes@),
                text::views(items@) == wanted.take(i as int),
        {
            let state = if s.pipes[i].enabled {
                "enabled"
            } else {
                "disabled"
            };
            let mut item = report::joined3("(", state, ") ");
            item.append(s.pipes[i].id.as_str());
            push_row(&mut items, item);
            assert(text::views(items@) =~= wanted.take(i + 1));
        }
        assert(wanted.take(s.pipes@.len() as int) =~= wanted);
        push_list(to, &items, s.pipes.len());
    }
    assert(text::views(to@) =~= text::views(old(to)@) + pipe_rows(*s));
}

/// The table of settings, line by line.
pub fn settings_table(s: &Settings) -> (r: Vec<String>)
    ensures
        text::views(r@) == table(*s),
{
    let mut r: Vec<String> = Vec::new();
    push_row(&mut r, TOP_EDGE.to_owned());
    push_row(&mut r, table_row("setting", "value"));
    push_row(&mut r, INNER_EDGE.to_owned());
    assert(text::views(r@) =~= seq![TOP_EDGE@, row("setting"@, "value"@), INNER_EDGE@]);
    push_settings(&mut r, s);
    push_languages(&mut r, s);
    push_monitors(&mut r, s);
    push_head(&mut r, "audio devices");
    push_devices(&mut r, s.disable_audio, &s.audio_devices);
    push_head(&mut r, "realtime audio devices");
    push_devices(&mut r, s.disable_audio || !s.realtime_audio, &s.realtime_audio_devices);
    push_pipes(&mut r, s);
    let ghost before = text::views(r@);
    push_row(&mut r, BOTTOM_EDGE.to_owned());
    assert(text::views(r@) =~= before + seq![BOTTOM_EDGE@]);
    r
}

/// The width of the table.
pub open spec fn table_width() -> nat {
    (NAME_WIDTH + VALUE_WIDTH + 7) as nat
}

/// A row is exactly as wide as the table where its name and its value fit
/// their columns, and the edges always are.
pub proof fn law_rows_are_aligned(name: Seq<char>, value: Seq<char>)
    ensures
        name.len() <= NAME_WIDTH && value.len() <= VALUE_WIDTH ==> row(name, value).len()
            == table_width(),
        TOP_EDGE@.len() == table_width(),
        INNER_EDGE@.len() == table_width(),
        BOTTOM_EDGE@.len() == table_width(),
{
    reveal_strlit("│ ");
    reveal_strlit(" │ ");
    reveal_strlit(" │");
    reveal_strlit("┌────────────────────────┬────────────────────────────────────┐");
    reveal_strlit("├────────────────────────┼────────────────────────────────────┤");
    reveal_strlit("└────────────────────────┴────────────────────────────────────┘");
}

/// Ten to the power of `k`.
spec fn ten_to(k: nat) -> nat
    decreases k,
{
    if k == 0 {
        1
    } else {
        10 * ten_to((k - 1) as nat)
    }
}

proof fn lemma_decimal_len(n: nat, k: nat)
    requires
        n < ten_to(k),
        k > 0,
    ensures
        text::decimal(n).len() <= k,
    decreases k,
{
    if n >= 10 {
        lemma_decimal_len(n / 10, (k - 1) as nat);
    }
}

/// Every row of a list is exactly as wide as the table, however long the items
/// are, and whatever characters they hold.
pub proof fn law_list_rows_are_aligned(items: Seq<Seq<char>>, total: usize, i: int)
    requires
        0 <= i < list_rows(items, total as nat).len(),
    ensures
        list_rows(items, total as nat)[i].len() == table_width(),
{
    reveal_strlit("");
    reveal_strlit("... and ");
    reveal_strlit(" more");
    if i < items.len() && i < MAX_ITEMS_TO_DISPLAY {
        text::law_a_cell_fits(items[i], VALUE_WIDTH as nat);
        law_rows_are_aligned(""@, text::cell(items[i], VALUE_WIDTH as nat));
    } else {
        let hidden = (total - MAX_ITEMS_TO_DISPLAY) as nat;
        assert(hidden < ten_to(20)) by {
            reveal_with_fuel(ten_to, 21);
        }
        lemma_decimal_len(hidden, 20);
        law_rows_are_aligned(""@, "... and "@ + text::decimal(hidden) + " more"@);
    }
}

/// A list shows its first items, and says how many it does not show: the two
/// together are all that it counts.
pub proof fn law_no_item_is_lost(items: Seq<Seq<char>>)
    ensures
        items.len() <= MAX_ITEMS_TO_DISPLAY ==> list_rows(items, items.len()) == items.map_values(
            |i: Seq<char>| item_row(i),
        ),
        items.len() > MAX_ITEMS_TO_DISPLAY ==> list_rows(items, items.len()) == items.take(
            MAX_ITEMS_TO_DISPLAY as int,
        ).map_values(|i: Seq<char>| item_row(i)).push(
            more_row((items.len() - MAX_ITEMS_TO_DISPLAY) as nat),
        ),
{
    if items.len() <= MAX_ITEMS_TO_DISPLAY {
        assert(list_rows(items, items.len()) =~= items.map_values(|i: Seq<char>| item_row(i)));
    } else {
        assert(list_rows(items, items.len()) =~= items.take(
            MAX_ITEMS_TO_DISPLAY as int,
        ).map_values(|i: Seq<char>| item_row(i)).push(
            more_row((items.len() - MAX_ITEMS_TO_DISPLAY) as nat),
        ));
    }
}

} // verus!
