//! What the table of settings shows, read off its columns.

use crate::table;
use crate::table::PipeState;
use crate::table::Settings;
use crate::text;
use crate::text_laws;
use vstd::prelude::*;

verus! {

/// Whether the characters from the one to the other are spaces.
pub open spec fn blank(line: Seq<char>, from: int, to: int) -> bool {
    forall|i: int| from <= i < to ==> #[trigger] line[i] == ' '
}

/// Whether a line of the table shows the name in the column of names and the
/// value in that of values, and nothing else.
#[verifier::opaque]
pub open spec fn shows(line: Seq<char>, name: Seq<char>, value: Seq<char>) -> bool {
    &&& line.len() == 29 + (if value.len() > 34 {
        value.len()
    } else {
        34
    })
    &&& blank(line, 1, 2)
    &&& text_laws::stands_at(line, 2, name)
    &&& blank(line, 2 + name.len() as int, 25)
    &&& blank(line, 26, 27)
    &&& text_laws::stands_at(line, 27, value)
    &&& blank(line, 27 + value.len() as int, line.len() - 1)
    &&& line[0] == '│' && line[25] == '│' && line.last() == '│'
}

/// Whether a line shows that the setting is on, or that it is off.
#[verifier::opaque]
pub open spec fn shows_flag(line: Seq<char>, name: Seq<char>, flag: bool) -> bool {
    shows(
        line,
        name,
        if flag {
            seq!['t', 'r', 'u', 'e']
        } else {
            seq!['f', 'a', 'l', 's', 'e']
        },
    )
}

/// Whether a line shows the number, with the words behind it.
#[verifier::opaque]
pub open spec fn shows_number(line: Seq<char>, name: Seq<char>, n: nat, words: Seq<char>) -> bool {
    exists|digits: Seq<char>|
        #![trigger text_laws::reading(digits)]
        {
            &&& text_laws::is_number(digits)
            &&& text_laws::reading(digits) == n
            &&& shows(line, name, digits + words)
        }
}

proof fn lemma_row_shows(name: Seq<char>, value: Seq<char>)
    requires
        name.len() <= 22,
    ensures
        shows(table::row(name, value), name, value),
{
    reveal(shows);
    reveal_strlit("│ ");
    reveal_strlit(" │ ");
    reveal_strlit(" │");
    let line = table::row(name, value);
    assert(line.subrange(2, 2 + name.len() as int) =~= name);
    assert(line.subrange(27, 27 + value.len() as int) =~= value);
}

proof fn lemma_row_shows_flag(name: Seq<char>, flag: bool)
    requires
        name.len() <= 22,
    ensures
        shows_flag(table::row(name, table::truth(flag)), name, flag),
{
    reveal(shows_flag);
    reveal_strlit("true");
    reveal_strlit("false");
    assert("true"@ =~= seq!['t', 'r', 'u', 'e']);
    assert("false"@ =~= seq!['f', 'a', 'l', 's', 'e']);
    lemma_row_shows(name, table::truth(flag));
}

proof fn lemma_row_shows_number(name: Seq<char>, n: nat, words: Seq<char>)
    requires
        name.len() <= 22,
    ensures
        shows_number(table::row(name, text::decimal(n) + words), name, n, words),
{
    reveal(shows_number);
    let digits = text::decimal(n);
    text_laws::law_a_decimal_reads_back(n);
    lemma_row_shows(name, digits + words);
    assert(text_laws::reading(digits) == n);
}

/// Whether the lines from that one on are the rows on what is captured, each
/// with its own setting.
pub open spec fn shows_capture(t: Seq<Seq<char>>, at: int, s: Settings) -> bool {
    &&& shows(t[at], "fps"@, s.fps@)
    &&& shows_number(
        t[at + 1],
        "audio chunk duration"@,
        s.audio_chunk_duration as nat,
        " seconds"@,
    )
    &&& shows_number(
        t[at + 2],
        "video chunk duration"@,
        s.video_chunk_duration as nat,
        " seconds"@,
    )
    &&& shows_number(t[at + 3], "port"@, s.port as nat, Seq::empty())
    &&& shows_flag(t[at + 4], "realtime audio enabled"@, s.realtime_audio)
    &&& shows_flag(t[at + 5], "audio disabled"@, s.disable_audio)
    &&& shows_flag(t[at + 6], "vision disabled"@, s.disable_vision)
}

proof fn lemma_capture(s: Settings)
    ensures
        table::capture_rows(s).len() == 7,
        shows_capture(table::capture_rows(s), 0, s),
{
    reveal_strlit("fps");
    reveal_strlit("audio chunk duration");
    reveal_strlit("video chunk duration");
    reveal_strlit("port");
    reveal_strlit("realtime audio enabled");
    reveal_strlit("audio disabled");
    reveal_strlit("vision disabled");
    let none = Seq::<char>::empty();
    lemma_row_shows("fps"@, s.fps@);
    lemma_row_shows_number("audio chunk duration"@, s.audio_chunk_duration as nat, " seconds"@);
    lemma_row_shows_number("video chunk duration"@, s.video_chunk_duration as nat, " seconds"@);
    lemma_row_shows_number("port"@, s.port as nat, none);
    assert(text::decimal(s.port as nat) + none =~= text::decimal(s.port as nat));
    lemma_row_shows_flag("realtime audio enabled"@, s.realtime_audio);
    lemma_row_shows_flag("audio disabled"@, s.disable_audio);
    lemma_row_shows_flag("vision disabled"@, s.disable_vision);
}

/// Whether the lines from that one on are the rows on the engines, and on where the data goes, each
/// with its own setting.
pub open spec fn shows_engine(t: Seq<Seq<char>>, at: int, s: Settings) -> bool {
    &&& shows(t[at], "audio engine"@, s.audio_engine@)
    &&& shows(t[at + 1], "ocr engine"@, s.ocr_engine@)
    &&& shows(t[at + 2], "vad engine"@, s.vad_engine@)
    &&& shows(t[at + 3], "vad sensitivity"@, s.vad_sensitivity@)
    &&& shows(t[at + 4], "data directory"@, s.data_directory@)
}

proof fn lemma_engine(s: Settings)
    ensures
        table::engine_rows(s).len() == 5,
        shows_engine(table::engine_rows(s), 0, s),
{
    reveal_strlit("audio engine");
    reveal_strlit("ocr engine");
    reveal_strlit("vad engine");
    reveal_strlit("vad sensitivity");
    reveal_strlit("data directory");
    lemma_row_shows("audio engine"@, s.audio_engine@);
    lemma_row_shows("ocr engine"@, s.ocr_engine@);
    lemma_row_shows("vad engine"@, s.vad_engine@);
    lemma_row_shows("vad sensitivity"@, s.vad_sensitivity@);
    lemma_row_shows("data directory"@, s.data_directory@);
}

/// Whether the lines from that one on are the rows on debugging and privacy, each
/// with its own setting; telemetry is
/// on exactly where it is not disabled.
pub open spec fn shows_privacy(t: Seq<Seq<char>>, at: int, s: Settings) -> bool {
    let ignored = table::debug_list_text(text::views(s.ignored_windows@));
    let included = table::debug_list_text(text::views(s.included_windows@));
    &&& shows_flag(t[at], "debug mode"@, s.debug)
    &&& shows_flag(t[at + 1], "telemetry"@, !s.disable_telemetry)
    &&& shows_flag(t[at + 2], "local llm"@, s.local_llm)
    &&& shows_flag(t[at + 3], "use pii removal"@, s.use_pii_removal)
    &&& shows(t[at + 4], "ignored windows"@, text::cell(ignored, 34))
    &&& shows(t[at + 5], "included windows"@, text::cell(included, 34))
}

proof fn lemma_privacy(s: Settings)
    ensures
        table::privacy_rows(s).len() == 6,
        shows_privacy(table::privacy_rows(s), 0, s),
{
    reveal_strlit("debug mode");
    reveal_strlit("telemetry");
    reveal_strlit("local llm");
    reveal_strlit("use pii removal");
    reveal_strlit("ignored windows");
    reveal_strlit("included windows");
    let ignored = table::debug_list_text(text::views(s.ignored_windows@));
    let included = table::debug_list_text(text::views(s.included_windows@));
    lemma_row_shows_flag("debug mode"@, s.debug);
    lemma_row_shows_flag("telemetry"@, !s.disable_telemetry);
    lemma_row_shows_flag("local llm"@, s.local_llm);
    lemma_row_shows_flag("use pii removal"@, s.use_pii_removal);
    lemma_row_shows("ignored windows"@, text::cell(ignored, 34));
    lemma_row_shows("included windows"@, text::cell(included, 34));
}

/// Whether the lines from that one on are the rows on what else runs, each
/// with its own setting; of the key, only whether there is one.
pub open spec fn shows_feature(t: Seq<Seq<char>>, at: int, s: Settings) -> bool {
    &&& shows_flag(t[at], "ui monitoring"@, s.ui_monitoring)
    &&& shows_flag(t[at + 1], "frame cache"@, s.frame_cache)
    &&& shows_flag(t[at + 2], "capture unfocused wins"@, s.capture_unfocused_windows)
    &&& shows_number(
        t[at + 3],
        "auto-destruct pid"@,
        if s.auto_destruct_pid is Some {
            s.auto_destruct_pid->0 as nat
        } else {
            0
        },
        Seq::empty(),
    )
    &&& shows(
        t[at + 4],
        "deepgram key"@,
        if s.deepgram_key_set {
            "set (masked)"@
        } else {
            "not set"@
        },
    )
}

proof fn lemma_feature(s: Settings)
    ensures
        table::feature_rows(s).len() == 5,
        shows_feature(table::feature_rows(s), 0, s),
{
    reveal_strlit("ui monitoring");
    reveal_strlit("frame cache");
    reveal_strlit("capture unfocused wins");
    reveal_strlit("auto-destruct pid");
    reveal_strlit("deepgram key");
    let none = Seq::<char>::empty();
    let pid = if s.auto_destruct_pid is Some {
        s.auto_destruct_pid->0 as nat
    } else {
        0
    };
    let key = if s.deepgram_key_set {
        "set (masked)"@
    } else {
        "not set"@
    };
    lemma_row_shows_flag("ui monitoring"@, s.ui_monitoring);
    lemma_row_shows_flag("frame cache"@, s.frame_cache);
    lemma_row_shows_flag("capture unfocused wins"@, s.capture_unfocused_windows);
    lemma_row_shows_number("auto-destruct pid"@, pid, none);
    assert(text::decimal(pid) + none =~= text::decimal(pid));
    lemma_row_shows("deepgram key"@, key);
}

/// Parts, one after the other.
spec fn joined(
    top: Seq<Seq<char>>,
    settings: Seq<Seq<char>>,
    languages: Seq<Seq<char>>,
    monitors: Seq<Seq<char>>,
    devices: Seq<Seq<char>>,
    realtime: Seq<Seq<char>>,
    pipes: Seq<Seq<char>>,
    end: Seq<Seq<char>>,
) -> Seq<Seq<char>> {
    top + settings + languages + monitors + devices + realtime + pipes + end
}

proof fn lemma_front(a: Seq<Seq<char>>, b: Seq<Seq<char>>, from: int, to: int)
    requires
        0 <= from <= to <= a.len(),
    ensures
        (a + b).subrange(from, to) == a.subrange(from, to),
        (a + b).subrange(a.len() as int, (a + b).len() as int) == b,
{
    assert((a + b).subrange(from, to) =~= a.subrange(from, to));
    assert((a + b).subrange(a.len() as int, (a + b).len() as int) =~= b);
}

proof fn lemma_joined(
    top: Seq<Seq<char>>,
    settings: Seq<Seq<char>>,
    languages: Seq<Seq<char>>,
    monitors: Seq<Seq<char>>,
    devices: Seq<Seq<char>>,
    realtime: Seq<Seq<char>>,
    pipes: Seq<Seq<char>>,
    end: Seq<Seq<char>>,
)
    ensures
        ({
            let t = joined(top, settings, languages, monitors, devices, realtime, pipes, end);
            let o = top.len() as int;
            let n = o + settings.len();
            let a = n + languages.len();
            let b = a + monitors.len();
            let c = b + devices.len();
            let d = c + realtime.len();
            let e = d + pipes.len();
            &&& t.len() == e + end.len()
            &&& t.subrange(0, o) == top
            &&& t.subrange(o, n) == settings
            &&& t.subrange(n, a) == languages
            &&& t.subrange(a, b) == monitors
            &&& t.subrange(b, c) == devices
            &&& t.subrange(c, d) == realtime
            &&& t.subrange(d, e) == pipes
            &&& t.subrange(e, t.len() as int) == end
        }),
{
    let x1 = top + settings;
    let x2 = x1 + languages;
    let x3 = x2 + monitors;
    let x4 = x3 + devices;
    let x5 = x4 + realtime;
    let x6 = x5 + pipes;
    let o = top.len() as int;
    let n = x1.len() as int;
    let a = x2.len() as int;
    let b = x3.len() as int;
    let c = x4.len() as int;
    let d = x5.len() as int;
    let e = x6.len() as int;
    assert(top.subrange(0, o) =~= top);
    lemma_front(top, settings, 0, o);
    lemma_front(x1, languages, 0, o);
    lemma_front(x1, languages, o, n);
    lemma_front(x2, monitors, 0, o);
    lemma_front(x2, monitors, o, n);
    lemma_front(x2, monitors, n, a);
    lemma_front(x3, devices, 0, o);
    lemma_front(x3, devices, o, n);
    lemma_front(x3, devices, n, a);
    lemma_front(x3, devices, a, b);
    lemma_front(x4, realtime, 0, o);
    lemma_front(x4, realtime, o, n);
    lemma_front(x4, realtime, n, a);
    lemma_front(x4, realtime, a, b);
    lemma_front(x4, realtime, b, c);
    lemma_front(x5, pipes, 0, o);
    lemma_front(x5, pipes, o, n);
    lemma_front(x5, pipes, n, a);
    lemma_front(x5, pipes, a, b);
    lemma_front(x5, pipes, b, c);
    lemma_front(x5, pipes, c, d);
    lemma_front(x6, end, 0, o);
    lemma_front(x6, end, o, n);
    lemma_front(x6, end, n, a);
    lemma_front(x6, end, a, b);
    lemma_front(x6, end, b, c);
    lemma_front(x6, end, c, d);
    lemma_front(x6, end, d, e);
}

/// The rows for audio devices, and their head.
spec fn headed_devices(s: Settings) -> Seq<Seq<char>> {
    table::head("audio devices"@) + table::device_rows(s.disable_audio, s.audio_devices@)
}

/// The rows for the devices for realtime transcription, and their head.
spec fn headed_realtime(s: Settings) -> Seq<Seq<char>> {
    table::head("realtime audio devices"@) + table::device_rows(
        s.disable_audio || !s.realtime_audio,
        s.realtime_audio_devices@,
    )
}

spec fn top() -> Seq<Seq<char>> {
    seq![table::TOP_EDGE@, table::row("setting"@, "value"@), table::INNER_EDGE@]
}

proof fn lemma_table_is_joined(s: Settings)
    ensures
        table::table(s) == joined(
            top(),
            table::setting_rows(s),
            table::language_rows(s),
            table::monitor_rows(s),
            headed_devices(s),
            headed_realtime(s),
            table::pipe_rows(s),
            seq![table::BOTTOM_EDGE@],
        ),
{
    lemma_regroup(
        top() + table::setting_rows(s) + table::language_rows(s) + table::monitor_rows(s),
        table::head("audio devices"@),
        table::device_rows(s.disable_audio, s.audio_devices@),
    );
    lemma_regroup(
        top() + table::setting_rows(s) + table::language_rows(s) + table::monitor_rows(s)
            + headed_devices(s),
        table::head("realtime audio devices"@),
        table::device_rows(s.disable_audio || !s.realtime_audio, s.realtime_audio_devices@),
    );
}

proof fn lemma_regroup(a: Seq<Seq<char>>, b: Seq<Seq<char>>, c: Seq<Seq<char>>)
    ensures
        a + b + c == a + (b + c),
{
    assert(a + b + c =~= a + (b + c));
}

/// The single settings stand in the rows after the head of the table, each in
/// its own row.
#[verifier::rlimit(40)]
pub proof fn law_each_row_shows_its_own_setting(s: Settings)
    ensures
        shows_capture(table::table(s), 3, s),
        shows_engine(table::table(s), 10, s),
        shows_privacy(table::table(s), 15, s),
        shows_feature(table::table(s), 21, s),
{
    lemma_capture(s);
    lemma_engine(s);
    lemma_privacy(s);
    lemma_feature(s);
    lemma_table_is_joined(s);
    lemma_joined(
        top(),
        table::setting_rows(s),
        table::language_rows(s),
        table::monitor_rows(s),
        headed_devices(s),
        headed_realtime(s),
        table::pipe_rows(s),
        seq![table::BOTTOM_EDGE@],
    );
    lemma_settings_at(
        table::table(s),
        table::capture_rows(s),
        table::engine_rows(s),
        table::privacy_rows(s),
        table::feature_rows(s),
        s,
    );
}

proof fn lemma_settings_at(
    t: Seq<Seq<char>>,
    a: Seq<Seq<char>>,
    b: Seq<Seq<char>>,
    c: Seq<Seq<char>>,
    d: Seq<Seq<char>>,
    s: Settings,
)
    requires
        t.len() >= 26,
        a.len() == 7,
        b.len() == 5,
        c.len() == 6,
        d.len() == 5,
        t.subrange(3, 26) == a + b + c + d,
        shows_capture(a, 0, s),
        shows_engine(b, 0, s),
        shows_privacy(c, 0, s),
        shows_feature(d, 0, s),
    ensures
        shows_capture(t, 3, s),
        shows_engine(t, 10, s),
        shows_privacy(t, 15, s),
        shows_feature(t, 21, s),
{
    let all = a + b + c + d;
    assert forall|k: int| 0 <= k < 23 implies t[3 + k] == #[trigger] all[k] by {
        assert(t.subrange(3, 26)[k] == t[3 + k]);
    }
    assert forall|k: int| 0 <= k < 7 implies t[3 + k] == #[trigger] a[k] by {
        assert(all[k] == a[k]);
    }
    assert forall|k: int| 0 <= k < 5 implies t[10 + k] == #[trigger] b[k] by {
        assert(all[7 + k] == b[k]);
    }
    assert forall|k: int| 0 <= k < 6 implies t[15 + k] == #[trigger] c[k] by {
        assert(all[12 + k] == c[k]);
    }
    assert forall|k: int| 0 <= k < 5 implies t[21 + k] == #[trigger] d[k] by {
        assert(all[18 + k] == d[k]);
    }
}

proof fn lemma_flags_differ(line: Seq<char>, name: Seq<char>, a: bool, b: bool)
    requires
        shows_flag(line, name, a),
        shows_flag(line, name, b),
    ensures
        a == b,
{
    reveal(shows);
    reveal(shows_flag);
    if a != b {
        assert(line.subrange(27, 31)[0] == line[27]);
        assert(line.subrange(27, 32)[0] == line[27]);
    }
}

/// Whether two rows are the same.
#[verifier::opaque]
pub open spec fn same_row(x: Seq<char>, y: Seq<char>) -> bool {
    x == y
}

/// Whether two tables have the same row for a flag exactly where the flag is
/// the same.
pub open spec fn flags_apart(
    x: Seq<Seq<char>>,
    y: Seq<Seq<char>>,
    a: Settings,
    b: Settings,
) -> bool {
    &&& same_row(x[7], y[7]) <==> a.realtime_audio == b.realtime_audio
    &&& same_row(x[8], y[8]) <==> a.disable_audio == b.disable_audio
    &&& same_row(x[9], y[9]) <==> a.disable_vision == b.disable_vision
    &&& same_row(x[15], y[15]) <==> a.debug == b.debug
    &&& same_row(x[16], y[16]) <==> a.disable_telemetry == b.disable_telemetry
    &&& same_row(x[17], y[17]) <==> a.local_llm == b.local_llm
    &&& same_row(x[18], y[18]) <==> a.use_pii_removal == b.use_pii_removal
    &&& same_row(x[21], y[21]) <==> a.ui_monitoring == b.ui_monitoring
    &&& same_row(x[22], y[22]) <==> a.frame_cache == b.frame_cache
    &&& same_row(x[23], y[23]) <==> a.capture_unfocused_windows == b.capture_unfocused_windows
}

/// Two tables have the same row for a flag exactly where the flag is the same,
/// whatever the other settings are.
pub proof fn law_flags_are_told_apart(a: Settings, b: Settings)
    ensures
        flags_apart(table::table(a), table::table(b), a, b),
{
    law_each_row_shows_its_own_setting(a);
    law_each_row_shows_its_own_setting(b);
    lemma_shows_flags(table::table(a), a);
    lemma_shows_flags(table::table(b), b);
    lemma_capture_flags_apart(table::table(a), table::table(b), a, b);
    lemma_privacy_flags_apart(table::table(a), table::table(b), a, b);
    lemma_feature_flags_apart(table::table(a), table::table(b), a, b);
}

/// Whether each flag is shown in its own row.
spec fn shows_flags(t: Seq<Seq<char>>, s: Settings) -> bool {
    &&& shows_flag(t[7], "realtime audio enabled"@, s.realtime_audio)
    &&& shows_flag(t[8], "audio disabled"@, s.disable_audio)
    &&& shows_flag(t[9], "vision disabled"@, s.disable_vision)
    &&& shows_flag(t[15], "debug mode"@, s.debug)
    &&& shows_flag(t[16], "telemetry"@, !s.disable_telemetry)
    &&& shows_flag(t[17], "local llm"@, s.local_llm)
    &&& shows_flag(t[18], "use pii removal"@, s.use_pii_removal)
    &&& shows_flag(t[21], "ui monitoring"@, s.ui_monitoring)
    &&& shows_flag(t[22], "frame cache"@, s.frame_cache)
    &&& shows_flag(t[23], "capture unfocused wins"@, s.capture_unfocused_windows)
}

proof fn lemma_shows_flags(t: Seq<Seq<char>>, s: Settings)
    requires
        shows_capture(t, 3, s),
        shows_privacy(t, 15, s),
        shows_feature(t, 21, s),
    ensures
        shows_flags(t, s),
{
}

proof fn lemma_capture_flags_apart(x: Seq<Seq<char>>, y: Seq<Seq<char>>, a: Settings, b: Settings)
    requires
        shows_flags(x, a),
        shows_flags(y, b),
    ensures
        same_row(x[7], y[7]) <==> a.realtime_audio == b.realtime_audio,
        same_row(x[8], y[8]) <==> a.disable_audio == b.disable_audio,
        same_row(x[9], y[9]) <==> a.disable_vision == b.disable_vision,
{
    lemma_same_flag(x[7], y[7], "realtime audio enabled"@, a.realtime_audio, b.realtime_audio);
    lemma_same_flag(x[8], y[8], "audio disabled"@, a.disable_audio, b.disable_audio);
    lemma_same_flag(x[9], y[9], "vision disabled"@, a.disable_vision, b.disable_vision);
}

proof fn lemma_privacy_flags_apart(x: Seq<Seq<char>>, y: Seq<Seq<char>>, a: Settings, b: Settings)
    requires
        shows_flags(x, a),
        shows_flags(y, b),
    ensures
        same_row(x[15], y[15]) <==> a.debug == b.debug,
        same_row(x[16], y[16]) <==> a.disable_telemetry == b.disable_telemetry,
        same_row(x[17], y[17]) <==> a.local_llm == b.local_llm,
        same_row(x[18], y[18]) <==> a.use_pii_removal == b.use_pii_removal,
{
    lemma_same_flag(x[15], y[15], "debug mode"@, a.debug, b.debug);
    lemma_same_flag(x[16], y[16], "telemetry"@, !a.disable_telemetry, !b.disable_telemetry);
    lemma_same_flag(x[17], y[17], "local llm"@, a.local_llm, b.local_llm);
    lemma_same_flag(x[18], y[18], "use pii removal"@, a.use_pii_removal, b.use_pii_removal);
}

proof fn lemma_feature_flags_apart(x: Seq<Seq<char>>, y: Seq<Seq<char>>, a: Settings, b: Settings)
    requires
        shows_flags(x, a),
        shows_flags(y, b),
    ensures
        same_row(x[21], y[21]) <==> a.ui_monitoring == b.ui_monitoring,
        same_row(x[22], y[22]) <==> a.frame_cache == b.frame_cache,
        same_row(x[23], y[23]) <==> a.capture_unfocused_windows == b.capture_unfocused_windows,
{
    lemma_same_flag(x[21], y[21], "ui monitoring"@, a.ui_monitoring, b.ui_monitoring);
    lemma_same_flag(x[22], y[22], "frame cache"@, a.frame_cache, b.frame_cache);
    lemma_same_flag(x[23], y[23], "capture unfocused wins"@, a.capture_unfocused_windows, b.capture_unfocused_windows);
}

proof fn lemma_same_flag(x: Seq<char>, y: Seq<char>, name: Seq<char>, a: bool, b: bool)
    requires
        shows_flag(x, name, a),
        shows_flag(y, name, b),
    ensures
        same_row(x, y) <==> a == b,
{
    reveal(same_row);
    reveal(shows);
    reveal(shows_flag);
    if a == b {
        assert(x =~= y) by {
            assert forall|i: int| 0 <= i < x.len() implies x[i] == y[i] by {
                if 2 <= i < 2 + name.len() {
                    assert(x.subrange(2, 2 + name.len() as int)[i - 2] == x[i]);
                    assert(y.subrange(2, 2 + name.len() as int)[i - 2] == y[i]);
                }
                let n: int = if a {
                    4
                } else {
                    5
                };
                if 27 <= i < 27 + n {
                    assert(x.subrange(27, 27 + n)[i - 27] == x[i]);
                    assert(y.subrange(27, 27 + n)[i - 27] == y[i]);
                }
            }
        }
    } else if x == y {
        lemma_flags_differ(x, name, a, b);
    }
}

/// Whether the rows are those of a list: the first five items, each in a row of
/// its own and cut where it is too long, and then how many more are counted.
pub open spec fn is_list(rows: Seq<Seq<char>>, items: Seq<Seq<char>>, total: nat) -> bool {
    let shown: int = if items.len() < 5 {
        items.len() as int
    } else {
        5
    };
    &&& rows.len() == shown + if total > 5 {
        1
    } else {
        0int
    }
    &&& forall|i: int|
        0 <= i < shown ==> shows(#[trigger] rows[i], Seq::empty(), text::cell(items[i], 34))
    &&& total > 5 ==> exists|digits: Seq<char>|
        #![trigger text_laws::reading(digits)]
        {
            &&& text_laws::is_number(digits)
            &&& text_laws::reading(digits) == total - 5
            &&& shows(rows[shown], Seq::empty(), "... and "@ + digits + " more"@)
        }
}

/// Whether the rows are those of one word in place of a list.
pub open spec fn is_word(rows: Seq<Seq<char>>, word: Seq<char>) -> bool {
    rows.len() == 1 && shows(rows[0], Seq::empty(), word)
}

/// Whether the rows begin with the head of a section of that title.
pub open spec fn is_headed(rows: Seq<Seq<char>>, title: Seq<char>) -> bool {
    rows.len() >= 2 && rows[0] == table::INNER_EDGE@ && shows(rows[1], title, Seq::empty())
}

/// A list shows its first items, and counts the others.
pub proof fn law_a_list_shows_its_items(items: Seq<Seq<char>>, total: nat)
    ensures
        is_list(table::list_rows(items, total), items, total),
{
    reveal_strlit("");
    let rows = table::list_rows(items, total);
    let shown: int = if items.len() < 5 {
        items.len() as int
    } else {
        5
    };
    assert(""@ =~= Seq::empty());
    assert forall|i: int| 0 <= i < shown implies shows(
        #[trigger] rows[i],
        Seq::empty(),
        text::cell(items[i], 34),
    ) by {
        lemma_row_shows(""@, text::cell(items[i], 34));
    }
    if total > 5 {
        let digits = text::decimal((total - 5) as nat);
        text_laws::law_a_decimal_reads_back((total - 5) as nat);
        lemma_row_shows(""@, "... and "@ + digits + " more"@);
        assert(rows[shown] == table::more_row((total - 5) as nat));
        assert(text_laws::reading(digits) == total - 5);
    }
}

proof fn lemma_headed(title: Seq<char>, rows: Seq<Seq<char>>)
    requires
        title.len() <= 22,
    ensures
        is_headed(table::head(title) + rows, title),
        (table::head(title) + rows).skip(2) == rows,
{
    reveal_strlit("");
    assert(""@ =~= Seq::empty());
    lemma_row_shows(title, ""@);
    assert((table::head(title) + rows).skip(2) =~= rows);
}

proof fn lemma_word(word: Seq<char>)
    ensures
        is_word(seq![table::row(""@, word)], word),
{
    reveal_strlit("");
    assert(""@ =~= Seq::empty());
    lemma_row_shows(""@, word);
}

/// The languages are shown each by its name, and counted as the user named
/// them; where none was named, all are meant.
pub proof fn law_the_languages_are_shown(s: Settings)
    ensures
        is_headed(table::language_rows(s), "languages"@),
        s.named_languages == 0 ==> is_word(table::language_rows(s).skip(2), "all languages"@),
        s.named_languages > 0 ==> is_list(
            table::language_rows(s).skip(2),
            Seq::new(s.languages@.len(), |i: int| "id: "@ + s.languages@[i]@),
            s.named_languages as nat,
        ),
{
    reveal_strlit("languages");
    lemma_word("all languages"@);
    let items = Seq::new(s.languages@.len(), |i: int| "id: "@ + s.languages@[i]@);
    assert(table::with_id(text::views(s.languages@)) =~= items);
    law_a_list_shows_its_items(items, s.named_languages as nat);
    if s.named_languages == 0 {
        lemma_headed("languages"@, seq![table::row(""@, "all languages"@)]);
    } else {
        lemma_headed("languages"@, table::list_rows(items, s.named_languages as nat));
    }
}

/// Whether the items are these numbers, each behind its label.
pub open spec fn are_ids(items: Seq<Seq<char>>, numbers: Seq<u32>) -> bool {
    &&& items.len() == numbers.len()
    &&& forall|i: int|
        0 <= i < items.len() ==> text_laws::begins_with(#[trigger] items[i], "id: "@)
            && text_laws::is_number(items[i].skip("id: "@.len() as int)) && text_laws::reading(
            items[i].skip("id: "@.len() as int),
        ) == numbers[i]
}

/// The monitors are shown each by its number, all of them counted, unless there
/// is none or vision is disabled.
pub proof fn law_the_monitors_are_shown(s: Settings)
    ensures
        is_headed(table::monitor_rows(s), "monitors"@),
        s.disable_vision ==> is_word(table::monitor_rows(s).skip(2), "vision disabled"@),
        !s.disable_vision && s.monitors@.len() == 0 ==> is_word(
            table::monitor_rows(s).skip(2),
            "no monitors available"@,
        ),
        !s.disable_vision && s.monitors@.len() > 0 ==> exists|items: Seq<Seq<char>>|
            #![trigger are_ids(items, s.monitors@)]
            are_ids(items, s.monitors@) && is_list(
                table::monitor_rows(s).skip(2),
                items,
                s.monitors@.len(),
            ),
{
    reveal_strlit("monitors");
    lemma_word("vision disabled"@);
    lemma_word("no monitors available"@);
    let items = table::with_id(table::numbers(s.monitors@));
    law_a_list_shows_its_items(items, s.monitors@.len());
    lemma_headed("monitors"@, seq![table::row(""@, "vision disabled"@)]);
    lemma_headed("monitors"@, seq![table::row(""@, "no monitors available"@)]);
    lemma_headed("monitors"@, table::list_rows(items, s.monitors@.len()));
    assert forall|i: int| 0 <= i < items.len() implies text_laws::begins_with(
        #[trigger] items[i],
        "id: "@,
    ) && text_laws::is_number(items[i].skip("id: "@.len() as int)) && text_laws::reading(
        items[i].skip("id: "@.len() as int),
    ) == s.monitors@[i] by {
        let digits = text::decimal(s.monitors@[i] as nat);
        text_laws::law_a_decimal_reads_back(s.monitors@[i] as nat);
        assert(items[i] == "id: "@ + digits);
        assert(items[i].subrange(0, "id: "@.len() as int) =~= "id: "@);
        assert(items[i].skip("id: "@.len() as int) =~= digits);
    }
    assert(are_ids(items, s.monitors@));
}

/// Audio devices are shown each by its text, all of them counted, unless there
/// is none or they are disabled.
pub proof fn law_the_devices_are_shown(disabled: bool, devices: Seq<String>)
    ensures
        disabled ==> is_word(table::device_rows(disabled, devices), "disabled"@),
        !disabled && devices.len() == 0 ==> is_word(
            table::device_rows(disabled, devices),
            "no devices available"@,
        ),
        !disabled && devices.len() > 0 ==> is_list(
            table::device_rows(disabled, devices),
            Seq::new(devices.len(), |i: int| devices[i]@),
            devices.len(),
        ),
{
    lemma_word("disabled"@);
    lemma_word("no devices available"@);
    let items = Seq::new(devices.len(), |i: int| devices[i]@);
    assert(text::views(devices) =~= items);
    law_a_list_shows_its_items(items, devices.len());
}

/// Whether the items are these pipes, each with its state and its name.
pub open spec fn are_pipes(items: Seq<Seq<char>>, pipes: Seq<PipeState>) -> bool {
    &&& items.len() == pipes.len()
    &&& forall|i: int|
        0 <= i < items.len() ==> text_laws::reads_as(
            #[trigger] items[i],
            if pipes[i].enabled {
                "(enabled) "@
            } else {
                "(disabled) "@
            },
            pipes[i].id@,
            Seq::empty(),
        )
}

/// The pipes are shown each by its state and its name, all of them counted,
/// unless there is none.
pub proof fn law_the_pipes_are_shown(s: Settings)
    ensures
        is_headed(table::pipe_rows(s), "pipes"@),
        s.pipes@.len() == 0 ==> is_word(table::pipe_rows(s).skip(2), "no pipes available"@),
        s.pipes@.len() > 0 ==> exists|items: Seq<Seq<char>>|
            #![trigger are_pipes(items, s.pipes@)]
            are_pipes(items, s.pipes@) && is_list(
                table::pipe_rows(s).skip(2),
                items,
                s.pipes@.len(),
            ),
{
    reveal_strlit("pipes");
    reveal_strlit("(");
    reveal_strlit(") ");
    reveal_strlit("enabled");
    reveal_strlit("disabled");
    reveal_strlit("(enabled) ");
    reveal_strlit("(disabled) ");
    assert("("@ + "enabled"@ + ") "@ =~= "(enabled) "@);
    assert("("@ + "disabled"@ + ") "@ =~= "(disabled) "@);
    lemma_word("no pipes available"@);
    let items = table::pipe_texts(s.pipes@);
    law_a_list_shows_its_items(items, s.pipes@.len());
    lemma_headed("pipes"@, seq![table::row(""@, "no pipes available"@)]);
    lemma_headed("pipes"@, table::list_rows(items, s.pipes@.len()));
    assert forall|i: int| 0 <= i < items.len() implies text_laws::reads_as(
        #[trigger] items[i],
        if s.pipes@[i].enabled {
            "(enabled) "@
        } else {
            "(disabled) "@
        },
        s.pipes@[i].id@,
        Seq::empty(),
    ) by {
        let p = s.pipes@[i];
        assert(items[i] == table::pipe_text(p));
        text_laws::lemma_reads_as_two(
            if p.enabled {
                "(enabled) "@
            } else {
                "(disabled) "@
            },
            p.id@,
        );
    }
    assert(are_pipes(items, s.pipes@));
}

/// The sections of the table follow one another: the settings, the languages,
/// the monitors, the audio devices, those for realtime transcription, which
/// are disabled where audio is or where it was not asked for, and the pipes.
pub proof fn law_the_sections_follow(s: Settings)
    ensures
        ({
            let t = table::table(s);
            let devices = table::device_rows(s.disable_audio, s.audio_devices@);
            let realtime = table::device_rows(
                s.disable_audio || !s.realtime_audio,
                s.realtime_audio_devices@,
            );
            let a = 26 + table::language_rows(s).len() as int;
            let b = a + table::monitor_rows(s).len();
            let c = b + 2 + devices.len();
            let d = c + 2 + realtime.len();
            let e = d + table::pipe_rows(s).len();
            &&& t.len() == e + 1
            &&& t[0] == table::TOP_EDGE@
            &&& shows(t[1], "setting"@, "value"@)
            &&& t[2] == table::INNER_EDGE@
            &&& t.subrange(26, a) == table::language_rows(s)
            &&& t.subrange(a, b) == table::monitor_rows(s)
            &&& is_headed(t.subrange(b, c), "audio devices"@)
            &&& t.subrange(b + 2, c) == devices
            &&& is_headed(t.subrange(c, d), "realtime audio devices"@)
            &&& t.subrange(c + 2, d) == realtime
            &&& t.subrange(d, e) == table::pipe_rows(s)
            &&& t[e] == table::BOTTOM_EDGE@
        }),
{
    let t = table::table(s);
    let devices = table::device_rows(s.disable_audio, s.audio_devices@);
    let realtime = table::device_rows(
        s.disable_audio || !s.realtime_audio,
        s.realtime_audio_devices@,
    );
    reveal_strlit("setting");
    reveal_strlit("value");
    reveal_strlit("audio devices");
    reveal_strlit("realtime audio devices");
    lemma_row_shows("setting"@, "value"@);
    lemma_headed("audio devices"@, devices);
    lemma_headed("realtime audio devices"@, realtime);
    lemma_capture(s);
    lemma_engine(s);
    lemma_privacy(s);
    lemma_feature(s);
    lemma_table_is_joined(s);
    lemma_joined(
        top(),
        table::setting_rows(s),
        table::language_rows(s),
        table::monitor_rows(s),
        headed_devices(s),
        headed_realtime(s),
        table::pipe_rows(s),
        seq![table::BOTTOM_EDGE@],
    );
    lemma_sections(
        t,
        table::language_rows(s),
        table::monitor_rows(s),
        headed_devices(s),
        headed_realtime(s),
        table::pipe_rows(s),
        devices,
        realtime,
    );
}

proof fn lemma_sections(
    t: Seq<Seq<char>>,
    languages: Seq<Seq<char>>,
    monitors: Seq<Seq<char>>,
    with_devices: Seq<Seq<char>>,
    with_realtime: Seq<Seq<char>>,
    pipes: Seq<Seq<char>>,
    devices: Seq<Seq<char>>,
    realtime: Seq<Seq<char>>,
)
    requires
        ({
            let a = 26 + languages.len() as int;
            let b = a + monitors.len();
            let c = b + with_devices.len();
            let d = c + with_realtime.len();
            let e = d + pipes.len();
            &&& t.len() == e + 1
            &&& t.subrange(0, 3) == top()
            &&& t.subrange(b, c) == with_devices
            &&& t.subrange(c, d) == with_realtime
            &&& t.subrange(e, t.len() as int) == seq![table::BOTTOM_EDGE@]
        }),
        with_devices.len() == devices.len() + 2,
        with_devices.skip(2) == devices,
        with_realtime.len() == realtime.len() + 2,
        with_realtime.skip(2) == realtime,
    ensures
        ({
            let a = 26 + languages.len() as int;
            let b = a + monitors.len();
            let c = b + 2 + devices.len();
            let d = c + 2 + realtime.len();
            let e = d + pipes.len();
            &&& t[0] == top()[0] && t[1] == top()[1] && t[2] == top()[2]
            &&& t.subrange(b + 2, c) == devices
            &&& t.subrange(c + 2, d) == realtime
            &&& t[e] == table::BOTTOM_EDGE@
        }),
{
    let a = 26 + languages.len() as int;
    let b = a + monitors.len();
    let c = b + 2 + devices.len();
    let d = c + 2 + realtime.len();
    let e = d + pipes.len();
    assert(t.subrange(0, 3)[0] == t[0] && t.subrange(0, 3)[1] == t[1] && t.subrange(0, 3)[2]
        == t[2]);
    assert(t.subrange(b + 2, c) =~= t.subrange(b, c).skip(2));
    assert(t.subrange(c + 2, d) =~= t.subrange(c, d).skip(2));
    assert(t.subrange(e, t.len() as int)[0] == t[e]);
}

/// A list as shown to a developer stands in brackets, and grows at its end by a
/// comma, a space and the next item as that is shown.
pub proof fn law_a_shown_list_holds_its_items(items: Seq<Seq<char>>, item: Seq<char>)
    ensures
        table::debug_list_text(Seq::empty()) == seq!['[', ']'],
        table::debug_list_text(seq![item]) == seq!['['] + text::debug_text(item) + seq![']'],
        items.len() > 0 ==> table::debug_list_text(items.push(item)) == table::debug_list_text(
            items,
        ).drop_last() + seq![',', ' '] + text::debug_text(item) + seq![']'],
{
    reveal_strlit("[");
    reveal_strlit("]");
    reveal_strlit(", ");
    let shown = |i: Seq<char>| text::debug_text(i);
    assert(Seq::<Seq<char>>::empty().map_values(shown) =~= Seq::empty());
    assert(seq![item].map_values(shown) =~= seq![text::debug_text(item)]);
    assert(table::debug_list_text(Seq::empty()) =~= seq!['[', ']']);
    assert(table::debug_list_text(seq![item]) =~= seq!['['] + text::debug_text(item) + seq![']']);
    if items.len() > 0 {
        let all = items.push(item).map_values(shown);
        assert(all.drop_last() =~= items.map_values(shown));
        assert(table::debug_list_text(items.push(item)) =~= table::debug_list_text(
            items,
        ).drop_last() + seq![',', ' '] + text::debug_text(item) + seq![']']);
    }
}

/// A row holds both texts whole, each behind its edge and followed by spaces
/// alone up to the next one, however long they are.
pub proof fn law_a_row_holds_both_texts(name: Seq<char>, value: Seq<char>)
    ensures
        ({
            let line = table::row(name, value);
            let w: int = if name.len() > 22 {
                name.len() as int
            } else {
                22
            };
            let v: int = if value.len() > 34 {
                value.len() as int
            } else {
                34
            };
            &&& line.len() == w + v + 7
            &&& line[0] == '│' && line[w + 3] == '│' && line.last() == '│'
            &&& blank(line, 1, 2) && blank(line, w + 4, w + 5)
            &&& text_laws::stands_at(line, 2, name)
            &&& blank(line, 2 + name.len() as int, w + 3)
            &&& text_laws::stands_at(line, w + 5, value)
            &&& blank(line, w + 5 + value.len() as int, line.len() - 1)
        }),
{
    reveal_strlit("│ ");
    reveal_strlit(" │ ");
    reveal_strlit(" │");
    let line = table::row(name, value);
    let w: int = if name.len() > 22 {
        name.len() as int
    } else {
        22
    };
    assert(line.subrange(2, 2 + name.len() as int) =~= name);
    assert(line.subrange(w + 5, w + 5 + value.len() as int) =~= value);
}

} // verus!
