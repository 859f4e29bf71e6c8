//! Audio devices and monitors: what is listed of them, and which are used.

use crate::cli::OutputFormat;
use crate::json;
use crate::json::Json;
use crate::report;
use crate::report::{Fields, Line, LineView};
use crate::text;
use serde_json::Value;
use vstd::prelude::*;
use vstd::string::*;

verus! {

/// An audio device: its name, and how it is shown.
#[derive(Debug, PartialEq, Eq)]
pub struct AudioDevice {
    pub name: String,
    pub shown: String,
}

/// A monitor.
#[derive(Debug, PartialEq, Eq)]
pub struct Monitor {
    pub id: u32,
    pub name: String,
    pub width: u32,
    pub height: u32,
    pub is_primary: bool,
}

/// The lines of a report: those of the text of a document, or an error.
pub open spec fn document_lines(text: Result<Seq<char>, Seq<char>>) -> Result<
    Seq<Seq<char>>,
    Seq<char>,
> {
    match text {
        Ok(line) => Ok(seq![line]),
        Err(error) => Err(error),
    }
}

/// The view of the lines of a report.
pub open spec fn lines_result(r: Result<Vec<String>, String>) -> Result<Seq<Seq<char>>, Seq<char>> {
    match r {
        Ok(lines) => Ok(text::views(lines@)),
        Err(error) => Err(error@),
    }
}

/// Makes a report of the text of a document, or of the error that came in its
/// place.
pub fn report_document(text: Result<String, String>) -> (r: Result<Vec<String>, String>)
    ensures
        lines_result(r) == document_lines(json::text_result(text)),
{
    match text {
        Ok(line) => {
            let lines = vec![line];
            assert(text::views(lines@) =~= seq![line@]);
            Ok(lines)
        },
        Err(error) => Err(error),
    }
}

/// An audio device in a JSON list: how it is shown, and whether it bears the
/// name of a default device.
pub open spec fn device_document(
    device: AudioDevice,
    default_input: Seq<char>,
    default_output: Seq<char>,
) -> Json {
    Json::Object(
        report::no_fields().insert("name"@, Json::Str(device.shown@)).insert(
            "is_default"@,
            Json::Bool(device.name@ == default_input || device.name@ == default_output),
        ),
    )
}

/// The audio devices in a JSON list.
pub open spec fn device_documents(
    devices: Seq<AudioDevice>,
    default_input: Seq<char>,
    default_output: Seq<char>,
) -> Seq<Json> {
    devices.map_values(|d: AudioDevice| device_document(d, default_input, default_output))
}

/// The lines for audio devices.
pub open spec fn device_lines(devices: Seq<AudioDevice>) -> Seq<Seq<char>> {
    devices.map_values(|d: AudioDevice| "  "@ + d.shown@)
}

/// The report on the audio devices.
pub open spec fn audio_report(
    output: OutputFormat,
    devices: Seq<AudioDevice>,
    default_input: Seq<char>,
    default_output: Seq<char>,
    macos: bool,
) -> Result<Seq<Seq<char>>, Seq<char>> {
    match output {
        OutputFormat::Json => Ok(
            seq![
                json::pretty_text(
                    report::success_document(
                        Json::Array(device_documents(devices, default_input, default_output)),
                    ),
                ),
            ],
        ),
        OutputFormat::Text => Ok(
            seq!["available audio devices:"@] + device_lines(devices) + (if macos {
                seq!["note: on macos, output devices are your displays"@]
            } else {
                Seq::empty()
            }),
        ),
    }
}

/// Lists the audio devices.
pub fn list_audio(
    output: OutputFormat,
    devices: &Vec<AudioDevice>,
    default_input: &str,
    default_output: &str,
    macos: bool,
) -> (r: Result<Vec<String>, String>)
    ensures
        lines_result(r) == audio_report(
            output,
            devices@,
            default_input@,
            default_output@,
            macos,
        ),
{
    match output {
        OutputFormat::Json => {
            let mut documents: Vec<Value> = Vec::new();
            let ghost wanted = device_documents(devices@, default_input@, default_output@);
            for i in 0..devices.len()
                invariant
                    wanted == device_documents(devices@, default_input@, default_output@),
                    json::json_seq(documents@) == wanted.take(i as int),
            {
                let ghost had = documents@;
                let name = devices[i].name.as_str();
                let is_default = text::same_text(name, default_input) || text::same_text(
                    name,
                    default_output,
                );
                let document = Fields::new().with(
                    "name",
                    json::string_value(devices[i].shown.as_str()),
                ).with("is_default", json::bool_value(is_default)).build();
                documents.push(document);
                assert(json::json_seq(documents@) =~= json::json_seq(had).push(wanted[i as int]));
                assert(json::json_seq(documents@) =~= wanted.take(i + 1));
            }
            assert(wanted.take(devices@.len() as int) =~= wanted);
            let value = report::success_value(json::array_value(documents));
            report_document(json::to_pretty(&value))
        },
        OutputFormat::Text => {
            let mut lines: Vec<String> = vec!["available audio devices:".to_owned()];
            let ghost first = seq!["available audio devices:"@];
            let ghost wanted = device_lines(devices@);
            assert(text::views(lines@) =~= first + wanted.take(0));
            for i in 0..devices.len()
                invariant
                    wanted == device_lines(devices@),
                    text::views(lines@) == first + wanted.take(i as int),
            {
                let ghost had = lines@;
                lines.push(report::joined("  ", devices[i].shown.as_str()));
                assert(text::views(lines@) =~= text::views(had).push(wanted[i as int]));
                assert(text::views(lines@) =~= first + wanted.take(i + 1));
            }
            assert(wanted.take(devices@.len() as int) =~= wanted);
            let ghost had = text::views(lines@);
            if macos {
                lines.push("note: on macos, output devices are your displays".to_owned());
            }
            assert(text::views(lines@) =~= had + (if macos {
                seq!["note: on macos, output devices are your displays"@]
            } else {
                Seq::empty()
            }));
            Ok(lines)
        },
    }
}

/// A number as a JSON document.
pub open spec fn number_document(n: u32) -> Json {
    Json::Number(text::decimal(n as nat))
}

/// A monitor in a JSON list.
pub open spec fn monitor_document(m: Monitor) -> Json {
    Json::Object(
        report::no_fields().insert("id"@, number_document(m.id)).insert(
            "name"@,
            Json::Str(m.name@),
        ).insert("width"@, number_document(m.width)).insert(
            "height"@,
            number_document(m.height),
        ).insert("is_default"@, Json::Bool(m.is_primary)),
    )
}

/// The monitors in a JSON list.
pub open spec fn monitor_documents(monitors: Seq<Monitor>) -> Seq<Json> {
    monitors.map_values(|m: Monitor| monitor_document(m))
}

/// The line for a monitor.
pub open spec fn monitor_line(m: Monitor) -> Seq<char> {
    "  "@ + text::decimal(m.id as nat) + ". "@ + text::debug_text(m.name@)
}

/// The lines for monitors.
pub open spec fn monitor_lines(monitors: Seq<Monitor>) -> Seq<Seq<char>> {
    monitors.map_values(|m: Monitor| monitor_line(m))
}

/// The report on the monitors.
pub open spec fn vision_report(output: OutputFormat, monitors: Seq<Monitor>) -> Result<
    Seq<Seq<char>>,
    Seq<char>,
> {
    match output {
        OutputFormat::Json => Ok(
            seq![
                json::pretty_text(
                    report::success_document(Json::Array(monitor_documents(monitors))),
                ),
            ],
        ),
        OutputFormat::Text => Ok(seq!["available monitors:"@] + monitor_lines(monitors)),
    }
}

fn monitor_value(m: &Monitor) -> (r: Value)
    ensures
        json::json_of(r) == monitor_document(*m),
{
    Fields::new().with("id", json::number_value(m.id as u64)).with(
        "name",
        json::string_value(m.name.as_str()),
    ).with("width", json::number_value(m.width as u64)).with(
        "height",
        json::number_value(m.height as u64),
    ).with("is_default", json::bool_value(m.is_primary)).build()
}

/// The line for a monitor, given its name as shown to a developer.
pub fn monitor_text(id: u32, shown: &str) -> (r: String)
    ensures
        r@ == "  "@ + text::decimal(id as nat) + ". "@ + shown@,
{
    let mut r = report::joined3("  ", text::decimal_text(id as u64).as_str(), ". ");
    r.append(shown);
    r
}

/// Lists the monitors.
pub fn list_vision(output: OutputFormat, monitors: &Vec<Monitor>) -> (r: Result<
    Vec<String>,
    String,
>)
    ensures
        lines_result(r) == vision_report(output, monitors@),
{
    match output {
        OutputFormat::Json => {
            let mut documents: Vec<Value> = Vec::new();
            let ghost wanted = monitor_documents(monitors@);
            for i in 0..monitors.len()
                invariant
                    wanted == monitor_documents(monitors@),
                    json::json_seq(documents@) == wanted.take(i as int),
            {
                let ghost had = documents@;
                documents.push(monitor_value(&monitors[i]));
                assert(json::json_seq(documents@) =~= json::json_seq(had).push(wanted[i as int]));
                assert(json::json_seq(documents@) =~= wanted.take(i + 1));
            }
            assert(wanted.take(monitors@.len() as int) =~= wanted);
            let value = report::success_value(json::array_value(documents));
            report_document(json::to_pretty(&value))
        },
        OutputFormat::Text => {
            let mut lines: Vec<String> = vec!["available monitors:".to_owned()];
            let ghost first = seq!["available monitors:"@];
            let ghost wanted = monitor_lines(monitors@);
            assert(text::views(lines@) =~= first + wanted.take(0));
            for i in 0..monitors.len()
                invariant
                    wanted == monitor_lines(monitors@),
                    text::views(lines@) == first + wanted.take(i as int),
            {
                let ghost had = lines@;
                let shown = text::debug_str(monitors[i].name.as_str());
                lines.push(monitor_text(monitors[i].id, shown.as_str()));
                assert(text::views(lines@) =~= text::views(had).push(wanted[i as int]));
                assert(text::views(lines@) =~= first + wanted.take(i + 1));
            }
            assert(wanted.take(monitors@.len() as int) =~= wanted);
            Ok(lines)
        },
    }
}

/// A text, if there is one.
pub open spec fn optional(s: Option<String>) -> Seq<Seq<char>> {
    match s {
        Some(text) => seq![text@],
        None => Seq::empty(),
    }
}

/// The devices that are recorded: none where that is not wanted; those that
/// the user named; or the default ones, as far as there are any.
pub open spec fn chosen_devices(
    enabled: bool,
    named: Seq<String>,
    default_input: Option<String>,
    default_output: Option<String>,
) -> Seq<Seq<char>> {
    if !enabled {
        Seq::empty()
    } else if named.len() > 0 {
        text::views(named)
    } else {
        optional(default_input) + optional(default_output)
    }
}

/// Whether the default devices have to be known.
pub open spec fn defaults_matter(enabled: bool, named: Seq<String>) -> bool {
    enabled && named.len() == 0
}

/// Tells whether the default devices have to be known.
pub fn needs_default_devices(enabled: bool, named: &Vec<String>) -> (b: bool)
    ensures
        b == defaults_matter(enabled, named@),
{
    enabled && named.len() == 0
}

/// Chooses the devices that are recorded.
pub fn choose_devices(
    enabled: bool,
    named: &Vec<String>,
    default_input: &Option<String>,
    default_output: &Option<String>,
) -> (r: Vec<String>)
    ensures
        text::views(r@) == chosen_devices(enabled, named@, *default_input, *default_output),
{
    if !enabled {
        let r: Vec<String> = Vec::new();
        assert(text::views(r@) =~= Seq::empty());
        r
    } else if named.len() > 0 {
        text::copy_texts(named)
    } else {
        let mut r: Vec<String> = Vec::new();
        match default_input {
            Some(device) => {
                r.push(device.clone());
            },
            None => {},
        }
        assert(text::views(r@) =~= optional(*default_input));
        let ghost had = text::views(r@);
        match default_output {
            Some(device) => {
                r.push(device.clone());
            },
            None => {},
        }
        assert(text::views(r@) =~= had + optional(*default_output));
        r
    }
}

/// Whether realtime transcription takes place: where audio is recorded at all
/// and the user asked for it.
pub fn realtime_enabled(disable_audio: bool, enable_realtime: bool) -> (b: bool)
    ensures
        b == (!disable_audio && enable_realtime),
{
    !disable_audio && enable_realtime
}

/// What is said where devices are wanted and there are none: a warning in the
/// log, or, of the devices for realtime transcription, a line on the standard
/// error stream.
pub open spec fn missing_devices(enabled: bool, count: nat, realtime: bool) -> Seq<LineView> {
    if !enabled || count > 0 {
        Seq::empty()
    } else if realtime {
        seq![
            report::err(
                "no realtime audio devices available. realtime audio transcription will be disabled."@,
            ),
        ]
    } else {
        seq![report::warning("no audio devices available."@)]
    }
}

/// Says that devices are wanted and there are none.
pub fn complain_of_devices(enabled: bool, count: usize, realtime: bool) -> (r: Vec<Line>)
    ensures
        report::lines(r@) == missing_devices(enabled, count as nat, realtime),
{
    if !enabled || count > 0 {
        report::no_lines()
    } else if realtime {
        report::one_error_line(
            "no realtime audio devices available. realtime audio transcription will be disabled.".to_owned(),
        )
    } else {
        report::one_warning("no audio devices available.")
    }
}

/// The monitors that are recorded: those that the user named, or all.
pub open spec fn chosen_monitors(named: Seq<u32>, all: Seq<u32>) -> Seq<u32> {
    if named.len() > 0 {
        named
    } else {
        all
    }
}

/// Chooses the monitors that are recorded.
pub fn choose_monitors(named: &Vec<u32>, all: &Vec<u32>) -> (r: Vec<u32>)
    ensures
        r@ == chosen_monitors(named@, all@),
{
    let from = if named.len() > 0 {
        named
    } else {
        all
    };
    let mut r: Vec<u32> = Vec::new();
    for i in 0..from.len()
        invariant
            r@ == from@.take(i as int),
    {
        r.push(from[i]);
        assert(r@ =~= from@.take(i + 1));
    }
    assert(from@.take(from@.len() as int) =~= from@);
    r
}

/// Where audio is disabled nothing is recorded, in realtime or not, whatever
/// the user named and whatever the defaults are.
pub proof fn law_disabled_audio_has_no_devices(
    named: Seq<String>,
    default_input: Option<String>,
    default_output: Option<String>,
)
    ensures
        chosen_devices(false, named, default_input, default_output).len() == 0,
{
}

/// The default devices matter only where they have to be known.
pub proof fn law_named_devices_replace_the_defaults(
    enabled: bool,
    named: Seq<String>,
    a: (Option<String>, Option<String>),
    b: (Option<String>, Option<String>),
)
    requires
        !defaults_matter(enabled, named),
    ensures
        chosen_devices(enabled, named, a.0, a.1) == chosen_devices(enabled, named, b.0, b.1),
{
}

} // verus!
