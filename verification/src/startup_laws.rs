//! What a start of the program finds and chooses, read off the results.

use crate::cli;
use crate::cli::AudioCommand;
use crate::cli::Command;
use crate::cli::McpCommand;
use crate::cli::MigrationSubCommand;
use crate::cli::OutputFormat;
use crate::cli::PipeCommand;
use crate::cli::VisionCommand;
use crate::devices;
use crate::devices::AudioDevice;
use crate::devices::Monitor;
use crate::json;
use crate::json::Json;
use crate::lifecycle;
use crate::lifecycle::Color;
use crate::place;
use crate::place::PlaceView;
use crate::place::RootView;
use crate::report;
use crate::report::Stream;
use crate::report_laws;
use crate::table::PipeState;
use crate::text;
use crate::text_laws;
use vstd::prelude::*;

verus! {

/// A directory that the user gave is the base directory itself; without one
/// the base directory is `.screenpipe`, right in the home directory.
pub proof fn law_the_base_directory_is_the_users(path: String)
    ensures
        place::base_place(Some(path)).root == RootView::Given(path@),
        place::base_place(Some(path)).names.len() == 0,
        place::base_place(None).root == RootView::Home,
        place::base_place(None).names.len() == 1,
        place::base_place(None).names[0] == ".screenpipe"@,
{
}

/// Whether the base directory can be found rests on the home directory alone,
/// and not on whether the user gave a directory, or which.
pub proof fn law_the_home_directory_has_to_be_known(custom_path: Option<String>)
    ensures
        place::base_is_found(custom_path, true),
        !place::base_is_found(custom_path, false),
{
}

/// The data directory lies right in the base directory, whichever that is, and
/// is named `data`.
pub proof fn law_the_data_lie_in_the_base_directory(custom_path: Option<String>)
    ensures
        ({
            let base = place::base_place(custom_path);
            let data = place::data_place(custom_path);
            &&& base.holds(data)
            &&& data.names.len() == base.names.len() + 1
            &&& data.names.last() == "data"@
        }),
{
    let base = place::base_place(custom_path);
    let data = place::data_place(custom_path);
    assert(base.names =~= data.names.subrange(0, base.names.len() as int));
}

/// Different directories of the user are different base directories.
pub proof fn law_base_directories_differ(a: String, b: String)
    ensures
        place::base_place(Some(a)) == place::base_place(Some(b)) <==> a@ == b@,
        place::base_place(Some(a)) != place::base_place(None),
{
}

/// The database is the file of its name in the directory: the text of the
/// directory stands whole at the front.
pub proof fn law_the_database_stands_in_its_directory(directory: Seq<char>)
    ensures
        text_laws::reads_as(
            place::database_address(directory),
            directory,
            "/db.sqlite"@,
            Seq::empty(),
        ),
{
    text_laws::lemma_reads_as_two(directory, "/db.sqlite"@);
}

/// A place and one joined onto it differ by the one name.
pub proof fn law_joining_adds_one_name(place: PlaceView, name: Seq<char>)
    ensures
        place.holds(place.join(name)),
        place.join(name).names.len() == place.names.len() + 1,
        place.join(name).names.last() == name,
        place.join(name).around() == place,
{
    assert(place.names =~= place.join(name).names.subrange(0, place.names.len() as int));
    assert(place.join(name).names.drop_last() =~= place.names);
}

/// Whether a run with that pipe command logs.
pub open spec fn pipe_logs(subcommand: PipeCommand) -> bool {
    cli::logs(Some(Command::Pipe { subcommand }))
}

/// Of the pipe commands, those that list, install and describe log exactly for
/// text, the old download command never, and all others always, whatever they
/// are about.
pub proof fn law_which_pipe_commands_log(
    id: String,
    url: String,
    config: String,
    output: OutputFormat,
    yes: bool,
    port: u16,
)
    ensures
        pipe_logs(PipeCommand::List { output, port }) <==> output == OutputFormat::Text,
        pipe_logs(PipeCommand::Install { url, output, port }) <==> output == OutputFormat::Text,
        pipe_logs(PipeCommand::Info { id, output, port }) <==> output == OutputFormat::Text,
        !pipe_logs(PipeCommand::Download { url, output, port }),
        pipe_logs(PipeCommand::Enable { id, port }),
        pipe_logs(PipeCommand::Disable { id, port }),
        pipe_logs(PipeCommand::Update { id, config, port }),
        pipe_logs(PipeCommand::Delete { id, yes, port }),
        pipe_logs(PipeCommand::Purge { yes, port }),
{
}

/// Every run without a pipe command logs, whatever the command is about.
pub proof fn law_all_other_commands_log(
    audio: AudioCommand,
    vision: VisionCommand,
    migration: Option<MigrationSubCommand>,
    mcp: McpCommand,
    output: OutputFormat,
)
    ensures
        cli::logs(None),
        cli::logs(Some(Command::Audio { subcommand: audio })),
        cli::logs(Some(Command::Vision { subcommand: vision })),
        cli::logs(Some(Command::Completions)),
        cli::logs(Some(Command::Migrate { subcommand: migration, output })),
        cli::logs(Some(Command::Add { output })),
        cli::logs(Some(Command::Mcp { subcommand: mcp })),
{
}

/// Whether the report is this document, as its only line.
pub open spec fn is_document(report: Result<Seq<Seq<char>>, Seq<char>>, document: Json) -> bool {
    report matches Ok(lines) && lines.len() == 1 && lines[0] == json::pretty_text(document)
}

/// Whether the document tells of the audio device: how it is shown, and
/// whether it has the name of one of the default devices.
pub open spec fn tells_device(
    document: Json,
    device: AudioDevice,
    default_input: Seq<char>,
    default_output: Seq<char>,
) -> bool {
    &&& json::field(document, "name"@) == Some(Json::Str(device.shown@))
    &&& json::field(document, "is_default"@) matches Some(Json::Bool(is_default)) && (is_default
        <==> device.name@ == default_input || device.name@ == default_output)
    &&& report_laws::only_two_fields(document, "name"@, "is_default"@)
}

/// As JSON every audio device is listed, at its place, with its own name and
/// whether it is a default device.
pub proof fn law_every_device_is_listed_as_json(
    devices: Seq<AudioDevice>,
    default_input: Seq<char>,
    default_output: Seq<char>,
    macos: bool,
)
    ensures
        exists|document: Json, list: Seq<Json>|
            #![trigger report_laws::tells_success(document, Json::Array(list))]
            {
                &&& report_laws::tells_success(document, Json::Array(list))
                &&& list.len() == devices.len()
                &&& forall|i: int|
                    0 <= i < devices.len() ==> tells_device(
                        #[trigger] list[i],
                        devices[i],
                        default_input,
                        default_output,
                    )
                &&& is_document(
                    devices::audio_report(
                        OutputFormat::Json,
                        devices,
                        default_input,
                        default_output,
                        macos,
                    ),
                    document,
                )
            },
{
    let list = devices::device_documents(devices, default_input, default_output);
    let document = report::success_document(Json::Array(list));
    report_laws::law_a_success_is_told(Json::Array(list));
    reveal_strlit("name");
    reveal_strlit("is_default");
    assert("name"@.len() != "is_default"@.len());
    assert(report_laws::tells_success(document, Json::Array(list)));
}

/// As text every audio device is listed, one line for each, in the same order,
/// under a title; on macOS a note follows.
pub proof fn law_every_device_is_listed_as_text(
    devices: Seq<AudioDevice>,
    default_input: Seq<char>,
    default_output: Seq<char>,
    macos: bool,
)
    ensures
        devices::audio_report(
            OutputFormat::Text,
            devices,
            default_input,
            default_output,
            macos,
        ) matches Ok(lines) && {
            &&& lines.len() == devices.len() + (if macos {
                2
            } else {
                1int
            })
            &&& lines[0] == "available audio devices:"@
            &&& forall|i: int|
                0 <= i < devices.len() ==> text_laws::reads_as(
                    #[trigger] lines[i + 1],
                    "  "@,
                    devices[i].shown@,
                    Seq::empty(),
                )
            &&& macos ==> lines.last() == "note: on macos, output devices are your displays"@
        },
{
    let report = devices::audio_report(
        OutputFormat::Text,
        devices,
        default_input,
        default_output,
        macos,
    );
    let lines = report->Ok_0;
    assert forall|i: int| 0 <= i < devices.len() implies text_laws::reads_as(
        #[trigger] lines[i + 1],
        "  "@,
        devices[i].shown@,
        Seq::empty(),
    ) by {
        text_laws::lemma_reads_as_two("  "@, devices[i].shown@);
        assert(lines[i + 1] == "  "@ + devices[i].shown@);
    }
}

/// Whether the document tells of the monitor, each of its numbers in its own
/// field.
pub open spec fn tells_monitor(document: Json, monitor: Monitor) -> bool {
    &&& report_laws::holds_number(document, "id"@, monitor.id as nat)
    &&& report_laws::holds_number(document, "width"@, monitor.width as nat)
    &&& report_laws::holds_number(document, "height"@, monitor.height as nat)
    &&& json::field(document, "name"@) == Some(Json::Str(monitor.name@))
    &&& json::field(document, "is_default"@) == Some(Json::Bool(monitor.is_primary))
    &&& report_laws::has_just(document, set!["id"@, "name"@, "width"@, "height"@, "is_default"@])
}

proof fn lemma_monitor_told(monitor: Monitor)
    ensures
        tells_monitor(devices::monitor_document(monitor), monitor),
{
    text_laws::law_a_decimal_reads_back(monitor.id as nat);
    text_laws::law_a_decimal_reads_back(monitor.width as nat);
    text_laws::law_a_decimal_reads_back(monitor.height as nat);
    reveal_strlit("id");
    reveal_strlit("name");
    reveal_strlit("width");
    reveal_strlit("height");
    reveal_strlit("is_default");
    assert("id"@.len() == 2 && "name"@.len() == 4 && "width"@.len() == 5);
    assert("height"@.len() == 6 && "is_default"@.len() == 10);
}

/// As JSON every monitor is listed, at its place, with its own numbers and
/// name, and whether it is the primary one.
pub proof fn law_every_monitor_is_listed_as_json(monitors: Seq<Monitor>)
    ensures
        exists|document: Json, list: Seq<Json>|
            #![trigger report_laws::tells_success(document, Json::Array(list))]
            {
                &&& report_laws::tells_success(document, Json::Array(list))
                &&& list.len() == monitors.len()
                &&& forall|i: int|
                    0 <= i < monitors.len() ==> tells_monitor(#[trigger] list[i], monitors[i])
                &&& is_document(devices::vision_report(OutputFormat::Json, monitors), document)
            },
{
    let list = devices::monitor_documents(monitors);
    let document = report::success_document(Json::Array(list));
    report_laws::law_a_success_is_told(Json::Array(list));
    assert forall|i: int| 0 <= i < monitors.len() implies tells_monitor(
        #[trigger] list[i],
        monitors[i],
    ) by {
        lemma_monitor_told(monitors[i]);
    }
    assert(report_laws::tells_success(document, Json::Array(list)));
}

/// Whether the line shows the monitor: its number, and its name as shown to a
/// developer.
pub open spec fn shows_monitor(line: Seq<char>, monitor: Monitor) -> bool {
    exists|digits: Seq<char>|
        #![trigger text_laws::reading(digits)]
        {
            &&& text_laws::is_number(digits)
            &&& text_laws::reading(digits) == monitor.id
            &&& text_laws::reads_as(line, "  "@, digits, ". "@ + text::debug_text(monitor.name@))
        }
}

/// As text every monitor is listed, one line for each, in the same order,
/// under a title.
pub proof fn law_every_monitor_is_listed_as_text(monitors: Seq<Monitor>)
    ensures
        devices::vision_report(OutputFormat::Text, monitors) matches Ok(lines) && {
            &&& lines.len() == monitors.len() + 1
            &&& lines[0] == "available monitors:"@
            &&& forall|i: int|
                0 <= i < monitors.len() ==> shows_monitor(#[trigger] lines[i + 1], monitors[i])
        },
{
    let lines = devices::vision_report(OutputFormat::Text, monitors)->Ok_0;
    assert forall|i: int| 0 <= i < monitors.len() implies shows_monitor(
        #[trigger] lines[i + 1],
        monitors[i],
    ) by {
        let m = monitors[i];
        let digits = text::decimal(m.id as nat);
        let shown = text::debug_text(m.name@);
        text_laws::law_a_decimal_reads_back(m.id as nat);
        text_laws::lemma_reads_as("  "@, digits, ". "@ + shown);
        assert(lines[i + 1] =~= "  "@ + digits + (". "@ + shown));
        assert(text_laws::reading(digits) == m.id);
    }
}

/// The devices that the user named are recorded, all of them, in their order.
pub proof fn law_all_named_devices_are_recorded(
    named: Seq<String>,
    default_input: Option<String>,
    default_output: Option<String>,
)
    requires
        named.len() > 0,
    ensures
        ({
            let chosen = devices::chosen_devices(true, named, default_input, default_output);
            &&& chosen.len() == named.len()
            &&& forall|i: int| 0 <= i < named.len() ==> #[trigger] chosen[i] == named[i]@
        }),
{
}

/// Where the user named none, the default input is recorded and the default
/// output, in that order, each as far as there is one.
pub proof fn law_the_default_devices_are_recorded(input: String, output: String)
    ensures
        ({
            let none = Seq::<String>::empty();
            let both = devices::chosen_devices(true, none, Some(input), Some(output));
            let first = devices::chosen_devices(true, none, Some(input), None);
            let second = devices::chosen_devices(true, none, None, Some(output));
            &&& both.len() == 2 && both[0] == input@ && both[1] == output@
            &&& first.len() == 1 && first[0] == input@
            &&& second.len() == 1 && second[0] == output@
            &&& both == first + second
            &&& devices::chosen_devices(true, none, None, None).len() == 0
        }),
{
    let none = Seq::<String>::empty();
    let both = devices::chosen_devices(true, none, Some(input), Some(output));
    let first = devices::chosen_devices(true, none, Some(input), None);
    let second = devices::chosen_devices(true, none, None, Some(output));
    assert(both =~= first + second);
}

/// The default devices have to be known exactly where they make a difference
/// to what is recorded.
pub proof fn law_when_the_defaults_matter(enabled: bool, named: Seq<String>, device: String)
    ensures
        devices::defaults_matter(enabled, named) <==> devices::chosen_devices(
            enabled,
            named,
            Some(device),
            None,
        ) != devices::chosen_devices(enabled, named, None, None),
{
    let some = devices::chosen_devices(enabled, named, Some(device), None);
    let none = devices::chosen_devices(enabled, named, None, None);
    if enabled && named.len() == 0 {
        assert(some.len() != none.len());
    }
}

/// All monitors that the user named are recorded, in their order, and where the
/// user named none, all that there are.
pub proof fn law_which_monitors_are_recorded(named: Seq<u32>, all: Seq<u32>, i: int)
    ensures
        named.len() > 0 ==> {
            let chosen = devices::chosen_monitors(named, all);
            chosen.len() == named.len() && (0 <= i < named.len() ==> chosen[i] == named[i])
        },
        ({
            let chosen = devices::chosen_monitors(Seq::empty(), all);
            chosen.len() == all.len() && (0 <= i < all.len() ==> chosen[i] == all[i])
        }),
{
}

/// That devices are missing is said exactly where they are wanted and there are
/// none: once, in the log, or, of those for realtime transcription, on the
/// standard error stream.
pub proof fn law_when_devices_are_missing(enabled: bool, count: nat, realtime: bool)
    ensures
        ({
            let lines = devices::missing_devices(enabled, count, realtime);
            &&& lines.len() == 1 <==> enabled && count == 0
            &&& lines.len() <= 1
            &&& lines.len() == 1 && realtime ==> lines[0].stream == Stream::Error && lines[0].text
                == "no realtime audio devices available. realtime audio transcription will be disabled."@
            &&& lines.len() == 1 && !realtime ==> lines[0].stream == Stream::Warning
                && lines[0].text == "no audio devices available."@
        }),
{
}

/// The name of a release is the given name and then the given suffix, each
/// whole, and nothing else; what is not given adds nothing.
pub proof fn law_a_release_is_named_in_full(name: String, suffix: String)
    ensures
        text_laws::reads_as(
            lifecycle::release_text(Some(name), Some(suffix)),
            name@,
            suffix@,
            Seq::empty(),
        ),
        lifecycle::release_text(Some(name), None) == name@,
        lifecycle::release_text(None, Some(suffix)) == suffix@,
        lifecycle::release_text(None, None).len() == 0,
{
    text_laws::lemma_reads_as_two(name@, suffix@);
    assert(name@ + Seq::<char>::empty() =~= name@);
    assert(Seq::<char>::empty() + suffix@ =~= suffix@);
}

/// The pipes that start are those of one part of a list and then those of the
/// other; of a single pipe it is the pipe itself, where it is enabled.
pub proof fn law_pipes_start_in_order(a: Seq<PipeState>, b: Seq<PipeState>, pipe: PipeState)
    ensures
        lifecycle::enabled_ids(a + b) == lifecycle::enabled_ids(a) + lifecycle::enabled_ids(b),
        pipe.enabled ==> lifecycle::enabled_ids(seq![pipe]) == seq![pipe.id@],
        !pipe.enabled ==> lifecycle::enabled_ids(seq![pipe]).len() == 0,
    decreases b.len(),
{
    reveal_with_fuel(lifecycle::enabled_ids, 2);
    assert(seq![pipe].drop_last() =~= Seq::<PipeState>::empty());
    if pipe.enabled {
        assert(lifecycle::enabled_ids(seq![pipe]) =~= seq![pipe.id@]);
    }
    if b.len() == 0 {
        assert(a + b =~= a);
        assert(lifecycle::enabled_ids(a) + lifecycle::enabled_ids(b) =~= lifecycle::enabled_ids(a));
    } else {
        assert((a + b).drop_last() =~= a + b.drop_last());
        law_pipes_start_in_order(a, b.drop_last(), pipe);
        assert(lifecycle::enabled_ids(a + b) =~= lifecycle::enabled_ids(a)
            + lifecycle::enabled_ids(b));
    }
}

/// A plain notice is its text in its colour, with nothing around it and in
/// ordinary type.
pub proof fn law_a_plain_notice_is_its_text(text: &'static str, color: Color)
    ensures
        ({
            let notice = lifecycle::plain(text, color);
            &&& notice.text == text
            &&& notice.color == color
            &&& notice.before == ""
            &&& notice.after == ""
            &&& !notice.bold
            &&& !notice.italic
        }),
{
}

/// Where ffmpeg is found at once, the second look does not matter; where it is
/// not, that look alone decides.
pub proof fn law_when_ffmpeg_is_missing(found_again: bool)
    ensures
        !lifecycle::ffmpeg_is_missing(true, found_again),
        lifecycle::ffmpeg_is_missing(false, found_again) <==> !found_again,
{
}

/// The report made of a document is its text, as the only line, and an error
/// that came in its place is the error of the report.
pub proof fn law_a_document_is_reported_as_it_is(line: Seq<char>, error: Seq<char>)
    ensures
        devices::document_lines(Ok(line)) matches Ok(lines) && lines.len() == 1 && lines[0] == line,
        devices::document_lines(Err(error)) == Err::<Seq<Seq<char>>, Seq<char>>(error),
{
}

} // verus!
