//! Starting, keeping up and shutting down: the checks before the start, the
//! notices at the start, and what each event leads to.

use crate::table::PipeState;
use crate::text;
use vstd::prelude::*;
use vstd::string::*;

verus! {

/// Seconds between two looks at the resources.
pub const MONITOR_INTERVAL_SECS: u64 = 30;

/// Seconds between two entries on the resources.
pub const MONITOR_LOG_INTERVAL_SECS: u64 = 60;

/// Seconds before audio is recorded.
pub const AUDIO_START_DELAY_SECS: u64 = 10;

/// Seconds before a process is watched.
pub const WATCH_DELAY_SECS: u64 = 5;

/// Seconds that the pipes are given to stop.
pub const STOP_PIPES_TIMEOUT_SECS: u64 = 10;

/// Seconds between two looks at a migration.
pub const MIGRATION_POLL_SECS: u64 = 5;

/// Seconds before the interface is monitored again after an error.
pub const UI_RETRY_SECS: u64 = 5;

/// The text, or none.
pub open spec fn text_or_empty(s: Option<String>) -> Seq<char> {
    match s {
        Some(t) => t@,
        None => Seq::empty(),
    }
}

/// The name of the release that telemetry is sent for.
pub open spec fn release_text(name: Option<String>, suffix: Option<String>) -> Seq<char> {
    text_or_empty(name) + text_or_empty(suffix)
}

/// The name of the release that telemetry is sent for.
pub fn release_name(name: &Option<String>, suffix: &Option<String>) -> (r: String)
    ensures
        r@ == release_text(*name, *suffix),
{
    let mut r = match name {
        Some(t) => t.clone(),
        None => String::new(),
    };
    match suffix {
        Some(t) => r.append(t.as_str()),
        None => {
            assert(r@ =~= release_text(*name, *suffix));
        },
    }
    r
}

/// Whether ffmpeg is missing: it was found neither at once nor on a second
/// look, which may install it.
pub open spec fn ffmpeg_is_missing(found: bool, found_again: bool) -> bool {
    !found && !found_again
}

/// What is said before the program exits because ffmpeg is missing.
pub fn refuse_without_ffmpeg(found: bool, found_again: bool) -> (r: Option<(String, i32)>)
    ensures
        match r {
            Some((message, code)) => {
                &&& ffmpeg_is_missing(found, found_again)
                &&& message@
                    == "ffmpeg not found and installation failed. please install ffmpeg manually."@
                &&& code == 1
            },
            None => !ffmpeg_is_missing(found, found_again),
        },
{
    if found || found_again {
        None
    } else {
        Some(
            (
                "ffmpeg not found and installation failed. please install ffmpeg manually.".to_owned(),
                1,
            ),
        )
    }
}

/// Why the program does not start where its port is taken.
pub fn refuse_taken_port(free: bool) -> (r: Option<String>)
    ensures
        match r {
            Some(error) => !free && error@ == "port already in use"@,
            None => free,
        },
{
    if free {
        None
    } else {
        Some("port already in use".to_owned())
    }
}

/// The colour of a notice.
#[derive(Clone, Copy, Debug, PartialEq, Eq, Structural)]
pub enum Color {
    Rgb { red: u8, green: u8, blue: u8 },
    BrightYellow,
    BrightGreen,
    BrightBlue,
}

/// A notice: a text in a colour, and the line breaks around it.
#[derive(Debug, PartialEq, Eq)]
pub struct Styled {
    pub before: &'static str,
    pub text: &'static str,
    pub after: &'static str,
    pub color: Color,
    pub bold: bool,
    pub italic: bool,
}

/// The name of the program, drawn.
pub const BANNER: &'static str = r"
                                            _          
   __________________  ___  ____     ____  (_____  ___ 
  / ___/ ___/ ___/ _ \/ _ \/ __ \   / __ \/ / __ \/ _ \
 (__  / /__/ /  /  __/  __/ / / /  / /_/ / / /_/ /  __/
/____/\___/_/   \___/\___/_/ /_/  / .___/_/ .___/\___/ 
                                 /_/     /_/           

";

/// The notices above the table of settings.
pub fn greeting() -> (r: Vec<Styled>)
    ensures
        r@.len() == 3,
        r@[0] == (Styled {
            before: "\n\n",
            text: BANNER,
            after: "",
            color: Color::Rgb { red: 147, green: 112, blue: 219 },
            bold: true,
            italic: false,
        }),
        r@[1] == (Styled {
            before: "\n",
            text: "build ai apps that have the full context",
            after: "",
            color: Color::BrightYellow,
            bold: false,
            italic: true,
        }),
        r@[2] == (Styled {
            before: "",
            text: "open source | runs locally | developer friendly",
            after: "\n\n",
            color: Color::BrightGreen,
            bold: false,
            italic: false,
        }),
{
    vec![
        Styled {
            before: "\n\n",
            text: BANNER,
            after: "",
            color: Color::Rgb { red: 147, green: 112, blue: 219 },
            bold: true,
            italic: false,
        },
        Styled {
            before: "\n",
            text: "build ai apps that have the full context",
            after: "",
            color: Color::BrightYellow,
            bold: false,
            italic: true,
        },
        Styled {
            before: "",
            text: "open source | runs locally | developer friendly",
            after: "\n\n",
            color: Color::BrightGreen,
            bold: false,
            italic: false,
        },
    ]
}

/// A plain notice.
pub open spec fn plain(text: &'static str, color: Color) -> Styled {
    Styled { before: "", text, after: "", color, bold: false, italic: false }
}

fn notice(text: &'static str, color: Color) -> (r: Styled)
    ensures
        r == plain(text, color),
{
    Styled { before: "", text, after: "", color, bold: false, italic: false }
}

/// Says whether the data leaves the computer: it does where the audio or the
/// text recognition is done in the cloud.
pub fn cloud_notice(cloud_audio: bool, cloud_ocr: bool) -> (r: Styled)
    ensures
        r == (if cloud_audio || cloud_ocr {
            plain(
                "warning: you are using cloud now. make sure to understand the data privacy risks.",
                Color::BrightYellow,
            )
        } else {
            plain(
                "you are using local processing. all your data stays on your computer.\n",
                Color::BrightGreen,
            )
        }),
{
    if cloud_audio || cloud_ocr {
        notice(
            "warning: you are using cloud now. make sure to understand the data privacy risks.",
            Color::BrightYellow,
        )
    } else {
        notice(
            "you are using local processing. all your data stays on your computer.\n",
            Color::BrightGreen,
        )
    }
}

/// Says whether telemetry is sent.
pub fn telemetry_notice(disable_telemetry: bool) -> (r: Styled)
    ensures
        r == (if disable_telemetry {
            plain(
                "telemetry is disabled. no data will be sent to external services.",
                Color::BrightGreen,
            )
        } else {
            plain(
                "warning: telemetry is enabled. only error-level data will be sent.\nto disable, use the --disable-telemetry flag.",
                Color::BrightYellow,
            )
        }),
{
    if disable_telemetry {
        notice(
            "telemetry is disabled. no data will be sent to external services.",
            Color::BrightGreen,
        )
    } else {
        notice(
            "warning: telemetry is enabled. only error-level data will be sent.\nto disable, use the --disable-telemetry flag.",
            Color::BrightYellow,
        )
    }
}

/// Says where the latest changes are described.
pub fn changelog_notice() -> (r: Styled)
    ensures
        r == (Styled {
            before: "\n",
            text: "check latest changes here: https://github.com/mediar-ai/screenpipe/releases",
            after: "",
            color: Color::BrightBlue,
            bold: false,
            italic: true,
        }),
{
    Styled {
        before: "\n",
        text: "check latest changes here: https://github.com/mediar-ai/screenpipe/releases",
        after: "",
        color: Color::BrightBlue,
        bold: false,
        italic: true,
    }
}

/// The names of the pipes that are enabled, in order.
pub open spec fn enabled_ids(pipes: Seq<PipeState>) -> Seq<Seq<char>>
    decreases pipes.len(),
{
    if pipes.len() == 0 {
        Seq::empty()
    } else if pipes.last().enabled {
        enabled_ids(pipes.drop_last()).push(pipes.last().id@)
    } else {
        enabled_ids(pipes.drop_last())
    }
}

/// Finds the pipes that are to be started, and to be stopped at the end.
pub fn enabled_pipes(pipes: &Vec<PipeState>) -> (r: Vec<String>)
    ensures
        text::views(r@) == enabled_ids(pipes@),
{
    let mut r: Vec<String> = Vec::new();
    assert(text::views(r@) =~= enabled_ids(pipes@.take(0)));
    for i in 0..pipes.len()
        invariant
            text::views(r@) == enabled_ids(pipes@.take(i as int)),
    {
        let ghost had = r@;
        assert(pipes@.take(i + 1).drop_last() =~= pipes@.take(i as int));
        if pipes[i].enabled {
            r.push(pipes[i].id.clone());
            assert(text::views(r@) =~= text::views(had).push(pipes@[i as int].id@));
        }
    }
    assert(pipes@.take(pipes@.len() as int) =~= pipes@);
    r
}

/// A pipe is started exactly where it is enabled.
pub proof fn law_exactly_the_enabled_pipes_start(pipes: Seq<PipeState>, id: Seq<char>)
    ensures
        enabled_ids(pipes).contains(id) <==> exists|i: int|
            0 <= i < pipes.len() && (#[trigger] pipes[i]).enabled && pipes[i].id@ == id,
    decreases pipes.len(),
{
    if pipes.len() > 0 {
        let rest = pipes.drop_last();
        let ids = enabled_ids(rest);
        law_exactly_the_enabled_pipes_start(rest, id);
        assert(forall|i: int| 0 <= i < rest.len() ==> rest[i] == pipes[i]);
        if pipes.last().enabled {
            let all = ids.push(pipes.last().id@);
            assert(all[ids.len() as int] == pipes.last().id@);
            if ids.contains(id) {
                let k = choose|k: int| 0 <= k < ids.len() && ids[k] == id;
                assert(all[k] == id);
            }
            if all.contains(id) && !ids.contains(id) {
                let k = choose|k: int| 0 <= k < all.len() && all[k] == id;
                assert(k == ids.len()) by {
                    if k < ids.len() {
                        assert(ids[k] == id);
                    }
                }
                assert(pipes[pipes.len() - 1].enabled);
            }
        }
        if exists|i: int| 0 <= i < pipes.len() && (#[trigger] pipes[i]).enabled && pipes[i].id@ == id {
            let i = choose|i: int|
                0 <= i < pipes.len() && (#[trigger] pipes[i]).enabled && pipes[i].id@ == id;
            if i < rest.len() {
                assert(rest[i].enabled && rest[i].id@ == id);
            }
        }
    }
}

/// What a task that runs until shutdown is told.
#[derive(Clone, Copy, Debug, PartialEq, Eq, Structural)]
pub enum TaskEvent {
    /// That a run of it ended.
    Ended,
    /// That a run of it failed.
    Failed,
    /// That the program shuts down.
    Shutdown,
}

/// What becomes of a task.
#[derive(Clone, Copy, Debug, PartialEq, Eq, Structural)]
pub enum TaskStep {
    /// It runs again.
    Again,
    /// It runs again, after that many seconds.
    AgainAfter { seconds: u64 },
    /// It stops.
    Stop,
}

/// Recording goes on, whether it ended or failed, until the program shuts
/// down.
pub fn recording_step(event: TaskEvent) -> (r: TaskStep)
    ensures
        r == (if event == TaskEvent::Shutdown {
            TaskStep::Stop
        } else {
            TaskStep::Again
        }),
{
    match event {
        TaskEvent::Shutdown => TaskStep::Stop,
        _ => TaskStep::Again,
    }
}

/// Monitoring the interface goes on after a failure, with a pause, and stops
/// once it ends or the program shuts down.
pub fn ui_monitoring_step(event: TaskEvent) -> (r: TaskStep)
    ensures
        r == (if event == TaskEvent::Failed {
            TaskStep::AgainAfter { seconds: UI_RETRY_SECS }
        } else {
            TaskStep::Stop
        }),
{
    match event {
        TaskEvent::Failed => TaskStep::AgainAfter { seconds: UI_RETRY_SECS },
        _ => TaskStep::Stop,
    }
}

/// Why the program comes to its end.
#[derive(Clone, Copy, Debug, PartialEq, Eq, Structural)]
pub enum StopCause {
    RecordingEnded,
    ServerStopped,
    Interrupted,
}

/// Tells whether the audio is to be shut down and the tasks are to be told:
/// only where the user interrupts the program.
pub fn stops_tasks(cause: StopCause) -> (b: bool)
    ensures
        b == (cause == StopCause::Interrupted),
{
    match cause {
        StopCause::Interrupted => true,
        _ => false,
    }
}

} // verus!
