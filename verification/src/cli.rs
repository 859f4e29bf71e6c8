//! The commands that the program understands, and which of them leave the
//! log alone.

use vstd::prelude::*;

verus! {

/// How a command reports.
#[derive(Clone, Copy, Debug, PartialEq, Eq, Structural)]
pub enum OutputFormat {
    Json,
    Text,
}

/// What can be asked of the audio devices.
#[derive(Debug, PartialEq, Eq)]
pub enum AudioCommand {
    List { output: OutputFormat },
}

/// What can be asked of the monitors.
#[derive(Debug, PartialEq, Eq)]
pub enum VisionCommand {
    List { output: OutputFormat },
}

/// What can be asked of a migration.
#[derive(Clone, Copy, Debug, PartialEq, Eq, Structural)]
pub enum MigrationSubCommand {
    Start,
    Pause,
    Stop,
    Status,
}

/// What can be done with pipes.
#[derive(Debug, PartialEq, Eq)]
pub enum PipeCommand {
    List { output: OutputFormat, port: u16 },
    Download { url: String, output: OutputFormat, port: u16 },
    Install { url: String, output: OutputFormat, port: u16 },
    Info { id: String, output: OutputFormat, port: u16 },
    Enable { id: String, port: u16 },
    Disable { id: String, port: u16 },
    Update { id: String, config: String, port: u16 },
    Delete { id: String, yes: bool, port: u16 },
    Purge { yes: bool, port: u16 },
}

/// What can be done with the MCP server.
#[derive(Debug, PartialEq, Eq)]
pub enum McpCommand {
    Setup {
        directory: Option<String>,
        output: OutputFormat,
        port: u16,
        update: bool,
        purge: bool,
    },
}

/// A command of the program.
#[allow(inconsistent_fields)]
#[derive(Debug, PartialEq, Eq)]
pub enum Command {
    Audio { subcommand: AudioCommand },
    Vision { subcommand: VisionCommand },
    Completions,
    Pipe { subcommand: PipeCommand },
    Migrate { subcommand: Option<MigrationSubCommand>, output: OutputFormat },
    Add { output: OutputFormat },
    Mcp { subcommand: McpCommand },
}

/// The format that a pipe command reports in, where it has a choice.
pub open spec fn pipe_output(command: PipeCommand) -> Option<OutputFormat> {
    match command {
        PipeCommand::List { output, .. } => Some(output),
        PipeCommand::Download { output, .. } => Some(output),
        PipeCommand::Install { output, .. } => Some(output),
        PipeCommand::Info { output, .. } => Some(output),
        _ => None,
    }
}

/// Whether a run of the program logs: a pipe command whose output may be
/// JSON does so only for text, and the old download command never does.
pub open spec fn logs(command: Option<Command>) -> bool {
    match command {
        Some(Command::Pipe { subcommand }) => !(subcommand is Download) && pipe_output(subcommand)
            != Some(OutputFormat::Json),
        _ => true,
    }
}

/// Tells whether the log is to be set up before the command runs.
pub fn should_log(command: &Option<Command>) -> (b: bool)
    ensures
        b == logs(*command),
{
    match command {
        Some(Command::Pipe { subcommand }) => match subcommand {
            PipeCommand::List { output, .. } => *output == OutputFormat::Text,
            PipeCommand::Install { output, .. } => *output == OutputFormat::Text,
            PipeCommand::Info { output, .. } => *output == OutputFormat::Text,
            PipeCommand::Download { .. } => false,
            _ => true,
        },
        _ => true,
    }
}

/// A pipe command that reports in JSON never logs, so that its output stays
/// JSON.
pub proof fn law_json_pipe_output_is_not_logged(subcommand: PipeCommand)
    requires
        pipe_output(subcommand) == Some(OutputFormat::Json),
    ensures
        !logs(Some(Command::Pipe { subcommand })),
{
}

} // verus!
