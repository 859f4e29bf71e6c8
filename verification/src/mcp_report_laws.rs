//! What a set-up of the MCP server writes and prints, read off the texts.

use crate::cli::McpCommand;
use crate::cli::OutputFormat;
use crate::json;
use crate::json::Json;
use crate::mcp;
use crate::mcp::McpNewsView;
use crate::mcp::McpStageView;
use crate::mcp::McpTurnView;
use crate::mcp::McpWorkView;
use crate::mcp::SetUp;
use crate::mcp::Shown;
use crate::place::PlaceView;
use crate::place::RootView;
use crate::report::Stream;
use crate::report_laws;
use crate::text;
use crate::text_laws;
use crate::traversal;
use vstd::prelude::*;

verus! {

/// What the configuration says of the one server that it is for.
pub open spec fn configured_server(config: Json) -> Option<Json> {
    match json::field(config, "mcpServers"@) {
        Some(servers) => if report_laws::has_just(config, set!["mcpServers"@])
            && report_laws::has_just(servers, set!["screenpipe"@]) {
            json::field(servers, "screenpipe"@)
        } else {
            None
        },
        None => None,
    }
}

/// The words that the configuration has uv run with.
pub open spec fn configured_words(config: Json) -> Option<Seq<Json>> {
    match configured_server(config) {
        Some(server) => match json::field(server, "args"@) {
            Some(Json::Array(words)) => if json::field(server, "command"@) == Some(Json::Str("uv"@))
                && report_laws::has_just(server, set!["command"@, "args"@]) {
                Some(words)
            } else {
                None
            },
            _ => None,
        },
        None => None,
    }
}

/// Whether the word is the number.
pub open spec fn is_word_for(word: Json, n: nat) -> bool {
    word matches Json::Str(digits) && text_laws::is_number(digits) && text_laws::reading(digits)
        == n
}

/// Whether the configuration has the MCP server run from the directory, on the
/// port.
pub open spec fn configures(config: Json, directory: Seq<char>, port: u16) -> bool {
    configured_words(config) matches Some(words) && {
        &&& words.len() == 6
        &&& words[0] == Json::Str("--directory"@)
        &&& words[1] == Json::Str(directory)
        &&& words[2] == Json::Str("run"@)
        &&& words[3] == Json::Str("screenpipe-mcp"@)
        &&& words[4] == Json::Str("--port"@)
        &&& is_word_for(words[5], port as nat)
    }
}

/// Whether the text is a command line that runs the MCP server from the
/// directory, on the port.
pub open spec fn runs_with(line: Seq<char>, directory: Seq<char>, port: u16) -> bool {
    exists|digits: Seq<char>|
        #![trigger text_laws::reading(digits)]
        {
            &&& text_laws::is_number(digits)
            &&& text_laws::reading(digits) == port
            &&& text_laws::reads_as(
                line,
                "uv --directory "@,
                directory,
                " run screenpipe-mcp --port "@ + digits,
            )
        }
}

/// The configuration has the MCP server run from the directory that it was
/// made for, and on the port of the user.
pub proof fn law_the_port_of_the_user_is_configured(directory: Seq<char>, port: u16)
    ensures
        configures(mcp::config_document(directory, port), directory, port),
{
    text_laws::law_a_decimal_reads_back(port as nat);
    reveal_strlit("args");
    reveal_strlit("command");
    assert("args"@.len() != "command"@.len());
    let config = mcp::config_document(directory, port);
    let servers = json::field(config, "mcpServers"@)->0;
    let server = json::field(servers, "screenpipe"@)->0;
    assert(report_laws::has_just(config, set!["mcpServers"@]));
    assert(report_laws::has_just(servers, set!["screenpipe"@]));
    assert(report_laws::has_just(server, set!["command"@, "args"@]));
}

/// The command line that is shown runs the MCP server from the directory, and
/// on the port of the user.
pub proof fn law_the_port_of_the_user_is_shown(directory: Seq<char>, port: u16)
    ensures
        runs_with(mcp::run_line(directory, port), directory, port),
{
    let digits = text::decimal(port as nat);
    text_laws::law_a_decimal_reads_back(port as nat);
    let a = "uv --directory "@;
    let c = " run screenpipe-mcp --port "@ + digits;
    text_laws::lemma_reads_as(a, directory, c);
    assert(mcp::run_line(directory, port) =~= a + directory + c);
    assert(text_laws::reading(digits) == port);
}

/// Set-ups with different ports have different configurations and command
/// lines.
pub proof fn law_ports_are_told_apart(directory: Seq<char>, a: u16, b: u16)
    ensures
        mcp::config_document(directory, a) == mcp::config_document(directory, b) <==> a == b,
        mcp::run_line(directory, a) == mcp::run_line(directory, b) <==> a == b,
{
    law_the_port_of_the_user_is_configured(directory, a);
    law_the_port_of_the_user_is_configured(directory, b);
    text_laws::law_decimals_differ(a as nat, b as nat);
    let before = "uv --directory "@ + directory + " run screenpipe-mcp --port "@;
    let x = mcp::run_line(directory, a);
    let y = mcp::run_line(directory, b);
    assert(x.skip(before.len() as int) =~= text::decimal(a as nat));
    assert(y.skip(before.len() as int) =~= text::decimal(b as nat));
}

/// Whatever configuration a set-up writes, it is the text of a document that
/// has the MCP server run from the shown directory, on the port of the user.
pub proof fn law_the_written_configuration_is_the_users(
    setup: SetUp,
    directory: Option<String>,
    output: OutputFormat,
    port: u16,
    update: bool,
    purge: bool,
    stage: McpStageView,
    news: McpNewsView,
)
    requires
        setup.command == (McpCommand::Setup { directory, output, port, update, purge }),
    ensures
        mcp::next_turn(setup, stage, news).work matches McpWorkView::WriteConfig { text, .. }
            ==> exists|config: Json|
            text == #[trigger] json::pretty_text(config) && configures(
                config,
                setup.directory,
                port,
            ),
{
    law_the_port_of_the_user_is_configured(setup.directory, port);
    let config = mcp::config_document(setup.directory, port);
    assert(mcp::config_text(setup) == json::pretty_text(config));
}

/// Whether a set-up ends with this document on the standard output, and with
/// nothing else.
pub open spec fn prints(turn: McpTurnView, document: Json) -> bool {
    &&& turn.work is Finish
    &&& turn.lines.len() == 1
    &&& turn.lines[0].stream == Stream::Output
    &&& turn.lines[0].text == json::pretty_text(document)
}

/// Whether all lines go to the standard output, at the end of a set-up.
pub open spec fn speaks(turn: McpTurnView) -> bool {
    &&& turn.work is Finish
    &&& forall|i: int|
        0 <= i < turn.lines.len() ==> (#[trigger] turn.lines[i]).stream == Stream::Output
}

/// Whether the document tells of a set-up: where, with which configuration and
/// port, and whether files were downloaded.
pub open spec fn tells_set_up(
    data: Json,
    fresh: bool,
    directory: Seq<char>,
    config_file: Seq<char>,
    port: u16,
) -> bool {
    &&& json::field(data, "directory"@) == Some(Json::Str(directory))
    &&& json::field(data, "config_path"@) == Some(Json::Str(config_file))
    &&& report_laws::holds_number(data, "port"@, port as nat)
    &&& json::field(data, "config"@) matches Some(config) && configures(config, directory, port)
    &&& json::field(data, "message"@) == Some(
        Json::Str(
            if fresh {
                "MCP setup completed successfully"@
            } else {
                "MCP files already exist"@
            },
        ),
    )
    &&& report_laws::has_just(
        data,
        set!["message"@, "config"@, "config_path"@, "directory"@, "port"@],
    )
}

/// As JSON a finished set-up tells the directory, the configuration file, the
/// configuration, the port, and whether files were downloaded.
pub proof fn law_a_set_up_is_told_as_json(
    fresh: bool,
    directory: Seq<char>,
    config_file: Seq<char>,
    port: u16,
)
    ensures
        exists|document: Json, data: Json|
            #![trigger report_laws::tells_success(document, data)]
            {
                &&& report_laws::tells_success(document, data)
                &&& tells_set_up(data, fresh, directory, config_file, port)
                &&& prints(
                    mcp::setup_report(OutputFormat::Json, fresh, directory, config_file, port),
                    document,
                )
            },
{
    let document = mcp::setup_document(fresh, directory, config_file, port);
    let data = json::field(document, "data"@)->0;
    reveal_strlit("data");
    reveal_strlit("success");
    reveal_strlit("message");
    reveal_strlit("config");
    reveal_strlit("config_path");
    reveal_strlit("directory");
    reveal_strlit("port");
    assert("message"@[0] == 'm');
    assert("config"@.len() == 6 && "config_path"@.len() == 11 && "directory"@.len() == 9);
    assert("message"@.len() == 7 && "port"@.len() == 4 && "data"@.len() == 4);
    assert("success"@.len() == 7);
    law_the_port_of_the_user_is_configured(directory, port);
    text_laws::law_a_decimal_reads_back(port as nat);
    report_laws::law_a_success_is_told(data);
    assert(report_laws::tells_success(document, data));
    assert(tells_set_up(data, fresh, directory, config_file, port));
}

/// As text a finished set-up tells the directory and the configuration file,
/// and ends with the command line that runs the MCP server from that
/// directory, on the port of the user; it says where files were found, if they
/// were.
pub proof fn law_a_set_up_is_told_as_text(
    fresh: bool,
    directory: Seq<char>,
    config_file: Seq<char>,
    port: u16,
)
    ensures
        ({
            let turn = mcp::setup_report(OutputFormat::Text, fresh, directory, config_file, port);
            let n = turn.lines.len() as int;
            &&& speaks(turn)
            &&& n == if fresh {
                5
            } else {
                6int
            }
            &&& text_laws::begins_with(turn.lines[n - 1].text, "$ "@)
            &&& runs_with(turn.lines[n - 1].text.skip(2), directory, port)
            &&& text_laws::reads_as(
                turn.lines[n - 3].text,
                "Config file: "@,
                config_file,
                Seq::empty(),
            )
            &&& text_laws::reads_as(turn.lines[n - 4].text, "Directory: "@, directory, Seq::empty())
            &&& turn.lines[n - 2].text == "\nTo run the MCP server, use this command:"@
            &&& fresh ==> turn.lines[0].text == "MCP setup completed successfully"@
            &&& !fresh ==> text_laws::reads_as(
                turn.lines[0].text,
                "MCP files already exist at: "@,
                directory,
                Seq::empty(),
            )
            &&& !fresh ==> turn.lines[1].text
                == "Use --update flag to force update or --purge to start fresh"@
        }),
{
    let turn = mcp::setup_report(OutputFormat::Text, fresh, directory, config_file, port);
    let n = turn.lines.len() as int;
    let line = mcp::run_line(directory, port);
    reveal_strlit("$ ");
    law_the_port_of_the_user_is_shown(directory, port);
    text_laws::lemma_reads_as_two("$ "@, line);
    assert(turn.lines[n - 1].text =~= "$ "@ + line);
    assert(turn.lines[n - 1].text.skip(2) =~= line);
    text_laws::lemma_reads_as_two("Config file: "@, config_file);
    text_laws::lemma_reads_as_two("Directory: "@, directory);
    text_laws::lemma_reads_as_two("MCP files already exist at: "@, directory);
}

/// A purge tells the directory that was to be removed, and whether it was
/// there, in either format.
pub proof fn law_a_purge_is_told(existed: bool, directory: Seq<char>)
    ensures
        exists|document: Json, data: Json|
            #![trigger report_laws::tells_success(document, data)]
            {
                &&& report_laws::tells_success(document, data)
                &&& json::field(data, "directory"@) == Some(Json::Str(directory))
                &&& json::field(data, "message"@) == Some(
                    Json::Str(
                        if existed {
                            "MCP directory purged successfully"@
                        } else {
                            "MCP directory does not exist"@
                        },
                    ),
                )
                &&& report_laws::has_just(data, set!["message"@, "directory"@])
                &&& prints(mcp::purge_report(OutputFormat::Json, existed, directory), document)
            },
        ({
            let turn = mcp::purge_report(OutputFormat::Text, existed, directory);
            &&& speaks(turn)
            &&& turn.lines.len() == if existed {
                2
            } else {
                1int
            }
            &&& text_laws::ends_with(turn.lines.last().text, directory)
            &&& text_laws::begins_with(
                turn.lines[0].text,
                if existed {
                    "MCP directory purged successfully"@
                } else {
                    "MCP directory does not exist: "@
                },
            )
        }),
{
    let message = if existed {
        "MCP directory purged successfully"@
    } else {
        "MCP directory does not exist"@
    };
    let document = mcp::purge_document(message, directory);
    let data = json::field(document, "data"@)->0;
    reveal_strlit("data");
    reveal_strlit("success");
    reveal_strlit("message");
    reveal_strlit("directory");
    assert("message"@.len() == 7 && "directory"@.len() == 9);
    assert("data"@.len() == 4 && "success"@.len() == 7);
    report_laws::law_a_success_is_told(data);
    assert(report_laws::tells_success(document, data));
    text_laws::lemma_reads_as_two("MCP directory does not exist: "@, directory);
    text_laws::lemma_reads_as_two("Directory: "@, directory);
    let text = mcp::purge_report(OutputFormat::Text, existed, directory).lines[0].text;
    assert(text.subrange(0, text.len() as int) =~= text);
    assert(text.subrange(text.len() - directory.len(), text.len() as int) =~= directory || existed);
}

/// The kind of a piece of work.
pub open spec fn same_kind(a: McpWorkView, b: McpWorkView) -> bool {
    &&& a is Probe <==> b is Probe
    &&& a is LookForDirectory <==> b is LookForDirectory
    &&& a is RemoveDirectory <==> b is RemoveDirectory
    &&& a is LookInside <==> b is LookInside
    &&& a is CreateDirectory <==> b is CreateDirectory
    &&& a is Download <==> b is Download
    &&& a is WriteConfig <==> b is WriteConfig
    &&& a is Finish <==> b is Finish
    &&& a is Fail <==> b is Fail
}

/// What a set-up does rests on the flags alone: two with the same flags do the
/// same on the same news, whatever the directory, the port and the format.
pub proof fn law_only_the_flags_decide(
    a: SetUp,
    b: SetUp,
    directories: (Option<String>, Option<String>),
    outputs: (OutputFormat, OutputFormat),
    ports: (u16, u16),
    update: bool,
    purge: bool,
    stage: McpStageView,
    news: McpNewsView,
)
    requires
        a.command == (McpCommand::Setup {
            directory: directories.0,
            output: outputs.0,
            port: ports.0,
            update,
            purge,
        }),
        b.command == (McpCommand::Setup {
            directory: directories.1,
            output: outputs.1,
            port: ports.1,
            update,
            purge,
        }),
    ensures
        mcp::next_turn(a, stage, news).stage == mcp::next_turn(b, stage, news).stage,
        same_kind(mcp::next_turn(a, stage, news).work, mcp::next_turn(b, stage, news).work),
{
}

/// A set-up that comes to its end tells it in the format of the user, with the
/// shown directory and configuration file and the port of the user.
pub proof fn law_the_end_is_told_in_the_users_format(
    setup: SetUp,
    directory: Option<String>,
    output: OutputFormat,
    port: u16,
    update: bool,
    purge: bool,
    fresh: bool,
)
    requires
        setup.command == (McpCommand::Setup { directory, output, port, update, purge }),
    ensures
        ({
            let done = McpNewsView::Done { error: None };
            mcp::next_turn(setup, McpStageView::Configuring { fresh }, done) == mcp::setup_report(
                output,
                fresh,
                setup.directory,
                setup.config_file,
                port,
            )
        }),
        ({
            let done = McpNewsView::Done { error: None };
            mcp::next_turn(setup, McpStageView::Purging, done) == mcp::purge_report(
                output,
                true,
                setup.directory,
            )
        }),
        ({
            let missing = McpNewsView::Found { there: false };
            purge ==> mcp::next_turn(setup, McpStageView::Looking, missing) == mcp::purge_report(
                output,
                false,
                setup.directory,
            )
        }),
{
}

/// A set-up downloads exactly where the directory is missing, or found empty,
/// or found and to be updated; a purge never does.
pub proof fn law_what_is_done_with_the_directory(
    setup: SetUp,
    directory: Option<String>,
    output: OutputFormat,
    port: u16,
    update: bool,
    purge: bool,
    there: bool,
    empty: bool,
)
    requires
        setup.command == (McpCommand::Setup { directory, output, port, update, purge }),
    ensures
        ({
            let found = McpNewsView::Found { there };
            let work = mcp::next_turn(setup, McpStageView::Looking, found).work;
            &&& work is RemoveDirectory <==> there && (purge || update)
            &&& work is CreateDirectory <==> !there && !purge
            &&& work is LookInside <==> there && !purge && !update
            &&& work is Finish <==> !there && purge
        }),
        ({
            let inside = McpNewsView::Inside { result: Ok(empty) };
            let work = mcp::next_turn(setup, McpStageView::Inside, inside).work;
            &&& work is CreateDirectory <==> empty
            &&& work is WriteConfig <==> !empty
        }),
        ({
            let done = McpNewsView::Done { error: None };
            mcp::next_turn(setup, McpStageView::Updating, done).work is CreateDirectory
        }),
        ({
            let done = McpNewsView::Done { error: None };
            mcp::next_turn(setup, McpStageView::Creating, done).work is Download
        }),
        ({
            let done = McpNewsView::Done { error: None };
            mcp::next_turn(setup, McpStageView::Downloading, done).work is WriteConfig
        }),
{
}

/// A step that fails ends a set-up with its own error, but for a download,
/// which is cleaned up first.
pub proof fn law_an_error_is_passed_on(setup: SetUp, stage: McpStageView, error: Seq<char>)
    requires
        stage is Purging || stage is Updating || stage is Creating || stage is Downloaded
            || stage is Configuring,
    ensures
        ({
            let turn = mcp::next_turn(setup, stage, McpNewsView::Done { error: Some(error) });
            turn.work == (McpWorkView::Fail { error }) && turn.lines.len() == 0
        }),
        ({
            let news = McpNewsView::Inside { result: Err(error) };
            let turn = mcp::next_turn(setup, McpStageView::Inside, news);
            turn.work == (McpWorkView::Fail { error }) && turn.lines.len() == 0
        }),
{
}

/// Whether the work is on the place with this root and these names, or on the
/// configuration file right in it.
pub open spec fn works_on(work: McpWorkView, root: RootView, names: Seq<Seq<char>>) -> bool {
    match work {
        McpWorkView::LookForDirectory { directory } => directory.root == root && directory.names
            == names,
        McpWorkView::RemoveDirectory { directory } => directory.root == root && directory.names
            == names,
        McpWorkView::LookInside { directory } => directory.root == root && directory.names == names,
        McpWorkView::CreateDirectory { directory } => directory.root == root && directory.names
            == names,
        McpWorkView::Download { directory, .. } => directory.root == root && directory.names
            == names,
        McpWorkView::WriteConfig { file, .. } => {
            &&& file.root == root
            &&& file.names.len() == names.len() + 1
            &&& file.names.drop_last() == names
            &&& file.names.last() == "config.json"@
        },
        _ => true,
    }
}

/// Whatever is done, it is done to the directory that the user gave, or to
/// `mcp` right in the base directory where the user gave none; and that
/// directory is the one that is shown.
pub proof fn law_where_the_mcp_server_goes(
    path: String,
    base: PlaceView,
    shown: Shown,
    output: OutputFormat,
    port: u16,
    update: bool,
    purge: bool,
    stage: McpStageView,
    news: McpNewsView,
)
    ensures
        ({
            let directory = Some(path);
            let command = McpCommand::Setup { directory, output, port, update, purge };
            let setup = mcp::set_up(command, base, shown);
            &&& works_on(
                mcp::next_turn(setup, stage, news).work,
                RootView::Given(path@),
                Seq::empty(),
            )
            &&& setup.directory == path@
            &&& setup.config_file == shown.config_file@
        }),
        ({
            let command = McpCommand::Setup { directory: None, output, port, update, purge };
            let setup = mcp::set_up(command, base, shown);
            &&& works_on(
                mcp::next_turn(setup, stage, news).work,
                base.root,
                base.names + seq!["mcp"@],
            )
            &&& setup.directory == shown.default_directory@
            &&& setup.config_file == shown.config_file@
        }),
{
    let given = Some(path);
    let a = mcp::set_up(
        McpCommand::Setup { directory: given, output, port, update, purge },
        base,
        shown,
    );
    let b = mcp::set_up(
        McpCommand::Setup { directory: None, output, port, update, purge },
        base,
        shown,
    );
    assert(a.config_place().names.drop_last() =~= Seq::empty());
    assert(base.names.push("mcp"@) =~= base.names + seq!["mcp"@]);
    assert(b.config_place().names.drop_last() =~= base.names + seq!["mcp"@]);
}

/// What is downloaded is the directory of the MCP server in the repository.
pub proof fn law_the_mcp_server_is_downloaded(
    setup: SetUp,
    stage: McpStageView,
    news: McpNewsView,
)
    ensures
        mcp::next_turn(setup, stage, news).work matches McpWorkView::Download { url, .. }
            ==> text_laws::reads_as(
            url,
            "https://api.github.com/repos/mediar-ai/screenpipe/contents/"@,
            "screenpipe-integrations/screenpipe-mcp"@,
            "?ref=main"@,
        ),
{
    traversal::law_an_address_names_its_path("screenpipe-integrations/screenpipe-mcp"@);
}

/// Whether the work is to see whether that command is there.
pub open spec fn probes(work: McpWorkView, name: Seq<char>) -> bool {
    work matches McpWorkView::Probe { command, argument } && command == name && argument
        == "--version"@
}

/// Whether a set-up warns of the one thing, and prints nothing else.
pub open spec fn notes(turn: McpTurnView, front: Seq<char>) -> bool {
    &&& turn.lines.len() == 1
    &&& turn.lines[0].stream == Stream::Warning
    &&& text_laws::begins_with(turn.lines[0].text, front)
}

/// Before anything else `python` is looked for, then `python3`, unless the
/// former is missing, then `uv`; that Python or uv is missing is warned of, and
/// the set-up goes on.
pub proof fn law_what_is_missing_is_warned_of(setup: SetUp, news: McpNewsView, available: bool)
    ensures
        ({
            let python = "note: python is not installed."@;
            let uv = "note: uv is not installed."@;
            let probed = McpNewsView::Probed { available };
            let first = mcp::next_turn(setup, McpStageView::Start, news);
            let second = mcp::next_turn(setup, McpStageView::Python, probed);
            let third = mcp::next_turn(setup, McpStageView::Python3, probed);
            let last = mcp::next_turn(setup, McpStageView::Uv, probed);
            &&& probes(first.work, "python"@) && first.lines.len() == 0
            &&& available ==> probes(second.work, "python3"@) && second.lines.len() == 0
            &&& !available ==> probes(second.work, "uv"@) && notes(second, python)
            &&& probes(third.work, "uv"@)
            &&& available ==> third.lines.len() == 0
            &&& !available ==> notes(third, python)
            &&& last.work is LookForDirectory
            &&& available ==> last.lines.len() == 0
            &&& !available ==> notes(last, uv)
        }),
{
    let a = mcp::python_note().text;
    let b = mcp::uv_note().text;
    reveal_strlit("note: python is not installed.");
    reveal_strlit("note: uv is not installed.");
    reveal_strlit(
        "note: python is not installed. please install it from the official website: https://www.python.org/",
    );
    reveal_strlit(
        "note: uv is not installed. please install it using the instructions at: https://docs.astral.sh/uv/#installation",
    );
    assert(a.subrange(0, 30) =~= "note: python is not installed."@);
    assert(b.subrange(0, 26) =~= "note: uv is not installed."@);
}

/// A text is printed as it is, at the end of a set-up, or written into the
/// file; an error that came in its place is the error of the set-up.
pub proof fn law_a_text_is_shown_or_written(
    text: Seq<char>,
    error: Seq<char>,
    file: PlaceView,
    stage: McpStageView,
)
    ensures
        ({
            let turn = mcp::show(Ok(text));
            speaks(turn) && turn.lines.len() == 1 && turn.lines[0].text == text
        }),
        mcp::show(Err(error)).work == (McpWorkView::Fail { error }),
        mcp::write_config(Ok(text), file, stage).work == (McpWorkView::WriteConfig { file, text }),
        mcp::write_config(Ok(text), file, stage).stage == stage,
        mcp::write_config(Ok(text), file, stage).lines.len() == 0,
        mcp::write_config(Err(error), file, stage).work == (McpWorkView::Fail { error }),
        mcp::write_config(Err(error), file, stage).lines.len() == 0,
{
}

} // verus!
