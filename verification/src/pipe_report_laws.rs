//! What a pipe command asks and says, read off its requests and lines.

use crate::cli::OutputFormat;
use crate::cli::PipeCommand;
use crate::json;
use crate::json::Json;
use crate::pipes;
use crate::pipes::DetailView;
use crate::pipes::Method;
use crate::pipes::NewsView;
use crate::pipes::PipeView;
use crate::pipes::PipeWorkView;
use crate::pipes::Reads;
use crate::pipes::Stage;
use crate::pipes::TurnView;
use crate::report::LineView;
use crate::report::Stream;
use crate::report_laws;
use crate::text;
use crate::text_laws;
use vstd::prelude::*;

verus! {

/// Whether the address is that of the local server, on the port, with the rest
/// behind it.
pub open spec fn goes_to(url: Seq<char>, port: u16, rest: Seq<char>) -> bool {
    exists|digits: Seq<char>|
        #![trigger text_laws::reading(digits)]
        {
            &&& text_laws::is_number(digits)
            &&& text_laws::reading(digits) == port
            &&& text_laws::reads_as(url, "http://localhost:"@, digits, rest)
        }
}

/// Whether the document is an object whose only field is this text.
pub open spec fn holds_only(document: Json, key: Seq<char>, value: Seq<char>) -> bool {
    &&& json::field(document, key) == Some(Json::Str(value))
    &&& report_laws::only_two_fields(document, key, key)
}

/// Whether the command, once it asks the server, makes this kind of request of
/// the port, with the rest behind the server's address.
pub open spec fn asks(
    command: PipeCommand,
    method: Method,
    port: u16,
    rest: Seq<char>,
    reads: Reads,
) -> bool {
    pipes::ask_server(command).work matches PipeWorkView::Send { request } && {
        &&& request.method == method
        &&& goes_to(request.url, port, rest)
        &&& request.reads == reads
        &&& pipes::ask_server(command).lines.len() == 0
        &&& pipes::ask_server(command).stage == Stage::Sent
    }
}

/// What goes with the request that the command makes.
pub open spec fn sends(command: PipeCommand) -> Option<Json> {
    match pipes::ask_server(command).work {
        PipeWorkView::Send { request } => request.body,
        _ => None,
    }
}

proof fn lemma_goes_to(port: u16, rest: Seq<char>)
    ensures
        goes_to(pipes::server(port) + rest, port, rest),
{
    let digits = text::decimal(port as nat);
    text_laws::law_a_decimal_reads_back(port as nat);
    text_laws::lemma_reads_as("http://localhost:"@, digits, rest);
    assert(pipes::server(port) + rest =~= "http://localhost:"@ + digits + rest);
    assert(text_laws::reading(digits) == port);
}

/// Each command that asks for something asks it of the port of the user, and of
/// the pipe of the user where it is on one.
pub proof fn law_questions_name_the_port_and_the_pipe(
    id: String,
    url: String,
    output: OutputFormat,
    port: u16,
)
    ensures
        asks(
            PipeCommand::List { output, port },
            Method::Get,
            port,
            "/pipes/list"@,
            Reads::Document,
        ),
        asks(
            PipeCommand::Info { id, output, port },
            Method::Get,
            port,
            "/pipes/info/"@ + id@,
            Reads::Detail,
        ),
        asks(
            PipeCommand::Install { url, output, port },
            Method::Post,
            port,
            "/pipes/download"@,
            Reads::Document,
        ),
        asks(
            PipeCommand::Download { url, output, port },
            Method::Post,
            port,
            "/pipes/download"@,
            Reads::Document,
        ),
        sends(PipeCommand::List { output, port }) is None,
        sends(PipeCommand::Info { id, output, port }) is None,
        sends(PipeCommand::Install { url, output, port }) matches Some(d) && holds_only(
            d,
            "url"@,
            url@,
        ),
        sends(PipeCommand::Download { url, output, port }) matches Some(d) && holds_only(
            d,
            "url"@,
            url@,
        ),
{
    lemma_goes_to(port, "/pipes/list"@);
    lemma_goes_to(port, "/pipes/info/"@ + id@);
    lemma_goes_to(port, "/pipes/download"@);
    assert(pipes::server(port) + "/pipes/info/"@ + id@ =~= pipes::server(port) + ("/pipes/info/"@
        + id@));
}

/// Each command that changes something asks it of the port of the user, for the
/// pipe of the user where it is on one.
pub proof fn law_changes_name_the_port_and_the_pipe(id: String, yes: bool, port: u16)
    ensures
        asks(
            PipeCommand::Enable { id, port },
            Method::Post,
            port,
            "/pipes/enable"@,
            Reads::Nothing,
        ),
        asks(
            PipeCommand::Disable { id, port },
            Method::Post,
            port,
            "/pipes/disable"@,
            Reads::Nothing,
        ),
        asks(
            PipeCommand::Delete { id, yes, port },
            Method::Delete,
            port,
            "/pipes/delete/"@ + id@,
            Reads::Nothing,
        ),
        asks(
            PipeCommand::Purge { yes, port },
            Method::Post,
            port,
            "/pipes/purge"@,
            Reads::Nothing,
        ),
        sends(PipeCommand::Enable { id, port }) matches Some(d) && holds_only(d, "pipe_id"@, id@),
        sends(PipeCommand::Disable { id, port }) matches Some(d) && holds_only(d, "pipe_id"@, id@),
        sends(PipeCommand::Delete { id, yes, port }) is None,
        sends(PipeCommand::Purge { yes, port }) is None,
{
    lemma_goes_to(port, "/pipes/enable"@);
    lemma_goes_to(port, "/pipes/disable"@);
    lemma_goes_to(port, "/pipes/delete/"@ + id@);
    lemma_goes_to(port, "/pipes/purge"@);
    assert(pipes::server(port) + "/pipes/delete/"@ + id@ =~= pipes::server(port) + (
    "/pipes/delete/"@ + id@));
}

/// An update sends the pipe of the user, and the configuration that the text of
/// the user holds, to the port of the user.
pub proof fn law_an_update_sends_the_configuration(id: String, config: String, port: u16)
    ensures
        json::parsed_text(config@) matches Ok(document) ==> {
            let command = PipeCommand::Update { id, config, port };
            &&& asks(command, Method::Post, port, "/pipes/update"@, Reads::Nothing)
            &&& sends(command) matches Some(d) && {
                &&& json::field(d, "pipe_id"@) == Some(Json::Str(id@))
                &&& json::field(d, "config"@) == Some(document)
                &&& report_laws::only_two_fields(d, "pipe_id"@, "config"@)
            }
        },
{
    lemma_goes_to(port, "/pipes/update"@);
    reveal_strlit("pipe_id");
    reveal_strlit("config");
    assert("pipe_id"@.len() != "config"@.len());
}

/// A request is made at once, but for a removal without the flag that says
/// yes: there the user is asked first, about the pipe in question.
pub proof fn law_who_is_asked_first(command: PipeCommand, id: String, port: u16, other: PipeCommand)
    requires
        !(other is Delete),
        !(other is Purge),
    ensures
        pipes::next_turn(other, NewsView::Begin) == pipes::ask_server(other),
        pipes::next_turn(PipeCommand::Delete { id, yes: true, port }, NewsView::Begin)
            == pipes::ask_server(PipeCommand::Delete { id, yes: true, port }),
        pipes::next_turn(PipeCommand::Purge { yes: true, port }, NewsView::Begin)
            == pipes::ask_server(PipeCommand::Purge { yes: true, port }),
        pipes::next_turn(
            PipeCommand::Delete { id, yes: false, port },
            NewsView::Begin,
        ).work matches PipeWorkView::Ask { question } && text_laws::reads_as(
            question,
            "are you sure you want to delete pipe '"@,
            id@,
            "'? [y/N] "@,
        ),
        pipes::next_turn(PipeCommand::Purge { yes: false, port }, NewsView::Begin).work is Ask,
        pipes::next_turn(command, NewsView::Begin).lines.len() == 0,
{
    text_laws::lemma_reads_as("are you sure you want to delete pipe '"@, id@, "'? [y/N] "@);
}

/// The user says yes by the one letter, in either case, with white space around
/// it or not, and by nothing else.
pub proof fn law_what_means_yes(a: Seq<char>, m: Seq<char>, b: Seq<char>)
    requires
        text_laws::all_white(a),
        text_laws::all_white(b),
        m.len() > 0 ==> !text::white(m[0]) && !text::white(m.last()),
    ensures
        pipes::confirms(a + m + b) <==> m.len() == 1 && (m[0] == 'y' || m[0] == 'Y'),
{
    text_laws::law_trimming_takes_the_ends_off(a, m, b);
    reveal_strlit("y");
    reveal_strlit("Y");
    if m.len() == 1 && m[0] == 'y' {
        assert(m =~= "y"@);
    }
    if m.len() == 1 && m[0] == 'Y' {
        assert(m =~= "Y"@);
    }
}

/// Once the user says yes, just the request is made that would have been made
/// without asking.
pub proof fn law_a_yes_makes_the_request(command: PipeCommand, line: Seq<char>)
    ensures
        pipes::confirms(line) ==> pipes::next_turn(command, NewsView::Typed { line })
            == pipes::ask_server(command),
{
}

/// Whether a command ends with this document on the standard output, and with
/// nothing else.
pub open spec fn prints(turn: TurnView, document: Json) -> bool {
    &&& turn.work is Finish
    &&& turn.lines.len() == 1
    &&& turn.lines[0].stream == Stream::Output
    &&& turn.lines[0].text == json::pretty_text(document)
}

/// Whether a command ends with one line made of these three texts.
pub open spec fn says(turn: TurnView, a: Seq<char>, b: Seq<char>, c: Seq<char>) -> bool {
    &&& turn.work is Finish
    &&& turn.lines.len() == 1
    &&& turn.lines[0].stream == Stream::Output
    &&& text_laws::reads_as(turn.lines[0].text, a, b, c)
}

/// As JSON a list holds every pipe: its data are as many as the pipes, and each
/// is the document of the pipe at its place, enabled or not.
pub proof fn law_every_pipe_is_listed_as_json(pipes: Seq<PipeView>)
    ensures
        exists|document: Json, list: Seq<Json>|
            #![trigger report_laws::tells_success(document, Json::Array(list))]
            {
                &&& report_laws::tells_success(document, Json::Array(list))
                &&& list.len() == pipes.len()
                &&& forall|i: int| 0 <= i < pipes.len() ==> #[trigger] list[i] == pipes[i].document
                &&& prints(pipes::list_report(OutputFormat::Json, pipes), document)
            },
{
    let list = pipes.map_values(|p: PipeView| p.document);
    let document = crate::report::success_document(Json::Array(list));
    report_laws::law_a_success_is_told(Json::Array(list));
    assert(report_laws::tells_success(document, Json::Array(list)));
}

/// Whether the line tells of the pipe: its name, and whether it is enabled.
pub open spec fn tells_pipe(line: LineView, pipe: PipeView) -> bool {
    &&& line.stream == Stream::Output
    &&& text_laws::reads_as(
        line.text,
        "  id: "@,
        pipe.id,
        if pipe.enabled {
            ", enabled: true"@
        } else {
            ", enabled: false"@
        },
    )
}

/// As text a list tells of every pipe, enabled or not, one line for each, in
/// the same order.
pub proof fn law_every_pipe_is_listed_as_text(pipes: Seq<PipeView>)
    ensures
        ({
            let turn = pipes::list_report(OutputFormat::Text, pipes);
            &&& turn.work is Finish
            &&& turn.lines.len() == pipes.len() + 1
            &&& turn.lines[0].text == "available pipes:"@
            &&& turn.lines[0].stream == Stream::Output
            &&& forall|i: int|
                0 <= i < pipes.len() ==> tells_pipe(#[trigger] turn.lines[i + 1], pipes[i])
        }),
{
    let turn = pipes::list_report(OutputFormat::Text, pipes);
    reveal_strlit(", enabled: ");
    reveal_strlit("true");
    reveal_strlit("false");
    reveal_strlit(", enabled: true");
    reveal_strlit(", enabled: false");
    assert(", enabled: "@ + "true"@ =~= ", enabled: true"@);
    assert(", enabled: "@ + "false"@ =~= ", enabled: false"@);
    assert forall|i: int| 0 <= i < pipes.len() implies tells_pipe(
        #[trigger] turn.lines[i + 1],
        pipes[i],
    ) by {
        let p = pipes[i];
        let state = if p.enabled {
            "true"@
        } else {
            "false"@
        };
        text_laws::lemma_reads_as("  id: "@, p.id, ", enabled: "@ + state);
        assert(turn.lines[i + 1].text =~= "  id: "@ + p.id + (", enabled: "@ + state));
    }
}

/// A list is that of the server where it answers, without what is no pipe, and
/// that of this machine where it does not, in the format of the user.
pub proof fn law_which_pipes_are_listed(
    output: OutputFormat,
    port: u16,
    read: Seq<Option<PipeView>>,
    pipes: Seq<PipeView>,
)
    ensures
        ({
            let command = PipeCommand::List { output, port };
            &&& pipes::next_turn(command, NewsView::Listed { pipes }) == pipes::list_report(
                output,
                pipes,
            )
            &&& pipes::next_turn(command, NewsView::Decoded { read }) == pipes::list_report(
                output,
                pipes::kept(read),
            )
        }),
{
}

/// What is no pipe is left out of a list, and nothing else: the pipes of two
/// lists are those of the one and then those of the other.
pub proof fn law_all_pipes_are_kept(
    a: Seq<Option<PipeView>>,
    b: Seq<Option<PipeView>>,
    pipe: PipeView,
)
    ensures
        pipes::kept(a + b) == pipes::kept(a) + pipes::kept(b),
        pipes::kept(seq![Some(pipe)]) == seq![pipe],
        pipes::kept(seq![None]).len() == 0,
    decreases b.len(),
{
    reveal_with_fuel(pipes::kept, 2);
    assert(seq![Some(pipe)].drop_last() =~= Seq::<Option<PipeView>>::empty());
    assert(seq![None::<PipeView>].drop_last() =~= Seq::<Option<PipeView>>::empty());
    assert(pipes::kept(seq![Some(pipe)]) =~= seq![pipe]);
    if b.len() == 0 {
        assert(a + b =~= a);
        assert(pipes::kept(a) + pipes::kept(b) =~= pipes::kept(a));
    } else {
        assert((a + b).drop_last() =~= a + b.drop_last());
        law_all_pipes_are_kept(a, b.drop_last(), pipe);
        assert(pipes::kept(a + b) =~= pipes::kept(a) + pipes::kept(b));
    }
}

/// The pipes of an answer are the elements of its data, each handed on as it
/// is; an answer without such a list is an error.
pub proof fn law_the_answer_is_read_whole(output: OutputFormat, port: u16, document: Json)
    ensures
        ({
            let command = PipeCommand::List { output, port };
            let turn = pipes::next_turn(command, NewsView::Document { document });
            match json::field(document, "data"@) {
                Some(Json::Array(list)) => turn.work == (PipeWorkView::Decode { documents: list }),
                _ => turn.work == (PipeWorkView::Fail { error: "invalid response format"@ }),
            }
        }),
{
}

/// A description is printed or shown as it was told, whoever told it.
pub proof fn law_a_description_is_told(
    id: String,
    output: OutputFormat,
    port: u16,
    printed: Seq<char>,
    detail: DetailView,
)
    requires
        detail.printed == Ok::<Seq<char>, Seq<char>>(printed),
    ensures
        ({
            let command = PipeCommand::Info { id, output, port };
            let turn = pipes::next_turn(command, NewsView::Detail { detail });
            &&& turn == pipes::next_turn(command, NewsView::Described { local: Some(detail) })
            &&& output == OutputFormat::Text ==> says(
                turn,
                "pipe info: "@,
                detail.shown,
                Seq::empty(),
            )
            &&& output == OutputFormat::Json ==> says(turn, Seq::empty(), printed, Seq::empty())
        }),
{
    text_laws::lemma_reads_as_two("pipe info: "@, detail.shown);
    text_laws::lemma_reads_as_two(Seq::empty(), printed);
    assert(Seq::<char>::empty() + printed =~= printed);
}

/// A download by the server is told: as JSON by the server's own answer, as
/// text by the name of the pipe in it.
pub proof fn law_a_download_by_the_server_is_told(
    url: String,
    output: OutputFormat,
    port: u16,
    answer: Json,
)
    ensures
        ({
            let command = PipeCommand::Install { url, output, port };
            let turn = pipes::next_turn(command, NewsView::Document { document: answer });
            &&& turn == pipes::next_turn(
                PipeCommand::Download { url, output, port },
                NewsView::Document { document: answer },
            )
            &&& output == OutputFormat::Json ==> prints(turn, answer)
            &&& output == OutputFormat::Text ==> says(
                turn,
                "pipe downloaded successfully. id: "@,
                match json::field(answer, "pipe_id"@) {
                    Some(Json::Str(id)) => id,
                    _ => "unknown"@,
                },
                Seq::empty(),
            )
        }),
{
    let id = match json::field(answer, "pipe_id"@) {
        Some(Json::Str(id)) => id,
        _ => "unknown"@,
    };
    text_laws::lemma_reads_as_two("pipe downloaded successfully. id: "@, id);
}

/// A download on this machine is told: the name of the pipe, or the error, in
/// either format.
pub proof fn law_a_local_download_is_told(
    url: String,
    output: OutputFormat,
    port: u16,
    id: Seq<char>,
    error: Seq<char>,
)
    ensures
        ({
            let command = PipeCommand::Install { url, output, port };
            let old = PipeCommand::Download { url, output, port };
            let good = NewsView::Downloaded { result: Ok(id) };
            let bad = NewsView::Downloaded { result: Err(error) };
            &&& pipes::next_turn(command, good) == pipes::next_turn(old, good)
            &&& pipes::next_turn(command, bad) == pipes::next_turn(old, bad)
            &&& output == OutputFormat::Text ==> says(
                pipes::next_turn(command, good),
                "pipe downloaded successfully. id: "@,
                id,
                Seq::empty(),
            )
            &&& output == OutputFormat::Text ==> ({
                let turn = pipes::next_turn(command, bad);
                &&& turn.work is Finish
                &&& turn.lines.len() == 1
                &&& turn.lines[0].stream == Stream::Error
                &&& text_laws::reads_as(
                    turn.lines[0].text,
                    "failed to download pipe: "@,
                    error,
                    Seq::empty(),
                )
            })
            &&& output == OutputFormat::Json ==> exists|document: Json, data: Json|
                #![trigger report_laws::tells_success(document, data)]
                {
                    &&& report_laws::tells_success(document, data)
                    &&& json::field(data, "pipe_id"@) == Some(Json::Str(id))
                    &&& json::field(data, "message"@) == Some(
                        Json::Str("pipe downloaded successfully"@),
                    )
                    &&& report_laws::has_just(data, set!["pipe_id"@, "message"@])
                    &&& prints(pipes::next_turn(command, good), document)
                }
            &&& output == OutputFormat::Json ==> exists|document: Json, said: Seq<char>|
                #![trigger report_laws::tells_failure(document, said)]
                {
                    &&& report_laws::tells_failure(document, said)
                    &&& text_laws::reads_as(said, "failed to download pipe: "@, error, Seq::empty())
                    &&& prints(pipes::next_turn(command, bad), document)
                }
        }),
{
    text_laws::lemma_reads_as_two("pipe downloaded successfully. id: "@, id);
    text_laws::lemma_reads_as_two("failed to download pipe: "@, error);
    let document = pipes::downloaded_document(id);
    reveal_strlit("data");
    reveal_strlit("success");
    assert("data"@.len() == 4 && "success"@.len() == 7);
    let data = json::field(document, "data"@)->0;
    reveal_strlit("pipe_id");
    reveal_strlit("message");
    assert("pipe_id"@[0] == 'p' && "message"@[0] == 'm');
    report_laws::law_a_success_is_told(data);
    assert(report_laws::tells_success(document, data));
    let said = "failed to download pipe: "@ + error;
    report_laws::law_a_failure_is_told(said);
    assert(report_laws::tells_failure(crate::report::failure_document(said), said));
}

/// Where no server answers, the work goes to the local pipes: the same pipe,
/// address or configuration that the server was asked about, and to enable
/// where that was asked, to disable where that was.
pub proof fn law_the_fallback_does_what_was_asked(
    id: String,
    url: String,
    config: String,
    output: OutputFormat,
    yes: bool,
    port: u16,
)
    ensures
        ({
            let on = |c: PipeCommand| pipes::next_turn(c, NewsView::NoServer).work;
            &&& on(PipeCommand::List { output, port }) is ListLocal
            &&& on(PipeCommand::Info { id, output, port }) == (PipeWorkView::DescribeLocal {
                id: id@,
            })
            &&& on(PipeCommand::Install { url, output, port }) == (PipeWorkView::DownloadLocal {
                url: url@,
            })
            &&& on(PipeCommand::Download { url, output, port }) == (PipeWorkView::DownloadLocal {
                url: url@,
            })
            &&& on(PipeCommand::Delete { id, yes, port }) == (PipeWorkView::DeleteLocal { id: id@ })
            &&& on(PipeCommand::Purge { yes, port }) is PurgeLocal
            &&& sets_enabled(on(PipeCommand::Enable { id, port }), id@, true)
            &&& sets_enabled(on(PipeCommand::Disable { id, port }), id@, false)
            &&& json::parsed_text(config@) matches Ok(document) ==> on(
                PipeCommand::Update { id, config, port },
            ) == (PipeWorkView::ConfigureLocal { id: id@, config: document })
        }),
{
}

/// Whether the work sets whether that pipe is enabled, and nothing else.
pub open spec fn sets_enabled(work: PipeWorkView, id: Seq<char>, enabled: bool) -> bool {
    work matches PipeWorkView::ConfigureLocal { id: pipe, config } && {
        &&& pipe == id
        &&& json::field(config, "enabled"@) == Some(Json::Bool(enabled))
        &&& report_laws::only_two_fields(config, "enabled"@, "enabled"@)
    }
}

/// What the server has done is said with the name of the pipe.
pub proof fn law_what_the_server_did_is_said(id: String, config: String, yes: bool, port: u16)
    ensures
        says(
            pipes::next_turn(PipeCommand::Enable { id, port }, NewsView::Accepted),
            "pipe "@,
            id@,
            " enabled in running server"@,
        ),
        says(
            pipes::next_turn(PipeCommand::Disable { id, port }, NewsView::Accepted),
            "pipe "@,
            id@,
            " disabled in running server"@,
        ),
        says(
            pipes::next_turn(PipeCommand::Update { id, config, port }, NewsView::Accepted),
            "pipe "@,
            id@,
            " config updated in running server"@,
        ),
        says(
            pipes::next_turn(PipeCommand::Delete { id, yes, port }, NewsView::Accepted),
            "pipe '"@,
            id@,
            "' deleted from running server"@,
        ),
        says(
            pipes::next_turn(PipeCommand::Purge { yes, port }, NewsView::Accepted),
            Seq::empty(),
            Seq::empty(),
            "all pipes purged from running server"@,
        ),
{
    text_laws::lemma_reads_as("pipe "@, id@, " enabled in running server"@);
    text_laws::lemma_reads_as("pipe "@, id@, " disabled in running server"@);
    text_laws::lemma_reads_as("pipe "@, id@, " config updated in running server"@);
    text_laws::lemma_reads_as("pipe '"@, id@, "' deleted from running server"@);
    let none = Seq::<char>::empty();
    let purged = "all pipes purged from running server"@;
    text_laws::lemma_reads_as(none, none, purged);
    assert(none + none + purged =~= purged);
}

/// What was done on this machine is said, and what went wrong: of a removal it
/// is said, of a configuration it is the error that the command fails with.
pub proof fn law_what_was_done_here_is_said(
    id: String,
    config: String,
    yes: bool,
    port: u16,
    error: Seq<char>,
)
    ensures
        ({
            let good = |c: PipeCommand| pipes::next_turn(c, NewsView::Changed { problem: None });
            let bad = |c: PipeCommand|
                pipes::next_turn(c, NewsView::Changed { problem: Some(error) });
            let fails = PipeWorkView::Fail { error };
            &&& says(
                good(PipeCommand::Delete { id, yes, port }),
                "pipe '"@,
                id@,
                "' deleted from local files"@,
            )
            &&& says(
                bad(PipeCommand::Delete { id, yes, port }),
                "failed to delete pipe: "@,
                error,
                Seq::empty(),
            )
            &&& says(
                bad(PipeCommand::Purge { yes, port }),
                "failed to purge pipes: "@,
                error,
                Seq::empty(),
            )
            &&& bad(PipeCommand::Enable { id, port }).work == fails
            &&& bad(PipeCommand::Disable { id, port }).work == fails
            &&& bad(PipeCommand::Update { id, config, port }).work == fails
            &&& good(PipeCommand::Enable { id, port }).work is Finish
            &&& good(PipeCommand::Disable { id, port }).work is Finish
            &&& good(PipeCommand::Update { id, config, port }).work is Finish
            &&& good(PipeCommand::Purge { yes, port }).work is Finish
        }),
{
    text_laws::lemma_reads_as("pipe '"@, id@, "' deleted from local files"@);
    text_laws::lemma_reads_as_two("failed to delete pipe: "@, error);
    text_laws::lemma_reads_as_two("failed to purge pipes: "@, error);
}

/// What a command says once the local pipes are changed rests on its kind and
/// its pipe, and not on the port or the configuration.
pub proof fn law_ports_are_not_said(
    id: String,
    configs: (String, String),
    yes: (bool, bool),
    ports: (u16, u16),
    problem: Option<Seq<char>>,
)
    ensures
        ({
            let on = |c: PipeCommand| pipes::next_turn(c, NewsView::Changed { problem });
            &&& on(PipeCommand::Enable { id, port: ports.0 }) == on(
                PipeCommand::Enable { id, port: ports.1 },
            )
            &&& on(PipeCommand::Disable { id, port: ports.0 }) == on(
                PipeCommand::Disable { id, port: ports.1 },
            )
            &&& on(PipeCommand::Update { id, config: configs.0, port: ports.0 }) == on(
                PipeCommand::Update { id, config: configs.1, port: ports.1 },
            )
            &&& on(PipeCommand::Delete { id, yes: yes.0, port: ports.0 }) == on(
                PipeCommand::Delete { id, yes: yes.1, port: ports.1 },
            )
            &&& on(PipeCommand::Purge { yes: yes.0, port: ports.0 }) == on(
                PipeCommand::Purge { yes: yes.1, port: ports.1 },
            )
        }),
{
}

/// An answer that cannot be read, and a pipe that is missing, fail a command,
/// the former with the error that came.
pub proof fn law_what_cannot_be_read_fails(command: PipeCommand, error: Seq<char>)
    ensures
        pipes::next_turn(command, NewsView::Unreadable { error }).work == (PipeWorkView::Fail {
            error,
        }),
        pipes::next_turn(command, NewsView::Unreadable { error }).lines.len() == 0,
        pipes::next_turn(command, NewsView::Described { local: None }).work == (PipeWorkView::Fail {
            error: "pipe not found"@,
        }),
{
}

/// Whether a command ends with this one line.
pub open spec fn ends_saying(turn: TurnView, line: Seq<char>) -> bool {
    &&& turn.work is Finish
    &&& turn.lines.len() == 1
    &&& turn.lines[0].stream == Stream::Output
    &&& turn.lines[0].text == line
}

/// A user who does not say yes is told that what was asked about is cancelled.
pub proof fn law_a_refusal_is_told(id: String, port: u16, line: Seq<char>)
    requires
        !pipes::confirms(line),
    ensures
        ({
            let typed = NewsView::Typed { line };
            let delete = PipeCommand::Delete { id, yes: false, port };
            let purge = PipeCommand::Purge { yes: false, port };
            &&& ends_saying(pipes::next_turn(delete, typed), "pipe deletion cancelled"@)
            &&& ends_saying(pipes::next_turn(purge, typed), "pipe purge cancelled"@)
        }),
{
}

/// That no server answers is noted by what lists and describes before the
/// local pipes are looked at, and by what changes a configuration afterwards,
/// whatever the pipe and the port; a removal says what it removed.
pub proof fn law_a_missing_server_is_noted(
    id: String,
    url: String,
    config: String,
    output: OutputFormat,
    yes: bool,
    port: u16,
)
    ensures
        ({
            let on = |c: PipeCommand| pipes::next_turn(c, NewsView::NoServer).lines;
            let done = |c: PipeCommand| pipes::next_turn(c, NewsView::Changed { problem: None });
            let list = on(PipeCommand::List { output, port });
            let info = on(PipeCommand::Info { id, output, port });
            let only = "note: server not running, updated config only"@;
            &&& list.len() == 1 && list[0].stream == Stream::Output && list[0].text
                == "note: server not running, showing pipe configurations"@
            &&& info.len() == 1 && info[0].stream == Stream::Output && info[0].text
                == "note: server not running, showing pipe configuration"@
            &&& on(PipeCommand::Install { url, output, port }).len() == 0
            &&& on(PipeCommand::Download { url, output, port }).len() == 0
            &&& on(PipeCommand::Enable { id, port }).len() == 0
            &&& on(PipeCommand::Disable { id, port }).len() == 0
            &&& on(PipeCommand::Update { id, config, port }).len() == 0
            &&& on(PipeCommand::Delete { id, yes, port }).len() == 0
            &&& on(PipeCommand::Purge { yes, port }).len() == 0
            &&& ends_saying(
                done(PipeCommand::Enable { id, port }),
                "note: server not running, updated config only. pipe will start on next server launch"@,
            )
            &&& ends_saying(done(PipeCommand::Disable { id, port }), only)
            &&& ends_saying(done(PipeCommand::Update { id, config, port }), only)
            &&& ends_saying(
                done(PipeCommand::Purge { yes, port }),
                "all pipes purged from local files"@,
            )
        }),
{
}

/// A text is printed as it is, at the end of a command; an error that came in
/// its place is the error of the command.
pub proof fn law_a_text_is_shown(text: Seq<char>, error: Seq<char>)
    ensures
        ends_saying(pipes::show(Ok(text)), text),
        pipes::show(Err(error)).work == (PipeWorkView::Fail { error }),
        pipes::show(Err(error)).lines.len() == 0,
{
}

/// The request to change a configuration goes to the port, and holds the pipe
/// and the configuration as it was read; where it could not be read, there is
/// no request, and the error names why.
pub proof fn law_a_read_configuration_is_sent(
    id: Seq<char>,
    port: u16,
    config: Json,
    error: Seq<char>,
)
    ensures
        pipes::update_request_of(id, port, Ok(config)) matches Ok(request) && {
            &&& request.method == Method::Post
            &&& goes_to(request.url, port, "/pipes/update"@)
            &&& request.reads == Reads::Nothing
            &&& request.body matches Some(d) && {
                &&& json::field(d, "pipe_id"@) == Some(Json::Str(id))
                &&& json::field(d, "config"@) == Some(config)
                &&& report_laws::only_two_fields(d, "pipe_id"@, "config"@)
            }
        },
        pipes::update_request_of(id, port, Err(error)) matches Err(said) && text_laws::reads_as(
            said,
            "invalid json: "@,
            error,
            Seq::empty(),
        ),
{
    lemma_goes_to(port, "/pipes/update"@);
    reveal_strlit("pipe_id");
    reveal_strlit("config");
    assert("pipe_id"@.len() != "config"@.len());
    text_laws::lemma_reads_as_two("invalid json: "@, error);
}

} // verus!
