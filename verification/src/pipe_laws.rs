//! What holds of every run of a pipe command.

use crate::cli::PipeCommand;
use crate::pipes;
use crate::pipes::NewsView;
use crate::pipes::PipeWorkView;
use crate::pipes::Reads;
use crate::pipes::Stage;
use vstd::prelude::*;

verus! {

/// How far a command has come when it gets the news of that index.
pub open spec fn stage_before(command: PipeCommand, news: Seq<NewsView>, i: int) -> Stage {
    if i == 0 {
        Stage::Start
    } else {
        pipes::next_turn(command, news[i - 1]).stage
    }
}

/// Whether a command can be told these news, one after the other.
pub open spec fn is_run(command: PipeCommand, news: Seq<NewsView>) -> bool {
    forall|i: int|
        0 <= i < news.len() ==> pipes::answers(
            command,
            #[trigger] stage_before(command, news, i),
            news[i],
        )
}

/// What a command asks to be done on getting the news of that index.
pub open spec fn work_at(command: PipeCommand, news: Seq<NewsView>, i: int) -> PipeWorkView {
    pipes::next_turn(command, news[i]).work
}

/// Work on the local pipes.
pub open spec fn is_local(work: PipeWorkView) -> bool {
    ||| work is ListLocal
    ||| work is DownloadLocal
    ||| work is DescribeLocal
    ||| work is ConfigureLocal
    ||| work is DeleteLocal
    ||| work is PurgeLocal
}

/// Without the flag that says yes, a pipe is deleted and the pipes are purged,
/// by the server or locally, only after the user has said yes.
pub proof fn law_nothing_is_removed_unconfirmed(
    command: PipeCommand,
    news: Seq<NewsView>,
    i: int,
)
    requires
        is_run(command, news),
        0 <= i < news.len(),
        pipes::question(command) is Some,
        work_at(command, news, i) is Send || is_local(work_at(command, news, i)),
    ensures
        exists|j: int|
            0 <= j <= i && (#[trigger] news[j] matches NewsView::Typed { line } && pipes::confirms(
                line,
            )),
{
    assert(pipes::answers(command, stage_before(command, news, i), news[i]));
    if work_at(command, news, i) is Send {
        assert(news[i] matches NewsView::Typed { line } && pipes::confirms(line));
    } else {
        assert(stage_before(command, news, i - 1) == stage_before(command, news, i - 1));
        assert(pipes::answers(command, stage_before(command, news, i - 1), news[i - 1]));
        assert(news[i - 1] matches NewsView::Typed { line } && pipes::confirms(line));
    }
}

/// The local pipes are worked on only where the server has been asked and has
/// not answered.
pub proof fn law_the_server_comes_first(command: PipeCommand, news: Seq<NewsView>, i: int)
    requires
        is_run(command, news),
        0 <= i < news.len(),
        is_local(work_at(command, news, i)),
    ensures
        news[i] is NoServer,
        i > 0,
        work_at(command, news, i - 1) is Send,
{
    assert(pipes::answers(command, stage_before(command, news, i), news[i]));
}

/// Whether the news are a reply to what was asked.
pub open spec fn replies(work: PipeWorkView, news: NewsView) -> bool {
    match work {
        PipeWorkView::Ask { .. } => news is Typed,
        PipeWorkView::Send { request } => news is NoServer || match request.reads {
            Reads::Document => news is Document || news is Unreadable,
            Reads::Detail => news is Detail || news is Unreadable,
            Reads::Nothing => news is Accepted,
        },
        PipeWorkView::Decode { .. } => news is Decoded,
        PipeWorkView::ListLocal => news is Listed,
        PipeWorkView::DownloadLocal { .. } => news is Downloaded,
        PipeWorkView::DescribeLocal { .. } => news is Described,
        PipeWorkView::ConfigureLocal { .. } => news is Changed,
        PipeWorkView::DeleteLocal { .. } => news is Changed,
        PipeWorkView::PurgeLocal => news is Changed,
        PipeWorkView::Finish => false,
        PipeWorkView::Fail { .. } => false,
    }
}

/// Whatever a command asks for, any reply to that takes it further.
pub proof fn law_a_command_takes_any_reply(
    command: PipeCommand,
    stage: Stage,
    news: NewsView,
    reply: NewsView,
)
    requires
        pipes::answers(command, stage, news),
        replies(pipes::next_turn(command, news).work, reply),
    ensures
        pipes::answers(command, pipes::next_turn(command, news).stage, reply),
{
}

/// How far a stage is from the start.
pub open spec fn rank(stage: Stage) -> int {
    match stage {
        Stage::Start => 0,
        Stage::Asked => 1,
        Stage::Sent => 2,
        Stage::Decoding => 3,
        Stage::Local => 3,
        Stage::Over => 4,
    }
}

/// Every turn takes a command further, so that none has more than four turns;
/// it is over when it finishes or fails, and then only.
pub proof fn law_every_command_ends(command: PipeCommand, stage: Stage, news: NewsView)
    requires
        pipes::answers(command, stage, news),
    ensures
        rank(pipes::next_turn(command, news).stage) > rank(stage),
        pipes::next_turn(command, news).stage == Stage::Over <==> (pipes::next_turn(
            command,
            news,
        ).work is Finish || pipes::next_turn(command, news).work is Fail),
{
}

/// A user who does not say yes is told so, and nothing is done.
pub proof fn law_a_refusal_does_nothing(command: PipeCommand, line: Seq<char>)
    requires
        pipes::question(command) is Some,
        !pipes::confirms(line),
    ensures
        pipes::next_turn(command, NewsView::Typed { line }).work is Finish,
{
}

/// An update whose configuration is not JSON reaches neither the server nor
/// the local pipes.
pub proof fn law_only_json_is_a_configuration(id: String, config: String, port: u16)
    ensures
        crate::json::parsed_text(config@) matches Err(error) ==> pipes::next_turn(
            PipeCommand::Update { id, config, port },
            NewsView::Begin,
        ).work == (PipeWorkView::Fail { error: "invalid json: "@ + error }),
{
}

} // verus!
