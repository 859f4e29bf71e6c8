//! What holds of every set-up of the MCP server.

use crate::cli::McpCommand;
use crate::files;
use crate::files::Node;
use crate::mcp;
use crate::mcp::McpNewsView;
use crate::mcp::McpStageView;
use crate::mcp::McpWorkView;
use crate::mcp::SetUp;
use crate::place::PlaceView;
use vstd::prelude::*;
use vstd::utf8::*;

verus! {

/// How far a set-up has come when it gets the news of that index.
pub open spec fn stage_before(setup: SetUp, news: Seq<McpNewsView>, i: int) -> McpStageView
    decreases i,
{
    if i <= 0 {
        McpStageView::Start
    } else {
        mcp::next_turn(setup, stage_before(setup, news, i - 1), news[i - 1]).stage
    }
}

/// Whether a set-up can be told these news, one after the other.
pub open spec fn is_run(setup: SetUp, news: Seq<McpNewsView>) -> bool {
    forall|i: int|
        0 <= i < news.len() ==> mcp::answers(#[trigger] stage_before(setup, news, i), news[i])
}

/// What a set-up asks to be done on getting the news of that index.
pub open spec fn work_at(setup: SetUp, news: Seq<McpNewsView>, i: int) -> McpWorkView {
    mcp::next_turn(setup, stage_before(setup, news, i), news[i]).work
}

/// A stage that a purge can be at.
spec fn of_purge(stage: McpStageView) -> bool {
    ||| stage is Start
    ||| stage is Python
    ||| stage is Python3
    ||| stage is Uv
    ||| stage is Looking
    ||| stage is Purging
    ||| stage is Over
}

proof fn lemma_purge_stages(setup: SetUp, news: Seq<McpNewsView>, i: int)
    requires
        is_run(setup, news),
        mcp::purge(setup.command),
        0 <= i <= news.len(),
    ensures
        of_purge(stage_before(setup, news, i)),
    decreases i,
{
    if i > 0 {
        lemma_purge_stages(setup, news, i - 1);
        assert(mcp::answers(stage_before(setup, news, i - 1), news[i - 1]));
    }
}

/// A purge removes the directory at most: it creates, downloads and writes
/// nothing.
pub proof fn law_a_purge_only_removes(setup: SetUp, news: Seq<McpNewsView>, i: int)
    requires
        is_run(setup, news),
        mcp::purge(setup.command),
        0 <= i < news.len(),
    ensures
        !(work_at(setup, news, i) is CreateDirectory),
        !(work_at(setup, news, i) is Download),
        !(work_at(setup, news, i) is WriteConfig),
{
    lemma_purge_stages(setup, news, i);
    assert(mcp::answers(stage_before(setup, news, i), news[i]));
}

/// A stage that only a download leads to.
spec fn after_download(stage: McpStageView) -> bool {
    ||| stage is Downloading
    ||| stage is Downloaded
    ||| stage == McpStageView::Configuring { fresh: true }
    ||| stage is Leftover
    ||| stage is Cleaning
}

proof fn lemma_after_download(setup: SetUp, news: Seq<McpNewsView>, i: int) -> (j: int)
    requires
        is_run(setup, news),
        0 <= i <= news.len(),
        after_download(stage_before(setup, news, i)),
    ensures
        0 <= j < i,
        work_at(setup, news, j) is Download,
    decreases i,
{
    assert(i > 0);
    let before = stage_before(setup, news, i - 1);
    assert(mcp::answers(before, news[i - 1]));
    if after_download(before) {
        lemma_after_download(setup, news, i - 1)
    } else {
        i - 1
    }
}

/// Without the flags that ask for it, a directory that the set-up found is
/// never removed: only what a download has begun to fill is.
pub proof fn law_found_files_are_kept(setup: SetUp, news: Seq<McpNewsView>, i: int)
    requires
        is_run(setup, news),
        !mcp::purge(setup.command),
        !mcp::update(setup.command),
        0 <= i < news.len(),
        work_at(setup, news, i) is RemoveDirectory,
    ensures
        exists|j: int| 0 <= j < i && #[trigger] work_at(setup, news, j) is Download,
{
    assert(mcp::answers(stage_before(setup, news, i), news[i]));
    let j = lemma_after_download(setup, news, i);
}

/// What makes a set-up download: the directory is missing, or empty, or is to
/// be updated.
pub open spec fn calls_for_download(command: McpCommand, news: McpNewsView) -> bool {
    match news {
        McpNewsView::Found { there } => !there || mcp::update(command),
        McpNewsView::Inside { result } => result is Ok && result->Ok_0,
        _ => false,
    }
}

spec fn before_download(stage: McpStageView) -> bool {
    stage is Updating || stage is Creating
}

proof fn lemma_before_download(setup: SetUp, news: Seq<McpNewsView>, i: int) -> (j: int)
    requires
        is_run(setup, news),
        0 <= i <= news.len(),
        before_download(stage_before(setup, news, i)),
    ensures
        0 <= j < i,
        calls_for_download(setup.command, news[j]),
    decreases i,
{
    assert(i > 0);
    let before = stage_before(setup, news, i - 1);
    assert(mcp::answers(before, news[i - 1]));
    if before_download(before) {
        lemma_before_download(setup, news, i - 1)
    } else {
        i - 1
    }
}

/// Files are downloaded only into a directory that was missing, or empty, or
/// was to be updated, and only from the repository's directory of the MCP
/// server.
pub proof fn law_downloads_are_called_for(setup: SetUp, news: Seq<McpNewsView>, i: int)
    requires
        is_run(setup, news),
        0 <= i < news.len(),
        work_at(setup, news, i) is Download,
    ensures
        work_at(setup, news, i) == (McpWorkView::Download {
            url: crate::github::contents_address(mcp::REPOSITORY_DIR@),
            directory: setup.place(),
        }),
        exists|j: int| 0 <= j < i && calls_for_download(setup.command, #[trigger] news[j]),
{
    assert(mcp::answers(stage_before(setup, news, i), news[i]));
    let j = lemma_before_download(setup, news, i);
}

proof fn lemma_configuring(setup: SetUp, news: Seq<McpNewsView>, i: int)
    requires
        is_run(setup, news),
        0 < i <= news.len(),
        stage_before(setup, news, i) is Configuring,
    ensures
        work_at(setup, news, i - 1) == (McpWorkView::WriteConfig {
            file: setup.config_place(),
            text: mcp::config_text(setup),
        }),
{
    assert(mcp::answers(stage_before(setup, news, i - 1), news[i - 1]));
}

/// A set-up that finishes has written the configuration as its last deed,
/// whether or not it downloaded anything.
pub proof fn law_a_finished_set_up_is_configured(setup: SetUp, news: Seq<McpNewsView>, i: int)
    requires
        is_run(setup, news),
        !mcp::purge(setup.command),
        0 <= i < news.len(),
        work_at(setup, news, i) is Finish,
    ensures
        i > 0,
        news[i] == (McpNewsView::Done { error: None }),
        work_at(setup, news, i - 1) == (McpWorkView::WriteConfig {
            file: setup.config_place(),
            text: mcp::config_text(setup),
        }),
{
    assert(mcp::answers(stage_before(setup, news, i), news[i]));
    if stage_before(setup, news, i) is Configuring {
        lemma_configuring(setup, news, i);
    } else {
        lemma_setup_stages(setup, news, i);
    }
}

proof fn lemma_setup_stages(setup: SetUp, news: Seq<McpNewsView>, i: int)
    requires
        is_run(setup, news),
        !mcp::purge(setup.command),
        0 <= i <= news.len(),
    ensures
        !(stage_before(setup, news, i) is Purging),
    decreases i,
{
    if i > 0 {
        lemma_setup_stages(setup, news, i - 1);
        assert(mcp::answers(stage_before(setup, news, i - 1), news[i - 1]));
    }
}

/// After a download that fails or is cancelled the directory is removed if it
/// is there, and the set-up fails with the download's error, whether or not
/// the removal succeeds.
pub proof fn law_a_failed_download_is_cleaned_up(
    setup: SetUp,
    error: Seq<char>,
    there: bool,
    removal: McpNewsView,
)
    ensures
        ({
            let failed = McpNewsView::Done { error: Some(error) };
            mcp::next_turn(setup, McpStageView::Downloading, failed) == mcp::go_on(
                McpWorkView::LookForDirectory { directory: setup.place() },
                McpStageView::Leftover { error },
            )
        }),
        ({
            let cancelled = "Download cancelled by user"@;
            mcp::next_turn(setup, McpStageView::Downloading, McpNewsView::Cancelled) == mcp::go_on(
                McpWorkView::LookForDirectory { directory: setup.place() },
                McpStageView::Leftover { error: cancelled },
            )
        }),
        ({
            let found = McpNewsView::Found { there };
            mcp::next_turn(setup, McpStageView::Leftover { error }, found) == (if there {
                mcp::go_on(
                    McpWorkView::RemoveDirectory { directory: setup.place() },
                    McpStageView::Cleaning { error },
                )
            } else {
                mcp::fail(error)
            })
        }),
        (mcp::next_turn(setup, McpStageView::Cleaning { error }, removal) == mcp::fail(error)),
{
}

/// Whether the news tell what is at the directory of the MCP server.
pub open spec fn is_true_of(setup: SetUp, tree: Map<PlaceView, Node>, news: McpNewsView) -> bool {
    match news {
        McpNewsView::Found { there } => there == tree.dom().contains(setup.place()),
        McpNewsView::Inside { result: Ok(empty) } => empty == !exists|p: PlaceView|
            #[trigger] tree.dom().contains(p) && setup.place().holds(p) && p != setup.place(),
        _ => true,
    }
}

/// A stage of a set-up that finds files.
spec fn of_found_files(stage: McpStageView) -> bool {
    ||| stage is Start
    ||| stage is Python
    ||| stage is Python3
    ||| stage is Uv
    ||| stage is Looking
    ||| stage is Inside
    ||| stage == McpStageView::Configuring { fresh: false }
    ||| stage is Over
}

proof fn lemma_found_files(setup: SetUp, news: Seq<McpNewsView>, tree: Map<PlaceView, Node>, i: int)
    requires
        is_run(setup, news),
        !mcp::purge(setup.command),
        !mcp::update(setup.command),
        tree.dom().contains(setup.place()),
        tree.dom().contains(setup.config_place()),
        forall|k: int| 0 <= k < news.len() ==> is_true_of(setup, tree, #[trigger] news[k]),
        0 <= i <= news.len(),
    ensures
        of_found_files(stage_before(setup, news, i)),
    decreases i,
{
    if i > 0 {
        lemma_found_files(setup, news, tree, i - 1);
        assert(mcp::answers(stage_before(setup, news, i - 1), news[i - 1]));
        assert(is_true_of(setup, tree, news[i - 1]));
        let config = setup.config_place();
        assert(setup.place().names =~= config.names.subrange(
            0,
            setup.place().names.len() as int,
        ));
        assert(setup.place().names.len() != config.names.len());
    }
}

/// After a set-up that finished, a second one in the same directory, without
/// the flags to update or purge, downloads, removes and creates nothing: it
/// writes the configuration at most, and with the same port that leaves the
/// file system as it is. `tree` is what the first one's last deed left, and
/// what the second one is told is true of it.
pub proof fn law_a_second_set_up_keeps_the_files(
    first: SetUp,
    first_news: Seq<McpNewsView>,
    i: int,
    before: Map<PlaceView, Node>,
    tree: Map<PlaceView, Node>,
    second: SetUp,
    second_news: Seq<McpNewsView>,
    j: int,
)
    requires
        is_run(first, first_news),
        !mcp::purge(first.command),
        0 <= i < first_news.len(),
        work_at(first, first_news, i) is Finish,
        work_at(first, first_news, i - 1) matches McpWorkView::WriteConfig { file, text }
            ==> files::written(before, file, encode_utf8(text)) == Some(tree),
        second.place() == first.place(),
        second.directory == first.directory,
        is_run(second, second_news),
        !mcp::purge(second.command),
        !mcp::update(second.command),
        forall|k: int|
            0 <= k < second_news.len() ==> is_true_of(second, tree, #[trigger] second_news[k]),
        0 <= j < second_news.len(),
    ensures
        !(work_at(second, second_news, j) is Download),
        !(work_at(second, second_news, j) is RemoveDirectory),
        !(work_at(second, second_news, j) is CreateDirectory),
        work_at(second, second_news, j) matches McpWorkView::WriteConfig { file, text } ==> {
            let content = encode_utf8(text);
            &&& file == first.config_place()
            &&& files::written(tree, file, content) == Some(
                tree.insert(file, Node::File { content }),
            )
            &&& mcp::port(second.command) == mcp::port(first.command) ==> files::written(
                tree,
                file,
                content,
            ) == Some(tree)
        },
{
    law_a_finished_set_up_is_configured(first, first_news, i);
    let config = first.config_place();
    assert(config.around().names =~= first.place().names);
    assert(config.names.len() != first.place().names.len());
    lemma_found_files(second, second_news, tree, j);
    assert(mcp::answers(stage_before(second, second_news, j), second_news[j]));
    assert(is_true_of(second, tree, second_news[j]));
    assert(stage_before(second, second_news, j + 1) == mcp::next_turn(
        second,
        stage_before(second, second_news, j),
        second_news[j],
    ).stage);
    lemma_found_files(second, second_news, tree, j + 1);
    if work_at(second, second_news, j) is WriteConfig && mcp::port(second.command) == mcp::port(
        first.command,
    ) {
        let content = encode_utf8(mcp::config_text(first));
        assert(tree.insert(config, Node::File { content }) =~= tree);
    }
}

/// Whatever a set-up asks to be done, it is done to the directory of the MCP
/// server, or to the configuration file in it.
pub proof fn law_only_the_directory_is_touched(setup: SetUp, stage: McpStageView, news: McpNewsView)
    ensures
        ({
            match mcp::next_turn(setup, stage, news).work {
                McpWorkView::LookForDirectory { directory } => directory == setup.place(),
                McpWorkView::RemoveDirectory { directory } => directory == setup.place(),
                McpWorkView::LookInside { directory } => directory == setup.place(),
                McpWorkView::CreateDirectory { directory } => directory == setup.place(),
                McpWorkView::Download { directory, .. } => directory == setup.place(),
                McpWorkView::WriteConfig { file, .. } => file == setup.config_place(),
                _ => true,
            }
        }),
{
}

/// Whether the news are a reply to what was asked.
pub open spec fn replies(work: McpWorkView, news: McpNewsView) -> bool {
    match work {
        McpWorkView::Probe { .. } => news is Probed,
        McpWorkView::LookForDirectory { .. } => news is Found,
        McpWorkView::LookInside { .. } => news is Inside,
        McpWorkView::RemoveDirectory { .. } => news is Done,
        McpWorkView::CreateDirectory { .. } => news is Done,
        McpWorkView::Download { .. } => news is Done || news is Cancelled,
        McpWorkView::WriteConfig { .. } => news is Done,
        McpWorkView::Finish => false,
        McpWorkView::Fail { .. } => false,
    }
}

/// Whatever a set-up asks for, any reply to that takes it further.
pub proof fn law_a_set_up_takes_any_reply(
    setup: SetUp,
    stage: McpStageView,
    news: McpNewsView,
    reply: McpNewsView,
)
    requires
        mcp::answers(stage, news),
        replies(mcp::next_turn(setup, stage, news).work, reply),
    ensures
        mcp::answers(mcp::next_turn(setup, stage, news).stage, reply),
{
}

/// How far a stage is from the start.
pub open spec fn rank(stage: McpStageView) -> int {
    match stage {
        McpStageView::Start => 0,
        McpStageView::Python => 1,
        McpStageView::Python3 => 2,
        McpStageView::Uv => 3,
        McpStageView::Looking => 4,
        McpStageView::Purging => 5,
        McpStageView::Updating => 5,
        McpStageView::Inside => 5,
        McpStageView::Creating => 6,
        McpStageView::Downloading => 7,
        McpStageView::Downloaded => 8,
        McpStageView::Leftover { .. } => 8,
        McpStageView::Configuring { .. } => 9,
        McpStageView::Cleaning { .. } => 9,
        McpStageView::Over => 10,
    }
}

/// Every turn takes a set-up further, so that none has more than ten turns; it
/// is over when it finishes or fails, and then only.
pub proof fn law_every_set_up_ends(setup: SetUp, stage: McpStageView, news: McpNewsView)
    requires
        mcp::answers(stage, news),
    ensures
        ({
            let turn = mcp::next_turn(setup, stage, news);
            &&& rank(turn.stage) > rank(stage)
            &&& turn.stage is Over <==> (turn.work is Finish || turn.work is Fail)
        }),
{
}

} // verus!
