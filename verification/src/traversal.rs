//! What a download does to a whole directory tree.

use crate::files;
use crate::files::Node;
use crate::github;
use crate::github::ContentView;
use crate::github::DownloadView;
use crate::github::OutcomeView;
use crate::github::PendingView;
use crate::github::WaitingView;
use crate::github::WorkView;
use crate::place;
use crate::place::PlaceView;
use crate::text_laws;
use vstd::prelude::*;

verus! {

/// An entry of a remote directory, with what is inside it.
pub struct Entry {
    pub item: ContentView,
    pub inside: Seq<Entry>,
}

/// The entries, without what is inside them.
pub open spec fn items(entries: Seq<Entry>) -> Seq<ContentView> {
    entries.map_values(|e: Entry| e.item)
}

/// A file that the listing says where to get.
pub open spec fn is_file(item: ContentView) -> bool {
    item.content_type == "file"@ && item.download_url is Some
}

/// A directory.
pub open spec fn is_dir(item: ContentView) -> bool {
    item.content_type == "dir"@
}

/// The work for one entry: a file is got and written; a directory is created
/// and listed, and then comes the work for what is inside it.
pub open spec fn entry_work(entry: Entry, target: PlaceView) -> Seq<WorkView>
    decreases entry,
{
    let path = target.join(entry.item.name);
    if is_file(entry.item) {
        seq![WorkView::Get { url: entry.item.download_url->0 }, WorkView::Write { path }]
    } else if is_dir(entry.item) {
        seq![
            WorkView::CreateDir { path },
            WorkView::List { url: github::contents_address(entry.item.path) },
        ] + tree_work(entry.inside, path)
    } else {
        Seq::empty()
    }
}

/// The work for the entries of a directory, one after the other.
pub open spec fn tree_work(entries: Seq<Entry>, target: PlaceView) -> Seq<WorkView>
    decreases entries,
{
    if entries.len() == 0 {
        Seq::empty()
    } else {
        entry_work(entries[0], target) + tree_work(
            entries.subrange(1, entries.len() as int),
            target,
        )
    }
}

/// Whether the listings say what is inside the entry.
pub open spec fn entry_listed(entry: Entry, listings: Map<Seq<char>, Seq<ContentView>>) -> bool
    decreases entry,
{
    is_dir(entry.item) ==> {
        let url = github::contents_address(entry.item.path);
        &&& listings.dom().contains(url)
        &&& listings[url] == items(entry.inside)
        &&& tree_listed(entry.inside, listings)
    }
}

/// Whether the listings say what is inside each of the entries.
pub open spec fn tree_listed(
    entries: Seq<Entry>,
    listings: Map<Seq<char>, Seq<ContentView>>,
) -> bool
    decreases entries,
{
    entries.len() == 0 || {
        &&& entry_listed(entries[0], listings)
        &&& tree_listed(entries.subrange(1, entries.len() as int), listings)
    }
}

/// How a piece of work goes where nothing fails.
pub open spec fn success(
    work: WorkView,
    listings: Map<Seq<char>, Seq<ContentView>>,
) -> OutcomeView {
    match work {
        WorkView::List { url } => OutcomeView::Listed { contents: listings[url] },
        WorkView::Get { .. } => OutcomeView::Received,
        _ => OutcomeView::Stored,
    }
}

/// The work that a download asks for, and what it asks for in the next
/// `steps` steps, where nothing fails.
pub open spec fn run(
    at: (DownloadView, WorkView),
    listings: Map<Seq<char>, Seq<ContentView>>,
    steps: nat,
) -> Seq<WorkView>
    decreases steps,
{
    if steps == 0 {
        seq![at.1]
    } else {
        seq![at.1] + run(
            github::next(at.0, success(at.1, listings)),
            listings,
            (steps - 1) as nat,
        )
    }
}

/// The number of entries in an entry, itself counted.
spec fn entry_size(entry: Entry) -> nat
    decreases entry,
{
    1 + tree_size(entry.inside)
}

/// The number of entries in a tree.
spec fn tree_size(entries: Seq<Entry>) -> nat
    decreases entries,
{
    if entries.len() == 0 {
        0
    } else {
        entry_size(entries[0]) + tree_size(entries.subrange(1, entries.len() as int))
    }
}

/// An entry, and the directory that it goes into.
struct Aimed {
    entry: Entry,
    target: PlaceView,
}

spec fn pending(queue: Seq<Aimed>) -> Seq<PendingView> {
    queue.map_values(|a: Aimed| PendingView { item: a.entry.item, target: a.target })
}

spec fn queue_work(queue: Seq<Aimed>) -> Seq<WorkView>
    decreases queue.len(),
{
    if queue.len() == 0 {
        Seq::empty()
    } else {
        entry_work(queue[0].entry, queue[0].target) + queue_work(queue.drop_first())
    }
}

spec fn queue_size(queue: Seq<Aimed>) -> nat
    decreases queue.len(),
{
    if queue.len() == 0 {
        0
    } else {
        entry_size(queue[0].entry) + queue_size(queue.drop_first())
    }
}

spec fn queue_listed(queue: Seq<Aimed>, listings: Map<Seq<char>, Seq<ContentView>>) -> bool {
    forall|i: int| 0 <= i < queue.len() ==> entry_listed((#[trigger] queue[i]).entry, listings)
}

spec fn aim(entries: Seq<Entry>, target: PlaceView) -> Seq<Aimed> {
    entries.map_values(|entry: Entry| Aimed { entry, target })
}

proof fn lemma_aim(
    entries: Seq<Entry>,
    target: PlaceView,
    rest: Seq<Aimed>,
    listings: Map<Seq<char>, Seq<ContentView>>,
)
    requires
        tree_listed(entries, listings),
        queue_listed(rest, listings),
    ensures
        queue_work(aim(entries, target) + rest) == tree_work(entries, target) + queue_work(rest),
        queue_size(aim(entries, target) + rest) == tree_size(entries) + queue_size(rest),
        queue_listed(aim(entries, target) + rest, listings),
        pending(aim(entries, target) + rest) == github::aimed(items(entries), target) + pending(
            rest,
        ),
    decreases entries.len(),
{
    let whole = aim(entries, target) + rest;
    if entries.len() == 0 {
        assert(whole =~= rest);
        assert(tree_work(entries, target) + queue_work(rest) =~= queue_work(rest));
    } else {
        let tail = entries.subrange(1, entries.len() as int);
        lemma_aim(tail, target, rest, listings);
        assert(whole.drop_first() =~= aim(tail, target) + rest);
        assert(queue_work(whole) =~= tree_work(entries, target) + queue_work(rest));
        assert forall|i: int| 0 <= i < whole.len() implies entry_listed(
            (#[trigger] whole[i]).entry,
            listings,
        ) by {
            if i > 0 {
                assert(whole[i] == (aim(tail, target) + rest)[i - 1]);
            }
        }
    }
    assert(pending(whole) =~= github::aimed(items(entries), target) + pending(rest));
}

proof fn lemma_run(queue: Seq<Aimed>, listings: Map<Seq<char>, Seq<ContentView>>)
    requires
        queue_listed(queue, listings),
    ensures
        run(github::proceed(pending(queue)), listings, queue_work(queue).len()) == queue_work(queue)
            + seq![WorkView::Done],
    decreases queue_size(queue),
{
    let at = github::proceed(pending(queue));
    if queue.len() == 0 {
        assert(queue_work(queue) + seq![WorkView::Done] =~= seq![WorkView::Done]);
    } else {
        reveal_with_fuel(run, 3);
        let first = queue[0];
        let rest = queue.drop_first();
        let path = first.target.join(first.entry.item.name);
        assert(pending(queue).drop_first() =~= pending(rest));
        assert(queue_listed(rest, listings));
        assert(entry_listed(first.entry, listings));
        if is_file(first.entry.item) {
            lemma_run(rest, listings);
            assert(run(at, listings, queue_work(queue).len()) =~= queue_work(queue)
                + seq![WorkView::Done]);
        } else if is_dir(first.entry.item) {
            let inside = aim(first.entry.inside, path) + rest;
            lemma_aim(first.entry.inside, path, rest, listings);
            lemma_run(inside, listings);
            assert(queue_work(queue) =~= seq![
                WorkView::CreateDir { path },
                WorkView::List { url: github::contents_address(first.entry.item.path) },
            ] + queue_work(inside));
            assert(run(at, listings, queue_work(queue).len()) =~= queue_work(queue)
                + seq![WorkView::Done]);
        } else {
            lemma_run(rest, listings);
            assert(queue_work(queue) =~= queue_work(rest));
        }
    }
}

/// Where nothing fails, a download lists the directory, does the work for each
/// entry of the tree in the order of the listings, what is inside a directory
/// before what follows it, and is then done.
pub proof fn law_download_walks_the_tree(
    api_url: Seq<char>,
    target: PlaceView,
    tree: Seq<Entry>,
    listings: Map<Seq<char>, Seq<ContentView>>,
)
    requires
        listings.dom().contains(api_url),
        listings[api_url] == items(tree),
        tree_listed(tree, listings),
    ensures
        run(github::started(api_url, target), listings, tree_work(tree, target).len() + 1) == seq![
            WorkView::List { url: api_url },
        ] + tree_work(tree, target) + seq![WorkView::Done],
{
    let none = Seq::<Aimed>::empty();
    let queue = aim(tree, target) + none;
    lemma_aim(tree, target, none, listings);
    assert(queue_work(queue) =~= tree_work(tree, target));
    assert(pending(queue) =~= github::aimed(items(tree), target) + Seq::<PendingView>::empty());
    lemma_run(queue, listings);
    assert(run(
        github::started(api_url, target),
        listings,
        tree_work(tree, target).len() + 1,
    ) =~= seq![WorkView::List { url: api_url }] + tree_work(tree, target) + seq![WorkView::Done]);
}

/// Whether the names of an entry, and of all that is inside it, are plain.
pub open spec fn entry_plain(entry: Entry) -> bool
    decreases entry,
{
    place::is_plain(entry.item.name) && tree_plain(entry.inside)
}

/// Whether all names in a tree are plain.
pub open spec fn tree_plain(entries: Seq<Entry>) -> bool
    decreases entries,
{
    entries.len() == 0 || {
        &&& entry_plain(entries[0])
        &&& tree_plain(entries.subrange(1, entries.len() as int))
    }
}

/// Where the names in the tree are plain, a download writes and creates only
/// in the directory that it was aimed at.
pub proof fn law_download_stays_inside(entries: Seq<Entry>, target: PlaceView, i: int)
    requires
        tree_plain(entries),
        0 <= i < tree_work(entries, target).len(),
    ensures
        tree_work(entries, target)[i] matches WorkView::Write { path } ==> target.inside(path),
        tree_work(entries, target)[i] matches WorkView::CreateDir { path } ==> target.inside(path),
    decreases entries,
{
    let first = entry_work(entries[0], target);
    let tail = entries.subrange(1, entries.len() as int);
    if i >= first.len() {
        law_download_stays_inside(tail, target, i - first.len());
    } else {
        let path = target.join(entries[0].item.name);
        assert(entry_plain(entries[0]));
        reveal_with_fuel(entry_plain, 2);
        lemma_inside_join(target, target, entries[0].item.name);
        if is_dir(entries[0].item) && !is_file(entries[0].item) && i >= 2 {
            law_download_stays_inside(entries[0].inside, path, i - 2);
            assert(first[i] == tree_work(entries[0].inside, path)[i - 2]);
            match first[i] {
                WorkView::Write { path: p } => {
                    lemma_inside_inside(target, path, p);
                },
                WorkView::CreateDir { path: p } => {
                    lemma_inside_inside(target, path, p);
                },
                _ => {},
            }
        }
    }
}

proof fn lemma_inside_join(target: PlaceView, at: PlaceView, name: Seq<char>)
    requires
        target == at || target.inside(at),
        place::is_plain(name),
    ensures
        target.inside(at),
        target.inside(at.join(name)),
{
    assert(at.names =~= at.names.subrange(0, at.names.len() as int));
    assert(target.names =~= at.join(name).names.subrange(0, target.names.len() as int));
}

proof fn lemma_inside_inside(a: PlaceView, b: PlaceView, c: PlaceView)
    requires
        a.inside(b),
        b.inside(c),
    ensures
        a.inside(c),
{
    assert(a.names =~= c.names.subrange(0, a.names.len() as int));
    assert forall|i: int| a.names.len() <= i < c.names.len() implies place::is_plain(
        #[trigger] c.names[i],
    ) by {
        if i < b.names.len() {
            assert(b.names[i] == c.names[i]);
        }
    }
}

/// Whether all that a download has pending or waits for belongs in the target,
/// under plain names.
pub open spec fn kept_inside(target: PlaceView, download: DownloadView) -> bool {
    &&& queue_inside(target, download.queue)
    &&& match download.waiting {
        WaitingView::Listing { target: t } => target.inside(t),
        WaitingView::File { path, .. } => target.inside(path),
        WaitingView::Content { path } => target.inside(path),
        WaitingView::Directory { path, .. } => target.inside(path),
        WaitingView::Nothing => true,
    }
}

/// Whether the pending entries belong in the target, under plain names.
pub open spec fn queue_inside(target: PlaceView, queue: Seq<PendingView>) -> bool {
    forall|i: int|
        0 <= i < queue.len() ==> target.inside((#[trigger] queue[i]).target) && place::is_plain(
            queue[i].item.name,
        )
}

/// Whether the work writes and creates in the target only.
pub open spec fn works_inside(target: PlaceView, work: WorkView) -> bool {
    match work {
        WorkView::Write { path } => target.inside(path),
        WorkView::CreateDir { path } => target.inside(path),
        _ => true,
    }
}

/// Whether the names in a listing are plain.
pub open spec fn names_plain(outcome: OutcomeView) -> bool {
    outcome matches OutcomeView::Listed { contents } ==> forall|i: int|
        0 <= i < contents.len() ==> place::is_plain((#[trigger] contents[i]).name)
}

proof fn lemma_proceed_inside(target: PlaceView, queue: Seq<PendingView>)
    requires
        queue_inside(target, queue),
    ensures
        kept_inside(target, github::proceed(queue).0),
        works_inside(target, github::proceed(queue).1),
    decreases queue.len(),
{
    if queue.len() > 0 {
        let rest = queue.drop_first();
        assert(target.inside(queue[0].target));
        lemma_inside_join(target, queue[0].target, queue[0].item.name);
        assert(queue_inside(target, rest)) by {
            assert forall|i: int| 0 <= i < rest.len() implies target.inside(
                (#[trigger] rest[i]).target,
            ) && place::is_plain(rest[i].item.name) by {
                assert(rest[i] == queue[i + 1]);
            }
        }
        lemma_proceed_inside(target, rest);
    }
}

/// From its start, and at every step, whether it succeeds or fails, a download
/// writes and creates only in the directory that it was aimed at, as long as
/// the names in the listings are plain.
pub proof fn law_every_step_stays_inside(
    api_url: Seq<char>,
    target: PlaceView,
    download: DownloadView,
    outcome: OutcomeView,
)
    requires
        names_plain(outcome),
    ensures
        kept_inside(target, github::started(api_url, target).0),
        works_inside(target, github::started(api_url, target).1),
        kept_inside(target, download) ==> kept_inside(target, github::next(download, outcome).0),
        kept_inside(target, download) ==> works_inside(target, github::next(download, outcome).1),
{
    assert(target.names =~= target.names.subrange(0, target.names.len() as int));
    if kept_inside(target, download) {
        match (download.waiting, outcome) {
            (WaitingView::Listing { target: t }, OutcomeView::Listed { contents }) => {
                let queue = github::aimed(contents, t) + download.queue;
                assert forall|i: int| 0 <= i < queue.len() implies target.inside(
                    (#[trigger] queue[i]).target,
                ) && place::is_plain(queue[i].item.name) by {
                    if i < contents.len() {
                        assert(queue[i].item == contents[i]);
                    } else {
                        assert(queue[i] == download.queue[i - contents.len()]);
                    }
                }
                lemma_proceed_inside(target, queue);
            },
            (WaitingView::Content { .. }, OutcomeView::Stored) => {
                lemma_proceed_inside(target, download.queue);
            },
            _ => {},
        }
    }
}

/// A file system, and the content that was got last.
pub struct Disk {
    pub tree: Map<PlaceView, Node>,
    pub got: Seq<u8>,
}

/// The file system once a piece of work is done, given the content at each
/// address; nothing where the file system refuses the work.
pub open spec fn done(
    disk: Disk,
    work: WorkView,
    contents: Map<Seq<char>, Seq<u8>>,
) -> Option<Disk> {
    match work {
        WorkView::Get { url } => Some(Disk { tree: disk.tree, got: contents[url] }),
        WorkView::Write { path } => match files::written(disk.tree, path, disk.got) {
            Some(tree) => Some(Disk { tree, got: disk.got }),
            None => None,
        },
        WorkView::CreateDir { path } => match files::created(disk.tree, path) {
            Some(tree) => Some(Disk { tree, got: disk.got }),
            None => None,
        },
        _ => Some(disk),
    }
}

/// The file system once all the work is done, one piece after the other;
/// nothing where the file system refuses one.
pub open spec fn all_done(
    disk: Disk,
    works: Seq<WorkView>,
    contents: Map<Seq<char>, Seq<u8>>,
) -> Option<Disk>
    decreases works.len(),
{
    if works.len() == 0 {
        Some(disk)
    } else {
        match done(disk, works[0], contents) {
            Some(next) => all_done(next, works.drop_first(), contents),
            None => None,
        }
    }
}

/// A file system before anything is got.
pub open spec fn untouched(tree: Map<PlaceView, Node>) -> Disk {
    Disk { tree, got: Seq::empty() }
}

/// What is there stays there: a directory stays one, and a file stays a file.
spec fn grows(a: Map<PlaceView, Node>, b: Map<PlaceView, Node>) -> bool {
    forall|p: PlaceView| #[trigger]
        a.dom().contains(p) ==> b.dom().contains(p) && (a[p] is Directory <==> b[p] is Directory)
}

proof fn lemma_grows(disk: Disk, works: Seq<WorkView>, contents: Map<Seq<char>, Seq<u8>>)
    requires
        all_done(disk, works, contents) is Some,
    ensures
        grows(disk.tree, all_done(disk, works, contents)->0.tree),
    decreases works.len(),
{
    if works.len() > 0 {
        let next = done(disk, works[0], contents)->0;
        lemma_grows(next, works.drop_first(), contents);
        assert(grows(disk.tree, next.tree));
    }
}

/// Doing the work once more from `again`, which holds at each place what the
/// first time held there by now or ends with, ends as the first time did.
proof fn lemma_done_again(
    disk: Disk,
    again: Disk,
    works: Seq<WorkView>,
    contents: Map<Seq<char>, Seq<u8>>,
)
    requires
        all_done(disk, works, contents) is Some,
        again.got == disk.got,
        again.tree.dom() == all_done(disk, works, contents)->0.tree.dom(),
        grows(again.tree, all_done(disk, works, contents)->0.tree),
        forall|p: PlaceView| #[trigger]
            again.tree.dom().contains(p) ==> again.tree[p] == all_done(
                disk,
                works,
                contents,
            )->0.tree[p] || disk.tree.dom().contains(p) && again.tree[p] == disk.tree[p],
    ensures
        all_done(again, works, contents) == all_done(disk, works, contents),
    decreases works.len(),
{
    let last = all_done(disk, works, contents)->0;
    if works.len() == 0 {
        assert(again.tree =~= last.tree);
    } else {
        let next = done(disk, works[0], contents)->0;
        let rest = works.drop_first();
        lemma_grows(next, rest, contents);
        match works[0] {
            WorkView::Write { path } => {
                lemma_grows(disk, works, contents);
                assert(next.tree.dom().contains(path));
                assert(last.tree.dom().contains(path));
                assert(again.tree.dom().contains(path.around()));
                let more = Disk {
                    tree: again.tree.insert(path, Node::File { content: again.got }),
                    got: again.got,
                };
                assert(done(again, works[0], contents) == Some(more));
                assert(more.tree.dom() =~= last.tree.dom());
                lemma_done_again(next, more, rest, contents);
            },
            WorkView::CreateDir { path } => {
                assert forall|p: PlaceView| #[trigger] p.holds(path) implies files::is_directory(
                    again.tree,
                    p,
                ) by {
                    assert(!files::in_the_way(disk.tree, path));
                    assert(next.tree.dom().contains(p));
                    assert(last.tree.dom().contains(p));
                }
                assert(files::created(again.tree, path)->0 =~= again.tree);
                lemma_done_again(next, again, rest, contents);
            },
            WorkView::Get { url } => {
                let more = Disk { tree: again.tree, got: contents[url] };
                lemma_done_again(next, more, rest, contents);
            },
            _ => {
                lemma_done_again(next, again, rest, contents);
            },
        }
    }
}

/// A download made once more, with the same answers and into what the first
/// one left, succeeds again and leaves the file system as it is: directories
/// that are there are accepted, and files are replaced by the same files.
pub proof fn law_a_second_download_changes_nothing(
    api_url: Seq<char>,
    target: PlaceView,
    tree: Seq<Entry>,
    listings: Map<Seq<char>, Seq<ContentView>>,
    contents: Map<Seq<char>, Seq<u8>>,
    before: Map<PlaceView, Node>,
    after: Disk,
)
    requires
        listings.dom().contains(api_url),
        listings[api_url] == items(tree),
        tree_listed(tree, listings),
        all_done(
            untouched(before),
            run(github::started(api_url, target), listings, tree_work(tree, target).len() + 1),
            contents,
        ) == Some(after),
    ensures
        all_done(
            untouched(after.tree),
            run(github::started(api_url, target), listings, tree_work(tree, target).len() + 1),
            contents,
        ) == Some(after),
        run(github::started(api_url, target), listings, tree_work(tree, target).len() + 1).last()
            is Done,
{
    law_download_walks_the_tree(api_url, target, tree, listings);
    let works = run(
        github::started(api_url, target),
        listings,
        tree_work(tree, target).len() + 1,
    );
    lemma_done_again(untouched(before), untouched(after.tree), works, contents);
}

/// Of what is there before a download, all stays as it is but the files that
/// the download writes.
pub proof fn law_a_download_leaves_the_rest(
    disk: Disk,
    works: Seq<WorkView>,
    contents: Map<Seq<char>, Seq<u8>>,
    place: PlaceView,
)
    requires
        all_done(disk, works, contents) is Some,
        disk.tree.dom().contains(place),
        forall|i: int| 0 <= i < works.len() ==> #[trigger] works[i] != (WorkView::Write { path: place }),
    ensures
        all_done(disk, works, contents)->0.tree.dom().contains(place),
        all_done(disk, works, contents)->0.tree[place] == disk.tree[place],
    decreases works.len(),
{
    if works.len() > 0 {
        let next = done(disk, works[0], contents)->0;
        let rest = works.drop_first();
        assert forall|i: int| 0 <= i < rest.len() implies #[trigger] rest[i] != (WorkView::Write {
            path: place,
        }) by {
            assert(rest[i] == works[i + 1]);
        }
        law_a_download_leaves_the_rest(next, rest, contents, place);
    }
}

/// Whether no name stands twice in one directory inside the entry.
pub open spec fn entry_distinct(entry: Entry) -> bool
    decreases entry,
{
    tree_distinct(entry.inside)
}

/// Whether no name stands twice in one directory of the tree.
pub open spec fn tree_distinct(entries: Seq<Entry>) -> bool
    decreases entries,
{
    entries.len() == 0 || {
        let tail = entries.subrange(1, entries.len() as int);
        &&& entry_distinct(entries[0])
        &&& tree_distinct(tail)
        &&& forall|k: int|
            0 <= k < tail.len() ==> (#[trigger] tail[k]).item.name != entries[0].item.name
    }
}

/// Whether the file system holds the entry in the directory: a file with the
/// content at its address, a directory with all that is inside it.
pub open spec fn entry_left(
    entry: Entry,
    target: PlaceView,
    tree: Map<PlaceView, Node>,
    contents: Map<Seq<char>, Seq<u8>>,
) -> bool
    decreases entry,
{
    let path = target.join(entry.item.name);
    if is_file(entry.item) {
        &&& tree.dom().contains(path)
        &&& tree[path] == Node::File { content: contents[entry.item.download_url->0] }
    } else if is_dir(entry.item) {
        &&& files::is_directory(tree, path)
        &&& tree_left(entry.inside, path, tree, contents)
    } else {
        true
    }
}

/// Whether the file system holds all the entries in the directory.
pub open spec fn tree_left(
    entries: Seq<Entry>,
    target: PlaceView,
    tree: Map<PlaceView, Node>,
    contents: Map<Seq<char>, Seq<u8>>,
) -> bool
    decreases entries,
{
    entries.len() == 0 || {
        &&& entry_left(entries[0], target, tree, contents)
        &&& tree_left(entries.subrange(1, entries.len() as int), target, tree, contents)
    }
}

proof fn lemma_done_in_parts(
    disk: Disk,
    a: Seq<WorkView>,
    b: Seq<WorkView>,
    contents: Map<Seq<char>, Seq<u8>>,
)
    ensures
        all_done(disk, a + b, contents) == (match all_done(disk, a, contents) {
            Some(mid) => all_done(mid, b, contents),
            None => None,
        }),
    decreases a.len(),
{
    if a.len() == 0 {
        assert(a + b =~= b);
    } else {
        assert((a + b).drop_first() =~= a.drop_first() + b);
        match done(disk, a[0], contents) {
            Some(next) => {
                lemma_done_in_parts(next, a.drop_first(), b, contents);
            },
            None => {},
        }
    }
}

/// What a download writes stands under the name of one of the entries.
proof fn lemma_written_under_a_name(entries: Seq<Entry>, target: PlaceView, i: int) -> (k: int)
    requires
        0 <= i < tree_work(entries, target).len(),
        tree_work(entries, target)[i] is Write,
    ensures
        0 <= k < entries.len(),
        target.join(entries[k].item.name).holds(tree_work(entries, target)[i]->Write_path),
    decreases entries,
{
    let first = entry_work(entries[0], target);
    let tail = entries.subrange(1, entries.len() as int);
    if i >= first.len() {
        let k = lemma_written_under_a_name(tail, target, i - first.len());
        assert(tail[k] == entries[k + 1]);
        k + 1
    } else {
        let path = target.join(entries[0].item.name);
        assert(path.names =~= path.names.subrange(0, path.names.len() as int));
        if !is_file(entries[0].item) {
            assert(first[i] == tree_work(entries[0].inside, path)[i - 2]);
            let k = lemma_written_under_a_name(entries[0].inside, path, i - 2);
            let inner = path.join(entries[0].inside[k].item.name);
            let written = first[i]->Write_path;
            assert(inner.names.subrange(0, path.names.len() as int) =~= path.names);
            assert(written.names.subrange(0, path.names.len() as int) =~= path.names);
        }
        0
    }
}

/// What stands under one name stays while entries of other names are dealt
/// with.
proof fn lemma_other_names_stay(
    disk: Disk,
    entries: Seq<Entry>,
    target: PlaceView,
    contents: Map<Seq<char>, Seq<u8>>,
    name: Seq<char>,
    place: PlaceView,
)
    requires
        all_done(disk, tree_work(entries, target), contents) is Some,
        forall|k: int| 0 <= k < entries.len() ==> (#[trigger] entries[k]).item.name != name,
        target.join(name).holds(place),
        disk.tree.dom().contains(place),
    ensures
        ({
            let after = all_done(disk, tree_work(entries, target), contents)->0;
            after.tree.dom().contains(place) && after.tree[place] == disk.tree[place]
        }),
{
    let works = tree_work(entries, target);
    let n = target.names.len() as int;
    assert forall|i: int| 0 <= i < works.len() implies #[trigger] works[i] != (WorkView::Write {
        path: place,
    }) by {
        if works[i] == (WorkView::Write { path: place }) {
            let k = lemma_written_under_a_name(entries, target, i);
            let there = target.join(entries[k].item.name).names;
            let here = target.join(name).names;
            assert(there[n] == place.names.subrange(0, there.len() as int)[n]);
            assert(here[n] == place.names.subrange(0, here.len() as int)[n]);
        }
    }
    law_a_download_leaves_the_rest(disk, works, contents, place);
}

/// Whether all that stands at a place or further in is the same in both.
spec fn same_within(a: Map<PlaceView, Node>, b: Map<PlaceView, Node>, at: PlaceView) -> bool {
    forall|p: PlaceView| #[trigger]
        a.dom().contains(p) && at.holds(p) ==> b.dom().contains(p) && b[p] == a[p]
}

proof fn lemma_entry_stays(
    entry: Entry,
    target: PlaceView,
    a: Map<PlaceView, Node>,
    b: Map<PlaceView, Node>,
    contents: Map<Seq<char>, Seq<u8>>,
)
    requires
        entry_left(entry, target, a, contents),
        same_within(a, b, target.join(entry.item.name)),
    ensures
        entry_left(entry, target, b, contents),
    decreases entry,
{
    let path = target.join(entry.item.name);
    assert(path.names =~= path.names.subrange(0, path.names.len() as int));
    assert(path.holds(path));
    if !is_file(entry.item) && is_dir(entry.item) {
        lemma_tree_stays(entry.inside, path, a, b, contents);
    }
}

proof fn lemma_tree_stays(
    entries: Seq<Entry>,
    target: PlaceView,
    a: Map<PlaceView, Node>,
    b: Map<PlaceView, Node>,
    contents: Map<Seq<char>, Seq<u8>>,
)
    requires
        tree_left(entries, target, a, contents),
        same_within(a, b, target),
    ensures
        tree_left(entries, target, b, contents),
    decreases entries,
{
    if entries.len() > 0 {
        let path = target.join(entries[0].item.name);
        assert forall|p: PlaceView| #[trigger]
            a.dom().contains(p) && path.holds(p) implies b.dom().contains(p) && b[p] == a[p] by {
            assert(p.names.subrange(0, target.names.len() as int) =~= target.names) by {
                assert(path.names =~= p.names.subrange(0, path.names.len() as int));
                assert forall|i: int| 0 <= i < target.names.len() implies p.names[i]
                    == target.names[i] by {
                    assert(path.names[i] == p.names.subrange(0, path.names.len() as int)[i]);
                }
            }
            assert(target.holds(p));
        }
        lemma_entry_stays(entries[0], target, a, b, contents);
        lemma_tree_stays(
            entries.subrange(1, entries.len() as int),
            target,
            a,
            b,
            contents,
        );
    }
}

proof fn lemma_entry_is_left(
    entry: Entry,
    target: PlaceView,
    disk: Disk,
    contents: Map<Seq<char>, Seq<u8>>,
)
    requires
        entry_distinct(entry),
        all_done(disk, entry_work(entry, target), contents) is Some,
    ensures
        entry_left(
            entry,
            target,
            all_done(disk, entry_work(entry, target), contents)->0.tree,
            contents,
        ),
    decreases entry,
{
    let path = target.join(entry.item.name);
    let works = entry_work(entry, target);
    reveal_with_fuel(all_done, 4);
    if is_file(entry.item) {
        assert(works.drop_first().drop_first() =~= Seq::empty());
    } else if is_dir(entry.item) {
        let inside = tree_work(entry.inside, path);
        let begin = seq![
            WorkView::CreateDir { path },
            WorkView::List { url: github::contents_address(entry.item.path) },
        ];
        lemma_done_in_parts(disk, begin, inside, contents);
        assert(begin.drop_first().drop_first() =~= Seq::empty());
        let made = all_done(disk, begin, contents)->0;
        assert(path.names =~= path.names.subrange(0, path.names.len() as int));
        assert(path.holds(path));
        assert(!files::in_the_way(disk.tree, path));
        assert(files::is_directory(made.tree, path));
        lemma_grows(made, inside, contents);
        lemma_tree_is_left(entry.inside, path, made, contents);
    }
}

proof fn lemma_tree_is_left(
    entries: Seq<Entry>,
    target: PlaceView,
    disk: Disk,
    contents: Map<Seq<char>, Seq<u8>>,
)
    requires
        tree_distinct(entries),
        all_done(disk, tree_work(entries, target), contents) is Some,
    ensures
        tree_left(
            entries,
            target,
            all_done(disk, tree_work(entries, target), contents)->0.tree,
            contents,
        ),
    decreases entries,
{
    if entries.len() > 0 {
        let tail = entries.subrange(1, entries.len() as int);
        let after = all_done(disk, tree_work(entries, target), contents)->0;
        let name = entries[0].item.name;
        lemma_done_in_parts(
            disk,
            entry_work(entries[0], target),
            tree_work(tail, target),
            contents,
        );
        let mid = all_done(disk, entry_work(entries[0], target), contents)->0;
        lemma_entry_is_left(entries[0], target, disk, contents);
        lemma_tree_is_left(tail, target, mid, contents);
        assert forall|p: PlaceView| #[trigger]
            mid.tree.dom().contains(p) && target.join(name).holds(p) implies after.tree.dom(
        ).contains(p) && after.tree[p] == mid.tree[p] by {
            lemma_other_names_stay(mid, tail, target, contents, name, p);
        }
        lemma_entry_stays(entries[0], target, mid.tree, after.tree, contents);
    }
}

/// Once a download is done, every file of the tree stands in its place, with
/// the content at its address, and every directory is there, at any depth, as
/// long as no name stands twice in one listing.
pub proof fn law_a_finished_download_leaves_the_tree(
    api_url: Seq<char>,
    target: PlaceView,
    tree: Seq<Entry>,
    listings: Map<Seq<char>, Seq<ContentView>>,
    contents: Map<Seq<char>, Seq<u8>>,
    before: Map<PlaceView, Node>,
    after: Disk,
)
    requires
        listings.dom().contains(api_url),
        listings[api_url] == items(tree),
        tree_listed(tree, listings),
        tree_distinct(tree),
        all_done(
            untouched(before),
            run(github::started(api_url, target), listings, tree_work(tree, target).len() + 1),
            contents,
        ) == Some(after),
    ensures
        tree_left(tree, target, after.tree, contents),
{
    law_download_walks_the_tree(api_url, target, tree, listings);
    let first = seq![WorkView::List { url: api_url }];
    let works = tree_work(tree, target);
    let last = seq![WorkView::Done];
    reveal_with_fuel(all_done, 3);
    lemma_done_in_parts(untouched(before), first + works, last, contents);
    lemma_done_in_parts(untouched(before), first, works, contents);
    assert(first.drop_first() =~= Seq::empty());
    assert(last.drop_first() =~= Seq::empty());
    lemma_tree_is_left(tree, target, untouched(before), contents);
}

/// The address of a listing is that of the directory with this path, on the
/// main branch: the path stands in it whole, between the repository and the
/// branch, and nothing else does.
pub proof fn law_an_address_names_its_path(path: Seq<char>)
    ensures
        text_laws::reads_as(
            github::contents_address(path),
            "https://api.github.com/repos/mediar-ai/screenpipe/contents/"@,
            path,
            "?ref=main"@,
        ),
{
    text_laws::lemma_reads_as(
        "https://api.github.com/repos/mediar-ai/screenpipe/contents/"@,
        path,
        "?ref=main"@,
    );
}

/// Directories with different paths are listed at different addresses.
pub proof fn law_addresses_differ(a: Seq<char>, b: Seq<char>)
    ensures
        github::contents_address(a) == github::contents_address(b) <==> a == b,
{
    law_an_address_names_its_path(a);
    law_an_address_names_its_path(b);
}

/// Once a directory is created, the directory that is listed is that one, by
/// the path that its own entry gave, and the listing goes into it.
pub proof fn law_a_created_directory_is_listed_next(
    queue: Seq<PendingView>,
    source: Seq<char>,
    path: PlaceView,
)
    ensures
        ({
            let waiting = WaitingView::Directory { source, path };
            let at = github::next(DownloadView { queue, waiting }, OutcomeView::Stored);
            &&& at.0.queue == queue
            &&& at.0.waiting == WaitingView::Listing { target: path }
            &&& at.1 matches WorkView::List { url } && text_laws::reads_as(
                url,
                "https://api.github.com/repos/mediar-ai/screenpipe/contents/"@,
                source,
                "?ref=main"@,
            )
        }),
{
    law_an_address_names_its_path(source);
}

/// What is said of work that failed names its cause: the error, and what the
/// work was on.
pub proof fn law_a_complaint_names_its_cause(
    download: DownloadView,
    url: Seq<char>,
    path: PlaceView,
    shown: Seq<char>,
    error: Seq<char>,
    status: Seq<char>,
)
    ensures
        complains(
            download.queue,
            WaitingView::Listing { target: path },
            OutcomeView::NotSent { error },
            "Failed to send request: "@,
            error,
            Seq::empty(),
        ),
        complains(
            download.queue,
            WaitingView::Listing { target: path },
            OutcomeView::Refused { status, body: error },
            "GitHub API error (status "@,
            status,
            "): "@ + error,
        ),
        complains(
            download.queue,
            WaitingView::Listing { target: path },
            OutcomeView::NotRead { error },
            "Failed to parse GitHub API response: "@,
            error,
            Seq::empty(),
        ),
        complains(
            download.queue,
            WaitingView::File { url, path },
            OutcomeView::NotReceived { error },
            "Failed to download file "@,
            url,
            ": "@ + error,
        ),
        complains(
            download.queue,
            WaitingView::File { url, path },
            OutcomeView::NoContent { error },
            "Failed to get file content: "@,
            error,
            Seq::empty(),
        ),
        complains(
            download.queue,
            WaitingView::Content { path },
            OutcomeView::NotStored { path: shown, error },
            "Failed to write file "@,
            shown,
            ": "@ + error,
        ),
        complains(
            download.queue,
            WaitingView::Directory { source: url, path },
            OutcomeView::NotStored { path: shown, error },
            "Failed to create directory "@,
            shown,
            ": "@ + error,
        ),
{
    let none = Seq::<char>::empty();
    let sent = "Failed to send request: "@;
    let refused = "GitHub API error (status "@;
    let parse = "Failed to parse GitHub API response: "@;
    let file = "Failed to download file "@;
    let content = "Failed to get file content: "@;
    let write = "Failed to write file "@;
    let create = "Failed to create directory "@;
    text_laws::lemma_reads_as_two(sent, error);
    text_laws::lemma_reads_as_two(parse, error);
    text_laws::lemma_reads_as_two(content, error);
    text_laws::lemma_reads_as(refused, status, "): "@ + error);
    text_laws::lemma_reads_as(file, url, ": "@ + error);
    text_laws::lemma_reads_as(write, shown, ": "@ + error);
    text_laws::lemma_reads_as(create, shown, ": "@ + error);
    assert(refused + status + "): "@ + error =~= refused + status + ("): "@ + error));
    assert(file + url + ": "@ + error =~= file + url + (": "@ + error));
    assert(write + shown + ": "@ + error =~= write + shown + (": "@ + error));
    assert(create + shown + ": "@ + error =~= create + shown + (": "@ + error));
}

/// Whether a download fails on the outcome, with a text made of these three.
pub open spec fn complains(
    queue: Seq<PendingView>,
    waiting: WaitingView,
    outcome: OutcomeView,
    a: Seq<char>,
    b: Seq<char>,
    c: Seq<char>,
) -> bool {
    github::next(DownloadView { queue, waiting }, outcome).1 matches WorkView::Fail { error }
        && text_laws::reads_as(error, a, b, c)
}

/// A download asks for the very work that it waits for.
pub open spec fn asks_what_it_awaits(at: (DownloadView, WorkView)) -> bool {
    match at.1 {
        WorkView::List { .. } => at.0.waiting is Listing,
        WorkView::Get { url } => at.0.waiting matches WaitingView::File { url: u, .. } && u == url,
        WorkView::Write { path } => at.0.waiting matches WaitingView::Content { path: p }
            && p == path,
        WorkView::CreateDir { path } => at.0.waiting matches WaitingView::Directory { path: p, .. }
            && p == path,
        WorkView::Done => at.0.waiting is Nothing && at.0.queue.len() == 0,
        WorkView::Fail { .. } => at.0.waiting is Nothing,
    }
}

proof fn lemma_proceed_asks(queue: Seq<PendingView>)
    ensures
        asks_what_it_awaits(github::proceed(queue)),
    decreases queue.len(),
{
    if queue.len() > 0 {
        lemma_proceed_asks(queue.drop_first());
    }
}

/// From its start, and after every outcome, a download waits for the work that
/// it asked for, so that any outcome of that work takes it further; it waits
/// for nothing once it is done or has failed.
pub proof fn law_download_asks_what_it_awaits(
    api_url: Seq<char>,
    target: PlaceView,
    download: DownloadView,
    outcome: OutcomeView,
)
    ensures
        asks_what_it_awaits(github::started(api_url, target)),
        github::answers(download.waiting, outcome) ==> asks_what_it_awaits(
            github::next(download, outcome),
        ),
{
    match (download.waiting, outcome) {
        (WaitingView::Listing { target }, OutcomeView::Listed { contents }) => {
            lemma_proceed_asks(github::aimed(contents, target) + download.queue);
        },
        (WaitingView::Content { .. }, OutcomeView::Stored) => {
            lemma_proceed_asks(download.queue);
        },
        _ => {},
    }
}

/// An entry that is neither a file nor a directory takes no work: it is warned
/// of once, and the download goes on as if it were not there.
pub proof fn law_an_unsupported_entry_is_only_warned_of(
    entry: PendingView,
    rest: Seq<PendingView>,
)
    requires
        entry.item.content_type != "file"@,
        entry.item.content_type != "dir"@,
    ensures
        github::proceed(seq![entry] + rest) == github::proceed(rest),
        github::passed_over(seq![entry] + rest) == seq![
            "Skipping unsupported content type: "@ + entry.item.content_type,
        ] + github::passed_over(rest),
{
    assert((seq![entry] + rest).drop_first() =~= rest);
}

/// The first piece of work that fails ends a download.
pub proof fn law_failure_ends_a_download(download: DownloadView, outcome: OutcomeView)
    requires
        github::answers(download.waiting, outcome),
        !(outcome is Listed || outcome is Received || outcome is Stored),
    ensures
        github::next(download, outcome).1 == (WorkView::Fail {
            error: github::complaint(download.waiting, outcome),
        }),
        github::next(download, outcome).0.waiting is Nothing,
{
}

/// An entry that takes work is the next one: a file is got from its own
/// address, a directory created, each at its own name in the place that the
/// entry goes to, with no warning before it.
pub proof fn law_the_next_entry_is_worked_on(
    entry: PendingView,
    rest: Seq<PendingView>,
    url: Seq<char>,
)
    ensures
        ({
            let at = github::proceed(seq![entry] + rest);
            let path = entry.target.join(entry.item.name);
            &&& entry.item.content_type == "file"@ && entry.item.download_url == Some(url) ==> {
                &&& at.1 == WorkView::Get { url }
                &&& at.0.waiting == (WaitingView::File { url, path })
                &&& at.0.queue == rest
                &&& github::passed_over(seq![entry] + rest).len() == 0
            }
            &&& entry.item.content_type == "dir"@ ==> {
                &&& at.1 == WorkView::CreateDir { path }
                &&& at.0.waiting == (WaitingView::Directory { source: entry.item.path, path })
                &&& at.0.queue == rest
                &&& github::passed_over(seq![entry] + rest).len() == 0
            }
        }),
{
    reveal_strlit("file");
    reveal_strlit("dir");
    assert("file"@.len() != "dir"@.len());
    assert((seq![entry] + rest).drop_first() =~= rest);
}

/// A file without an address takes no work and is not warned of: the download
/// goes on as if it were not there.
pub proof fn law_a_file_without_an_address_is_passed_over(
    entry: PendingView,
    rest: Seq<PendingView>,
)
    requires
        entry.item.content_type == "file"@,
        entry.item.download_url is None,
    ensures
        github::proceed(seq![entry] + rest) == github::proceed(rest),
        github::passed_over(seq![entry] + rest) == github::passed_over(rest),
{
    reveal_strlit("file");
    reveal_strlit("dir");
    assert("file"@.len() != "dir"@.len());
    assert((seq![entry] + rest).drop_first() =~= rest);
}

/// The entries of a listing come before all others, in their order, each to go
/// into the place that the listing is for; and once a file is written, the next
/// entry is the first of those that are left.
pub proof fn law_a_listing_comes_first(
    queue: Seq<PendingView>,
    target: PlaceView,
    item: ContentView,
    more: Seq<ContentView>,
)
    ensures
        ({
            let waiting = WaitingView::Listing { target };
            let download = DownloadView { queue, waiting };
            let listed = OutcomeView::Listed { contents: seq![item] + more };
            let entries = seq![PendingView { item, target }] + (more.map_values(
                |i: ContentView| PendingView { item: i, target },
            ) + queue);
            &&& github::next(download, listed) == github::proceed(entries)
            &&& github::warnings(download, listed) == github::passed_over(entries)
        }),
        ({
            let waiting = WaitingView::Listing { target };
            let download = DownloadView { queue, waiting };
            let listed = OutcomeView::Listed { contents: Seq::empty() };
            &&& github::next(download, listed) == github::proceed(queue)
            &&& github::warnings(download, listed) == github::passed_over(queue)
        }),
        ({
            let waiting = WaitingView::Content { path: target };
            let download = DownloadView { queue, waiting };
            &&& github::next(download, OutcomeView::Stored) == github::proceed(queue)
            &&& github::warnings(download, OutcomeView::Stored) == github::passed_over(queue)
        }),
{
    let entries = seq![PendingView { item, target }] + (more.map_values(
        |i: ContentView| PendingView { item: i, target },
    ) + queue);
    assert(github::aimed(seq![item] + more, target) + queue =~= entries);
    assert(github::aimed(Seq::empty(), target) + queue =~= queue);
}

/// What was got is written where the entry goes.
pub proof fn law_what_was_got_is_written(queue: Seq<PendingView>, url: Seq<char>, path: PlaceView)
    ensures
        ({
            let waiting = WaitingView::File { url, path };
            let at = github::next(DownloadView { queue, waiting }, OutcomeView::Received);
            &&& at.1 == WorkView::Write { path }
            &&& at.0.waiting == WaitingView::Content { path }
            &&& at.0.queue == queue
        }),
{
}

/// Only a listing is asked for by name.
pub proof fn law_only_a_listing_names_the_agent(work: WorkView, url: Seq<char>)
    ensures
        github::agent_for(WorkView::List { url }) == Some(github::USER_AGENT),
        github::agent_for(work) is Some <==> work is List,
{
}

} // verus!
