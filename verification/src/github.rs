//! Downloading a directory of a GitHub repository, as a machine that asks for
//! one piece of work at a time and is told how it went.

use crate::place::Place;
use crate::place::PlaceView;
use crate::report;
use crate::text;
use vstd::prelude::*;
use vstd::string::*;

verus! {

/// The user agent that a listing is asked for with.
pub const USER_AGENT: &'static str = "screenpipe-cli";

/// One entry of a directory listing.
#[derive(Debug, PartialEq, Eq)]
pub struct GitHubContent {
    pub name: String,
    pub path: String,
    pub download_url: Option<String>,
    pub content_type: String,
}

/// The view of an entry.
pub struct ContentView {
    pub name: Seq<char>,
    pub path: Seq<char>,
    pub download_url: Option<Seq<char>>,
    pub content_type: Seq<char>,
}

impl View for GitHubContent {
    type V = ContentView;

    open spec fn view(&self) -> ContentView {
        ContentView {
            name: self.name@,
            path: self.path@,
            download_url: match self.download_url {
                Some(url) => Some(url@),
                None => None,
            },
            content_type: self.content_type@,
        }
    }
}

/// The entries of a listing.
pub open spec fn listing(contents: Seq<GitHubContent>) -> Seq<ContentView> {
    contents.map_values(|c: GitHubContent| c@)
}

/// An entry that is still to be dealt with, and the directory it belongs in.
#[derive(Debug, PartialEq, Eq)]
pub struct Pending {
    pub item: GitHubContent,
    pub target: Place,
}

/// The view of a pending entry.
pub struct PendingView {
    pub item: ContentView,
    pub target: PlaceView,
}

impl View for Pending {
    type V = PendingView;

    open spec fn view(&self) -> PendingView {
        PendingView { item: self.item@, target: self.target@ }
    }
}

/// The work that a download has asked for and not been told of yet.
#[derive(Debug, PartialEq, Eq)]
pub enum Waiting {
    /// For the listing of a directory whose entries go into `target`.
    Listing { target: Place },
    /// For the answer to a request for a file.
    File { url: String, path: Place },
    /// For the file to be written.
    Content { path: Place },
    /// For a directory to be created, which `source` is then listed for.
    Directory { source: String, path: Place },
    /// For nothing: the download is over.
    Nothing,
}

/// The view of what is waited for.
pub enum WaitingView {
    Listing { target: PlaceView },
    File { url: Seq<char>, path: PlaceView },
    Content { path: PlaceView },
    Directory { source: Seq<char>, path: PlaceView },
    Nothing,
}

impl View for Waiting {
    type V = WaitingView;

    open spec fn view(&self) -> WaitingView {
        match self {
            Waiting::Listing { target } => WaitingView::Listing { target: target@ },
            Waiting::File { url, path } => WaitingView::File { url: url@, path: path@ },
            Waiting::Content { path } => WaitingView::Content { path: path@ },
            Waiting::Directory { source, path } => WaitingView::Directory {
                source: source@,
                path: path@,
            },
            Waiting::Nothing => WaitingView::Nothing,
        }
    }
}

/// A download under way. The entry to be dealt with next is the last pending
/// one.
#[derive(Debug, PartialEq, Eq)]
pub struct Download {
    pending: Vec<Pending>,
    waiting: Waiting,
}

/// The view of a download: the pending entries, the next one first, and what
/// is waited for.
pub struct DownloadView {
    pub queue: Seq<PendingView>,
    pub waiting: WaitingView,
}

impl View for Download {
    type V = DownloadView;

    closed spec fn view(&self) -> DownloadView {
        DownloadView { queue: queue_of(self.pending@), waiting: self.waiting@ }
    }
}

/// Pending entries, the last one first.
spec fn queue_of(pending: Seq<Pending>) -> Seq<PendingView> {
    pending.map_values(|p: Pending| p@).reverse()
}

/// A piece of work that a download asks for.
#[derive(Debug, PartialEq, Eq)]
pub enum Work {
    /// Get the listing at this address.
    List { url: String },
    /// Get the file at this address.
    Get { url: String },
    /// Write what was got.
    Write { path: Place },
    /// Create the directory, and those around it.
    CreateDir { path: Place },
    /// None: all is downloaded.
    Done,
    /// None: the download failed.
    Fail { error: String },
}

/// The view of a piece of work.
pub enum WorkView {
    List { url: Seq<char> },
    Get { url: Seq<char> },
    Write { path: PlaceView },
    CreateDir { path: PlaceView },
    Done,
    Fail { error: Seq<char> },
}

impl View for Work {
    type V = WorkView;

    open spec fn view(&self) -> WorkView {
        match self {
            Work::List { url } => WorkView::List { url: url@ },
            Work::Get { url } => WorkView::Get { url: url@ },
            Work::Write { path } => WorkView::Write { path: path@ },
            Work::CreateDir { path } => WorkView::CreateDir { path: path@ },
            Work::Done => WorkView::Done,
            Work::Fail { error } => WorkView::Fail { error: error@ },
        }
    }
}

/// The user agent that a request names: a listing is asked for as
/// `USER_AGENT`, a file as none.
pub open spec fn agent_for(work: WorkView) -> Option<&'static str> {
    if work is List {
        Some(USER_AGENT)
    } else {
        None
    }
}

/// The user agent that a request names.
pub fn user_agent(work: &Work) -> (r: Option<&'static str>)
    ensures
        r == agent_for(work@),
{
    match work {
        Work::List { .. } => Some(USER_AGENT),
        _ => None,
    }
}

/// How a piece of work went.
#[derive(Debug, PartialEq, Eq)]
pub enum Outcome {
    /// The listing came.
    Listed { contents: Vec<GitHubContent> },
    /// The request for the listing could not be sent.
    NotSent { error: String },
    /// The listing was refused: the status, and the text that came with it.
    Refused { status: String, body: String },
    /// The listing could not be read.
    NotRead { error: String },
    /// The file came.
    Received,
    /// The request for the file could not be sent.
    NotReceived { error: String },
    /// The request for the file was answered, and its content did not come.
    NoContent { error: String },
    /// The file was written, or the directory created.
    Stored,
    /// It was not; `path` is how the place is shown.
    NotStored { path: String, error: String },
}

/// The view of an outcome.
pub enum OutcomeView {
    Listed { contents: Seq<ContentView> },
    NotSent { error: Seq<char> },
    Refused { status: Seq<char>, body: Seq<char> },
    NotRead { error: Seq<char> },
    Received,
    NotReceived { error: Seq<char> },
    NoContent { error: Seq<char> },
    Stored,
    NotStored { path: Seq<char>, error: Seq<char> },
}

impl View for Outcome {
    type V = OutcomeView;

    open spec fn view(&self) -> OutcomeView {
        match self {
            Outcome::Listed { contents } => OutcomeView::Listed { contents: listing(contents@) },
            Outcome::NotSent { error } => OutcomeView::NotSent { error: error@ },
            Outcome::Refused { status, body } => OutcomeView::Refused {
                status: status@,
                body: body@,
            },
            Outcome::NotRead { error } => OutcomeView::NotRead { error: error@ },
            Outcome::Received => OutcomeView::Received,
            Outcome::NotReceived { error } => OutcomeView::NotReceived { error: error@ },
            Outcome::NoContent { error } => OutcomeView::NoContent { error: error@ },
            Outcome::Stored => OutcomeView::Stored,
            Outcome::NotStored { path, error } => OutcomeView::NotStored {
                path: path@,
                error: error@,
            },
        }
    }
}

/// The address that lists a directory of the repository.
pub open spec fn contents_address(path: Seq<char>) -> Seq<char> {
    "https://api.github.com/repos/mediar-ai/screenpipe/contents/"@ + path + "?ref=main"@
}

/// The address that lists a directory of the repository.
pub fn contents_url(path: &str) -> (r: String)
    ensures
        r@ == contents_address(path@),
{
    let mut r = "https://api.github.com/repos/mediar-ai/screenpipe/contents/".to_owned();
    r.append(path);
    r.append("?ref=main");
    r
}

/// Whether the outcome is one of the work that is waited for.
pub open spec fn answers(waiting: WaitingView, outcome: OutcomeView) -> bool {
    match waiting {
        WaitingView::Listing { .. } => outcome is Listed || outcome is NotSent || outcome is Refused
            || outcome is NotRead,
        WaitingView::File { .. } => outcome is Received || outcome is NotReceived
            || outcome is NoContent,
        WaitingView::Content { .. } => outcome is Stored || outcome is NotStored,
        WaitingView::Directory { .. } => outcome is Stored || outcome is NotStored,
        WaitingView::Nothing => false,
    }
}

/// A download that waits for `waiting`, and the work that it asks for.
pub open spec fn ask(queue: Seq<PendingView>, waiting: WaitingView, work: WorkView) -> (
    DownloadView,
    WorkView,
) {
    (DownloadView { queue, waiting }, work)
}

/// A download that is over, and why.
pub open spec fn failed(queue: Seq<PendingView>, error: Seq<char>) -> (DownloadView, WorkView) {
    ask(queue, WaitingView::Nothing, WorkView::Fail { error })
}

/// Turns to the next entry: a file is got where the listing says from where, a
/// directory is created, anything else is passed over.
pub open spec fn proceed(queue: Seq<PendingView>) -> (DownloadView, WorkView)
    decreases queue.len(),
{
    if queue.len() == 0 {
        ask(queue, WaitingView::Nothing, WorkView::Done)
    } else {
        let item = queue[0].item;
        let path = queue[0].target.join(item.name);
        let rest = queue.drop_first();
        if item.content_type == "file"@ && item.download_url is Some {
            let url = item.download_url->0;
            ask(rest, WaitingView::File { url, path }, WorkView::Get { url })
        } else if item.content_type == "dir"@ {
            ask(
                rest,
                WaitingView::Directory { source: item.path, path },
                WorkView::CreateDir { path },
            )
        } else {
            proceed(rest)
        }
    }
}

/// What is said of the entries that are passed over before the next piece of
/// work: a warning of each that is neither a file nor a directory.
pub open spec fn passed_over(queue: Seq<PendingView>) -> Seq<Seq<char>>
    decreases queue.len(),
{
    if queue.len() == 0 {
        Seq::empty()
    } else {
        let item = queue[0].item;
        let rest = queue.drop_first();
        if item.content_type == "file"@ {
            if item.download_url is Some {
                Seq::empty()
            } else {
                passed_over(rest)
            }
        } else if item.content_type == "dir"@ {
            Seq::empty()
        } else {
            seq!["Skipping unsupported content type: "@ + item.content_type] + passed_over(rest)
        }
    }
}

/// The entries of a listing, each to go into `target`.
pub open spec fn aimed(contents: Seq<ContentView>, target: PlaceView) -> Seq<PendingView> {
    contents.map_values(|item: ContentView| PendingView { item, target })
}

/// What the download does once told how its last piece of work went.
pub open spec fn next(download: DownloadView, outcome: OutcomeView) -> (DownloadView, WorkView) {
    let queue = download.queue;
    match (download.waiting, outcome) {
        (WaitingView::Listing { target }, OutcomeView::Listed { contents }) => proceed(
            aimed(contents, target) + queue,
        ),
        (WaitingView::File { path, .. }, OutcomeView::Received) => ask(
            queue,
            WaitingView::Content { path },
            WorkView::Write { path },
        ),
        (WaitingView::Content { .. }, OutcomeView::Stored) => proceed(queue),
        (WaitingView::Directory { source, path }, OutcomeView::Stored) => ask(
            queue,
            WaitingView::Listing { target: path },
            WorkView::List { url: contents_address(source) },
        ),
        _ => failed(queue, complaint(download.waiting, outcome)),
    }
}

/// The warnings that come with what the download does then.
pub open spec fn warnings(download: DownloadView, outcome: OutcomeView) -> Seq<Seq<char>> {
    match (download.waiting, outcome) {
        (WaitingView::Listing { target }, OutcomeView::Listed { contents }) => passed_over(
            aimed(contents, target) + download.queue,
        ),
        (WaitingView::Content { .. }, OutcomeView::Stored) => passed_over(download.queue),
        _ => Seq::empty(),
    }
}

/// What is said of work that failed.
pub open spec fn complaint(waiting: WaitingView, outcome: OutcomeView) -> Seq<char> {
    match outcome {
        OutcomeView::NotSent { error } => "Failed to send request: "@ + error,
        OutcomeView::Refused { status, body } => "GitHub API error (status "@ + status + "): "@
            + body,
        OutcomeView::NotRead { error } => "Failed to parse GitHub API response: "@ + error,
        OutcomeView::NotReceived { error } => match waiting {
            WaitingView::File { url, .. } => "Failed to download file "@ + url + ": "@ + error,
            _ => Seq::empty(),
        },
        OutcomeView::NoContent { error } => "Failed to get file content: "@ + error,
        OutcomeView::NotStored { path, error } => match waiting {
            WaitingView::Directory { .. } => "Failed to create directory "@ + path + ": "@ + error,
            _ => "Failed to write file "@ + path + ": "@ + error,
        },
        _ => Seq::empty(),
    }
}

/// Adds the entries of a listing in front of the pending ones.
fn push_listing(pending: &mut Vec<Pending>, contents: Vec<GitHubContent>, target: &Place)
    ensures
        queue_of(final(pending)@) == aimed(listing(contents@), target@) + queue_of(old(pending)@),
{
    let ghost before = queue_of(pending@);
    let ghost items = aimed(listing(contents@), target@);
    let mut contents = contents;
    proof {
        assert(items.skip(items.len() as int) + before =~= before);
    }
    while contents.len() > 0
        invariant
            contents@.len() <= items.len(),
            aimed(listing(contents@), target@) == items.take(contents@.len() as int),
            queue_of(pending@) == items.skip(contents@.len() as int) + before,
        decreases contents.len(),
    {
        let ghost had = contents@;
        let ghost queue = queue_of(pending@);
        let last = contents.pop();
        match last {
            Some(item) => {
                let ghost added = PendingView { item: item@, target: target@ };
                pending.push(Pending { item, target: target.copy() });
                proof {
                    assert(queue_of(pending@) =~= seq![added] + queue);
                    assert(aimed(listing(had), target@)[had.len() - 1] == added);
                    assert(items[had.len() - 1] == added);
                    assert(items.skip(had.len() - 1) =~= seq![added] + items.skip(
                        had.len() as int,
                    ));
                    assert(aimed(listing(contents@), target@) =~= items.take(
                        contents@.len() as int,
                    ));
                }
            },
            None => {},
        }
    }
    assert(items.skip(0) =~= items);
}

/// Turns to the next pending entry.
fn proceed_with(entries: Vec<Pending>) -> (r: (Download, Work, Vec<String>))
    ensures
        (r.0@, r.1@) == proceed(queue_of(entries@)),
        text::views(r.2@) == passed_over(queue_of(entries@)),
{
    let ghost all = entries@;
    let mut pending = entries;
    let mut said_of: Vec<String> = Vec::new();
    assert(text::views(said_of@) + passed_over(queue_of(all)) =~= passed_over(queue_of(all)));
    loop
        invariant
            all == entries@,
            proceed(queue_of(pending@)) == proceed(queue_of(all)),
            text::views(said_of@) + passed_over(queue_of(pending@)) == passed_over(queue_of(all)),
        decreases pending.len(),
    {
        let ghost queue = queue_of(pending@);
        let ghost had = text::views(said_of@);
        match pending.pop() {
            Some(entry) => {
                proof {
                    assert(queue[0] == entry@);
                    assert(queue.drop_first() =~= queue_of(pending@));
                    reveal_strlit("file");
                    reveal_strlit("dir");
                    assert("file"@.len() != "dir"@.len());
                }
                let path = entry.target.join(entry.item.name.as_str());
                if text::same_text(entry.item.content_type.as_str(), "file") {
                    match entry.item.download_url {
                        Some(url) => {
                            let work = Work::Get { url: url.clone() };
                            let waiting = Waiting::File { url, path };
                            assert(had + passed_over(queue) =~= had);
                            return (Download { pending, waiting }, work, said_of);
                        },
                        None => {},
                    }
                } else if text::same_text(entry.item.content_type.as_str(), "dir") {
                    let work = Work::CreateDir { path: path.copy() };
                    let waiting = Waiting::Directory { source: entry.item.path, path };
                    assert(had + passed_over(queue) =~= had);
                    return (Download { pending, waiting }, work, said_of);
                } else {
                    let warning = report::joined(
                        "Skipping unsupported content type: ",
                        entry.item.content_type.as_str(),
                    );
                    said_of.push(warning);
                    proof {
                        let rest = passed_over(queue_of(pending@));
                        assert(text::views(said_of@) =~= had.push(warning@));
                        assert(had.push(warning@) + rest =~= had + (seq![warning@] + rest));
                    }
                }
            },
            None => {
                assert(queue =~= queue_of(pending@));
                assert(had + passed_over(queue) =~= had);
                return (Download { pending, waiting: Waiting::Nothing }, Work::Done, said_of);
            },
        }
    }
}

fn no_warnings() -> (r: Vec<String>)
    ensures
        text::views(r@) == Seq::<Seq<char>>::empty(),
{
    let r: Vec<String> = Vec::new();
    assert(text::views(r@) =~= Seq::<Seq<char>>::empty());
    r
}

/// What is said of work that failed.
fn complain(waiting: &Waiting, outcome: &Outcome) -> (r: String)
    ensures
        r@ == complaint(waiting@, outcome@),
{
    match outcome {
        Outcome::NotSent { error } => report::joined("Failed to send request: ", error.as_str()),
        Outcome::Refused { status, body } => {
            let mut r = report::joined("GitHub API error (status ", status.as_str());
            r.append("): ");
            r.append(body.as_str());
            r
        },
        Outcome::NotRead { error } => report::joined("Failed to parse GitHub API response: ", error.as_str()),
        Outcome::NotReceived { error } => match waiting {
            Waiting::File { url, .. } => {
                let mut r = report::joined("Failed to download file ", url.as_str());
                r.append(": ");
                r.append(error.as_str());
                r
            },
            _ => String::new(),
        },
        Outcome::NoContent { error } => report::joined("Failed to get file content: ", error.as_str()),
        Outcome::NotStored { path, error } => {
            let mut r = match waiting {
                Waiting::Directory { .. } => report::joined("Failed to create directory ", path.as_str()),
                _ => report::joined("Failed to write file ", path.as_str()),
            };
            r.append(": ");
            r.append(error.as_str());
            r
        },
        _ => String::new(),
    }
}

/// Starts the download of the directory that `api_url` lists into `target`.
pub open spec fn started(api_url: Seq<char>, target: PlaceView) -> (DownloadView, WorkView) {
    ask(Seq::empty(), WaitingView::Listing { target }, WorkView::List { url: api_url })
}

impl Download {
    /// Starts the download of the directory that `api_url` lists into
    /// `target`.
    pub fn start(api_url: &str, target: &Place) -> (r: (Download, Work))
        ensures
            (r.0@, r.1@) == started(api_url@, target@),
    {
        let download = Download {
            pending: Vec::new(),
            waiting: Waiting::Listing { target: target.copy() },
        };
        assert(download@.queue =~= Seq::empty());
        (download, Work::List { url: api_url.to_owned() })
    }
}

/// Takes a download one piece of work further: given how the last one went,
/// what is to be done next, and the warnings to log before that.
pub fn download_mcp_directory(download: Download, outcome: Outcome) -> (r: (
    Download,
    Work,
    Vec<String>,
))
    requires
        answers(download@.waiting, outcome@),
    ensures
        (r.0@, r.1@) == next(download@, outcome@),
        text::views(r.2@) == warnings(download@, outcome@),
{
    let Download { pending, waiting } = download;
    let mut pending = pending;
    match (waiting, outcome) {
        (Waiting::Listing { target }, Outcome::Listed { contents }) => {
            push_listing(&mut pending, contents, &target);
            proceed_with(pending)
        },
        (Waiting::File { path, .. }, Outcome::Received) => {
            let work = Work::Write { path: path.copy() };
            (Download { pending, waiting: Waiting::Content { path } }, work, no_warnings())
        },
        (Waiting::Content { .. }, Outcome::Stored) => proceed_with(pending),
        (Waiting::Directory { source, path }, Outcome::Stored) => {
            let work = Work::List { url: contents_url(source.as_str()) };
            (Download { pending, waiting: Waiting::Listing { target: path } }, work, no_warnings())
        },
        (waiting, outcome) => {
            let error = complain(&waiting, &outcome);
            let work = Work::Fail { error };
            (Download { pending, waiting: Waiting::Nothing }, work, no_warnings())
        },
    }
}

} // verus!
