use screenpipe_cli::github::{
    contents_url, download_mcp_directory, user_agent, Download, GitHubContent, Outcome, Work,
    USER_AGENT,
};
use screenpipe_cli::place::Place;
use std::collections::BTreeMap;

fn text(s: &str) -> String {
    s.to_string()
}

fn target() -> Place {
    Place::given("/mcp")
}

fn entry(name: &str, path: &str, url: Option<&str>, kind: &str) -> GitHubContent {
    GitHubContent {
        name: text(name),
        path: text(path),
        download_url: url.map(text),
        content_type: text(kind),
    }
}

fn file(name: &str) -> GitHubContent {
    entry(name, name, Some(&format!("https://raw/{name}")), "file")
}

fn started() -> Download {
    Download::start("https://api/root", &target()).0
}

fn failure(download: Download, outcome: Outcome) -> String {
    match download_mcp_directory(download, outcome) {
        (_, Work::Fail { error }, _) => error,
        (_, work, _) => panic!("{work:?}"),
    }
}

#[test]
fn a_listing_has_its_address() {
    assert_eq!(
        contents_url("screenpipe-integrations/screenpipe-mcp"),
        "https://api.github.com/repos/mediar-ai/screenpipe/contents/screenpipe-integrations/screenpipe-mcp?ref=main"
    );
    assert_eq!(USER_AGENT, "screenpipe-cli");
}

#[test]
fn a_download_starts_with_the_listing() {
    let (_, work) = Download::start("https://api/root", &target());
    assert_eq!(work, Work::List { url: text("https://api/root") });
}

#[test]
fn an_empty_directory_is_done_at_once() {
    let (_, work, warnings) = download_mcp_directory(started(), Outcome::Listed { contents: vec![] });
    assert_eq!(work, Work::Done);
    assert!(warnings.is_empty());
}

#[test]
fn a_tree_is_walked_in_the_order_of_its_listings() {
    let mut seen: Vec<Work> = vec![];
    let (mut download, mut work) = Download::start("https://api/root", &target());
    while work != Work::Done {
        let outcome = match &work {
            Work::List { url } if url == "https://api/root" => Outcome::Listed {
                contents: vec![
                    file("a.py"),
                    entry("src", "mcp/src", None, "dir"),
                    file("z.md"),
                ],
            },
            Work::List { url } => {
                assert_eq!(*url, contents_url("mcp/src"));
                Outcome::Listed { contents: vec![file("inner.py")] }
            }
            Work::Get { .. } => Outcome::Received,
            Work::Write { .. } | Work::CreateDir { .. } => Outcome::Stored,
            other => panic!("{other:?}"),
        };
        seen.push(work);
        (download, work, _) = download_mcp_directory(download, outcome);
    }
    let src = target().join("src");
    assert_eq!(
        seen,
        vec![
            Work::List { url: text("https://api/root") },
            Work::Get { url: text("https://raw/a.py") },
            Work::Write { path: target().join("a.py") },
            Work::CreateDir { path: target().join("src") },
            Work::List { url: contents_url("mcp/src") },
            Work::Get { url: text("https://raw/inner.py") },
            Work::Write { path: src.join("inner.py") },
            Work::Get { url: text("https://raw/z.md") },
            Work::Write { path: target().join("z.md") },
        ]
    );
}

#[test]
fn a_file_without_an_address_is_passed_over() {
    let contents = vec![entry("a", "a", None, "file"), file("b")];
    let (_, work, warnings) = download_mcp_directory(started(), Outcome::Listed { contents });
    assert_eq!(work, Work::Get { url: text("https://raw/b") });
    assert!(warnings.is_empty());
}

#[test]
fn an_unsupported_entry_is_only_warned_of() {
    let contents = vec![
        entry("a", "a", Some("https://raw/a"), "symlink"),
        entry("b", "b", None, "submodule"),
        entry("c", "c", None, "dir"),
        entry("d", "d", None, "symlink"),
    ];
    let (_, work, warnings) = download_mcp_directory(started(), Outcome::Listed { contents });
    assert_eq!(work, Work::CreateDir { path: target().join("c") });
    assert_eq!(
        warnings,
        vec![
            "Skipping unsupported content type: symlink",
            "Skipping unsupported content type: submodule"
        ]
    );
}

#[test]
fn entries_after_a_file_are_warned_of_once_it_is_written() {
    let contents = vec![file("a"), entry("b", "b", None, "symlink")];
    let (download, _, warnings) = download_mcp_directory(started(), Outcome::Listed { contents });
    assert!(warnings.is_empty());
    let (download, _, warnings) = download_mcp_directory(download, Outcome::Received);
    assert!(warnings.is_empty());
    let (_, work, warnings) = download_mcp_directory(download, Outcome::Stored);
    assert_eq!(work, Work::Done);
    assert_eq!(warnings, vec!["Skipping unsupported content type: symlink"]);
}

#[test]
fn a_listing_can_fail() {
    assert_eq!(
        failure(started(), Outcome::NotSent { error: text("offline") }),
        "Failed to send request: offline"
    );
    assert_eq!(
        failure(started(), Outcome::Refused { status: text("403 Forbidden"), body: text("limit") }),
        "GitHub API error (status 403 Forbidden): limit"
    );
    assert_eq!(
        failure(started(), Outcome::NotRead { error: text("no json") }),
        "Failed to parse GitHub API response: no json"
    );
}

#[test]
fn a_file_can_fail() {
    let asked = || {
        let contents = vec![file("a"), file("b")];
        download_mcp_directory(started(), Outcome::Listed { contents }).0
    };
    assert_eq!(
        failure(asked(), Outcome::NotReceived { error: text("offline") }),
        "Failed to download file https://raw/a: offline"
    );
    assert_eq!(
        failure(asked(), Outcome::NoContent { error: text("cut") }),
        "Failed to get file content: cut"
    );
    let (download, _, _) = download_mcp_directory(asked(), Outcome::Received);
    assert_eq!(
        failure(download, Outcome::NotStored { path: text("/mcp/a"), error: text("full") }),
        "Failed to write file /mcp/a: full"
    );
}

#[test]
fn a_directory_can_fail() {
    let contents = vec![entry("src", "mcp/src", None, "dir")];
    let (download, _, _) = download_mcp_directory(started(), Outcome::Listed { contents });
    assert_eq!(
        failure(download, Outcome::NotStored { path: text("/mcp/src"), error: text("denied") }),
        "Failed to create directory /mcp/src: denied"
    );
}

/// Downloads into a file system of paths: a directory has no content.
fn fill(tree: &mut BTreeMap<Vec<String>, Option<String>>) {
    let mut got = String::new();
    let (mut download, mut work) = Download::start("https://api/root", &target());
    while work != Work::Done {
        let outcome = match &work {
            Work::List { url } if url == "https://api/root" => Outcome::Listed {
                contents: vec![file("a.py"), entry("src", "mcp/src", None, "dir")],
            },
            Work::List { .. } => Outcome::Listed { contents: vec![file("inner.py")] },
            Work::Get { url } => {
                got = url.clone();
                Outcome::Received
            }
            Work::Write { path } => {
                assert_eq!(path.root, target().root);
                assert_ne!(tree.get(&path.names), Some(&None));
                tree.insert(path.names.clone(), Some(got.clone()));
                Outcome::Stored
            }
            Work::CreateDir { path } => {
                assert_eq!(path.root, target().root);
                tree.entry(path.names.clone()).or_insert(None);
                Outcome::Stored
            }
            other => panic!("{other:?}"),
        };
        (download, work, _) = download_mcp_directory(download, outcome);
    }
}

#[test]
fn a_second_download_changes_nothing() {
    let names = |list: &[&str]| list.iter().map(|s| text(s)).collect::<Vec<String>>();
    let mut tree = BTreeMap::new();
    tree.insert(names(&["notes.txt"]), Some(text("mine")));
    tree.insert(names(&["a.py"]), Some(text("old")));
    fill(&mut tree);
    assert_eq!(tree[&names(&["notes.txt"])], Some(text("mine")));
    assert_eq!(tree[&names(&["a.py"])], Some(text("https://raw/a.py")));
    assert_eq!(tree[&names(&["src"])], None);
    assert_eq!(tree[&names(&["src", "inner.py"])], Some(text("https://raw/inner.py")));
    assert_eq!(tree.len(), 4);
    let once = tree.clone();
    fill(&mut tree);
    assert_eq!(tree, once);
}

#[test]
fn only_a_listing_is_asked_for_by_name() {
    assert_eq!(user_agent(&Work::List { url: text("u") }), Some("screenpipe-cli"));
    assert_eq!(user_agent(&Work::Get { url: text("u") }), None);
    assert_eq!(user_agent(&Work::Write { path: target() }), None);
    assert_eq!(user_agent(&Work::CreateDir { path: target() }), None);
    assert_eq!(user_agent(&Work::Done), None);
}

#[test]
fn a_finished_download_leaves_the_tree() {
    let names = |list: &[&str]| list.iter().map(|s| text(s)).collect::<Vec<String>>();
    let mut tree = BTreeMap::new();
    fill(&mut tree);
    let wanted = BTreeMap::from([
        (names(&["a.py"]), Some(text("https://raw/a.py"))),
        (names(&["src"]), None),
        (names(&["src", "inner.py"]), Some(text("https://raw/inner.py"))),
    ]);
    assert_eq!(tree, wanted);
}
