//! Places in the file system: a root, and the names joined onto it in turn.

use crate::files;
use crate::files::Node;
use crate::text;
use vstd::prelude::*;
use vstd::string::*;

verus! {

/// Where a place starts.
#[derive(Debug, PartialEq, Eq)]
pub enum Root {
    /// The home directory of the user.
    Home,
    /// A path that the user gave.
    Given(String),
}

/// A root and the names joined onto it, the outermost first.
#[derive(Debug, PartialEq, Eq)]
pub struct Place {
    pub root: Root,
    pub names: Vec<String>,
}

/// The view of a root.
pub enum RootView {
    Home,
    Given(Seq<char>),
}

/// The view of a place.
pub struct PlaceView {
    pub root: RootView,
    pub names: Seq<Seq<char>>,
}

impl View for Root {
    type V = RootView;

    open spec fn view(&self) -> RootView {
        match self {
            Root::Home => RootView::Home,
            Root::Given(path) => RootView::Given(path@),
        }
    }
}

impl View for Place {
    type V = PlaceView;

    open spec fn view(&self) -> PlaceView {
        PlaceView { root: self.root@, names: text::views(self.names@) }
    }
}

impl PlaceView {
    /// The place one name further in.
    pub open spec fn join(self, name: Seq<char>) -> PlaceView {
        PlaceView { root: self.root, names: self.names.push(name) }
    }

    /// The place one name further out.
    pub open spec fn around(self) -> PlaceView {
        PlaceView { root: self.root, names: self.names.drop_last() }
    }

    /// Whether `other` is this place or lies further in, by plain names alone.
    pub open spec fn inside(self, other: PlaceView) -> bool {
        &&& self.holds(other)
        &&& forall|i: int|
            self.names.len() <= i < other.names.len() ==> is_plain(#[trigger] other.names[i])
    }

    /// Whether `other` is this place or lies further in.
    pub open spec fn holds(self, other: PlaceView) -> bool {
        &&& other.root == self.root
        &&& self.names.is_prefix_of(other.names)
    }
}

/// Whether a name is plain: joined onto a path, it leads one step further in,
/// on any system.
pub open spec fn is_plain(name: Seq<char>) -> bool {
    &&& name.len() > 0
    &&& name != "."@
    &&& name != ".."@
    &&& !name.contains('/')
    &&& !name.contains('\\')
    &&& !name.contains(':')
}

/// The home directory.
pub open spec fn home_place() -> PlaceView {
    PlaceView { root: RootView::Home, names: Seq::empty() }
}

/// A path that the user gave.
pub open spec fn given_place(path: Seq<char>) -> PlaceView {
    PlaceView { root: RootView::Given(path), names: Seq::empty() }
}

impl Place {
    /// The home directory.
    pub fn home() -> (r: Place)
        ensures
            r@ == home_place(),
    {
        let r = Place { root: Root::Home, names: Vec::new() };
        assert(r@.names =~= Seq::empty());
        r
    }

    /// A path that the user gave.
    pub fn given(path: &str) -> (r: Place)
        ensures
            r@ == given_place(path@),
    {
        let r = Place { root: Root::Given(path.to_owned()), names: Vec::new() };
        assert(r@.names =~= Seq::empty());
        r
    }

    /// The same place.
    pub fn copy(&self) -> (r: Place)
        ensures
            r@ == self@,
    {
        let root = match &self.root {
            Root::Home => Root::Home,
            Root::Given(path) => Root::Given(path.clone()),
        };
        Place { root, names: text::copy_texts(&self.names) }
    }

    /// The place one name further in.
    pub fn join(&self, name: &str) -> (r: Place)
        ensures
            r@ == self@.join(name@),
    {
        let mut r = self.copy();
        r.names.push(name.to_owned());
        assert(r@.names =~= self@.names.push(name@));
        r
    }
}

/// The directory of the application's data, and the directory in it for what
/// is recorded.
pub struct BaseDir {
    pub base: Place,
    pub data: Place,
}

/// The base directory: the one that the user gave, or `.screenpipe` in the
/// home directory.
pub open spec fn base_place(custom_path: Option<String>) -> PlaceView {
    match custom_path {
        Some(path) => given_place(path@),
        None => home_place().join(".screenpipe"@),
    }
}

/// The directory in the base directory for what is recorded.
pub open spec fn data_place(custom_path: Option<String>) -> PlaceView {
    base_place(custom_path).join("data"@)
}

/// Whether the base directory can be found: where the home directory is known.
pub open spec fn base_is_found(custom_path: Option<String>, home_known: bool) -> bool {
    home_known
}

/// Finds the base directory, and the `data` directory in it, which is to be
/// created. Fails where the home directory is not known, even if the user
/// gave a directory.
pub fn get_base_dir(custom_path: &Option<String>, home_known: bool) -> (r: Result<BaseDir, String>)
    ensures
        match r {
            Ok(dirs) => {
                &&& home_known
                &&& dirs.base@ == base_place(*custom_path)
                &&& dirs.data@ == data_place(*custom_path)
            },
            Err(error) => !home_known && error@ == "failed to get home directory"@,
        },
        r is Ok <==> base_is_found(*custom_path, home_known),
{
    if !home_known {
        return Err("failed to get home directory".to_owned());
    }
    let base = match custom_path {
        Some(path) => Place::given(path.as_str()),
        None => Place::home().join(".screenpipe"),
    };
    let data = base.join("data");
    Ok(BaseDir { base, data })
}

/// Where the base directory has been found, and its data directory created, and
/// that still is a directory, with whatever in it, finding and creating them
/// again gives the same places and changes nothing.
pub proof fn law_a_base_directory_is_found_again(
    custom_path: Option<String>,
    tree: Map<PlaceView, Node>,
)
    requires
        files::rooted(tree),
        files::is_directory(tree, data_place(custom_path)),
    ensures
        files::created(tree, data_place(custom_path)) == Some(tree),
{
    files::law_creating_again_changes_nothing(tree, data_place(custom_path));
}

/// The base directory is found, and its data directory created, just as well
/// right after that was done: the file system stays as the first time left it.
pub proof fn law_a_base_directory_is_made_once(
    custom_path: Option<String>,
    before: Map<PlaceView, Node>,
    after: Map<PlaceView, Node>,
)
    requires
        files::created(before, data_place(custom_path)) == Some(after),
    ensures
        files::is_directory(after, data_place(custom_path)),
        files::created(after, data_place(custom_path)) == Some(after),
{
    let data = data_place(custom_path);
    assert(data.names =~= data.names.subrange(0, data.names.len() as int));
    assert(data.holds(data));
    assert(!files::in_the_way(after, data)) by {
        assert forall|p: PlaceView| #[trigger] p.holds(data) implies !(after[p] is File) by {
            assert(!files::in_the_way(before, data));
        }
    }
    assert(files::created(after, data)->0 =~= after);
}

/// The address of the database that stands in the directory of that name.
pub open spec fn database_address(directory: Seq<char>) -> Seq<char> {
    directory + "/db.sqlite"@
}

/// The address of the database that stands in the directory of that name.
pub fn database_path(directory: &str) -> (r: String)
    ensures
        r@ == database_address(directory@),
{
    let mut r = directory.to_owned();
    r.append("/db.sqlite");
    r
}

} // verus!
