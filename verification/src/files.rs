//! What a file system holds, and how that changes as directories are created
//! and files are written. A place stands for one path only where the names
//! joined onto its root are plain.

use crate::place::PlaceView;
use vstd::prelude::*;

verus! {

/// What stands at a place.
pub enum Node {
    Directory,
    File { content: Seq<u8> },
}

/// Whether there is a directory at the place.
pub open spec fn is_directory(tree: Map<PlaceView, Node>, place: PlaceView) -> bool {
    tree.dom().contains(place) && tree[place] is Directory
}

/// Whether a file stands in the way of creating the directory: there, or where
/// one of the directories around it would be.
pub open spec fn in_the_way(tree: Map<PlaceView, Node>, place: PlaceView) -> bool {
    exists|p: PlaceView| #[trigger] p.holds(place) && tree.dom().contains(p) && tree[p] is File
}

/// The file system once the directory is created, and those around it; nothing
/// where that fails. What is there already is left as it is.
pub open spec fn created(tree: Map<PlaceView, Node>, place: PlaceView) -> Option<
    Map<PlaceView, Node>,
> {
    if in_the_way(tree, place) {
        None
    } else {
        Some(
            Map::new(
                |p: PlaceView| tree.dom().contains(p) || p.holds(place),
                |p: PlaceView|
                    if tree.dom().contains(p) {
                        tree[p]
                    } else {
                        Node::Directory
                    },
            ),
        )
    }
}

/// The file system once the content is written; nothing where that fails. A
/// file that is there is replaced; what stands there may be no directory, and
/// the place around it has to be one.
pub open spec fn written(
    tree: Map<PlaceView, Node>,
    place: PlaceView,
    content: Seq<u8>,
) -> Option<Map<PlaceView, Node>> {
    if place.names.len() > 0 && is_directory(tree, place.around()) && !is_directory(tree, place) {
        Some(tree.insert(place, Node::File { content }))
    } else {
        None
    }
}

/// Whether all that is there stands in directories that are there.
pub open spec fn rooted(tree: Map<PlaceView, Node>) -> bool {
    forall|p: PlaceView, q: PlaceView|
        #![trigger q.holds(p), tree.dom().contains(p)]
        tree.dom().contains(p) && q.holds(p) && q != p ==> is_directory(tree, q)
}

/// Creating a directory that is there, in directories that are there, changes
/// nothing.
pub proof fn law_creating_again_changes_nothing(tree: Map<PlaceView, Node>, place: PlaceView)
    requires
        rooted(tree),
        is_directory(tree, place),
    ensures
        created(tree, place) == Some(tree),
{
    assert forall|p: PlaceView| #[trigger] p.holds(place) implies is_directory(tree, p) by {
        if p != place {
            assert(tree.dom().contains(place));
        }
    }
    assert(created(tree, place)->0 =~= tree);
}

} // verus!
