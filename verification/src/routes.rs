//! The binding of method and path to an operation.
//!
//! The service answers on two kinds of path: the collection path and, below
//! it, one path per record, whose last segment is the record's identifier.

use crate::ident::{canonical_text, lemma_canonical_text_shape};
use crate::wire::Method;
use vstd::prelude::*;

verus! {

/// The operation that a request asks for.
#[derive(Debug, Clone, Copy, PartialEq, Eq, Structural)]
pub enum Route {
    /// List all records.
    List,
    /// Create a record.
    Create,
    /// Return one record.
    Get,
    /// Change one record.
    Update,
    /// Remove one record.
    Delete,
    /// None: the service has no operation for this method on this path.
    Unmatched,
}

/// The path of the collection.
pub open spec fn collection_path() -> Seq<char> {
    "/resources"@
}

/// Where the identifier segment of a record's path begins: behind the
/// collection path and one slash.
pub open spec fn segment_start() -> int {
    collection_path().len() as int + 1
}

/// Whether `path` is the path of the collection.
pub open spec fn is_collection_path(path: Seq<char>) -> bool {
    path == collection_path()
}

/// The last segment of a record's path.
pub open spec fn id_segment(path: Seq<char>) -> Seq<char> {
    path.skip(segment_start())
}

/// Whether `path` is the path of a record: the collection path, a slash, and
/// one more segment, which is not empty and holds no slash.
pub open spec fn is_item_path(path: Seq<char>) -> bool {
    &&& path.len() > segment_start()
    &&& path.take(collection_path().len() as int) == collection_path()
    &&& path[collection_path().len() as int] == '/'
    &&& !id_segment(path).contains('/')
}

/// The path of the record under `id`: the collection path, a slash, and the
/// canonical text of `id`.
pub open spec fn item_path(id: u128) -> Seq<char> {
    collection_path() + seq!['/'] + canonical_text(id)
}

/// The operation for a method and a path.
pub open spec fn route_of(method: Method, path: Seq<char>) -> Route {
    if is_collection_path(path) {
        match method {
            Method::Get => Route::List,
            Method::Post => Route::Create,
            _ => Route::Unmatched,
        }
    } else if is_item_path(path) {
        match method {
            Method::Get => Route::Get,
            Method::Put => Route::Update,
            Method::Delete => Route::Delete,
            _ => Route::Unmatched,
        }
    } else {
        Route::Unmatched
    }
}

/// The path of a record is a record's path, and its last segment is the
/// canonical text of the record's identifier; so a request on it for the
/// record, for a change or for a removal is routed to that operation.
pub proof fn lemma_item_path_is_routed(id: u128)
    ensures
        is_item_path(item_path(id)),
        !is_collection_path(item_path(id)),
        id_segment(item_path(id)) == canonical_text(id),
        route_of(Method::Get, item_path(id)) == Route::Get,
        route_of(Method::Put, item_path(id)) == Route::Update,
        route_of(Method::Delete, item_path(id)) == Route::Delete,
{
    reveal_strlit("/resources");
    lemma_canonical_text_shape(id);
    let path = item_path(id);
    assert(path.take(10) =~= "/resources"@);
    assert(id_segment(path) =~= canonical_text(id));
}

/// What kind of path a path is.
#[derive(Clone, Copy, PartialEq, Eq, Structural)]
enum PathKind {
    Collection,
    Item,
    Neither,
}

/// Tells the collection path, a record's path and any other path apart, in
/// one pass over the characters.
fn path_kind(path: &str) -> (kind: PathKind)
    ensures
        kind == PathKind::Collection <==> is_collection_path(path@),
        kind == PathKind::Item <==> is_item_path(path@),
{
    let base = "/resources";
    proof {
        reveal_strlit("/resources");
    }
    // How many characters were read, counted up to 12.
    let mut seen: usize = 0;
    // Whether the characters read so far agree with the collection path.
    let mut on_base = true;
    // Whether a slash follows the collection path.
    let mut slash = false;
    // Whether the segment behind that slash holds no slash so far.
    let mut clean = true;
    for c in it: path.chars()
        invariant
            it.seq() == path@,
            base@ == collection_path(),
            base@.len() == 10,
            seen == if it.index() < 12 { it.index() } else { 12 },
            on_base <==> forall|j: int| 0 <= j < it.index() && j < 10 ==> path@[j] == base@[j],
            slash <==> it.index() > 10 && path@[10] == '/',
            clean <==> forall|j: int| 11 <= j < it.index() ==> path@[j] != '/',
    {
        if seen < 10 {
            if c != base.get_char(seen) {
                on_base = false;
            }
        } else if seen == 10 {
            slash = c == '/';
        } else if c == '/' {
            clean = false;
        }
        if seen < 12 {
            seen += 1;
        }
    }
    proof {
        let p = path@;
        if p.len() >= 10 {
            assert(on_base <==> p.take(10) == collection_path()) by {
                if on_base {
                    assert(p.take(10) =~= collection_path());
                } else {
                    let j = choose|j: int| 0 <= j < 10 && p[j] != base@[j];
                    assert(p.take(10)[j] == p[j]);
                }
            }
        }
        if p.len() == 10 {
            assert(p.take(10) =~= p);
        }
        if p.len() > 11 {
            assert(clean <==> !id_segment(p).contains('/')) by {
                if clean {
                    assert forall|k: int| 0 <= k < id_segment(p).len() implies id_segment(p)[k]
                        != '/' by {
                        assert(id_segment(p)[k] == p[k + 11]);
                    }
                } else {
                    let j = choose|j: int| 11 <= j < p.len() && p[j] == '/';
                    assert(id_segment(p)[j - 11] == p[j]);
                }
            }
        }
    }
    if seen == 10 && on_base {
        PathKind::Collection
    } else if seen == 12 && on_base && slash && clean {
        PathKind::Item
    } else {
        PathKind::Neither
    }
}

/// Finds the operation for a method and a path.
pub fn route(method: Method, path: &str) -> (r: Route)
    ensures
        r == route_of(method, path@),
{
    match path_kind(path) {
        PathKind::Collection => match method {
            Method::Get => Route::List,
            Method::Post => Route::Create,
            _ => Route::Unmatched,
        },
        PathKind::Item => match method {
            Method::Get => Route::Get,
            Method::Put => Route::Update,
            Method::Delete => Route::Delete,
            _ => Route::Unmatched,
        },
        PathKind::Neither => Route::Unmatched,
    }
}

/// The last segment of a record's path, as text.
pub(crate) fn path_id(path: &str) -> (segment: &str)
    requires
        is_item_path(path@),
    ensures
        segment@ == id_segment(path@),
{
    proof {
        reveal_strlit("/resources");
    }
    let n = path.unicode_len();
    path.substring_char(11, n)
}

} // verus!
