//! File-system paths as text, with the joining and splitting of
//! `std::path::Path` behind trusted wrappers.
use vstd::prelude::*;

verus! {

/// What `std::path::Path::new(base).join(rel)` reads as, on the platform the
/// crate is built for.
pub uninterp spec fn path_join(base: Seq<char>, rel: Seq<char>) -> Seq<char>;

/// The components that `std::path::Path::new(path).iter()` yields, each read
/// as text, on the platform the crate is built for.
pub uninterp spec fn path_components(path: Seq<char>) -> Seq<Seq<char>>;

/// Calls `std::path::Path::join`. Claims that the joined path, read back as
/// text, is `path_join` of the two arguments. Both arguments are valid UTF-8,
/// so the joined path is too and `to_string_lossy` changes nothing in it.
#[verifier::external_body]
pub(crate) fn join_path(base: &str, rel: &str) -> (r: String)
    ensures
        r@ == path_join(base@, rel@),
{
    std::path::Path::new(base).join(rel).to_string_lossy().into_owned()
}

/// Calls `std::path::Path::iter`. Claims that the components, in order and
/// each read as text, are `path_components(path@)`. The components of a
/// UTF-8 path are UTF-8, so `to_string_lossy` changes nothing in them.
#[verifier::external_body]
pub(crate) fn components(path: &str) -> (r: Vec<String>)
    ensures
        r@.len() == path_components(path@).len(),
        forall|i: int| 0 <= i < r@.len() ==> #[trigger] r@[i]@ == path_components(path@)[i],
{
    let mut out = Vec::new();
    for c in std::path::Path::new(path).iter() {
        out.push(c.to_string_lossy().into_owned());
    }
    out
}

/// Whether `dir` is a prefix of `file`: each of its components, in order,
/// equals the component of `file` at the same place.
pub open spec fn is_component_prefix(dir: Seq<Seq<char>>, file: Seq<Seq<char>>) -> bool {
    &&& dir.len() <= file.len()
    &&& forall|i: int| 0 <= i < dir.len() ==> #[trigger] dir[i] == file[i]
}

/// Lying under a path is transitive: a file under a path that itself lies
/// under a directory lies under that directory.
pub proof fn lemma_component_prefix_transitive(dir: Seq<Seq<char>>, mid: Seq<Seq<char>>, file: Seq<Seq<char>>)
    requires
        is_component_prefix(dir, mid),
        is_component_prefix(mid, file),
    ensures
        is_component_prefix(dir, file),
{
    assert forall|i: int| 0 <= i < dir.len() implies #[trigger] dir[i] == file[i] by {
        assert(dir[i] == mid[i]);
        assert(mid[i] == file[i]);
    }
}

/// Whether the path `file` lies under the path `dir`, component by component.
pub fn is_under(dir: &str, file: &str) -> (r: bool)
    ensures
        r == is_component_prefix(path_components(dir@), path_components(file@)),
{
    let dc = components(dir);
    let fc = components(file);
    let ghost d = path_components(dir@);
    let ghost f = path_components(file@);
    if dc.len() > fc.len() {
        return false;
    }
    for i in 0..dc.len()
        invariant
            d == path_components(dir@),
            f == path_components(file@),
            dc@.len() == d.len(),
            fc@.len() == f.len(),
            dc@.len() <= fc@.len(),
            forall|k: int| 0 <= k < dc@.len() ==> #[trigger] dc@[k]@ == d[k],
            forall|k: int| 0 <= k < fc@.len() ==> #[trigger] fc@[k]@ == f[k],
            forall|k: int| 0 <= k < i ==> #[trigger] d[k] == f[k],
    {
        if dc[i] != fc[i] {
            assert(dc@[i as int]@ == d[i as int]);
            assert(fc@[i as int]@ == f[i as int]);
            return false;
        }
        assert(dc@[i as int]@ == d[i as int]);
        assert(fc@[i as int]@ == f[i as int]);
    }
    true
}

} // verus!
