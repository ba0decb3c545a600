use vstd::prelude::*;

verus! {

/// The path `part` joined onto `base`, as `std::path::Path::join` forms it.
pub uninterp spec fn joined(base: Seq<char>, part: Seq<char>) -> Seq<char>;

/// The parent of a path, as `std::path::Path::parent` gives it.
pub uninterp spec fn parent_of(p: Seq<char>) -> Option<Seq<char>>;

/// A path with its extension set, as `std::path::Path::with_extension` forms it.
pub uninterp spec fn with_extension(p: Seq<char>, ext: Seq<char>) -> Seq<char>;

/// Relies on std::path::Path::join: the joined path, written back as text.
#[verifier::external_body]
pub(crate) fn join(base: &str, part: &str) -> (r: String)
    ensures
        r@ == joined(base@, part@),
{
    std::path::Path::new(base).join(part).display().to_string()
}

/// Relies on std::path::Path::parent: the parent directory, if the path has one.
#[verifier::external_body]
pub(crate) fn parent(p: &str) -> (r: Option<String>)
    ensures
        r is Some <==> parent_of(p@) is Some,
        r matches Some(s) ==> parent_of(p@) == Some(s@),
{
    match std::path::Path::new(p).parent() {
        Some(d) => Some(d.display().to_string()),
        None => None,
    }
}

/// Relies on std::path::Path::with_extension: the path with extension `ext`.
/// It panics on an extension that holds a path separator, which is left out.
#[verifier::external_body]
pub(crate) fn set_extension(p: &str, ext: &str) -> (r: String)
    requires
        forall|i: int| 0 <= i < ext@.len() ==> ext@[i] != '/' && ext@[i] != '\\',
    ensures
        r@ == with_extension(p@, ext@),
{
    std::path::Path::new(p).with_extension(ext).display().to_string()
}

} // verus!
