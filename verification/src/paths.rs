//! Text operations on file paths and search strings.

use vstd::prelude::*;
use vstd::string::*;

verus! {

broadcast use vstd::string::group_string_axioms;

/// Whether two path strings denote the same path, compared component by component
/// as `std::path::Path` equality does.
pub uninterp spec fn same_path(a: Seq<char>, b: Seq<char>) -> bool;

/// The final component of a path, as `std::path::Path::file_name` gives it.
pub uninterp spec fn path_file_name(p: Seq<char>) -> Option<Seq<char>>;

/// The extension of a path's final component, as `std::path::Path::extension` gives it.
pub uninterp spec fn path_extension(p: Seq<char>) -> Option<Seq<char>>;

/// A path without its final component, as `std::path::Path::parent` gives it.
pub uninterp spec fn path_parent(p: Seq<char>) -> Option<Seq<char>>;

/// The Unicode lowercase form of a text, as `str::to_lowercase` gives it.
pub uninterp spec fn lowercase(s: Seq<char>) -> Seq<char>;

/// The text view of an optional string.
pub open spec fn opt_text(o: Option<String>) -> Option<Seq<char>> {
    match o {
        Some(s) => Some(s@),
        None => None,
    }
}

/// Compares two paths with `std::path::Path`'s `==`. Trusted: the result is
/// `same_path` of the two texts; as `Path` is `Eq`, the comparison is symmetric and
/// equal texts are the same path.
#[verifier::external_body]
pub(crate) fn paths_equal(a: &String, b: &String) -> (r: bool)
    ensures
        r == same_path(a@, b@),
        r == same_path(b@, a@),
        a@ == b@ ==> r,
{
    std::path::Path::new(a.as_str()) == std::path::Path::new(b.as_str())
}

/// Calls `std::path::Path::file_name`, converting the component to text. Trusted:
/// the result is `path_file_name` of the path.
#[verifier::external_body]
pub(crate) fn file_name_of(p: &String) -> (r: Option<String>)
    ensures
        opt_text(r) == path_file_name(p@),
{
    std::path::Path::new(p.as_str()).file_name().map(|n| n.to_string_lossy().into_owned())
}

/// Calls `std::path::Path::extension`, converting the extension to text. Trusted:
/// the result is `path_extension` of the path.
#[verifier::external_body]
pub(crate) fn extension_of(p: &String) -> (r: Option<String>)
    ensures
        opt_text(r) == path_extension(p@),
{
    std::path::Path::new(p.as_str()).extension().map(|n| n.to_string_lossy().into_owned())
}

/// Calls `std::path::Path::parent`, converting the parent path to text. Trusted:
/// the result is `path_parent` of the path.
#[verifier::external_body]
pub(crate) fn parent_of(p: &String) -> (r: Option<String>)
    ensures
        opt_text(r) == path_parent(p@),
{
    std::path::Path::new(p.as_str()).parent().map(|n| n.to_string_lossy().into_owned())
}

/// Calls `str::to_lowercase`. Trusted: the result is `lowercase` of the text, and
/// the empty text stays empty (each character is mapped to its lowercase form).
#[verifier::external_body]
pub(crate) fn to_lowercase(s: &String) -> (r: String)
    ensures
        r@ == lowercase(s@),
        s@.len() == 0 ==> r@.len() == 0,
{
    s.to_lowercase()
}

/// Whether `needle` occurs in `hay` as a run of consecutive characters.
pub open spec fn contains_text(hay: Seq<char>, needle: Seq<char>) -> bool {
    exists|i: int|
        0 <= i && i + needle.len() <= hay.len() && #[trigger] hay.subrange(i, i + needle.len())
            == needle
}

/// The characters of a text, one element each.
pub fn chars_of(s: &String) -> (v: Vec<char>)
    ensures
        v@ == s@,
{
    let n = s.as_str().unicode_len();
    let mut v: Vec<char> = Vec::new();
    let mut i: usize = 0;
    while i < n
        invariant
            n == s@.len(),
            i <= n,
            v@ == s@.subrange(0, i as int),
        decreases n - i,
    {
        let c = s.as_str().get_char(i);
        v.push(c);
        i = i + 1;
        assert(v@ =~= s@.subrange(0, i as int));
    }
    assert(v@ =~= s@);
    v
}

/// Whether `needle` matches `hay` at position `at`.
fn matches_at(hay: &Vec<char>, needle: &Vec<char>, at: usize) -> (r: bool)
    requires
        at + needle@.len() <= hay@.len(),
    ensures
        r == (hay@.subrange(at as int, at + needle@.len()) == needle@),
{
    let mut j: usize = 0;
    while j < needle.len()
        invariant
            at + needle@.len() <= hay.len(),
            j <= needle@.len(),
            forall|k: int| 0 <= k < j ==> hay@[at + k] == needle@[k],
        decreases needle@.len() - j,
    {
        if hay[at + j] != needle[j] {
            assert(hay@.subrange(at as int, at + needle@.len())[j as int] != needle@[j as int]);
            return false;
        }
        j = j + 1;
    }
    assert(hay@.subrange(at as int, at + needle@.len()) =~= needle@);
    true
}

/// Whether the text `needle` occurs inside the text `hay`, as `str::contains` decides.
pub fn text_contains(hay: &String, needle: &String) -> (r: bool)
    ensures
        r == contains_text(hay@, needle@),
{
    let h = chars_of(hay);
    let n = chars_of(needle);
    if n.len() > h.len() {
        return false;
    }
    let last = h.len() - n.len();
    let mut i: usize = 0;
    loop
        invariant
            i <= last,
            last + n@.len() == h@.len(),
            h@ == hay@,
            n@ == needle@,
            forall|k: int| 0 <= k < i ==> #[trigger] h@.subrange(k, k + n@.len()) != n@,
        decreases last - i,
    {
        if matches_at(&h, &n, i) {
            return true;
        }
        if i == last {
            return false;
        }
        i = i + 1;
    }
}

} // verus!
