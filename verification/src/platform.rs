//! The few calls into std that this library makes and that vstd gives no
//! specification: Unicode case mapping and path splitting. Each wrapper
//! holds one std call; its contract is what Verus believes of it.
use vstd::prelude::*;

verus! {

/// Name for the characters that `char::to_uppercase` yields for `c`, in
/// order. The Unicode case tables fix it for every `c`.
pub uninterp spec fn unicode_uppercase(c: char) -> Seq<char>;

/// Name for the string that `str::to_lowercase` returns for `s`.
pub uninterp spec fn unicode_lowercase(s: Seq<char>) -> Seq<char>;

/// Calls `char::to_uppercase` and collects what it yields; Verus believes
/// that the result is `unicode_uppercase(c)` and nothing more about it.
#[verifier::external_body]
pub(crate) fn char_to_uppercase(c: char) -> (r: String)
    ensures
        r@ == unicode_uppercase(c),
{
    c.to_uppercase().collect()
}

/// Calls `str::to_lowercase`; Verus believes that the result is
/// `unicode_lowercase(s@)` and nothing more about it.
#[verifier::external_body]
pub(crate) fn str_to_lowercase(s: &str) -> (r: String)
    ensures
        r@ == unicode_lowercase(s@),
{
    s.to_lowercase()
}

/// `n` occurs in `p` as a run of consecutive characters.
pub open spec fn occurs_in(n: Seq<char>, p: Seq<char>) -> bool {
    exists|i: int| 0 <= i && i + n.len() <= p.len() && #[trigger] p.subrange(i, i + n.len()) == n
}

/// `p` is one plain path component on every platform: not empty, no `/`,
/// `\` or `:`, and neither `.` nor `..`.
pub open spec fn is_single_name(p: Seq<char>) -> bool {
    &&& p.len() > 0
    &&& !p.contains('/')
    &&& !p.contains('\\')
    &&& !p.contains(':')
    &&& p != "."@
    &&& p != ".."@
}

/// Position just after the last `/` of `p` (0 when `p` holds none).
pub open spec fn after_last_slash(p: Seq<char>) -> int
    decreases p.len(),
{
    if p.len() == 0 {
        0
    } else if p.last() == '/' {
        p.len() as int
    } else {
        after_last_slash(p.drop_last())
    }
}

/// `p` is a path that every platform splits at `/` alone and whose last
/// component is a plain name: no `\` and no `:`, not starting with two `/`
/// (a network share on Windows), and its last character neither `/` nor
/// `.`.
pub open spec fn is_portable_path(p: Seq<char>) -> bool {
    &&& p.len() > 0
    &&& !p.contains('\\')
    &&& !p.contains(':')
    &&& !(p.len() >= 2 && p[0] == '/' && p[1] == '/')
    &&& p.last() != '/'
    &&& p.last() != '.'
}

/// What holds of a file name found for the path `p` on every platform: a
/// name found is non-empty and occurs in `p`; a path that is one plain
/// component is its own file name; and the file name of a portable path is
/// the part after its last `/`.
pub open spec fn file_name_facts(name: Option<String>, p: Seq<char>) -> bool {
    &&& (name is Some ==> name->0@.len() > 0 && occurs_in(name->0@, p))
    &&& (is_single_name(p) ==> (name is Some && name->0@ == p))
    &&& (is_portable_path(p) ==> (name is Some && name->0@ == p.skip(after_last_slash(p))))
}

/// Calls `Path::file_name` on `p` and turns the component into a `String`
/// (the conversion is exact, `p` being valid UTF-8). Which component comes
/// back depends on the path separators of the platform, so only what holds
/// on every platform is stated: the final component is a non-empty part of
/// the path; a path made of one plain component is its own final component;
/// and a path split at `/` alone (no `\`, no `:`, not starting with `//`,
/// not ending in `/` or `.`) ends in the part after its last `/`. Which part
/// of any other path is returned is left unsaid.
#[verifier::external_body]
pub(crate) fn path_file_name(p: &str) -> (r: Option<String>)
    ensures
        file_name_facts(r, p@),
{
    std::path::Path::new(p).file_name().map(|n| n.to_string_lossy().to_string())
}

} // verus!
