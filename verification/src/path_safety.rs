use vstd::prelude::*;

verus! {

/// A path separator in archive entry names: both `/` and `\` count.
pub open spec fn is_separator(c: char) -> bool {
    c == '/' || c == '\\'
}

/// An ASCII letter, as a drive letter of a Windows path.
pub open spec fn is_ascii_letter(c: char) -> bool {
    ('a' <= c && c <= 'z') || ('A' <= c && c <= 'Z')
}

/// `p` holds a `..` component: two dots bounded on each side by a separator
/// or by an end of the path.
pub open spec fn has_parent_component(p: Seq<char>) -> bool {
    exists|i: int|
        #![trigger p[i], p[i + 1]]
        0 <= i && i + 1 < p.len() && p[i] == '.' && p[i + 1] == '.' && (i == 0 || is_separator(
            p[i - 1],
        )) && (i + 2 == p.len() || is_separator(p[i + 2]))
}

/// A relative path: not empty, no NUL character, and not absolute (no
/// leading separator, no drive letter followed by `:`).
pub open spec fn path_is_relative(p: Seq<char>) -> bool {
    &&& p.len() > 0
    &&& !p.contains('\0')
    &&& !is_separator(p[0])
    &&& !(p.len() >= 2 && is_ascii_letter(p[0]) && p[1] == ':')
}

/// A path that may be joined onto an extraction directory without leaving
/// it: a relative path with no `..` component.
pub open spec fn path_is_safe(p: Seq<char>) -> bool {
    &&& path_is_relative(p)
    &&& !has_parent_component(p)
}

/// Calls `archive::path_safety::validate_path`, which accepts exactly the
/// paths described by `path_is_safe`: it rejects empty paths, paths with a
/// NUL, paths starting with `/` or `\`, a leading ASCII letter followed by
/// `:`, and any `..` component after splitting on `/` and `\`.
#[verifier::external_body]
pub(crate) fn is_safe_path(path: &str) -> (safe: bool)
    ensures
        safe == path_is_safe(path@),
{
    archive::path_safety::validate_path(path).is_ok()
}

} // verus!
