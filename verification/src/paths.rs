//! Mirrored output-path reconstruction: strip the source root from an
//! entry's path, then join the remainder onto the output root. Both are pure
//! functions of the path strings involved.

use vstd::prelude::*;

use crate::replace::matches_at_exec;

verus! {

/// The path relative to `source`: `path` with the `source` prefix removed,
/// and one separating slash after it, if present, removed as well; nothing
/// when `path` does not start with `source`.
pub open spec fn rel_of(path: Seq<char>, source: Seq<char>) -> Option<Seq<char>> {
    if path.len() >= source.len() && path.subrange(0, source.len() as int) == source {
        let rest = path.skip(source.len() as int);
        if rest.len() > 0 && rest[0] == '/' {
            Some(rest.skip(1))
        } else {
            Some(rest)
        }
    } else {
        None
    }
}

/// `rel` joined under `out_root`, with a single slash between them; no slash
/// is added when the root already ends in one or is empty.
pub open spec fn joined(out_root: Seq<char>, rel: Seq<char>) -> Seq<char> {
    if out_root.len() == 0 {
        rel
    } else if out_root.last() == '/' {
        out_root + rel
    } else {
        out_root + seq!['/'] + rel
    }
}

/// Computes the path of `path` relative to the source root `source`, or
/// nothing when `path` does not start with it.
pub fn strip_source_prefix(path: &str, source: &str) -> (r: Option<String>)
    ensures
        r is Some <==> rel_of(path@, source@) is Some,
        r matches Some(s) ==> Some(s@) == rel_of(path@, source@),
{
    let n = path.unicode_len();
    let m = source.unicode_len();
    if !matches_at_exec(path, source, 0) {
        return None;
    }
    let rest_start: usize = if m < n && path.get_char(m) == '/' {
        m + 1
    } else {
        m
    };
    let s = path.substring_char(rest_start, n).to_owned();
    proof {
        let rest = path@.skip(m as int);
        if m < n && path@[m as int] == '/' {
            assert(rest.len() > 0 && rest[0] == '/');
            assert(rest.skip(1) =~= path@.subrange(m + 1, n as int));
        } else {
            assert(!(rest.len() > 0 && rest[0] == '/'));
            assert(rest =~= path@.subrange(m as int, n as int));
        }
    }
    Some(s)
}

/// Joins a relative path onto the output root.
pub fn output_path_for(out_root: &str, rel: &str) -> (r: String)
    ensures
        r@ == joined(out_root@, rel@),
{
    let n = out_root.unicode_len();
    if n == 0 {
        return rel.to_owned();
    }
    let mut r = out_root.to_owned();
    if out_root.get_char(n - 1) != '/' {
        proof {
            reveal_strlit("/");
            assert("/"@ =~= seq!['/']);
        }
        r.append("/");
    }
    r.append(rel);
    r
}

} // verus!
