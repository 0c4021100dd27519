//! Literal substring search and replacement on text.
//!
//! The replacement is the standard leftmost-first scan over non-overlapping
//! literal occurrences: wherever the pattern starts an occurrence, it is
//! replaced and the scan resumes after it; otherwise the scan moves one
//! character on. An empty pattern occurs before every character and at the
//! end of the text.

use vstd::prelude::*;

verus! {

/// The pattern `p` occurs in `s` starting at index `i`.
pub open spec fn matches_at(s: Seq<char>, p: Seq<char>, i: int) -> bool {
    0 <= i && i + p.len() <= s.len() && s.subrange(i, i + p.len()) == p
}

/// The pattern `p` occurs somewhere in `s` (always true of an empty pattern).
pub open spec fn contains_seq(s: Seq<char>, p: Seq<char>) -> bool {
    exists|i: int| matches_at(s, p, i)
}

/// The result of replacing every non-overlapping occurrence of `p` in `s`
/// with `r`, scanning leftmost-first.
pub open spec fn replace_seq(s: Seq<char>, p: Seq<char>, r: Seq<char>) -> Seq<char>
    decreases s.len(),
{
    if p.len() == 0 {
        if s.len() == 0 {
            r
        } else {
            r + seq![s[0]] + replace_seq(s.skip(1), p, r)
        }
    } else if s.len() < p.len() {
        s
    } else if s.subrange(0, p.len() as int) == p {
        r + replace_seq(s.skip(p.len() as int), p, r)
    } else {
        seq![s[0]] + replace_seq(s.skip(1), p, r)
    }
}

/// Whether `p` occurs in `s` at `i`, tested character by character.
pub(crate) fn matches_at_exec(s: &str, p: &str, i: usize) -> (b: bool)
    requires
        i <= s@.len(),
    ensures
        b == matches_at(s@, p@, i as int),
{
    let n = s.unicode_len();
    let m = p.unicode_len();
    if m > n - i {
        return false;
    }
    let mut j: usize = 0;
    while j < m
        invariant
            j <= m,
            i + m <= n,
            n == s@.len(),
            m == p@.len(),
            forall|k: int| 0 <= k < j ==> s@[i + k] == p@[k],
        decreases m - j,
    {
        if s.get_char(i + j) != p.get_char(j) {
            proof {
                assert(s@.subrange(i as int, i + m) != p@) by {
                    assert(s@.subrange(i as int, i + m)[j as int] == s@[i + j]);
                }
            }
            return false;
        }
        j += 1;
    }
    proof {
        assert(s@.subrange(i as int, i + m) =~= p@);
    }
    true
}

/// Whether `s` contains `p` as a literal substring.
pub fn contains_prefix(s: &str, p: &str) -> (b: bool)
    ensures
        b == contains_seq(s@, p@),
{
    let n = s.unicode_len();
    let m = p.unicode_len();
    if m == 0 {
        proof {
            assert(s@.subrange(0, 0) =~= p@);
            assert(matches_at(s@, p@, 0));
        }
        return true;
    }
    if m > n {
        return false;
    }
    let mut i: usize = 0;
    loop
        invariant
            i <= n - m + 1,
            0 < m <= n,
            n == s@.len(),
            m == p@.len(),
            forall|k: int| 0 <= k < i ==> !matches_at(s@, p@, k),
        decreases n - m + 1 - i,
    {
        if i > n - m {
            proof {
                assert(forall|k: int| matches_at(s@, p@, k) ==> 0 <= k <= n - m);
            }
            return false;
        }
        if matches_at_exec(s, p, i) {
            return true;
        }
        i += 1;
    }
}

/// Replaces every non-overlapping occurrence of `p` in `s` with `r`,
/// scanning leftmost-first.
pub fn replace_prefix(s: &str, p: &str, r: &str) -> (out: String)
    ensures
        out@ == replace_seq(s@, p@, r@),
{
    let n = s.unicode_len();
    let m = p.unicode_len();
    let mut out = String::new();
    let mut i: usize = 0;
    proof {
        assert(s@.skip(0) =~= s@);
        assert(out@ + replace_seq(s@, p@, r@) =~= replace_seq(s@, p@, r@));
    }
    if m == 0 {
        while i < n
            invariant
                i <= n,
                n == s@.len(),
                p@.len() == 0,
                replace_seq(s@, p@, r@) == out@ + replace_seq(s@.skip(i as int), p@, r@),
            decreases n - i,
        {
            proof {
                let rest = s@.skip(i as int);
                assert(rest[0] == s@[i as int]);
                assert(rest.skip(1) =~= s@.skip(i + 1));
                assert(replace_seq(rest, p@, r@) == r@ + seq![s@[i as int]] + replace_seq(
                    s@.skip(i + 1),
                    p@,
                    r@,
                ));
            }
            out.append(r);
            let c = s.substring_char(i, i + 1);
            proof {
                assert(c@ =~= seq![s@[i as int]]);
            }
            out.append(c);
            i += 1;
        }
        proof {
            assert(s@.skip(n as int) =~= Seq::<char>::empty());
        }
        out.append(r);
        return out;
    }
    while i < n
        invariant
            i <= n,
            n == s@.len(),
            m == p@.len(),
            m > 0,
            replace_seq(s@, p@, r@) == out@ + replace_seq(s@.skip(i as int), p@, r@),
        decreases n - i,
    {
        if matches_at_exec(s, p, i) {
            proof {
                let rest = s@.skip(i as int);
                assert(rest.subrange(0, m as int) =~= s@.subrange(i as int, i + m));
                assert(rest.skip(m as int) =~= s@.skip(i + m));
                assert(replace_seq(rest, p@, r@) == r@ + replace_seq(s@.skip(i + m), p@, r@));
            }
            out.append(r);
            i += m;
        } else {
            proof {
                let rest = s@.skip(i as int);
                assert(rest[0] == s@[i as int]);
                assert(rest.skip(1) =~= s@.skip(i + 1));
                if rest.len() >= m {
                    assert(rest.subrange(0, m as int) =~= s@.subrange(i as int, i + m));
                    assert(rest.subrange(0, m as int) != p@);
                    assert(replace_seq(rest, p@, r@) == seq![s@[i as int]] + replace_seq(
                        s@.skip(i + 1),
                        p@,
                        r@,
                    ));
                } else {
                    assert(replace_seq(rest, p@, r@) == rest);
                    assert(s@.skip(i + 1).len() < m);
                    assert(replace_seq(s@.skip(i + 1), p@, r@) == s@.skip(i + 1));
                    assert(rest =~= seq![s@[i as int]] + s@.skip(i + 1));
                }
            }
            let c = s.substring_char(i, i + 1);
            proof {
                assert(c@ =~= seq![s@[i as int]]);
            }
            out.append(c);
            i += 1;
        }
    }
    proof {
        assert(s@.skip(i as int) =~= Seq::<char>::empty());
        assert(replace_seq(s@.skip(i as int), p@, r@) == s@.skip(i as int));
        assert(out@ + s@.skip(i as int) =~= out@);
    }
    out
}

/// The pattern `p` occurs in `s` at `i` and nowhere else.
pub open spec fn single_occurrence_at(s: Seq<char>, p: Seq<char>, i: int) -> bool {
    matches_at(s, p, i) && forall|j: int| matches_at(s, p, j) ==> j == i
}

/// Dropping the first character of `s` shifts every occurrence down by one.
proof fn lemma_matches_skip_one(s: Seq<char>, p: Seq<char>, j: int)
    requires
        s.len() >= 1,
        0 <= j,
    ensures
        matches_at(s.skip(1), p, j) <==> matches_at(s, p, j + 1),
{
    if j + p.len() <= s.len() - 1 {
        assert(s.skip(1).subrange(j, j + p.len()) =~= s.subrange(j + 1, j + 1 + p.len()));
    }
}

/// Replacing a pattern that does not occur leaves the text unchanged.
pub proof fn lemma_replace_no_occurrence(s: Seq<char>, p: Seq<char>, r: Seq<char>)
    requires
        p.len() > 0,
        !contains_seq(s, p),
    ensures
        replace_seq(s, p, r) == s,
    decreases s.len(),
{
    if s.len() < p.len() {
    } else {
        assert(!matches_at(s, p, 0));
        assert(s.subrange(0, p.len() as int) != p);
        assert forall|j: int| !matches_at(s.skip(1), p, j) by {
            if matches_at(s.skip(1), p, j) {
                lemma_matches_skip_one(s, p, j);
            }
        }
        lemma_replace_no_occurrence(s.skip(1), p, r);
        assert(seq![s[0]] + s.skip(1) =~= s);
    }
}

/// Replacing the one occurrence of `p` in `a + p + b` with `r` yields
/// exactly `a + r + b`.
pub proof fn lemma_replace_single(a: Seq<char>, b: Seq<char>, p: Seq<char>, r: Seq<char>)
    requires
        p.len() > 0,
        single_occurrence_at(a + p + b, p, a.len() as int),
    ensures
        replace_seq(a + p + b, p, r) == a + r + b,
    decreases a.len(),
{
    let s = a + p + b;
    if a.len() == 0 {
        assert(s.subrange(0, p.len() as int) =~= p);
        assert(s.skip(p.len() as int) =~= b);
        assert forall|j: int| !matches_at(b, p, j) by {
            if matches_at(b, p, j) {
                assert(s.subrange(
                    p.len() + j,
                    p.len() + j + p.len(),
                ) =~= b.subrange(j, j + p.len()));
                assert(matches_at(s, p, p.len() + j));
            }
        }
        lemma_replace_no_occurrence(b, p, r);
        assert(replace_seq(s, p, r) == r + b);
        assert(a + r + b =~= r + b);
    } else {
        assert(!matches_at(s, p, 0));
        assert(s.len() >= p.len());
        assert(s.subrange(0, p.len() as int) != p);
        let s1 = s.skip(1);
        assert(s1 =~= a.skip(1) + p + b);
        assert(matches_at(s1, p, a.len() - 1)) by {
            lemma_matches_skip_one(s, p, a.len() - 1);
        }
        assert forall|j: int| matches_at(s1, p, j) implies j == a.len() - 1 by {
            if matches_at(s1, p, j) {
                lemma_matches_skip_one(s, p, j);
            }
        }
        lemma_replace_single(a.skip(1), b, p, r);
        assert(replace_seq(s, p, r) == seq![s[0]] + (a.skip(1) + r + b));
        assert(s[0] == a[0]);
        assert(seq![a[0]] + (a.skip(1) + r + b) =~= a + r + b);
    }
}

/// Law (round trip): in text holding exactly one occurrence of the old
/// prefix, replacing old with new swaps that one substring; replacing new
/// with old in the result — given the new prefix likewise occurs exactly
/// once there, i.e. the prefixes do not overlap with the surroundings —
/// restores the original text.
pub proof fn lemma_replace_round_trip(a: Seq<char>, b: Seq<char>, p: Seq<char>, r: Seq<char>)
    requires
        p.len() > 0,
        r.len() > 0,
        single_occurrence_at(a + p + b, p, a.len() as int),
        single_occurrence_at(a + r + b, r, a.len() as int),
    ensures
        replace_seq(a + p + b, p, r) == a + r + b,
        replace_seq(replace_seq(a + p + b, p, r), r, p) == a + p + b,
{
    lemma_replace_single(a, b, p, r);
    lemma_replace_single(a, b, r, p);
}

} // verus!
