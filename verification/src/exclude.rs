//! Exclusion of paths by regular-expression patterns.
//!
//! Every pattern is compiled once, up front, failing fast on the first
//! pattern the regex engine refuses. A path is excluded when its
//! forward-slash relative form matches any compiled pattern (a search
//! through the path, not an anchored full match).

use vstd::prelude::*;

verus! {

#[verifier::external_type_specification]
#[verifier::external_body]
pub struct ExRegex(regex::Regex);

/// Whether the regex engine accepts `pattern`: what `regex::Regex::new`
/// returns is determined by the pattern text alone.
pub uninterp spec fn pattern_compiles(pattern: Seq<char>) -> bool;

/// Whether a search for `pattern` through `text` finds a match: what
/// `regex::Regex::is_match` returns is determined by pattern and text alone.
pub uninterp spec fn pattern_matches(pattern: Seq<char>, text: Seq<char>) -> bool;

/// An exclusion pattern compiled once up front, kept with its text.
pub struct CompiledPattern {
    pattern: String,
    re: regex::Regex,
}

impl CompiledPattern {
    /// The text the pattern was compiled from.
    pub closed spec fn pattern_view(&self) -> Seq<char> {
        self.pattern@
    }

    /// Relies on `regex::Regex::new`: it compiles the pattern or refuses it,
    /// and which of the two happens depends on the pattern text alone.
    #[verifier::external_body]
    pub fn compile(pattern: &str) -> (r: Option<CompiledPattern>)
        ensures
            r is Some <==> pattern_compiles(pattern@),
            r matches Some(c) ==> c.pattern_view() == pattern@,
    {
        match regex::Regex::new(pattern) {
            Ok(re) => Some(CompiledPattern { pattern: pattern.to_owned(), re }),
            Err(_) => None,
        }
    }

    /// Relies on `regex::Regex::is_match`: true exactly when the pattern
    /// matches somewhere in the text, determined by the two alone.
    #[verifier::external_body]
    pub fn is_match(&self, text: &str) -> (b: bool)
        ensures
            b == pattern_matches(self.pattern_view(), text@),
    {
        self.re.is_match(text)
    }
}

/// Every pattern of the list is one the regex engine accepts.
pub open spec fn all_patterns_compile(pats: Seq<Seq<char>>) -> bool {
    forall|i: int| 0 <= i < pats.len() ==> pattern_compiles(#[trigger] pats[i])
}

/// A malformed exclusion pattern: the first of the configured patterns that
/// the regex engine refuses, with its position in the list.
pub struct PatternError {
    pub index: usize,
    pub pattern: String,
}

/// Compiles every exclusion pattern once, in order, failing fast on the
/// first malformed one.
pub fn compile_patterns(patterns: &Vec<String>) -> (r: Result<
    Vec<CompiledPattern>,
    PatternError,
>)
    ensures
        r is Ok <==> all_patterns_compile(patterns.deep_view()),
        r matches Ok(v) ==> {
            &&& v@.len() == patterns@.len()
            &&& forall|i: int|
                0 <= i < v@.len() ==> (#[trigger] v@[i].pattern_view())
                    == patterns.deep_view()[i]
        },
        r matches Err(e) ==> {
            &&& e.index < patterns@.len()
            &&& e.pattern@ == patterns.deep_view()[e.index as int]
            &&& !pattern_compiles(e.pattern@)
            &&& forall|i: int|
                0 <= i < e.index ==> pattern_compiles(#[trigger] patterns.deep_view()[i])
        },
{
    let mut out: Vec<CompiledPattern> = Vec::new();
    let mut i: usize = 0;
    while i < patterns.len()
        invariant
            i <= patterns@.len(),
            out@.len() == i,
            forall|k: int|
                0 <= k < i ==> (#[trigger] out@[k].pattern_view()) == patterns.deep_view()[k],
            forall|k: int|
                0 <= k < i ==> pattern_compiles(#[trigger] patterns.deep_view()[k]),
        decreases patterns@.len() - i,
    {
        match CompiledPattern::compile(patterns[i].as_str()) {
            Some(c) => {
                out.push(c);
            },
            None => {
                proof {
                    assert(patterns.deep_view()[i as int] == patterns@[i as int]@);
                    assert(!all_patterns_compile(patterns.deep_view()));
                }
                return Err(PatternError { index: i, pattern: patterns[i].clone() });
            },
        }
        i += 1;
    }
    Ok(out)
}

/// The relative path matches some pattern of the list.
pub open spec fn excluded_spec(pats: Seq<CompiledPattern>, rel: Seq<char>) -> bool {
    exists|i: int| 0 <= i < pats.len() && pattern_matches((#[trigger] pats[i]).pattern_view(), rel)
}

/// Whether a path, given relative to the source root, matches any of the
/// compiled exclusion patterns and is therefore pruned from the walk.
pub fn is_excluded(patterns: &Vec<CompiledPattern>, rel_path: &str) -> (b: bool)
    ensures
        b == excluded_spec(patterns@, rel_path@),
{
    let mut i: usize = 0;
    while i < patterns.len()
        invariant
            i <= patterns@.len(),
            forall|k: int|
                0 <= k < i ==> !pattern_matches((#[trigger] patterns@[k]).pattern_view(), rel_path@),
        decreases patterns@.len() - i,
    {
        if patterns[i].is_match(rel_path) {
            return true;
        }
        i += 1;
    }
    false
}

/// Law: a relative path that matches any one of the compiled patterns is
/// excluded — and with it, during the walk, everything below it.
pub proof fn lemma_matching_path_excluded(pats: Seq<CompiledPattern>, rel: Seq<char>, i: int)
    requires
        0 <= i < pats.len(),
        pattern_matches(pats[i].pattern_view(), rel),
    ensures
        excluded_spec(pats, rel),
{
}

} // verus!
