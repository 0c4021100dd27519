//! Resolution of the primary configuration into a `Setting`.
//!
//! The replacement prefix is taken from the primary configuration when it is
//! given there; otherwise it is derived from a secondary configuration
//! obtained by a best-effort fallback chain (local path first, then the
//! alternate path), defaulting to the empty string when every attempt fails.
//! The file loading itself is I/O and happens outside the library; the
//! library is handed the outcome of each attempt and decides everything else.

use vstd::prelude::*;

use crate::settings::{FileConfig, Setting, YamlConfig};

verus! {

/// The outcome of one attempt to load a secondary configuration file.
pub enum SecondaryLookup {
    /// The attempt was not made (no path was configured, or none was needed).
    NotAttempted,
    /// The attempt was made and the file could not be loaded or parsed.
    Failed,
    /// The attempt produced a secondary configuration.
    Loaded(YamlConfig),
}

/// Which secondary configuration the fallback chain settles on: a loaded
/// local configuration wins outright; otherwise a loaded fallback
/// configuration; otherwise none. Failures are swallowed, never surfaced.
pub open spec fn chosen_secondary(
    local: SecondaryLookup,
    fallback: SecondaryLookup,
) -> Option<YamlConfig> {
    match local {
        SecondaryLookup::Loaded(y) => Some(y),
        _ => match fallback {
            SecondaryLookup::Loaded(y) => Some(y),
            _ => None,
        },
    }
}

/// The replacement prefix before normalization: an explicit `new_web_prefix`
/// of the primary configuration wins and the secondary outcomes are ignored;
/// otherwise the chosen secondary configuration's web prefix; otherwise the
/// empty string.
pub open spec fn raw_prefix(
    fc: FileConfig,
    local: SecondaryLookup,
    fallback: SecondaryLookup,
) -> Seq<char> {
    match fc.new_web_prefix {
        Some(p) => p@,
        None => match chosen_secondary(local, fallback) {
            Some(y) => y.client.web_prefix@,
            None => Seq::<char>::empty(),
        },
    }
}

/// A bare root prefix means "no prefix": the literal `"/"` normalizes to the
/// empty string; every other prefix is kept as it is.
pub open spec fn normalize_prefix(p: Seq<char>) -> Seq<char> {
    if p == seq!['/'] {
        Seq::<char>::empty()
    } else {
        p
    }
}

/// The user's exclusion patterns (defaulted to empty when absent) with the
/// version-control metadata pattern always appended at the end.
pub open spec fn exclude_patterns_of(fc: FileConfig) -> Seq<Seq<char>> {
    (match fc.exclude_path {
        Some(v) => v.deep_view(),
        None => Seq::<Seq<char>>::empty(),
    }).push("\\.git$"@)
}

/// The configured extension set, defaulted to empty when absent.
pub open spec fn file_types_of(fc: FileConfig) -> Seq<Seq<char>> {
    match fc.file_types {
        Some(v) => v.deep_view(),
        None => Seq::<Seq<char>>::empty(),
    }
}

/// True exactly when resolution has to consult a secondary configuration:
/// the primary configuration carries no replacement prefix of its own.
pub fn needs_secondary(fc: &FileConfig) -> (r: bool)
    ensures
        r == (fc.new_web_prefix is None),
{
    fc.new_web_prefix.is_none()
}

/// Applies the bare-root policy to a resolved prefix.
pub fn normalize(p: String) -> (r: String)
    ensures
        r@ == normalize_prefix(p@),
{
    let n = p.as_str().unicode_len();
    if n == 1 && p.as_str().get_char(0) == '/' {
        proof {
            assert(p@ =~= seq!['/']);
        }
        String::new()
    } else {
        proof {
            if p@ == seq!['/'] {
                assert(p@.len() == 1 && p@[0] == '/');
            }
        }
        p
    }
}

/// Builds the resolved `Setting` from the primary configuration and the
/// outcomes of the two secondary lookups: the replacement prefix is resolved
/// and normalized, the exclusion patterns gain the version-control pattern,
/// and the optional lists default to empty.
pub fn map_file_config(
    file_config: FileConfig,
    local: SecondaryLookup,
    fallback: SecondaryLookup,
) -> (s: Setting)
    ensures
        s.old_web_prefix@ == file_config.old_web_prefix@,
        s.source_path@ == file_config.source_path@,
        s.output_path@ == file_config.output_path@,
        s.file_types.deep_view() == file_types_of(file_config),
        s.exclude_path.deep_view() == exclude_patterns_of(file_config),
        s.new_web_prefix@ == normalize_prefix(raw_prefix(file_config, local, fallback)),
{
    let FileConfig {
        old_web_prefix,
        new_web_prefix,
        local_config_path: _,
        config_path: _,
        exclude_path,
        source_path,
        output_path,
        file_types,
    } = file_config;

    let raw: String = match new_web_prefix {
        Some(p) => p,
        None => match local {
            SecondaryLookup::Loaded(y) => y.client.web_prefix,
            _ => match fallback {
                SecondaryLookup::Loaded(y) => y.client.web_prefix,
                _ => String::new(),
            },
        },
    };
    let new_web_prefix = normalize(raw);

    let mut exclude_path: Vec<String> = match exclude_path {
        Some(v) => v,
        None => Vec::new(),
    };
    exclude_path.push("\\.git$".to_owned());
    proof {
        assert(exclude_path.deep_view() =~= exclude_patterns_of(file_config));
    }

    let file_types: Vec<String> = match file_types {
        Some(v) => v,
        None => Vec::new(),
    };
    proof {
        assert(file_types.deep_view() =~= file_types_of(file_config));
    }

    Setting { old_web_prefix, new_web_prefix, exclude_path, source_path, output_path, file_types }
}

/// Law: when the primary configuration provides the replacement prefix
/// explicitly, the resolved prefix does not depend on the secondary lookups
/// in any way — the secondary configuration is never consulted.
pub proof fn lemma_direct_prefix_ignores_secondary(
    fc: FileConfig,
    l1: SecondaryLookup,
    f1: SecondaryLookup,
    l2: SecondaryLookup,
    f2: SecondaryLookup,
)
    requires
        fc.new_web_prefix is Some,
    ensures
        normalize_prefix(raw_prefix(fc, l1, f1)) == normalize_prefix(raw_prefix(fc, l2, f2)),
{
}

/// Law: whenever the prefix that resolution arrives at is the bare root
/// `"/"`, the effective prefix used for replacement is the empty string.
pub proof fn lemma_root_prefix_is_empty(
    fc: FileConfig,
    local: SecondaryLookup,
    fallback: SecondaryLookup,
)
    requires
        raw_prefix(fc, local, fallback) == seq!['/'],
    ensures
        normalize_prefix(raw_prefix(fc, local, fallback)) == Seq::<char>::empty(),
{
}

/// Law: the resolved exclusion patterns always end with the version-control
/// metadata pattern, whatever the user configured — even no patterns at all.
pub proof fn lemma_git_always_excluded(fc: FileConfig)
    ensures
        exclude_patterns_of(fc).len() > 0,
        exclude_patterns_of(fc).last() == "\\.git$"@,
{
}

} // verus!
