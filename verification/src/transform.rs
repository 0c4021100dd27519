//! Per-file filtering and content transformation: extension extraction and
//! filtering, content matching, and the literal prefix replacement.

use vstd::prelude::*;

use crate::replace::{contains_prefix, contains_seq, replace_prefix, replace_seq};
use crate::settings::Setting;

verus! {

/// The file name holds a `.` somewhere.
pub open spec fn has_dot(name: Seq<char>) -> bool {
    exists|i: int| 0 <= i < name.len() && name[i] == '.'
}

/// The extension of a file name: the text after the last `.`; the empty
/// string when the name holds no `.` at all.
pub open spec fn ext_of(name: Seq<char>) -> Seq<char>
    decreases name.len(),
{
    if name.len() == 0 {
        Seq::<char>::empty()
    } else if name[0] == '.' && !has_dot(name.skip(1)) {
        name.skip(1)
    } else {
        ext_of(name.skip(1))
    }
}

/// A name whose last `.` stands at `i` has everything after `i` as its
/// extension.
proof fn lemma_ext_after_dot(name: Seq<char>, i: int)
    requires
        0 <= i < name.len(),
        name[i] == '.',
        forall|k: int| i < k < name.len() ==> name[k] != '.',
    ensures
        ext_of(name) == name.skip(i + 1),
    decreases i,
{
    if i == 0 {
        assert forall|k: int| 0 <= k < name.skip(1).len() implies name.skip(1)[k] != '.' by {
            assert(name.skip(1)[k] == name[k + 1]);
        }
        assert(!has_dot(name.skip(1)));
    } else {
        assert(name.skip(1)[i - 1] == name[i]);
        assert(has_dot(name.skip(1)));
        assert forall|k: int| i - 1 < k < name.skip(1).len() implies name.skip(1)[k] != '.' by {
            assert(name.skip(1)[k] == name[k + 1]);
        }
        lemma_ext_after_dot(name.skip(1), i - 1);
        assert(name.skip(1).skip(i) =~= name.skip(i + 1));
    }
}

/// A name without a `.` has the empty extension.
proof fn lemma_ext_no_dot(name: Seq<char>)
    requires
        !has_dot(name),
    ensures
        ext_of(name) == Seq::<char>::empty(),
    decreases name.len(),
{
    if name.len() > 0 {
        assert(name[0] != '.');
        assert forall|k: int| 0 <= k < name.skip(1).len() implies name.skip(1)[k] != '.' by {
            assert(name.skip(1)[k] == name[k + 1]);
        }
        assert(!has_dot(name.skip(1)));
        lemma_ext_no_dot(name.skip(1));
    }
}

/// Extracts the extension of a file name: the text after the last `.`, or
/// the empty string when there is none.
pub fn extension_of(name: &str) -> (r: String)
    ensures
        r@ == ext_of(name@),
{
    let n = name.unicode_len();
    let mut i: usize = n;
    while i > 0
        invariant
            i <= n,
            n == name@.len(),
            forall|k: int| i <= k < n ==> name@[k] != '.',
        decreases i,
    {
        if name.get_char(i - 1) == '.' {
            let e = name.substring_char(i, n).to_owned();
            proof {
                lemma_ext_after_dot(name@, i - 1);
                assert(name@.skip(i as int) =~= name@.subrange(i as int, n as int));
            }
            return e;
        }
        i -= 1;
    }
    proof {
        assert(!has_dot(name@));
        lemma_ext_no_dot(name@);
    }
    String::new()
}

/// The extension passes the filter: the configured set is empty (every file
/// passes) or holds the extension.
pub open spec fn ext_allowed(ext: Seq<char>, types: Seq<Seq<char>>) -> bool {
    types.len() == 0 || types.contains(ext)
}

/// Whether an extension is in the configured extension set, every extension
/// passing when the set is empty.
pub fn extension_allowed(ext: &String, types: &Vec<String>) -> (b: bool)
    ensures
        b == ext_allowed(ext@, types.deep_view()),
{
    if types.len() == 0 {
        return true;
    }
    let mut i: usize = 0;
    while i < types.len()
        invariant
            i <= types@.len(),
            forall|k: int| 0 <= k < i ==> (#[trigger] types.deep_view()[k]) != ext@,
        decreases types@.len() - i,
    {
        if types[i].eq(ext) {
            proof {
                assert(types.deep_view()[i as int] == types@[i as int]@);
                assert(types.deep_view().contains(ext@));
            }
            return true;
        }
        proof {
            assert(types.deep_view()[i as int] == types@[i as int]@);
        }
        i += 1;
    }
    proof {
        assert(!types.deep_view().contains(ext@));
    }
    false
}

/// The file passes the extension filter of the resolved settings.
pub open spec fn file_wanted(setting: Setting, file_name: Seq<char>) -> bool {
    ext_allowed(ext_of(file_name), setting.file_types.deep_view())
}

/// Whether a file, named by its file name alone, passes the extension
/// filter of the resolved settings.
pub fn wants_file(setting: &Setting, file_name: &str) -> (b: bool)
    ensures
        b == file_wanted(*setting, file_name@),
{
    let e = extension_of(file_name);
    extension_allowed(&e, &setting.file_types)
}

/// Transforms a file's content: nothing when the content does not hold the
/// old prefix (the file is skipped, no output written); otherwise the
/// content with every occurrence of the old prefix replaced by the new one.
pub fn transform_content(content: &str, old_prefix: &str, new_prefix: &str) -> (r: Option<
    String,
>)
    ensures
        r is Some <==> contains_seq(content@, old_prefix@),
        r matches Some(s) ==> s@ == replace_seq(content@, old_prefix@, new_prefix@),
{
    if contains_prefix(content, old_prefix) {
        Some(replace_prefix(content, old_prefix, new_prefix))
    } else {
        None
    }
}

/// Law: a file whose extension is missing from a non-empty configured
/// extension set never passes the filter, so no output is produced for it.
pub proof fn lemma_unmatched_extension_skipped(setting: Setting, file_name: Seq<char>)
    requires
        setting.file_types.deep_view().len() > 0,
        !setting.file_types.deep_view().contains(ext_of(file_name)),
    ensures
        !file_wanted(setting, file_name),
{
}

} // verus!
