//! Pure classification of filesystem paths as likely locked or reclaimable.
//!
//! The rules are heuristics over the path string and a fixed rule table,
//! kept independent of the retry loops so they can be tested without a
//! filesystem.  Paths are modelled as strings; a file name is the last
//! nonempty component, so trailing `/` or `\` separators are ignored.

use vstd::prelude::*;
use vstd::string::*;
use crate::text::{contains_seq, has_suffix, str_contains, str_eq, str_has_suffix};

verus! {

/// Whether a character separates path components.
pub open spec fn is_sep(c: char) -> bool {
    c == '/' || c == '\\'
}

/// The path with its trailing separators removed.
pub open spec fn spec_trim_trailing_seps(p: Seq<char>) -> Seq<char>
    decreases p.len(),
{
    if p.len() > 0 && is_sep(p.last()) {
        spec_trim_trailing_seps(p.drop_last())
    } else {
        p
    }
}

/// The portion of a separator-trimmed path after its last separator.
pub open spec fn spec_last_component(p: Seq<char>) -> Seq<char>
    decreases p.len(),
{
    if p.len() == 0 {
        p
    } else if is_sep(p.last()) {
        Seq::<char>::empty()
    } else {
        spec_last_component(p.drop_last()).push(p.last())
    }
}

/// The file name of a path: its last nonempty component, as the standard
/// library reads one off a path ending in separators.
pub open spec fn spec_file_name(p: Seq<char>) -> Seq<char> {
    spec_last_component(spec_trim_trailing_seps(p))
}

/// Trimming a path whose tail from `end` on is all separators keeps
/// exactly its first `end` characters.
proof fn lemma_trim_take(p: Seq<char>, end: int)
    requires
        0 <= end <= p.len(),
        forall|j: int| end <= j < p.len() ==> is_sep(p[j]),
        end > 0 ==> !is_sep(p[end - 1]),
    ensures
        spec_trim_trailing_seps(p) == p.take(end),
    decreases p.len() - end,
{
    if p.len() == end {
        assert(p.take(end) =~= p);
    } else {
        assert(is_sep(p.last()));
        lemma_trim_take(p.drop_last(), end);
        assert(p.drop_last().take(end) =~= p.take(end));
    }
}

/// The last component of a separator-free tail is the tail itself.
proof fn lemma_last_component_suffix(p: Seq<char>, k: int)
    requires
        0 <= k <= p.len(),
        forall|j: int| k <= j < p.len() ==> !is_sep(p[j]),
        k > 0 ==> is_sep(p[k - 1]),
    ensures
        spec_last_component(p) == p.skip(k),
    decreases p.len() - k,
{
    if p.len() == k {
        if k == 0 {
            assert(p.skip(k) =~= p);
        } else {
            assert(p.last() == p[k - 1]);
            assert(p.skip(k) =~= Seq::<char>::empty());
        }
    } else {
        assert(!is_sep(p[p.len() - 1]));
        lemma_last_component_suffix(p.drop_last(), k);
        assert(p.drop_last().skip(k).push(p.last()) =~= p.skip(k));
    }
}

/// Checks whether a character separates path components.
fn is_sep_char(c: char) -> (r: bool)
    ensures
        r == is_sep(c),
{
    c == '/' || c == '\\'
}

/// Extracts the file-name portion of a path string.
pub fn file_name_of(p: &str) -> (r: String)
    ensures
        r@ == spec_file_name(p@),
{
    let len = p.unicode_len();
    let mut end: usize = len;
    while end > 0 && is_sep_char(p.get_char(end - 1))
        invariant
            len == p@.len(),
            end <= len,
            forall|j: int| end <= j < len ==> is_sep(p@[j]),
        decreases end,
    {
        end = end - 1;
    }
    proof {
        lemma_trim_take(p@, end as int);
    }
    let ghost trimmed = p@.take(end as int);
    let mut i: usize = end;
    while i > 0
        invariant
            len == p@.len(),
            i <= end <= len,
            trimmed == p@.take(end as int),
            spec_trim_trailing_seps(p@) == trimmed,
            forall|j: int| i <= j < end ==> !is_sep(p@[j]),
        decreases i,
    {
        let c = p.get_char(i - 1);
        if c == '/' || c == '\\' {
            let r = p.substring_char(i, end);
            proof {
                lemma_last_component_suffix(trimmed, i as int);
                assert(r@ =~= trimmed.skip(i as int));
            }
            return String::from_str(r);
        }
        i = i - 1;
    }
    let r = p.substring_char(0, end);
    proof {
        lemma_last_component_suffix(trimmed, 0);
        assert(r@ =~= trimmed.skip(0));
    }
    String::from_str(r)
}

/// A path names a file likely held open by the running process: one of the
/// fixed store or marker file names, a log file, or a name carrying the
/// legacy application-directory marker.
pub open spec fn spec_locked_by_current_process(path: Seq<char>) -> bool {
    let name = spec_file_name(path);
    name == "settings.dat"@ || name == "signals.dat"@ || name == "version.txt"@ || name
        == ".factory_reset"@ || has_suffix(name, ".log"@) || contains_seq(name, "rscoop"@)
}

/// A path lies in an embedded-browser data directory and holds one of its
/// storage subdirectories, or matches one of its database lock-file
/// patterns while inside that directory.
pub open spec fn spec_webview_locked_file(path: Seq<char>) -> bool {
    let name = spec_file_name(path);
    (contains_seq(path, "EBWebView"@) && (contains_seq(path, "shared_proto_db"@) || contains_seq(
        path,
        "IndexedDB"@,
    ) || contains_seq(path, "Local Storage"@) || contains_seq(path, "Session Storage"@)))
        || (contains_seq(path, "EBWebView"@) && (contains_seq(name, "LOCK"@) || contains_seq(
        name,
        "LOG"@,
    ) || contains_seq(name, "MANIFEST-"@) || contains_seq(name, ".log"@)))
}

/// A directory path inside the embedded-browser data directory that holds
/// one of its storage subdirectory names.
pub open spec fn spec_webview_locked_dir(path: Seq<char>) -> bool {
    contains_seq(path, "EBWebView"@) && (contains_seq(path, "shared_proto_db"@) || contains_seq(
        path,
        "IndexedDB"@,
    ) || contains_seq(path, "Local Storage"@) || contains_seq(path, "Session Storage"@)
        || contains_seq(path, "GPUCache"@) || contains_seq(path, "Code Cache"@))
}

/// Checks whether a file is likely locked by the current process.
pub fn is_file_locked_by_current_process(path: &str) -> (r: bool)
    ensures
        r == spec_locked_by_current_process(path@),
{
    let name = file_name_of(path);
    let n = name.as_str();
    str_eq(n, "settings.dat") || str_eq(n, "signals.dat") || str_eq(n, "version.txt") || str_eq(
        n,
        ".factory_reset",
    ) || str_has_suffix(n, ".log") || str_contains(n, "rscoop")
}

/// Checks whether a file is an embedded-browser locked database file.
pub fn is_webview_locked_file(path: &str) -> (r: bool)
    ensures
        r == spec_webview_locked_file(path@),
{
    if !str_contains(path, "EBWebView") {
        return false;
    }
    if str_contains(path, "shared_proto_db") || str_contains(path, "IndexedDB") || str_contains(
        path,
        "Local Storage",
    ) || str_contains(path, "Session Storage") {
        return true;
    }
    let name = file_name_of(path);
    let n = name.as_str();
    str_contains(n, "LOCK") || str_contains(n, "LOG") || str_contains(n, "MANIFEST-")
        || str_contains(n, ".log")
}

/// Checks whether a directory is an embedded-browser locked database
/// directory.
pub fn is_webview_locked_dir(path: &str) -> (r: bool)
    ensures
        r == spec_webview_locked_dir(path@),
{
    str_contains(path, "EBWebView") && (str_contains(path, "shared_proto_db") || str_contains(
        path,
        "IndexedDB",
    ) || str_contains(path, "Local Storage") || str_contains(path, "Session Storage")
        || str_contains(path, "GPUCache") || str_contains(path, "Code Cache"))
}

} // verus!
