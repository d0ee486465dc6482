//! Derivation of a file sink's output path from its base path, the sink
//! identifier, and the uniqueness suffix.
//!
//! Paths are modelled as plain character strings. The final component of a
//! path is everything after its last `'/'`; it splits at its last `'.'` —
//! when that dot is not its first character — into a stem and an extension.
//! A path whose final component is empty (a directory path or an empty path),
//! or is `.` or `..`, has no stem and cannot name an output file.

use vstd::prelude::*;
use vstd::string::StrSliceExecFns;
use vstd::string::StringExecFns;

use crate::connector::SinkError;
use crate::text::{append_dec_u64, dec_digits, str_eq};

verus! {

/// The index of the last occurrence of `c` in `s`, or `-1` when absent.
pub open spec fn last_index_of(s: Seq<char>, c: char) -> int
    decreases s.len(),
{
    if s.len() == 0 {
        -1
    } else if s.last() == c {
        s.len() - 1
    } else {
        last_index_of(s.drop_last(), c)
    }
}

pub proof fn lemma_last_index_of_range(s: Seq<char>, c: char)
    ensures
        -1 <= last_index_of(s, c) < s.len(),
    decreases s.len(),
{
    if s.len() > 0 && s.last() != c {
        lemma_last_index_of_range(s.drop_last(), c);
    }
}

/// The directory part of a path: everything up to and including the last
/// `'/'`; empty when there is none.
pub open spec fn dir_of(path: Seq<char>) -> Seq<char> {
    path.subrange(0, last_index_of(path, '/') + 1)
}

/// The final component of a path: everything after the last `'/'`.
pub open spec fn file_name_of(path: Seq<char>) -> Seq<char> {
    path.subrange(last_index_of(path, '/') + 1, path.len() as int)
}

/// Whether the path has a file stem to derive an output name from.
pub open spec fn has_file_stem(path: Seq<char>) -> bool {
    let name = file_name_of(path);
    name.len() > 0 && name != "."@ && name != ".."@
}

/// Where the final component splits into stem and extension: the index of its
/// last `'.'` when that is past the first character, else `-1` (no extension).
pub open spec fn stem_split(name: Seq<char>) -> int {
    let dot = last_index_of(name, '.');
    if dot > 0 {
        dot
    } else {
        -1
    }
}

pub open spec fn file_stem_of(name: Seq<char>) -> Seq<char> {
    if stem_split(name) >= 0 {
        name.subrange(0, stem_split(name))
    } else {
        name
    }
}

pub open spec fn extension_of(name: Seq<char>) -> Option<Seq<char>> {
    if stem_split(name) >= 0 {
        Some(name.subrange(stem_split(name) + 1, name.len() as int))
    } else {
        None
    }
}

/// The derived output file name: `<stem>-<id>-<suffix>`, keeping the original
/// extension when there was one.
pub open spec fn derived_file_name(name: Seq<char>, id: nat, suffix: Seq<char>) -> Seq<char> {
    let base = file_stem_of(name) + "-"@ + dec_digits(id) + "-"@ + suffix;
    match extension_of(name) {
        Some(ext) => base + "."@ + ext,
        None => base,
    }
}

/// The derived output path: the base path's directory part, then the derived
/// file name. A pure function of (base path, identifier, suffix), so a given
/// sink always claims the same path.
pub open spec fn derived_sink_path(path: Seq<char>, id: nat, suffix: Seq<char>) -> Seq<char> {
    dir_of(path) + derived_file_name(file_name_of(path), id, suffix)
}

/// The index of the last occurrence of `c` in `s`, scanning from the end.
pub fn rfind_char(s: &str, c: char) -> (r: Option<usize>)
    ensures
        match r {
            Some(k) => k == last_index_of(s@, c),
            None => last_index_of(s@, c) == -1,
        },
{
    let len = s.unicode_len();
    let mut i: usize = len;
    proof {
        assert(s@.subrange(0, s@.len() as int) =~= s@);
    }
    while i > 0
        invariant
            0 <= i <= len,
            len == s@.len(),
            last_index_of(s@, c) == last_index_of(s@.subrange(0, i as int), c),
        decreases i,
    {
        let probe = s.get_char(i - 1);
        proof {
            assert(s@.subrange(0, i as int).last() == s@[i - 1]);
            assert(s@.subrange(0, i as int).drop_last() =~= s@.subrange(0, i - 1));
        }
        if probe == c {
            proof {
                lemma_last_index_of_range(s@, c);
            }
            return Some(i - 1);
        }
        i -= 1;
    }
    proof {
        assert(s@.subrange(0, 0) =~= Seq::<char>::empty());
    }
    None
}

/// Derives the output path for a file sink, or reports that the base path has
/// no file stem. Performs no filesystem access: claiming the path is the
/// caller's next, separate step.
pub fn derive_sink_path(path: &str, id: u64, suffix: &str) -> (r: Result<String, SinkError>)
    ensures
        has_file_stem(path@) ==> (r matches Ok(p) && p@ == derived_sink_path(
            path@,
            id as nat,
            suffix@,
        )),
        !has_file_stem(path@) ==> (r matches Err(SinkError::PathMissingFileStem { path: p })
            && p@ == path@),
{
    let len = path.unicode_len();
    let name_start: usize = match rfind_char(path, '/') {
        Some(k) => {
            proof {
                lemma_last_index_of_range(path@, '/');
            }
            k + 1
        },
        None => 0,
    };
    let name = path.substring_char(name_start, len);
    proof {
        assert(name@ == file_name_of(path@));
    }
    if name.unicode_len() == 0 || str_eq(name, ".") || str_eq(name, "..") {
        return Err(SinkError::PathMissingFileStem { path: String::from_str(path) });
    }
    let name_len = name.unicode_len();
    let split: Option<usize> = match rfind_char(name, '.') {
        Some(k) => {
            if k > 0 {
                proof {
                    lemma_last_index_of_range(name@, '.');
                }
                Some(k)
            } else {
                None
            }
        },
        None => None,
    };
    let dir = path.substring_char(0, name_start);
    let mut out = String::from_str(dir);
    match split {
        Some(k) => {
            out = out.concat(name.substring_char(0, k));
        },
        None => {
            out = out.concat(name);
        },
    }
    out = out.concat("-");
    out = append_dec_u64(out, id);
    out = out.concat("-");
    out = out.concat(suffix);
    if let Some(k) = split {
        out = out.concat(".");
        out = out.concat(name.substring_char(k + 1, name_len));
    }
    proof {
        assert(out@ =~= derived_sink_path(path@, id as nat, suffix@));
    }
    Ok(out)
}

} // verus!
