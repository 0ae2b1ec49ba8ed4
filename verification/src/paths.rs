//! The output path resolver: the pure decision of where the audit log lands,
//! given the requested location and what the filesystem says about it.
//!
//! Paths are plain strings with `/` as the separator. A path's file name is
//! what follows its last `/`; the name's extension is what follows the last
//! `.` of the name, provided that dot is not the name's first character.
//!
//! The decision itself is pure; the caller performs the one side effect the
//! resolution asks for (creating the named directory) before writing the log.

use vstd::prelude::*;
use vstd::string::*;

verus! {

/// The index of the last occurrence of `c` in `s`, if any.
pub open spec fn last_index(s: Seq<char>, c: char) -> Option<int>
    decreases s.len(),
{
    if s.len() == 0 {
        None
    } else if s[s.len() - 1] == c {
        Some(s.len() - 1)
    } else {
        last_index(s.drop_last(), c)
    }
}

proof fn lemma_last_index_some(s: Seq<char>, c: char, k: int)
    requires
        0 <= k < s.len(),
        s[k] == c,
        forall|j: int| k < j < s.len() ==> s[j] != c,
    ensures
        last_index(s, c) == Some(k),
    decreases s.len(),
{
    if k < s.len() - 1 {
        lemma_last_index_some(s.drop_last(), c, k);
    }
}

proof fn lemma_last_index_none(s: Seq<char>, c: char)
    requires
        forall|j: int| 0 <= j < s.len() ==> s[j] != c,
    ensures
        last_index(s, c) is None,
    decreases s.len(),
{
    if s.len() > 0 {
        lemma_last_index_none(s.drop_last(), c);
    }
}

/// The index of the last occurrence of `c` in `s`, or `None` if `c` does not
/// occur.
pub fn rfind_char(s: &str, c: char) -> (r: Option<usize>)
    ensures
        match r {
            Some(i) => last_index(s@, c) == Some(i as int) && i < s@.len(),
            None => last_index(s@, c) is None,
        },
{
    let n = s.unicode_len();
    let mut i: usize = n;
    while i > 0
        invariant
            i <= n,
            n == s@.len(),
            forall|j: int| i <= j < s@.len() ==> s@[j] != c,
        decreases i,
    {
        let ch = s.get_char(i - 1);
        if ch == c {
            proof {
                lemma_last_index_some(s@, c, i - 1);
            }
            return Some(i - 1);
        }
        i = i - 1;
    }
    proof {
        lemma_last_index_none(s@, c);
    }
    None
}

/// Where the path's file name begins: just after the last `/`, or at the
/// start if the path has no `/`.
pub open spec fn name_start(s: Seq<char>) -> int {
    match last_index(s, '/') {
        Some(i) => i + 1,
        None => 0,
    }
}

/// The index of the dot introducing the path's extension: the last `.` of
/// the string, provided it lies inside the file name and is not the name's
/// first character. A path whose name has no such dot has no extension.
pub open spec fn ext_dot(s: Seq<char>) -> Option<int> {
    match last_index(s, '.') {
        Some(d) => if d > name_start(s) {
            Some(d)
        } else {
            None
        },
        None => None,
    }
}

/// The path's extension: the characters after the extension dot.
pub open spec fn spec_ext(s: Seq<char>) -> Seq<char>
    recommends
        ext_dot(s) is Some,
{
    s.subrange(ext_dot(s).unwrap() + 1, s.len() as int)
}

/// The path has an extension and it is exactly `json`.
pub open spec fn ext_is_json(s: Seq<char>) -> bool {
    &&& ext_dot(s) is Some
    &&& spec_ext(s) == "json"@
}

/// The path with its extension replaced by `json`: everything up to the
/// extension dot, then `.json`.
pub open spec fn spec_with_json(s: Seq<char>) -> Seq<char>
    recommends
        ext_dot(s) is Some,
{
    s.take(ext_dot(s).unwrap()) + ".json"@
}

/// The string ends with the five characters `.json`.
pub open spec fn ends_with_json(s: Seq<char>) -> bool {
    &&& s.len() >= 5
    &&& s.subrange(s.len() - 5, s.len() as int) == ".json"@
}

/// The index of the path's extension dot, or `None` if it has no extension.
pub fn extension_dot(s: &str) -> (r: Option<usize>)
    ensures
        match r {
            Some(d) => ext_dot(s@) == Some(d as int) && d < s@.len(),
            None => ext_dot(s@) is None,
        },
{
    let dot = rfind_char(s, '.');
    let slash = rfind_char(s, '/');
    match dot {
        None => None,
        Some(d) => match slash {
            Some(i) => if i < d && 1 < d - i {
                Some(d)
            } else {
                None
            },
            None => if d > 0 {
                Some(d)
            } else {
                None
            },
        },
    }
}

/// Whether the path's extension is exactly `json`.
pub fn has_json_extension(s: &str) -> (r: bool)
    ensures
        r == ext_is_json(s@),
{
    match extension_dot(s) {
        None => false,
        Some(d) => {
            let n = s.unicode_len();
            proof {
                reveal_strlit("json");
            }
            if n - d != 5 {
                proof {
                    assert(spec_ext(s@).len() != "json"@.len());
                }
                false
            } else {
                let c1 = s.get_char(d + 1);
                let c2 = s.get_char(d + 2);
                let c3 = s.get_char(d + 3);
                let c4 = s.get_char(d + 4);
                let r = c1 == 'j' && c2 == 's' && c3 == 'o' && c4 == 'n';
                proof {
                    assert(spec_ext(s@).len() == 4);
                    assert(spec_ext(s@)[0] == s@[d + 1]);
                    assert(spec_ext(s@)[1] == s@[d + 2]);
                    assert(spec_ext(s@)[2] == s@[d + 3]);
                    assert(spec_ext(s@)[3] == s@[d + 4]);
                    if r {
                        assert(spec_ext(s@) =~= "json"@);
                    }
                    if spec_ext(s@) == "json"@ {
                        assert(s@[d + 1] == "json"@[0]);
                        assert(s@[d + 2] == "json"@[1]);
                        assert(s@[d + 3] == "json"@[2]);
                        assert(s@[d + 4] == "json"@[3]);
                        assert(r);
                    }
                }
                r
            }
        },
    }
}

/// The path with its extension coerced to `json`.
pub fn coerce_to_json(s: &str) -> (r: String)
    requires
        ext_dot(s@) is Some,
    ensures
        r@ == spec_with_json(s@),
{
    let d = match extension_dot(s) {
        Some(d) => d,
        None => {
            proof {
                assert(false);
            }
            0
        },
    };
    let stem = s.substring_char(0, d);
    let r = String::from_str(stem).concat(".json");
    proof {
        assert(r@ =~= spec_with_json(s@));
    }
    r
}

/// `dir` and `name` joined with a single `/`.
pub fn join_dir(dir: &str, name: &str) -> (r: String)
    ensures
        r@ == dir@ + "/"@ + name@,
{
    let mut r = String::from_str(dir);
    r.append("/");
    r.append(name);
    r
}

/// A fresh timestamp-based log file name, `wipe_` then the current UTC time
/// at seconds resolution, ending in `.json`. Two calls within the same
/// second return the same name; that collision is a documented limitation
/// of the naming scheme, not something the resolver hides.
///
/// Relies on `chrono::Utc::now` and `DateTime::format` with the pattern
/// `wipe_%Y-%m-%d_%H-%M-%S.json`: the literal pieces of the pattern pass
/// through unchanged, so the result starts with `wipe_`, ends with `.json`,
/// and contains no `/`; the field specifiers expand to digits and `-` only.
#[verifier::external_body]
pub fn timestamp_log_name() -> (r: String)
    ensures
        r@.len() >= 10,
        r@.subrange(0, 5) == "wipe_"@,
        r@.subrange(r@.len() - 5, r@.len() as int) == ".json"@,
        forall|j: int| 0 <= j < r@.len() ==> r@[j] != '/',
{
    chrono::Utc::now().format("wipe_%Y-%m-%d_%H-%M-%S.json").to_string()
}

/// The default sentinel: the requested output path that stands for "no
/// explicit output path was given".
pub fn default_output_sentinel() -> (r: String)
    ensures
        r@ == "logs/wipe_log.json"@,
{
    String::from_str("logs/wipe_log.json")
}

/// A resolved output location: the final log file path, the directory the
/// caller must create before writing it (if any), and whether the requested
/// extension was coerced to `.json` (worth a warning, not silent).
pub struct Resolution {
    /// The path the audit log is written to.
    pub final_path: String,
    /// The directory to create (with its parents) before writing.
    pub create_dir: Option<String>,
    /// The requested extension was not `.json` and was corrected.
    pub coerced: bool,
}

/// The requested path is treated as a directory: the filesystem says it is
/// one, or it has no extension.
pub open spec fn treated_as_dir(requested: Seq<char>, is_dir: bool) -> bool {
    is_dir || ext_dot(requested) is None
}

/// Resolve the requested output location to the final audit-log path.
///
/// The rules, in order: the default sentinel gets a fresh timestamped name
/// inside the default `logs` directory; a path naming a directory (or
/// lacking an extension) gets a fresh timestamped name inside it; a path
/// with a non-`json` extension is coerced to `.json`; anything else is
/// accepted literally. The final path always ends in `.json`, and an
/// explicit `.json` file path resolves to itself, so resolving it again
/// yields the same path.
///
/// `requested_is_dir` is the filesystem's answer to whether `requested`
/// names an existing directory; the decision is deterministic given it.
pub fn resolve_output_path(requested: &str, requested_is_dir: bool) -> (r: Resolution)
    ensures
        ends_with_json(r.final_path@),
        requested@ == "logs/wipe_log.json"@ ==> {
            &&& r.create_dir matches Some(d) && d@ == "logs"@
            &&& r.final_path@.subrange(0, 5) == "logs/"@
            &&& !r.coerced
        },
        requested@ != "logs/wipe_log.json"@ && treated_as_dir(requested@, requested_is_dir) ==> {
            &&& r.create_dir matches Some(d) && d@ == requested@
            &&& r.final_path@.len() > requested@.len() + 1
            &&& r.final_path@.subrange(0, requested@.len() as int) == requested@
            &&& r.final_path@[requested@.len() as int] == '/'
            &&& !r.coerced
        },
        requested@ != "logs/wipe_log.json"@ && !treated_as_dir(requested@, requested_is_dir)
            && !ext_is_json(requested@) ==> {
            &&& r.final_path@ == spec_with_json(requested@)
            &&& r.create_dir is None
            &&& r.coerced
        },
        requested@ != "logs/wipe_log.json"@ && !treated_as_dir(requested@, requested_is_dir)
            && ext_is_json(requested@) ==> {
            &&& r.final_path@ == requested@
            &&& r.create_dir is None
            &&& !r.coerced
        },
{
    let sentinel = default_output_sentinel();
    if String::from_str(requested) == sentinel {
        let name = timestamp_log_name();
        let final_path = join_dir("logs", name.as_str());
        proof {
            reveal_strlit("logs");
            reveal_strlit("logs/");
            reveal_strlit("/");
            assert(final_path@.subrange(0, 5) =~= "logs/"@);
            lemma_join_ends_with_json("logs"@, name@, final_path@);
        }
        Resolution { final_path, create_dir: Some(String::from_str("logs")), coerced: false }
    } else if requested_is_dir || extension_dot(requested).is_none() {
        let name = timestamp_log_name();
        let final_path = join_dir(requested, name.as_str());
        proof {
            reveal_strlit("/");
            assert(final_path@.subrange(0, requested@.len() as int) =~= requested@);
            lemma_join_ends_with_json(requested@, name@, final_path@);
        }
        Resolution {
            final_path,
            create_dir: Some(String::from_str(requested)),
            coerced: false,
        }
    } else if !has_json_extension(requested) {
        let final_path = coerce_to_json(requested);
        proof {
            reveal_strlit(".json");
            assert(final_path@.subrange(final_path@.len() - 5, final_path@.len() as int)
                =~= ".json"@);
        }
        Resolution { final_path, create_dir: None, coerced: true }
    } else {
        let final_path = String::from_str(requested);
        proof {
            lemma_json_ext_ends_with_json(requested@);
        }
        Resolution { final_path, create_dir: None, coerced: false }
    }
}

/// Joining a directory with a name that ends in `.json` yields a path that
/// ends in `.json`.
proof fn lemma_join_ends_with_json(dir: Seq<char>, name: Seq<char>, joined: Seq<char>)
    requires
        name.len() >= 5,
        name.subrange(name.len() - 5, name.len() as int) == ".json"@,
        joined == dir + "/"@ + name,
    ensures
        ends_with_json(joined),
{
    reveal_strlit("/");
    assert(joined.subrange(joined.len() - 5, joined.len() as int) =~= name.subrange(
        name.len() - 5,
        name.len() as int,
    ));
}

/// A path whose extension is `json` ends with `.json`.
proof fn lemma_json_ext_ends_with_json(s: Seq<char>)
    requires
        ext_is_json(s),
    ensures
        ends_with_json(s),
{
    reveal_strlit("json");
    reveal_strlit(".json");
    let d = ext_dot(s).unwrap();
    lemma_ext_dot_is_dot(s);
    assert(s.subrange(d + 1, s.len() as int) == "json"@);
    assert(s.subrange(d + 1, s.len() as int).len() == "json"@.len());
    assert(s.len() == d + 5);
    assert forall|k: int| 0 <= k < 5 implies s.subrange(s.len() - 5, s.len() as int)[k]
        == ".json"@[k] by {
        if k == 0 {
            assert(s.subrange(s.len() - 5, s.len() as int)[0] == s[d]);
        } else {
            assert(s.subrange(s.len() - 5, s.len() as int)[k] == s.subrange(
                d + 1,
                s.len() as int,
            )[k - 1]);
            assert(s.subrange(d + 1, s.len() as int)[k - 1] == "json"@[k - 1]);
        }
    }
    assert(s.subrange(s.len() - 5, s.len() as int) =~= ".json"@);
}

/// The extension dot really is a `.` character of the string.
proof fn lemma_ext_dot_is_dot(s: Seq<char>)
    requires
        ext_dot(s) is Some,
    ensures
        0 < ext_dot(s).unwrap() < s.len(),
        s[ext_dot(s).unwrap()] == '.',
    decreases s.len(),
{
    lemma_last_index_found(s, '.');
    if last_index(s, '/') is Some {
        lemma_last_index_found(s, '/');
    }
}

/// What `last_index` returning `Some` means pointwise.
proof fn lemma_last_index_found(s: Seq<char>, c: char)
    requires
        last_index(s, c) is Some,
    ensures
        0 <= last_index(s, c).unwrap() < s.len(),
        s[last_index(s, c).unwrap()] == c,
        forall|j: int| last_index(s, c).unwrap() < j < s.len() ==> s[j] != c,
    decreases s.len(),
{
    if s.len() > 0 && s[s.len() - 1] != c {
        lemma_last_index_found(s.drop_last(), c);
        let idx = last_index(s, c).unwrap();
        assert forall|j: int| idx < j < s.len() implies s[j] != c by {
            if j < s.len() - 1 {
                assert(s.drop_last()[j] == s[j]);
            }
        }
    }
}

} // verus!
