//! Field extractors: pure functions that pull typed values out of event
//! payloads.
//!
//! `split_pid_by_underscore` derives the base identifier of a persistent
//! identifier by stripping any collateral-file suffix (the part from the
//! first underscore on).  `filename_from_path` derives the final segment
//! of a filesystem-style path, failing with a typed error instead of
//! crashing when no segment can be extracted.

use vstd::prelude::*;

verus! {

/// Why a field extraction failed.
#[derive(Clone, Copy, PartialEq, Eq, Structural, Debug)]
pub enum ExtractError {
    /// The path value was absent from the payload or not a string.
    MissingPath,
    /// The path has no final segment: it is empty or ends in a separator.
    EmptyBasename,
    /// The persistent identifier was absent from the payload or not a string.
    MissingPid,
}

/// Length of the prefix of `s` that precedes its first underscore;
/// `s.len()` when `s` holds no underscore.
pub open spec fn base_len(s: Seq<char>) -> int
    decreases s.len(),
{
    if s.len() == 0 {
        0
    } else if s[0] == '_' {
        0
    } else {
        1 + base_len(s.subrange(1, s.len() as int))
    }
}

/// The base identifier of `s`: its prefix up to (excluding) the first
/// underscore, or all of `s` when it holds no underscore.
pub open spec fn base_pid(s: Seq<char>) -> Seq<char> {
    s.subrange(0, base_len(s))
}

/// The prefix kept by `base_pid` holds no underscore, ends right before
/// the first underscore if there is one, and is all of the input if
/// there is none.
pub proof fn lemma_base_len(s: Seq<char>)
    ensures
        0 <= base_len(s) <= s.len(),
        forall|j: int| 0 <= j < base_len(s) ==> s[j] != '_',
        base_len(s) < s.len() ==> s[base_len(s)] == '_',
        (forall|j: int| 0 <= j < s.len() ==> s[j] != '_') ==> base_len(s) == s.len(),
    decreases s.len(),
{
    if s.len() != 0 && s[0] != '_' {
        let t = s.subrange(1, s.len() as int);
        lemma_base_len(t);
        assert forall|j: int| 0 <= j < base_len(s) implies s[j] != '_' by {
            if j > 0 {
                assert(t[j - 1] == s[j]);
            }
        }
    }
}

/// A position with no underscore before it, and an underscore (or the
/// end of the string) at it, is exactly `base_len`.
pub proof fn lemma_base_len_at(s: Seq<char>, k: int)
    requires
        0 <= k <= s.len(),
        forall|j: int| 0 <= j < k ==> s[j] != '_',
        k < s.len() ==> s[k] == '_',
    ensures
        base_len(s) == k,
    decreases s.len(),
{
    if s.len() != 0 && s[0] != '_' {
        let t = s.subrange(1, s.len() as int);
        assert(forall|j: int| 0 <= j < k - 1 ==> t[j] == s[j + 1]);
        lemma_base_len_at(t, k - 1);
    }
}

/// Splits a string at its first underscore and returns the part before
/// it, or the whole string when it holds no underscore.
///
/// Used to derive the base identifier from the persistent identifier of
/// a collateral file, e.g. `<pid>_srt`.
pub fn split_pid_by_underscore(pid: &str) -> (r: &str)
    ensures
        r@ == base_pid(pid@),
{
    let n = pid.unicode_len();
    let mut i: usize = 0;
    while i < n && pid.get_char(i) != '_'
        invariant
            i <= n,
            n == pid@.len(),
            forall|j: int| 0 <= j < i ==> pid@[j] != '_',
        decreases n - i,
    {
        i += 1;
    }
    proof {
        lemma_base_len_at(pid@, i as int);
    }
    pid.substring_char(0, i)
}

/// Index where the final path segment of `s` starts: the position right
/// after the last `/`, or `0` when `s` holds no `/`.  Equal to `s.len()`
/// exactly when no non-empty final segment exists.
pub open spec fn basename_start(s: Seq<char>) -> int
    decreases s.len(),
{
    if s.len() == 0 {
        0
    } else if s[s.len() - 1] == '/' {
        s.len() as int
    } else {
        basename_start(s.subrange(0, s.len() - 1))
    }
}

/// Length of `s` with its trailing separators removed.
pub open spec fn trimmed_len(s: Seq<char>) -> int
    decreases s.len(),
{
    if s.len() == 0 {
        0
    } else if s[s.len() - 1] == '/' {
        trimmed_len(s.drop_last())
    } else {
        s.len() as int
    }
}

/// `s` with its trailing separators removed.
pub open spec fn trimmed(s: Seq<char>) -> Seq<char> {
    s.take(trimmed_len(s))
}

/// The final path segment of `s`: everything after the last `/`, with
/// trailing separators ignored.
pub open spec fn basename(s: Seq<char>) -> Seq<char> {
    trimmed(s).subrange(basename_start(trimmed(s)), trimmed_len(s))
}

/// Whether `s` has an extractable final segment: something is left
/// after the trailing separators, and the final component is not the
/// parent-directory marker `..`.
pub open spec fn has_basename(s: Seq<char>) -> bool {
    trimmed_len(s) > 0 && basename(s) != ".."@
}

/// What `trimmed_len` cuts: everything from it on is a separator, and
/// nothing remains that ends in one.
pub proof fn lemma_trimmed_len(s: Seq<char>)
    ensures
        0 <= trimmed_len(s) <= s.len(),
        forall|j: int| trimmed_len(s) <= j < s.len() ==> s[j] == '/',
        trimmed_len(s) > 0 ==> s[trimmed_len(s) - 1] != '/',
    decreases s.len(),
{
    if s.len() != 0 && s[s.len() - 1] == '/' {
        let t = s.drop_last();
        lemma_trimmed_len(t);
        assert forall|j: int| trimmed_len(s) <= j < s.len() implies s[j] == '/' by {
            if j < s.len() - 1 {
                assert(t[j] == s[j]);
            }
        }
    }
}

/// A position with only separators from it on, and a non-separator (or
/// the start of the string) right before it, is exactly `trimmed_len`.
pub proof fn lemma_trimmed_len_at(s: Seq<char>, k: int)
    requires
        0 <= k <= s.len(),
        forall|j: int| k <= j < s.len() ==> s[j] == '/',
        k > 0 ==> s[k - 1] != '/',
    ensures
        trimmed_len(s) == k,
    decreases s.len(),
{
    if s.len() != 0 && s[s.len() - 1] == '/' {
        let t = s.drop_last();
        assert(forall|j: int| 0 <= j < t.len() ==> t[j] == s[j]);
        lemma_trimmed_len_at(t, k);
    }
}

/// The segment kept by `basename` is non-empty whenever something
/// remains after the trailing separators, and holds no separator.
pub proof fn lemma_basename(s: Seq<char>)
    ensures
        trimmed_len(s) > 0 ==> basename(s).len() > 0,
        forall|j: int| 0 <= j < basename(s).len() ==> basename(s)[j] != '/',
{
    lemma_trimmed_len(s);
    let t = trimmed(s);
    lemma_basename_start(t);
    if trimmed_len(s) > 0 {
        assert(t[t.len() - 1] == s[trimmed_len(s) - 1]);
        assert(basename_start(t) < t.len());
    }
}

/// The segment kept by `basename` holds no separator and starts right
/// after a separator (or at the start of the string).
pub proof fn lemma_basename_start(s: Seq<char>)
    ensures
        0 <= basename_start(s) <= s.len(),
        forall|j: int| basename_start(s) <= j < s.len() ==> s[j] != '/',
        basename_start(s) > 0 ==> s[basename_start(s) - 1] == '/',
    decreases s.len(),
{
    if s.len() != 0 && s[s.len() - 1] != '/' {
        let t = s.subrange(0, s.len() - 1);
        lemma_basename_start(t);
        assert(forall|j: int| 0 <= j < t.len() ==> t[j] == s[j]);
    }
}

/// A position with a separator right before it (or at the start) and no
/// separator from it on is exactly `basename_start`.
pub proof fn lemma_basename_start_at(s: Seq<char>, k: int)
    requires
        0 <= k <= s.len(),
        forall|j: int| k <= j < s.len() ==> s[j] != '/',
        k > 0 ==> s[k - 1] == '/',
    ensures
        basename_start(s) == k,
    decreases s.len(),
{
    if s.len() != 0 && s[s.len() - 1] != '/' {
        let t = s.subrange(0, s.len() - 1);
        assert(forall|j: int| 0 <= j < t.len() ==> t[j] == s[j]);
        lemma_basename_start_at(t, k);
    }
}

/// Returns the final segment of the given path: everything after the
/// last `/`, with trailing separators ignored.  Fails with a typed
/// error, instead of crashing, when the path is absent, holds nothing
/// but separators, or ends in the parent-directory marker `..`.
pub fn filename_from_path<'a>(full_path: Option<&'a str>) -> (r: Result<&'a str, ExtractError>)
    ensures
        match full_path {
            None => r == Err::<&'a str, ExtractError>(ExtractError::MissingPath),
            Some(p) => {
                if has_basename(p@) {
                    r matches Ok(f) && f@ == basename(p@)
                } else {
                    r == Err::<&'a str, ExtractError>(ExtractError::EmptyBasename)
                }
            },
        },
{
    match full_path {
        None => Err(ExtractError::MissingPath),
        Some(p) => {
            let n = p.unicode_len();
            let mut end: usize = n;
            while end > 0 && p.get_char(end - 1) == '/'
                invariant
                    end <= n,
                    n == p@.len(),
                    forall|j: int| end <= j < n ==> p@[j] == '/',
                decreases end,
            {
                end -= 1;
            }
            proof {
                lemma_trimmed_len_at(p@, end as int);
            }
            if end == 0 {
                return Err(ExtractError::EmptyBasename);
            }
            let mut i: usize = end;
            while i > 0 && p.get_char(i - 1) != '/'
                invariant
                    i <= end,
                    end <= n,
                    n == p@.len(),
                    forall|j: int| i <= j < end ==> p@[j] != '/',
                decreases i,
            {
                i -= 1;
            }
            proof {
                let t = trimmed(p@);
                assert(forall|j: int| 0 <= j < t.len() ==> t[j] == p@[j]);
                lemma_basename_start_at(t, i as int);
                assert(basename(p@) =~= p@.subrange(i as int, end as int));
            }
            let f = p.substring_char(i, end);
            if str_eq(f, "..") {
                Err(ExtractError::EmptyBasename)
            } else {
                Ok(f)
            }
        },
    }
}

/// Compares two strings character by character.
pub fn str_eq(a: &str, b: &str) -> (r: bool)
    ensures
        r == (a@ == b@),
{
    let na = a.unicode_len();
    let nb = b.unicode_len();
    if na != nb {
        return false;
    }
    let mut i: usize = 0;
    while i < na
        invariant
            i <= na,
            na == a@.len(),
            nb == b@.len(),
            na == nb,
            forall|j: int| 0 <= j < i ==> a@[j] == b@[j],
        decreases na - i,
    {
        if a.get_char(i) != b.get_char(i) {
            return false;
        }
        i += 1;
    }
    proof {
        assert(a@ =~= b@);
    }
    true
}

} // verus!
