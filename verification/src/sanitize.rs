//! Stripping the echoed prompt from captured engine output.
//!
//! The engine tends to reproduce the input prompt at the start of its
//! output.  The sanitizer locates the first occurrence of the caller's
//! original prompt in the raw output and returns everything after it with
//! leading whitespace removed; when the prompt does not occur, the raw
//! output is returned unchanged.  This is a documented best-effort
//! heuristic, not a guaranteed extraction.

use vstd::prelude::*;
use vstd::string::StrSliceExecFns;
use vstd::string::StringExecFns;

verus! {

/// Whether `c` belongs to the Unicode `White_Space` set, the set that
/// `char::is_whitespace` recognises.
pub open spec fn is_space_char(c: char) -> bool {
    c == ' ' || c == '\t' || c == '\n' || c == '\u{B}' || c == '\u{C}' || c == '\r'
        || c == '\u{85}' || c == '\u{A0}' || c == '\u{1680}' || c == '\u{2000}' || c == '\u{2001}'
        || c == '\u{2002}' || c == '\u{2003}' || c == '\u{2004}' || c == '\u{2005}' || c
        == '\u{2006}' || c == '\u{2007}' || c == '\u{2008}' || c == '\u{2009}' || c == '\u{200A}'
        || c == '\u{2028}' || c == '\u{2029}' || c == '\u{202F}' || c == '\u{205F}' || c
        == '\u{3000}'
}

/// Whether `c` is whitespace, as `is_space_char` defines it.
pub fn is_space(c: char) -> (r: bool)
    ensures
        r == is_space_char(c),
{
    c == ' ' || c == '\t' || c == '\n' || c == '\u{B}' || c == '\u{C}' || c == '\r'
        || c == '\u{85}' || c == '\u{A0}' || c == '\u{1680}' || c == '\u{2000}' || c == '\u{2001}'
        || c == '\u{2002}' || c == '\u{2003}' || c == '\u{2004}' || c == '\u{2005}' || c
        == '\u{2006}' || c == '\u{2007}' || c == '\u{2008}' || c == '\u{2009}' || c == '\u{200A}'
        || c == '\u{2028}' || c == '\u{2029}' || c == '\u{202F}' || c == '\u{205F}' || c
        == '\u{3000}'
}

/// `pat` occurs in `s` starting at position `i`.
pub open spec fn match_at(s: Seq<char>, pat: Seq<char>, i: int) -> bool {
    &&& 0 <= i
    &&& i + pat.len() <= s.len()
    &&& s.subrange(i, i + pat.len() as int) == pat
}

/// `pat` occurs somewhere in `s`.
pub open spec fn occurs(s: Seq<char>, pat: Seq<char>) -> bool {
    exists|i: int| match_at(s, pat, i)
}

/// `i` is the first position at which `pat` occurs in `s`.
pub open spec fn is_first_match(s: Seq<char>, pat: Seq<char>, i: int) -> bool {
    &&& match_at(s, pat, i)
    &&& forall|j: int| 0 <= j < i ==> !match_at(s, pat, j)
}

/// The first position at which `pat` occurs in `s`; meaningful only when
/// `occurs(s, pat)` holds.
pub open spec fn first_match(s: Seq<char>, pat: Seq<char>) -> int {
    choose|i: int| is_first_match(s, pat, i)
}

/// `s` with its leading whitespace removed.
pub open spec fn trim_start_spec(s: Seq<char>) -> Seq<char>
    decreases s.len(),
{
    if s.len() > 0 && is_space_char(s[0]) {
        trim_start_spec(s.drop_first())
    } else {
        s
    }
}

/// What stripping the echoed `prompt` from `raw` yields: everything after
/// the first occurrence of `prompt`, with leading whitespace removed, or
/// `raw` itself when `prompt` does not occur.
pub open spec fn strip_echo_spec(raw: Seq<char>, prompt: Seq<char>) -> Seq<char> {
    if occurs(raw, prompt) {
        trim_start_spec(raw.subrange(first_match(raw, prompt) + prompt.len() as int, raw.len() as int))
    } else {
        raw
    }
}

/// What remains of `output` after removing `prompt` when it sits at the
/// very start, with leading whitespace removed; `output` itself when it
/// does not start with `prompt`.
pub open spec fn strip_prefix_echo_spec(output: Seq<char>, prompt: Seq<char>) -> Seq<char> {
    if prompt.is_prefix_of(output) {
        trim_start_spec(output.subrange(prompt.len() as int, output.len() as int))
    } else {
        output
    }
}

/// `s` from position `start` on, with leading whitespace removed.
fn trim_start_from(s: &str, start: usize) -> (r: String)
    requires
        start <= s@.len(),
    ensures
        r@ == trim_start_spec(s@.subrange(start as int, s@.len() as int)),
{
    let n: usize = s.unicode_len();
    let mut k: usize = start;
    while k < n && is_space(s.get_char(k))
        invariant
            start <= k <= n,
            n == s@.len(),
            trim_start_spec(s@.subrange(k as int, n as int)) == trim_start_spec(
                s@.subrange(start as int, n as int),
            ),
        decreases n - k,
    {
        proof {
            assert(s@.subrange(k as int, n as int)[0] == s@[k as int]);
            assert(s@.subrange(k as int, n as int).drop_first() =~= s@.subrange(
                k + 1 as int,
                n as int,
            ));
        }
        k = k + 1;
    }
    proof {
        if k < n {
            assert(s@.subrange(k as int, n as int)[0] == s@[k as int]);
        }
        assert(trim_start_spec(s@.subrange(k as int, n as int)) == s@.subrange(k as int, n as int));
    }
    String::from_str(s.substring_char(k, n))
}

/// The first position at which `pat` occurs in `s`, or `None` when it does
/// not occur.
fn find_first(s: &str, pat: &str) -> (r: Option<usize>)
    ensures
        match r {
            Some(i) => is_first_match(s@, pat@, i as int),
            None => !occurs(s@, pat@),
        },
{
    let n: usize = s.unicode_len();
    let m: usize = pat.unicode_len();
    if m > n {
        proof {
            assert(forall|i: int| !match_at(s@, pat@, i));
        }
        return None;
    }
    let mut i: usize = 0;
    loop
        invariant
            m <= n,
            n == s@.len(),
            m == pat@.len(),
            i <= n - m + 1,
            forall|j: int| 0 <= j < i ==> !match_at(s@, pat@, j),
        decreases n - m + 1 - i,
    {
        if i > n - m {
            proof {
                assert(forall|j: int| match_at(s@, pat@, j) ==> j + m <= n && j < i);
            }
            return None;
        }
        let mut k: usize = 0;
        let mut matched: bool = true;
        while matched && k < m
            invariant
                m <= n,
                n == s@.len(),
                m == pat@.len(),
                i + m <= n,
                k <= m,
                matched ==> forall|t: int| 0 <= t < k ==> s@[i + t] == pat@[t],
                !matched ==> !match_at(s@, pat@, i as int),
            decreases m - k,
        {
            if s.get_char(i + k) != pat.get_char(k) {
                proof {
                    assert(s@.subrange(i as int, i + m as int)[k as int] == s@[i + k]);
                    assert(!match_at(s@, pat@, i as int));
                }
                matched = false;
                k = m;
            } else {
                k = k + 1;
            }
        }
        if matched {
            proof {
                assert(s@.subrange(i as int, i + m as int) =~= pat@);
                assert(is_first_match(s@, pat@, i as int));
            }
            return Some(i);
        }
        proof {
            if m == 0 {
                assert(s@.subrange(i as int, i + m as int) =~= pat@);
            }
        }
        i = i + 1;
    }
}

/// Returns everything in `raw` after the first occurrence of `prompt`,
/// with leading whitespace removed; returns `raw` unchanged when `prompt`
/// does not occur in it.
pub fn strip_echo(raw: &str, prompt: &str) -> (r: String)
    ensures
        r@ == strip_echo_spec(raw@, prompt@),
{
    match find_first(raw, prompt) {
        None => String::from_str(raw),
        Some(i) => {
            proof {
                assert(occurs(raw@, prompt@));
                assert(is_first_match(raw@, prompt@, first_match(raw@, prompt@)));
                assert(first_match(raw@, prompt@) == i as int);
            }
            let n: usize = raw.unicode_len();
            let m: usize = prompt.unicode_len();
            proof {
                assert(i + m <= n);
            }
            trim_start_from(raw, i + m)
        },
    }
}

/// Removes `prompt` when the output starts with it, together with the
/// whitespace that follows; returns `output` unchanged otherwise.  This is
/// the second, stricter cleaning pass a caller applies to an already
/// sanitised response.
pub fn strip_prefix_echo(output: &str, prompt: &str) -> (r: String)
    ensures
        r@ == strip_prefix_echo_spec(output@, prompt@),
{
    let n: usize = output.unicode_len();
    let m: usize = prompt.unicode_len();
    if m > n {
        return String::from_str(output);
    }
    let mut k: usize = 0;
    let mut matched: bool = true;
    while matched && k < m
        invariant
            m <= n,
            n == output@.len(),
            m == prompt@.len(),
            k <= m,
            matched ==> forall|t: int| 0 <= t < k ==> output@[t] == prompt@[t],
            !matched ==> !prompt@.is_prefix_of(output@),
        decreases m - k,
    {
        if output.get_char(k) != prompt.get_char(k) {
            proof {
                assert(output@.subrange(0, m as int)[k as int] == output@[k as int]);
            }
            matched = false;
            k = m;
        } else {
            k = k + 1;
        }
    }
    if matched {
        proof {
            assert(prompt@ =~= output@.subrange(0, m as int));
        }
        trim_start_from(output, m)
    } else {
        String::from_str(output)
    }
}

} // verus!
