//! Interpreting raw configuration values.  Reading the configuration
//! file itself is the caller's business; these functions give its string
//! values their meaning.

use vstd::prelude::*;
use vstd::string::StrSliceExecFns;
use crate::strutil;
use crate::strutil::{parse_u64_spec, parse_u64};

verus! {

/// The whitespace that counts for configuration-value trimming.
pub open spec fn spec_is_cfg_space(c: char) -> bool {
    c == ' ' || c == '\t' || c == '\r' || c == '\n'
}

/// The sequence with leading configuration whitespace removed.
pub open spec fn spec_trim_front(s: Seq<char>) -> Seq<char>
    decreases s.len(),
{
    if s.len() > 0 && spec_is_cfg_space(s[0]) {
        spec_trim_front(s.drop_first())
    } else {
        s
    }
}

/// The sequence with trailing configuration whitespace removed.
pub open spec fn spec_trim_back(s: Seq<char>) -> Seq<char>
    decreases s.len(),
{
    if s.len() > 0 && spec_is_cfg_space(s.last()) {
        spec_trim_back(s.drop_last())
    } else {
        s
    }
}

/// The sequence with surrounding configuration whitespace removed.
pub open spec fn spec_trim(s: Seq<char>) -> Seq<char> {
    spec_trim_back(spec_trim_front(s))
}

/// Whether a configuration value switches a flag on: exactly the
/// trimmed words `yes`, `true` or `1`.
pub open spec fn spec_config_flag(s: Seq<char>) -> bool {
    spec_trim(s) == "yes"@ || spec_trim(s) == "true"@ || spec_trim(s) == "1"@
}

/// Whether `c` is configuration whitespace.
fn is_cfg_space(c: char) -> (r: bool)
    ensures
        r == spec_is_cfg_space(c),
{
    c == ' ' || c == '\t' || c == '\r' || c == '\n'
}

/// Decides [`spec_config_flag`] at run time.
pub fn config_flag(val: &str) -> (r: bool)
    ensures
        r == spec_config_flag(val@),
{
    let n = val.unicode_len();
    proof {
        assert(val@.subrange(0, n as int) =~= val@);
    }
    let mut start: usize = 0;
    while start < n && is_cfg_space(val.get_char(start))
        invariant
            start <= n,
            n == val@.len(),
            spec_trim_front(val@) == spec_trim_front(val@.subrange(start as int, n as int)),
        decreases n - start,
    {
        proof {
            assert(val@.subrange(start as int, n as int).drop_first() =~= val@.subrange(
                start + 1,
                n as int,
            ));
        }
        start += 1;
    }
    proof {
        assert(spec_trim_front(val@) == val@.subrange(start as int, n as int));
    }
    let mut end: usize = n;
    while end > start && is_cfg_space(val.get_char(end - 1))
        invariant
            start <= end <= n,
            n == val@.len(),
            spec_trim_front(val@) == val@.subrange(start as int, n as int),
            spec_trim(val@) == spec_trim_back(val@.subrange(start as int, end as int)),
        decreases end,
    {
        proof {
            assert(val@.subrange(start as int, end as int).drop_last() =~= val@.subrange(
                start as int,
                end - 1,
            ));
        }
        end -= 1;
    }
    proof {
        assert(spec_trim(val@) == val@.subrange(start as int, end as int));
    }
    let mut tv: Vec<char> = Vec::new();
    let mut i: usize = start;
    while i < end
        invariant
            start <= i <= end <= n,
            n == val@.len(),
            tv@ == val@.subrange(start as int, i as int),
        decreases end - i,
    {
        tv.push(val.get_char(i));
        proof {
            assert(tv@ =~= val@.subrange(start as int, i + 1));
        }
        i += 1;
    }
    let t = strutil::string_from_chars(tv);
    strutil::str_eq(t.as_str(), "yes") || strutil::str_eq(t.as_str(), "true") || strutil::str_eq(
        t.as_str(),
        "1",
    )
}

/// What parsing a decimal `usize` yields: as [`parse_u64_spec`], further
/// rejecting values the platform's `usize` cannot hold.
pub open spec fn parse_usize_spec(s: Seq<char>) -> Option<usize> {
    match parse_u64_spec(s) {
        Some(v) => if v <= usize::MAX {
            Some(v as usize)
        } else {
            None
        },
        None => None,
    }
}

/// Parses a decimal configuration integer.
pub fn parse_usize(s: &str) -> (r: Option<usize>)
    ensures
        r == parse_usize_spec(s@),
{
    match parse_u64(s) {
        Some(v) => if v <= usize::MAX as u64 {
            Some(v as usize)
        } else {
            None
        },
        None => None,
    }
}

} // verus!
