//! Verified text utilities: string equality and prefix tests over unicode
//! character sequences, case-folded keyword matching for enable/disable
//! vocabulary, and decimal parsing of channel selectors.

use vstd::prelude::*;
use vstd::string::StrSliceExecFns;

verus! {

/// A token matches a command name exactly when it is a literal prefix of
/// that name — the router's defining design choice: any unambiguous
/// abbreviation of a command is accepted.
pub open spec fn cmd_matches(name: Seq<char>, token: Seq<char>) -> bool {
    token.is_prefix_of(name)
}

/// Character-for-character equality of two string slices.
pub fn str_eq(a: &str, b: &str) -> (r: bool)
    ensures
        r == (a@ == b@),
{
    let alen: usize = a.unicode_len();
    let blen: usize = b.unicode_len();
    if alen != blen {
        return false;
    }
    let mut i: usize = 0;
    while i < alen
        invariant
            alen == a@.len(),
            blen == b@.len(),
            alen == blen,
            i <= alen,
            forall|j: int| 0 <= j < i ==> a@[j] == b@[j],
        decreases alen - i,
    {
        if a.get_char(i) != b.get_char(i) {
            return false;
        }
        i = i + 1;
    }
    proof {
        assert(a@ =~= b@);
    }
    true
}

/// True exactly when `p` is a literal prefix of `s`.
pub fn str_is_prefix(p: &str, s: &str) -> (r: bool)
    ensures
        r == p@.is_prefix_of(s@),
{
    let plen: usize = p.unicode_len();
    let slen: usize = s.unicode_len();
    if plen > slen {
        return false;
    }
    let mut i: usize = 0;
    while i < plen
        invariant
            plen == p@.len(),
            slen == s@.len(),
            plen <= slen,
            i <= plen,
            forall|j: int| 0 <= j < i ==> p@[j] == s@[j],
        decreases plen - i,
    {
        if p.get_char(i) != s.get_char(i) {
            return false;
        }
        i = i + 1;
    }
    proof {
        assert(p@ =~= s@.subrange(0, p@.len() as int));
    }
    true
}

/// Unicode scalar value of `c` with ASCII uppercase letters folded to
/// lowercase; all other characters are left as they are.
pub open spec fn lower_code(c: char) -> u32 {
    if 65 <= c as u32 && c as u32 <= 90 {
        (c as u32 + 32) as u32
    } else {
        c as u32
    }
}

/// `a` equals `b` once ASCII case in `a` is folded away; `b` is expected to
/// be already lowercase.
pub open spec fn lower_eq_char(a: char, b: char) -> bool {
    lower_code(a) == b as u32
}

/// `s` spells the keyword `t` up to ASCII case.
pub open spec fn matches_lower(s: Seq<char>, t: Seq<char>) -> bool {
    s.len() == t.len() && forall|i: int| 0 <= i < s.len() ==> lower_eq_char(s[i], t[i])
}

/// The fixed vocabulary for enable/disable values: `0`/`off`/`false` disable,
/// `1`/`on`/`true` enable, compared without regard to ASCII case; anything
/// else is rejected.
pub open spec fn enable_value(s: Seq<char>) -> Option<bool> {
    if matches_lower(s, "0"@) || matches_lower(s, "off"@) || matches_lower(s, "false"@) {
        Some(false)
    } else if matches_lower(s, "1"@) || matches_lower(s, "on"@) || matches_lower(s, "true"@) {
        Some(true)
    } else {
        None
    }
}

/// True exactly when `s` spells `t` up to ASCII case.
pub fn str_matches_lower(s: &str, t: &str) -> (r: bool)
    ensures
        r == matches_lower(s@, t@),
{
    let slen: usize = s.unicode_len();
    let tlen: usize = t.unicode_len();
    if slen != tlen {
        return false;
    }
    let mut i: usize = 0;
    while i < slen
        invariant
            slen == s@.len(),
            tlen == t@.len(),
            slen == tlen,
            i <= slen,
            forall|j: int| 0 <= j < i ==> lower_eq_char(s@[j], t@[j]),
        decreases slen - i,
    {
        let sc: u32 = s.get_char(i) as u32;
        let tc: u32 = t.get_char(i) as u32;
        let folded: u32 = if 65 <= sc && sc <= 90 {
            sc + 32
        } else {
            sc
        };
        if folded != tc {
            return false;
        }
        i = i + 1;
    }
    true
}

/// Parses a free-form enable/disable value against the fixed vocabulary.
pub fn parse_enable_state(s: &str) -> (r: Option<bool>)
    ensures
        r == enable_value(s@),
{
    if str_matches_lower(s, "0") || str_matches_lower(s, "off") || str_matches_lower(s, "false") {
        Some(false)
    } else if str_matches_lower(s, "1") || str_matches_lower(s, "on") || str_matches_lower(
        s,
        "true",
    ) {
        Some(true)
    } else {
        None
    }
}

/// `c` is an ASCII decimal digit.
pub open spec fn is_digit(c: char) -> bool {
    48 <= c as u32 && c as u32 <= 57
}

/// Numeric value of the digit `c`.
pub open spec fn digit_val(c: char) -> nat {
    (c as u32 - 48) as nat
}

/// Every character of `s` is an ASCII decimal digit.
pub open spec fn all_digits(s: Seq<char>) -> bool {
    forall|i: int| 0 <= i < s.len() ==> is_digit(s[i])
}

/// Value of a digit string read in base ten.
pub open spec fn digits_value(s: Seq<char>) -> nat
    decreases s.len(),
{
    if s.len() == 0 {
        0
    } else {
        digits_value(s.drop_last()) * 10 + digit_val(s.last())
    }
}

/// The digit portion of a channel selector: an optional leading `+` sign is
/// stripped, the rest must be all digits.
pub open spec fn selector_digits(s: Seq<char>) -> Seq<char> {
    if s.len() > 0 && s[0] == '+' {
        s.skip(1)
    } else {
        s
    }
}

/// The channel index denoted by the selector `s`: the base-ten value of its
/// digits, provided there is at least one digit, nothing but digits after an
/// optional `+` sign, and the value fits the machine's index type.
pub open spec fn channel_index(s: Seq<char>) -> Option<int> {
    let d = selector_digits(s);
    if d.len() > 0 && all_digits(d) && digits_value(d) <= usize::MAX {
        Some(digits_value(d) as int)
    } else {
        None
    }
}

/// A longer digit string never denotes a smaller value: appending digits can
/// only grow the base-ten reading.
proof fn lemma_digits_value_prefix(s: Seq<char>, i: int)
    requires
        0 <= i <= s.len(),
    ensures
        digits_value(s.take(i)) <= digits_value(s),
    decreases s.len() - i,
{
    if i < s.len() {
        lemma_digits_value_prefix(s, i + 1);
        assert(s.take(i + 1).drop_last() =~= s.take(i));
        assert(s.take(i + 1).last() == s[i]);
        assert(digits_value(s.take(i)) <= digits_value(s.take(i + 1)));
    } else {
        assert(s.take(i) =~= s);
    }
}

/// Parses a channel selector as a base-ten index, accepting an optional
/// leading `+` sign, and rejecting empty input, non-digit characters, and
/// values too large for the index type.
pub fn parse_channel_index(s: &str) -> (r: Option<usize>)
    ensures
        match r {
            Some(n) => channel_index(s@) == Some(n as int),
            None => channel_index(s@) is None,
        },
{
    let len: usize = s.unicode_len();
    let start: usize = if len > 0 && s.get_char(0) == '+' {
        1
    } else {
        0
    };
    if start == len {
        return None;
    }
    let ghost d = selector_digits(s@);
    proof {
        assert(d =~= s@.subrange(start as int, len as int));
    }
    let mut val: usize = 0;
    let mut i: usize = start;
    while i < len
        invariant
            len == s@.len(),
            start <= i <= len,
            d == selector_digits(s@),
            d =~= s@.subrange(start as int, len as int),
            all_digits(s@.subrange(start as int, i as int)),
            val == digits_value(s@.subrange(start as int, i as int)),
        decreases len - i,
    {
        let c: u32 = s.get_char(i) as u32;
        if c < 48 || c > 57 {
            proof {
                assert(d[i - start] == s@[i as int]);
                assert(!is_digit(d[i - start]));
            }
            return None;
        }
        let dig: usize = (c - 48) as usize;
        let ghost pre = s@.subrange(start as int, i as int);
        let ghost ext = s@.subrange(start as int, i + 1);
        proof {
            assert(ext.drop_last() =~= pre);
            assert(ext.last() == s@[i as int]);
        }
        if val > (usize::MAX - dig) / 10 {
            proof {
                assert(val * 10 + dig > usize::MAX) by (nonlinear_arith)
                    requires
                        val > (usize::MAX - dig) / 10,
                        dig <= usize::MAX,
                {
                }
                assert(digits_value(ext) > usize::MAX);
                assert(ext =~= d.take(i + 1 - start));
                lemma_digits_value_prefix(d, i + 1 - start);
            }
            return None;
        }
        proof {
            assert(val * 10 + dig <= usize::MAX) by (nonlinear_arith)
                requires
                    val <= (usize::MAX - dig) / 10,
                    dig <= usize::MAX,
            {
            }
        }
        val = val * 10 + dig;
        i = i + 1;
    }
    proof {
        assert(s@.subrange(start as int, len as int) =~= d);
    }
    Some(val)
}

} // verus!
