//! Decimal rendering and parsing of identifiers: guild, role and channel ids
//! travel as decimal strings in routes and settings bodies.

use vstd::prelude::*;

use vstd::string::StrSliceExecFns;

verus! {

/// The character for one decimal digit value.
pub open spec fn digit_char(d: int) -> char
    recommends
        0 <= d <= 9,
{
    if d == 0 {
        '0'
    } else if d == 1 {
        '1'
    } else if d == 2 {
        '2'
    } else if d == 3 {
        '3'
    } else if d == 4 {
        '4'
    } else if d == 5 {
        '5'
    } else if d == 6 {
        '6'
    } else if d == 7 {
        '7'
    } else if d == 8 {
        '8'
    } else {
        '9'
    }
}

/// The decimal rendering of a non-negative integer, no sign, no leading
/// zeros (a single zero for zero).
pub open spec fn dec_rep(n: int) -> Seq<char>
    recommends
        n >= 0,
    decreases n,
{
    if n < 10 {
        seq![digit_char(n)]
    } else {
        dec_rep(n / 10) + seq![digit_char(n % 10)]
    }
}

/// Whether a character is a decimal digit.
pub open spec fn is_dec_digit(c: char) -> bool {
    48 <= c as int <= 57
}

/// The numeric value of a digit character.
pub open spec fn digit_val(c: char) -> int {
    c as int - 48
}

/// The value of a string of digits, most significant first.
pub open spec fn dec_val(cs: Seq<char>) -> int
    decreases cs.len(),
{
    if cs.len() == 0 {
        0
    } else {
        dec_val(cs.drop_last()) * 10 + digit_val(cs.last())
    }
}

/// A string of digits has a non-negative value.
pub proof fn lemma_dec_val_nonneg(cs: Seq<char>)
    requires
        forall|i: int| 0 <= i < cs.len() ==> is_dec_digit(#[trigger] cs[i]),
    ensures
        dec_val(cs) >= 0,
    decreases cs.len(),
{
    if cs.len() > 0 {
        lemma_dec_val_nonneg(cs.drop_last());
    }
}

/// Extending a string of digits never lowers its value.
pub proof fn lemma_dec_val_prefix(cs: Seq<char>, i: int)
    requires
        forall|k: int| 0 <= k < cs.len() ==> is_dec_digit(#[trigger] cs[k]),
        0 <= i <= cs.len(),
    ensures
        dec_val(cs.subrange(0, i)) <= dec_val(cs),
    decreases cs.len() - i,
{
    if i < cs.len() {
        lemma_dec_val_prefix(cs, i + 1);
        let pre = cs.subrange(0, i);
        let cur = cs.subrange(0, i + 1);
        assert(cur.drop_last() =~= pre);
        assert(forall|k: int| 0 <= k < pre.len() ==> is_dec_digit(#[trigger] pre[k]));
        lemma_dec_val_nonneg(pre);
    } else {
        assert(cs.subrange(0, i) =~= cs);
    }
}

/// The one-character string for a digit value.
fn digit_string(d: u64) -> (r: String)
    requires
        d < 10,
    ensures
        r@ == seq![digit_char(d as int)],
{
    let s: &str = if d == 0 {
        "0"
    } else if d == 1 {
        "1"
    } else if d == 2 {
        "2"
    } else if d == 3 {
        "3"
    } else if d == 4 {
        "4"
    } else if d == 5 {
        "5"
    } else if d == 6 {
        "6"
    } else if d == 7 {
        "7"
    } else if d == 8 {
        "8"
    } else {
        "9"
    };
    proof {
        reveal_strlit("0");
        reveal_strlit("1");
        reveal_strlit("2");
        reveal_strlit("3");
        reveal_strlit("4");
        reveal_strlit("5");
        reveal_strlit("6");
        reveal_strlit("7");
        reveal_strlit("8");
        reveal_strlit("9");
    }
    let r = s.to_owned();
    proof {
        assert(r@ =~= seq![digit_char(d as int)]);
    }
    r
}

/// Renders `n` in decimal.
pub fn u64_to_dec(n: u64) -> (r: String)
    ensures
        r@ == dec_rep(n as int),
    decreases n,
{
    if n < 10 {
        digit_string(n)
    } else {
        let high = u64_to_dec(n / 10);
        let low = digit_string(n % 10);
        let r = high.concat(low.as_str());
        proof {
            assert(r@ =~= dec_rep(n as int));
        }
        r
    }
}

/// Whether a string is a decimal rendering some 64-bit integer parses from:
/// non-empty, digits alone, value in range.
pub open spec fn dec_parses(cs: Seq<char>) -> bool {
    cs.len() > 0 && (forall|i: int| 0 <= i < cs.len() ==> is_dec_digit(#[trigger] cs[i]))
        && dec_val(cs) <= u64::MAX
}

/// Parses a decimal string into a 64-bit integer. Succeeds exactly on a
/// non-empty all-digit string whose value fits; no sign, no other character
/// is accepted.
pub fn parse_u64_dec(s: &str) -> (r: Option<u64>)
    ensures
        r is Some <==> dec_parses(s@),
        r matches Some(n) ==> n == dec_val(s@),
{
    let len = s.unicode_len();
    if len == 0 {
        return None;
    }
    let mut acc: u64 = 0;
    let mut i: usize = 0;
    while i < len
        invariant
            len == s@.len(),
            0 <= i <= len,
            forall|k: int| 0 <= k < i ==> is_dec_digit(#[trigger] s@[k]),
            acc == dec_val(s@.subrange(0, i as int)),
        decreases len - i,
    {
        let c = s.get_char(i);
        let v = c as u32;
        if v < 48 || v > 57 {
            return None;
        }
        let d = (v - 48) as u64;
        proof {
            let pre = s@.subrange(0, i as int);
            let cur = s@.subrange(0, (i + 1) as int);
            assert(cur.drop_last() =~= pre);
            assert(cur.last() == s@[i as int]);
            assert(forall|k: int| 0 <= k < pre.len() ==> is_dec_digit(#[trigger] pre[k]));
            lemma_dec_val_nonneg(pre);
        }
        if acc > u64::MAX / 10 || (acc == u64::MAX / 10 && d > u64::MAX % 10) {
            proof {
                let cur = s@.subrange(0, (i + 1) as int);
                assert(dec_val(cur) == acc * 10 + d);
                assert(dec_val(cur) > u64::MAX);
                if s@.len() > 0 && (forall|k: int|
                    0 <= k < s@.len() ==> is_dec_digit(#[trigger] s@[k])) {
                    lemma_dec_val_prefix(s@, i + 1);
                }
            }
            return None;
        }
        acc = acc * 10 + d;
        i = i + 1;
    }
    proof {
        assert(s@.subrange(0, len as int) =~= s@);
    }
    Some(acc)
}

} // verus!
