//! The text form a correlation key travels as: thirty-two lowercase hex
//! digits in five hyphen-separated groups of 8-4-4-4-12, the conventional
//! rendering of a 128-bit identifier. Rendering is exact; parsing accepts a
//! string only by rendering what it read and comparing.

use vstd::prelude::*;

use vstd::string::StrSliceExecFns;

use crate::urls::{ascii_bytes_to_string, chars_of_bytes};

verus! {

/// The lowercase hex digit byte for a value below 16.
pub open spec fn hex_lower(d: u8) -> u8
    recommends
        d < 16,
{
    if d < 10 {
        (48 + d) as u8
    } else {
        (87 + d) as u8
    }
}

/// Nibble `i` of a key, most significant first.
pub open spec fn nibble(k: u128, i: int) -> u8
    recommends
        0 <= i < 32,
{
    ((k >> ((124 - 4 * i) as u128)) & 0xf) as u8
}

/// Which nibble the hex digit at text position `i` renders.
pub open spec fn nibble_index(i: int) -> int {
    if i < 8 {
        i
    } else if i < 13 {
        i - 1
    } else if i < 18 {
        i - 2
    } else if i < 23 {
        i - 3
    } else {
        i - 4
    }
}

/// Whether text position `i` holds a hyphen.
pub open spec fn is_hyphen_pos(i: int) -> bool {
    i == 8 || i == 13 || i == 18 || i == 23
}

/// The byte at text position `i` of a key's rendering.
pub open spec fn key_text_byte(k: u128, i: int) -> u8
    recommends
        0 <= i < 36,
{
    if is_hyphen_pos(i) {
        45u8
    } else {
        hex_lower(nibble(k, nibble_index(i)))
    }
}

/// The full 36-character rendering of a key.
pub open spec fn key_text(k: u128) -> Seq<char> {
    chars_of_bytes(Seq::new(36, |i: int| key_text_byte(k, i)))
}

/// A nibble is always below 16.
proof fn lemma_nibble_bound(k: u128, i: int)
    requires
        0 <= i < 32,
    ensures
        nibble(k, i) < 16,
{
    let sh = (124 - 4 * i) as u128;
    assert(((k >> sh) & 0xf) < 16) by (bit_vector);
}

/// How many hex digits stand among the first `i` text positions.
pub open spec fn nibbles_before(i: int) -> int {
    if i <= 8 {
        i
    } else if i <= 13 {
        i - 1
    } else if i <= 18 {
        i - 2
    } else if i <= 23 {
        i - 3
    } else {
        i - 4
    }
}

/// The value of the first `j` nibbles of `k`, most significant first.
pub open spec fn key_prefix(k: u128, j: int) -> u128
    recommends
        0 <= j <= 32,
{
    if j == 0 {
        0
    } else {
        k >> ((128 - 4 * j) as u128)
    }
}

/// Reading one more nibble extends the prefix value by one hex place.
proof fn lemma_key_prefix_step(k: u128, j: int, acc: u128, d: u8)
    requires
        0 <= j < 32,
        acc == key_prefix(k, j),
        d == nibble(k, j),
    ensures
        ((acc << 4u128) | (d as u128)) == key_prefix(k, j + 1),
{
    if j == 0 {
        assert(((k >> 124u128) & 0xf) < 16) by (bit_vector);
        assert(((0u128 << 4u128) | ((k >> 124u128) & 0xf)) == (k >> 124u128)) by (bit_vector);
        assert(key_prefix(k, 1) == k >> 124u128);
    } else {
        let sh2: u128 = (124 - 4 * j) as u128;
        assert(key_prefix(k, j) == k >> (sh2 + 4));
        assert(((k >> sh2) & 0xf) < 16) by (bit_vector);
        assert((((k >> (sh2 + 4)) << 4u128) | ((k >> sh2) & 0xf)) == (k >> sh2)) by (bit_vector)
            requires
                sh2 <= 120,
        ;
        assert(key_prefix(k, j + 1) == k >> sh2);
    }
}

/// The text position of hex digit `t`.
pub open spec fn digit_pos(t: int) -> int {
    if t < 8 {
        t
    } else if t < 12 {
        t + 1
    } else if t < 16 {
        t + 2
    } else if t < 20 {
        t + 3
    } else {
        t + 4
    }
}

/// Keys with the same prefix of nibbles agree on the prefix's value.
proof fn lemma_key_prefix_eq(k1: u128, k2: u128, j: int)
    requires
        0 <= j <= 32,
        forall|t: int| 0 <= t < 32 ==> nibble(k1, t) == nibble(k2, t),
    ensures
        key_prefix(k1, j) == key_prefix(k2, j),
    decreases j,
{
    if j > 0 {
        lemma_key_prefix_eq(k1, k2, j - 1);
        lemma_key_prefix_step(k1, j - 1, key_prefix(k1, j - 1), nibble(k1, j - 1));
        lemma_key_prefix_step(k2, j - 1, key_prefix(k2, j - 1), nibble(k2, j - 1));
    }
}

/// Two keys with the same text form are the same key: the text is a
/// faithful carrier, so the key a verification attempt hands out is exactly
/// the key its callback consumes.
pub proof fn lemma_key_text_injective(k1: u128, k2: u128)
    requires
        key_text(k1) == key_text(k2),
    ensures
        k1 == k2,
{
    assert forall|t: int| 0 <= t < 32 implies nibble(k1, t) == nibble(k2, t) by {
        let i = digit_pos(t);
        lemma_nibble_bound(k1, t);
        lemma_nibble_bound(k2, t);
        assert(nibble_index(i) == t);
        assert(!is_hyphen_pos(i));
        assert(key_text(k1)[i] == key_text(k2)[i]);
        assert(key_text(k1)[i] == (hex_lower(nibble(k1, t)) as char));
        assert(key_text(k2)[i] == (hex_lower(nibble(k2, t)) as char));
        assert((hex_lower(nibble(k1, t)) as char) as u32 == hex_lower(nibble(k1, t)));
        assert((hex_lower(nibble(k2, t)) as char) as u32 == hex_lower(nibble(k2, t)));
    }
    lemma_key_prefix_eq(k1, k2, 32);
    assert(k1 >> 0u128 == k1) by (bit_vector);
    assert(k2 >> 0u128 == k2) by (bit_vector);
}

/// The exec counterpart of `hex_lower`.
fn hex_lower_exec(d: u8) -> (r: u8)
    requires
        d < 16,
    ensures
        r == hex_lower(d),
{
    if d < 10 {
        48 + d
    } else {
        87 + d
    }
}

/// Renders a key in its hyphenated lowercase hex form.
pub fn render_key(k: u128) -> (r: String)
    ensures
        r@ == key_text(k),
{
    let mut out: Vec<u8> = Vec::new();
    let mut i: usize = 0;
    while i < 36
        invariant
            i <= 36,
            out@.len() == i,
            forall|t: int| 0 <= t < i ==> #[trigger] out@[t] == key_text_byte(k, t),
        decreases 36 - i,
    {
        if i == 8 || i == 13 || i == 18 || i == 23 {
            out.push(45);
        } else {
            let j: usize = if i < 8 {
                i
            } else if i < 13 {
                i - 1
            } else if i < 18 {
                i - 2
            } else if i < 23 {
                i - 3
            } else {
                i - 4
            };
            let sh: u128 = (124 - 4 * j) as u128;
            let d: u8 = ((k >> sh) & 0xf) as u8;
            proof {
                let shg: u128 = sh;
                assert(((k >> shg) & 0xf) < 16) by (bit_vector);
            }
            out.push(hex_lower_exec(d));
        }
        i = i + 1;
    }
    proof {
        assert forall|t: int| 0 <= t < 36 implies #[trigger] out@[t] < 128 by {
            assert(out@[t] == key_text_byte(k, t));
            if !is_hyphen_pos(t) {
                lemma_nibble_bound(k, nibble_index(t));
            }
        }
    }
    let r = ascii_bytes_to_string(out);
    proof {
        assert(r@ =~= key_text(k));
    }
    r
}

/// Compares two strings character by character.
fn str_eq(a: &str, b: &String) -> (r: bool)
    ensures
        r == (a@ == b@),
{
    let la = a.unicode_len();
    let lb = b.as_str().unicode_len();
    if la != lb {
        return false;
    }
    let mut i: usize = 0;
    while i < la
        invariant
            la == a@.len(),
            lb == b@.len(),
            la == lb,
            i <= la,
            forall|t: int| 0 <= t < i ==> a@[t] == b@[t],
        decreases la - i,
    {
        if a.get_char(i) != b.as_str().get_char(i) {
            return false;
        }
        i = i + 1;
    }
    proof {
        assert(a@ =~= b@);
    }
    true
}

/// Reads a key back from its text form. Accepts exactly the strings that
/// `render_key` produces: on success the input is the rendering of the
/// returned key, and on failure no key renders to the input.
pub fn parse_key(s: &str) -> (r: Option<u128>)
    ensures
        r matches Some(k) ==> s@ == key_text(k),
        r is None ==> forall|k: u128| s@ != key_text(k),
{
    let len = s.unicode_len();
    if len != 36 {
        proof {
            assert forall|k: u128| s@ != key_text(k) by {
                assert(key_text(k).len() == 36);
            }
        }
        return None;
    }
    let mut acc: u128 = 0;
    let mut i: usize = 0;
    let mut j: usize = 0;
    while i < 36
        invariant
            s@.len() == 36,
            i <= 36,
            j == nibbles_before(i as int),
            forall|k: u128| s@ == key_text(k) ==> acc == key_prefix(k, j as int),
        decreases 36 - i,
    {
        let c = s.get_char(i);
        let v = c as u32;
        if i == 8 || i == 13 || i == 18 || i == 23 {
            if v != 45 {
                proof {
                    assert forall|k: u128| s@ != key_text(k) by {
                        if s@ == key_text(k) {
                            assert(s@[i as int] == (key_text_byte(k, i as int) as char));
                            assert(key_text_byte(k, i as int) == 45u8);
                        }
                    }
                }
                return None;
            }
        } else {
            let d: u8 = if 48 <= v && v <= 57 {
                (v - 48) as u8
            } else if 97 <= v && v <= 102 {
                (v - 87) as u8
            } else {
                proof {
                    assert forall|k: u128| s@ != key_text(k) by {
                        if s@ == key_text(k) {
                            let ni = nibble_index(i as int);
                            lemma_nibble_bound(k, ni);
                            assert(s@[i as int] == (hex_lower(nibble(k, ni)) as char));
                        }
                    }
                }
                return None;
            };
            proof {
                assert forall|k: u128| s@ == key_text(k) implies ((acc << 4u128) | (d as u128))
                    == key_prefix(k, (j + 1) as int) by {
                    let ni = nibble_index(i as int);
                    lemma_nibble_bound(k, ni);
                    assert(s@[i as int] == (key_text_byte(k, i as int) as char));
                    assert(key_text_byte(k, i as int) == hex_lower(nibble(k, ni)));
                    assert(d == nibble(k, ni));
                    assert(ni == j as int);
                    lemma_key_prefix_step(k, j as int, acc, d);
                }
            }
            acc = (acc << 4u128) | (d as u128);
            j = j + 1;
        }
        i = i + 1;
    }
    let rendered = render_key(acc);
    if str_eq(s, &rendered) {
        Some(acc)
    } else {
        proof {
            assert forall|k: u128| s@ != key_text(k) by {
                if s@ == key_text(k) {
                    assert(acc == key_prefix(k, 32));
                    assert(k >> 0u128 == k) by (bit_vector);
                    assert(acc == k);
                    assert(rendered@ == key_text(k));
                }
            }
        }
        None
    }
}

} // verus!
