//! The URLs the service hands out: the bot invite link, the identity
//! provider's authorization URL, and the redirect back into the verification
//! flow. Query values are form-urlencoded exactly: unreserved bytes kept,
//! space as `+`, everything else percent-escaped in uppercase hex.

use vstd::prelude::*;

use vstd::string::{StrSliceExecFns, StringExecFns};

use crate::decimal::{dec_rep, u64_to_dec};

verus! {

broadcast use vstd::string::group_string_axioms;

/// Whether form-urlencoding leaves a byte as itself: ASCII alphanumerics and
/// `*`, `-`, `.`, `_`.
pub open spec fn is_unreserved(b: u8) -> bool {
    (65 <= b <= 90) || (97 <= b <= 122) || (48 <= b <= 57) || b == 42 || b == 45 || b == 46 || b
        == 95
}

/// The uppercase hex digit for a value below 16.
pub open spec fn hex_digit(d: u8) -> u8
    recommends
        d < 16,
{
    if d < 10 {
        (48 + d) as u8
    } else {
        (55 + d) as u8
    }
}

/// How one byte is rendered: kept, space as `+`, or `%` and two hex digits.
pub open spec fn encode_byte(b: u8) -> Seq<u8> {
    if is_unreserved(b) {
        seq![b]
    } else if b == 32 {
        seq![43u8]
    } else {
        seq![37u8, hex_digit(b / 16), hex_digit(b % 16)]
    }
}

/// The form-urlencoding of a byte sequence.
pub open spec fn form_urlencoded(s: Seq<u8>) -> Seq<u8>
    decreases s.len(),
{
    if s.len() == 0 {
        Seq::empty()
    } else {
        form_urlencoded(s.drop_last()) + encode_byte(s.last())
    }
}

/// Every byte of an encoding is ASCII, whatever the input was.
pub proof fn lemma_form_urlencoded_ascii(s: Seq<u8>)
    ensures
        forall|i: int| 0 <= i < form_urlencoded(s).len() ==> #[trigger] form_urlencoded(s)[i]
            < 128,
    decreases s.len(),
{
    if s.len() > 0 {
        lemma_form_urlencoded_ascii(s.drop_last());
        let w = form_urlencoded(s);
        let wp = form_urlencoded(s.drop_last());
        assert forall|i: int| 0 <= i < w.len() implies #[trigger] w[i] < 128 by {
            if i < wp.len() {
                assert(w[i] == wp[i]);
            } else {
                assert(w[i] == encode_byte(s.last())[i - wp.len()]);
            }
        }
    }
}

/// The bytes of an ASCII character sequence, one per character.
pub open spec fn ascii_bytes(cs: Seq<char>) -> Seq<u8> {
    Seq::new(cs.len(), |i: int| cs[i] as u8)
}

/// The characters of an ASCII byte sequence, one per byte.
pub open spec fn chars_of_bytes(bs: Seq<u8>) -> Seq<char> {
    Seq::new(bs.len(), |i: int| bs[i] as char)
}

/// The form-urlencoding of an ASCII string, as text.
pub open spec fn form_urlencoded_chars(cs: Seq<char>) -> Seq<char> {
    chars_of_bytes(form_urlencoded(ascii_bytes(cs)))
}

/// The exec counterpart of `hex_digit`.
fn hex_digit_exec(d: u8) -> (r: u8)
    requires
        d < 16,
    ensures
        r == hex_digit(d),
{
    if d < 10 {
        48 + d
    } else {
        55 + d
    }
}

/// The exec counterpart of `is_unreserved`.
fn is_unreserved_exec(b: u8) -> (r: bool)
    ensures
        r == is_unreserved(b),
{
    (65 <= b && b <= 90) || (97 <= b && b <= 122) || (48 <= b && b <= 57) || b == 42 || b == 45
        || b == 46 || b == 95
}

/// Form-urlencodes a byte sequence.
pub fn form_urlencode_bytes(input: &Vec<u8>) -> (r: Vec<u8>)
    ensures
        r@ == form_urlencoded(input@),
{
    let mut out: Vec<u8> = Vec::new();
    let mut i: usize = 0;
    while i < input.len()
        invariant
            i <= input@.len(),
            out@ == form_urlencoded(input@.subrange(0, i as int)),
        decreases input@.len() - i,
    {
        let b = input[i];
        if is_unreserved_exec(b) {
            out.push(b);
        } else if b == 32 {
            out.push(43);
        } else {
            out.push(37);
            out.push(hex_digit_exec(b / 16));
            out.push(hex_digit_exec(b % 16));
        }
        i = i + 1;
        proof {
            let pre = input@.subrange(0, (i - 1) as int);
            let cur = input@.subrange(0, i as int);
            assert(cur.drop_last() =~= pre);
            assert(cur.last() == input@[i - 1]);
            assert(out@ =~= form_urlencoded(pre) + encode_byte(input@[i - 1]));
        }
    }
    proof {
        assert(input@.subrange(0, input@.len() as int) =~= input@);
    }
    out
}

/// Relies on String::from_utf8: ASCII bytes are valid UTF-8 and decode to
/// exactly their code points, so the call cannot fail.
#[verifier::external_body]
pub(crate) fn ascii_bytes_to_string(v: Vec<u8>) -> (r: String)
    requires
        forall|i: int| 0 <= i < v@.len() ==> v@[i] < 128,
    ensures
        r@.len() == v@.len(),
        forall|i: int| 0 <= i < v@.len() ==> #[trigger] r@[i] == v@[i] as char,
{
    String::from_utf8(v).unwrap()
}

/// Form-urlencodes an ASCII string.
pub fn form_urlencode(s: &str) -> (r: String)
    requires
        s.is_ascii(),
    ensures
        r@ == form_urlencoded_chars(s@),
{
    let bytes = s.as_bytes_vec();
    proof {
        assert(bytes@ =~= ascii_bytes(s@));
    }
    let encoded = form_urlencode_bytes(&bytes);
    proof {
        lemma_form_urlencoded_ascii(bytes@);
    }
    let r = ascii_bytes_to_string(encoded);
    proof {
        assert(r@ =~= form_urlencoded_chars(s@));
    }
    r
}

/// The response body of the invite-link route.
pub struct GetInviteUrlResponse {
    /// The bot's invite URL.
    pub url: String,
}

/// The invite link for the bot application: administrator permission,
/// bot scope.
pub fn invite_url(application_id: u64) -> (r: GetInviteUrlResponse)
    ensures
        r.url@ == "https://discord.com/oauth2/authorize?client_id="@ + dec_rep(
            application_id as int,
        ) + "&permissions=8&integration_type=0&scope=bot"@,
{
    let head: String = "https://discord.com/oauth2/authorize?client_id=".to_owned();
    let mid = u64_to_dec(application_id);
    let r = head.concat(mid.as_str()).concat("&permissions=8&integration_type=0&scope=bot");
    GetInviteUrlResponse { url: r }
}

/// The identity provider's authorization URL for a verification attempt:
/// client id, the redirect target under `redirect_base`, the code response
/// type, the identify and email scopes, and the correlation key as `state`.
pub fn get_oauth_url(client_id: u64, redirect_base: &str, state: &str) -> (r: String)
    requires
        redirect_base.is_ascii(),
        state.is_ascii(),
    ensures
        r@ == "https://discord.com/oauth2/authorize?client_id="@ + dec_rep(client_id as int)
            + "&redirect_uri="@ + form_urlencoded_chars(redirect_base@ + "/discord"@)
            + "&response_type=code&scope=identify+email&state="@ + form_urlencoded_chars(state@),
{
    proof {
        reveal_strlit("/discord");
        assert(vstd::utf8::is_ascii_chars("/discord"@));
    }
    let mut target: String = redirect_base.to_owned();
    target.append("/discord");
    let head: String = "https://discord.com/oauth2/authorize?client_id=".to_owned();
    let r = head.concat(u64_to_dec(client_id).as_str()).concat("&redirect_uri=").concat(
        form_urlencode(target.as_str()).as_str(),
    ).concat("&response_type=code&scope=identify+email&state=").concat(
        form_urlencode(state).as_str(),
    );
    r
}

/// The page a user is sent to when they press the verification button: the
/// service's auth page with the correlation key as the `code` query value.
pub fn auth_page_url(base_url: &str, key_text: &str) -> (r: String)
    requires
        base_url.is_ascii(),
        key_text.is_ascii(),
    ensures
        r@ == base_url@ + "/auth?code="@ + form_urlencoded_chars(key_text@),
{
    base_url.to_owned().concat("/auth?code=").concat(form_urlencode(key_text).as_str())
}

/// The greeting of the service's root path.
pub fn main_path() -> (r: String)
    ensures
        r@ == "Hello, world!"@,
{
    "Hello, world!".to_owned()
}

} // verus!
