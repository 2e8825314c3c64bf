//! The opaque bearer credential handed to a dashboard operator: a fixed-width
//! user id, a separator byte, and a 256-bit nonce, rendered as URL-safe text.
//! Serialization is a byte-exact round trip, and deserialization accepts
//! nothing but the exact image of serialization.

use vstd::prelude::*;

use crate::b64::{b64_decode, b64_encode, b64_of};
use crate::be_bytes::{lemma_u64_be_injective, push_u64_be, read_u64_be, u64_be};
use crate::rng::random_bytes_32;

verus! {

/// Width of the credential nonce in bytes.
pub const NONCE_LEN: usize = 32;

/// Byte standing between the user id and the nonce in the serialized form.
pub const SEPARATOR: u8 = 46;

/// Total width of the serialized credential before text encoding.
pub const TOKEN_LEN: usize = 41;

/// A bearer credential: the operator's platform user id together with the
/// single-use random nonce that the replay guard mirrors server-side.
#[derive(Debug, PartialEq, Eq)]
pub struct Token {
    /// The operator's platform user id.
    pub user_id: u64,
    /// The 256-bit nonce, as 32 bytes.
    pub nonce: Vec<u8>,
}

impl Token {
    /// A credential is well formed when its nonce has the fixed width.
    pub open spec fn wf(&self) -> bool {
        self.nonce@.len() == NONCE_LEN
    }
}

/// The serialized credential: eight big-endian bytes of user id, the
/// separator, then the nonce bytes.
pub open spec fn token_bytes(user_id: u64, nonce: Seq<u8>) -> Seq<u8> {
    u64_be(user_id) + seq![SEPARATOR] + nonce
}

/// The text a credential is carried as: the URL-safe base64 rendering of its
/// serialized bytes.
pub open spec fn encoded_form(user_id: u64, nonce: Seq<u8>) -> Seq<char> {
    b64_of(token_bytes(user_id, nonce))
}

/// Distinct credentials serialize to distinct byte sequences: the serialized
/// form determines the user id and the nonce exactly.
pub proof fn lemma_token_bytes_injective(u1: u64, n1: Seq<u8>, u2: u64, n2: Seq<u8>)
    requires
        n1.len() == NONCE_LEN,
        n2.len() == NONCE_LEN,
        token_bytes(u1, n1) == token_bytes(u2, n2),
    ensures
        u1 == u2,
        n1 == n2,
{
    let s1 = token_bytes(u1, n1);
    let s2 = token_bytes(u2, n2);
    assert(u64_be(u1) =~= s1.subrange(0, 8));
    assert(u64_be(u2) =~= s2.subrange(0, 8));
    lemma_u64_be_injective(u1, u2);
    assert(n1 =~= s1.subrange(9, 41));
    assert(n2 =~= s2.subrange(9, 41));
}

/// Failure to deserialize a credential; every cause (text that is not in the
/// encoding's image, a wrong width, a corrupt separator) looks the same.
#[derive(Clone, Copy, Debug, PartialEq, Eq, Structural)]
pub enum CredentialError {
    Malformed,
}

/// Failure to draw the randomness a credential or a correlation key needs:
/// the entropy source was unavailable.
#[derive(Clone, Copy, Debug, PartialEq, Eq, Structural)]
pub enum IssueError {
    RandomnessUnavailable,
}

impl Token {
    /// Mints a credential for `user_id` with a fresh random nonce. Fails only
    /// when the entropy source does.
    pub fn new(user_id: u64) -> (r: Result<Token, IssueError>)
        ensures
            r matches Ok(t) ==> t.user_id == user_id && t.wf(),
    {
        match random_bytes_32() {
            Ok(nonce) => Ok(Token { user_id, nonce }),
            Err(_) => Err(IssueError::RandomnessUnavailable),
        }
    }

    /// Serializes the credential into the exact text form that `parse`
    /// reverses.
    pub fn generate(&self) -> (r: String)
        requires
            self.wf(),
        ensures
            r@ == encoded_form(self.user_id, self.nonce@),
    {
        let mut buf: Vec<u8> = Vec::new();
        push_u64_be(&mut buf, self.user_id);
        buf.push(SEPARATOR);
        let mut i: usize = 0;
        while i < self.nonce.len()
            invariant
                i <= self.nonce@.len(),
                buf@ == u64_be(self.user_id) + seq![SEPARATOR] + self.nonce@.subrange(0, i as int),
            decreases self.nonce@.len() - i,
        {
            buf.push(self.nonce[i]);
            i = i + 1;
            assert(buf@ =~= u64_be(self.user_id) + seq![SEPARATOR] + self.nonce@.subrange(
                0,
                i as int,
            ));
        }
        proof {
            assert(buf@ =~= token_bytes(self.user_id, self.nonce@));
        }
        b64_encode(&buf)
    }

    /// Deserializes a credential. Returns the unique well-formed credential
    /// whose serialized text is `token`, and rejects every other input: a
    /// malformed value is never partially trusted.
    pub fn parse(token: String) -> (r: Result<Token, CredentialError>)
        ensures
            r matches Ok(t) ==> t.wf() && token@ == encoded_form(t.user_id, t.nonce@),
            r matches Ok(t) ==> forall|u2: u64, n2: Seq<u8>|
                n2.len() == NONCE_LEN && encoded_form(u2, n2) == token@ ==> u2 == t.user_id && n2
                    == t.nonce@,
            r is Err ==> forall|u2: u64, n2: Seq<u8>|
                n2.len() == NONCE_LEN ==> encoded_form(u2, n2) != token@,
    {
        let buf = match b64_decode(token.as_str()) {
            Ok(b) => b,
            Err(_) => {
                return Err(CredentialError::Malformed);
            },
        };
        if buf.len() != TOKEN_LEN || buf[8] != SEPARATOR {
            proof {
                assert forall|u2: u64, n2: Seq<u8>|
                    n2.len() == NONCE_LEN implies encoded_form(u2, n2) != token@ by {
                    if encoded_form(u2, n2) == token@ {
                        assert(token_bytes(u2, n2) == buf@);
                        assert(token_bytes(u2, n2).len() == 41);
                        assert(token_bytes(u2, n2)[8] == SEPARATOR);
                    }
                }
            }
            return Err(CredentialError::Malformed);
        }
        let user_id = read_u64_be(&buf);
        let mut nonce: Vec<u8> = Vec::new();
        let mut i: usize = 9;
        while i < TOKEN_LEN
            invariant
                9 <= i <= 41,
                buf@.len() == 41,
                nonce@ == buf@.subrange(9, i as int),
            decreases 41 - i,
        {
            nonce.push(buf[i]);
            i = i + 1;
            assert(nonce@ =~= buf@.subrange(9, i as int));
        }
        proof {
            assert(u64_be(user_id) =~= buf@.subrange(0, 8));
            assert(token_bytes(user_id, nonce@) =~= buf@);
            assert forall|u2: u64, n2: Seq<u8>|
                n2.len() == NONCE_LEN && encoded_form(u2, n2) == token@ implies u2 == user_id && n2
                == nonce@ by {
                assert(token_bytes(u2, n2) == buf@);
                lemma_token_bytes_injective(u2, n2, user_id, nonce@);
            }
        }
        Ok(Token { user_id, nonce })
    }
}

} // verus!
