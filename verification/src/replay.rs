//! The replay guard: one record per user holding the nonce of the most
//! recently issued credential (and the upstream access token persisted with
//! it). A credential validates exactly when its nonce matches the record, so
//! issuing a new credential silently invalidates every earlier one.

use vstd::prelude::*;

use std::collections::HashMap;

use crate::credential::{encoded_form, IssueError, Token, NONCE_LEN};

verus! {

broadcast use vstd::std_specs::hash::group_hash_axioms;

/// The dashboard login's request body: the identity provider's authorization
/// code and the OAuth `state` echo.
pub struct RequestDashboardCallback {
    /// The authorization code to exchange for an access token.
    pub code: String,
    /// The OAuth `state` value echoed back.
    pub state: String,
}

/// The dashboard login's response: the freshly minted bearer credential.
pub struct ResponseDashboardCallback {
    /// HTTP-style status code of the login.
    pub status: i32,
    /// The serialized bearer credential.
    pub token: String,
}

/// The server-side mirror of one user's session: the currently valid nonce
/// and the upstream access token stored alongside it.
pub struct SessionRecord {
    /// The nonce of the most recently issued credential.
    pub nonce: Vec<u8>,
    /// The identity provider's access token, kept for later profile calls.
    pub access_token: String,
}

/// Validation failure: a credential that is malformed, belongs to a user with
/// no session, or bears a superseded nonce. One answer for all three, so the
/// response reveals nothing about why.
#[derive(Clone, Copy, Debug, PartialEq, Eq, Structural)]
pub enum AuthError {
    Unauthenticated,
}

/// Whether a credential for `user_id` bearing `nonce` is valid against the
/// records `m`: a record exists for the user and its nonce is exactly the
/// credential's.
pub open spec fn validate_spec(m: Map<u64, SessionRecord>, user_id: u64, nonce: Seq<u8>) -> bool {
    m.contains_key(user_id) && m[user_id].nonce@ == nonce
}

/// Recording a new nonce for a user invalidates the one before: against the
/// updated records, a credential bearing any other nonce fails validation
/// and one bearing the new nonce passes.
pub proof fn lemma_reissue_invalidates(
    m: Map<u64, SessionRecord>,
    user_id: u64,
    rec: SessionRecord,
    old_nonce: Seq<u8>,
)
    requires
        rec.nonce@ != old_nonce,
    ensures
        !validate_spec(m.insert(user_id, rec), user_id, old_nonce),
        validate_spec(m.insert(user_id, rec), user_id, rec.nonce@),
{
}

/// Byte-wise equality of two fixed-width nonces, accumulated over every byte
/// with no early exit, so the time taken does not depend on where the first
/// difference lies.
fn ct_eq_nonce(a: &Vec<u8>, b: &Vec<u8>) -> (r: bool)
    requires
        a@.len() == NONCE_LEN,
        b@.len() == NONCE_LEN,
    ensures
        r == (a@ == b@),
{
    let mut diff: u8 = 0;
    let mut i: usize = 0;
    while i < NONCE_LEN
        invariant
            i <= 32,
            a@.len() == 32,
            b@.len() == 32,
            (diff == 0) <==> (forall|j: int| 0 <= j < i ==> a@[j] == b@[j]),
        decreases 32 - i,
    {
        let x = a[i];
        let y = b[i];
        let d = x ^ y;
        let next: u8 = diff | d;
        proof {
            let diff0 = diff;
            assert((d == 0) == (x == y) && ((next == 0) == (diff0 == 0 && d == 0)))
                by (bit_vector)
                requires
                    d == x ^ y,
                    next == diff0 | d,
            ;
        }
        diff = next;
        i = i + 1;
    }
    proof {
        if diff == 0 {
            assert(a@ =~= b@);
        } else {
            assert(exists|j: int| 0 <= j < 32 && a@[j] != b@[j]);
        }
    }
    diff == 0
}

/// Per-user session records, keyed by platform user id. Callers serialize
/// access; a fresh login overwrites the record, last writer wins.
pub struct ReplayGuard {
    table: HashMap<u64, SessionRecord>,
}

impl ReplayGuard {
    /// The current mapping from user id to session record.
    pub closed spec fn records(&self) -> Map<u64, SessionRecord> {
        self.table@
    }

    /// Every stored nonce has the fixed credential width.
    pub open spec fn wf(&self) -> bool {
        forall|u: u64| #[trigger]
            self.records().contains_key(u) ==> self.records()[u].nonce@.len() == NONCE_LEN
    }

    /// An empty guard: no user has a session, so no credential validates.
    pub fn new() -> (r: ReplayGuard)
        ensures
            r.records() == Map::<u64, SessionRecord>::empty(),
            r.wf(),
    {
        ReplayGuard { table: HashMap::new() }
    }

    /// Creates or overwrites the record for `user_id`: from now on exactly
    /// the credential bearing `nonce` validates for this user.
    pub fn set_token(&mut self, user_id: u64, nonce: Vec<u8>, access_token: String)
        requires
            old(self).wf(),
            nonce@.len() == NONCE_LEN,
        ensures
            final(self).records() == old(self).records().insert(
                user_id,
                (SessionRecord { nonce, access_token }),
            ),
            final(self).wf(),
    {
        self.table.insert(user_id, SessionRecord { nonce, access_token });
        proof {
            assert forall|u: u64| #[trigger] self.records().contains_key(u) implies self.records()[u].nonce@.len() == NONCE_LEN by {
                if u != user_id {
                    assert(old(self).records().contains_key(u));
                }
            }
        }
    }

    /// The access token persisted at the user's last login, if any.
    pub fn get_access_token(&self, user_id: u64) -> (r: Option<&String>)
        ensures
            match r {
                Some(t) => self.records().contains_key(user_id) && *t
                    == self.records()[user_id].access_token,
                None => !self.records().contains_key(user_id),
            },
    {
        match self.table.get(&user_id) {
            Some(rec) => Some(&rec.access_token),
            None => None,
        }
    }

    /// Whether the record for `user_id` currently holds exactly `nonce`,
    /// compared in constant time.
    pub fn exist_token(&self, user_id: u64, nonce: &Vec<u8>) -> (r: bool)
        requires
            self.wf(),
            nonce@.len() == NONCE_LEN,
        ensures
            r == validate_spec(self.records(), user_id, nonce@),
    {
        match self.table.get(&user_id) {
            Some(rec) => {
                proof {
                    assert(self.records().contains_key(user_id));
                    assert(rec.nonce@.len() == NONCE_LEN);
                }
                ct_eq_nonce(&rec.nonce, nonce)
            },
            None => false,
        }
    }

    /// Logs a dashboard operator in: mints a credential for `user_id`,
    /// commits its nonce (with the upstream access token) as the user's
    /// record, and returns the credential with its serialized text. The two
    /// steps commit together; if the entropy source fails, nothing changes.
    pub fn login(&mut self, user_id: u64, access_token: String) -> (r: Result<(Token, String), IssueError>)
        requires
            old(self).wf(),
        ensures
            final(self).wf(),
            r matches Ok(p) ==> p.0.wf() && p.0.user_id == user_id && p.1@ == encoded_form(
                user_id,
                p.0.nonce@,
            ) && validate_spec(final(self).records(), user_id, p.0.nonce@)
                && final(self).records()[user_id].access_token@ == access_token@
                && final(self).records().dom() =~= old(self).records().dom().insert(user_id)
                && (forall|u: u64|
                    u != user_id && #[trigger] old(self).records().contains_key(u)
                        ==> final(self).records()[u] == old(self).records()[u]),
            r is Err ==> final(self).records() == old(self).records(),
    {
        let token = match Token::new(user_id) {
            Ok(t) => t,
            Err(e) => {
                return Err(e);
            },
        };
        let text = token.generate();
        let nonce_copy = clone_bytes(&token.nonce);
        self.set_token(user_id, nonce_copy, access_token);
        Ok((token, text))
    }

    /// Validates an incoming bearer credential: deserializes it, looks the
    /// user's record up, and compares nonces in constant time. Returns the
    /// authenticated user id exactly when the text is the serialization of a
    /// credential whose nonce is the one on record; every failure is the one
    /// indistinguishable `Unauthenticated`.
    pub fn authenticate(&self, bearer: &String) -> (r: Result<u64, AuthError>)
        requires
            self.wf(),
        ensures
            r matches Ok(u) ==> exists|n: Seq<u8>|
                n.len() == NONCE_LEN && bearer@ == encoded_form(u, n) && validate_spec(
                    self.records(),
                    u,
                    n,
                ) && (forall|u2: u64, n2: Seq<u8>|
                    n2.len() == NONCE_LEN && bearer@ == encoded_form(u2, n2) ==> u2 == u && n2
                        == n),
            r is Err ==> forall|u: u64, n: Seq<u8>|
                n.len() == NONCE_LEN && bearer@ == encoded_form(u, n) ==> !validate_spec(
                    self.records(),
                    u,
                    n,
                ),
    {
        let token = match Token::parse(bearer.clone()) {
            Ok(t) => t,
            Err(_) => {
                return Err(AuthError::Unauthenticated);
            },
        };
        if self.exist_token(token.user_id, &token.nonce) {
            proof {
                let u0 = token.user_id;
                let n0 = token.nonce@;
                assert(n0.len() == NONCE_LEN && bearer@ == encoded_form(u0, n0) && validate_spec(
                    self.records(),
                    u0,
                    n0,
                ));
            }
            Ok(token.user_id)
        } else {
            Err(AuthError::Unauthenticated)
        }
    }
}

/// A plain element-wise copy of a byte vector.
fn clone_bytes(v: &Vec<u8>) -> (r: Vec<u8>)
    ensures
        r@ == v@,
{
    let mut out: Vec<u8> = Vec::new();
    let mut i: usize = 0;
    while i < v.len()
        invariant
            i <= v@.len(),
            out@ == v@.subrange(0, i as int),
        decreases v@.len() - i,
    {
        out.push(v[i]);
        i = i + 1;
        assert(out@ =~= v@.subrange(0, i as int));
    }
    assert(out@ =~= v@);
    out
}

} // verus!
