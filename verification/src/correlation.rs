//! The correlation store: short-lived, single-use records that bind an OAuth
//! `state` value to the verification attempt that created it (which user, for
//! which guild), across the redirect round trip to the identity provider.
//! Completion consumes a record atomically, and records expire passively
//! after a configured time-to-live.

use vstd::prelude::*;

use std::collections::HashMap;

use crate::credential::IssueError;
use crate::rng::random_bytes_32;

verus! {

broadcast use vstd::std_specs::hash::group_hash_axioms;

/// One pending verification attempt: who initiated it, which guild it
/// targets, and when it was created.
#[derive(Clone, Copy, Debug, PartialEq, Eq, Structural)]
pub struct CorrelationEntry {
    /// The platform user who initiated verification.
    pub user_id: u64,
    /// The community the user is attempting to join.
    pub guild_id: u64,
    /// Creation time, in the caller's clock units.
    pub created_at: u64,
}

/// Completion failure: the key was never issued, was already consumed, or has
/// expired. The three cases are indistinguishable on purpose, so that a
/// caller cannot probe which keys exist.
#[derive(Clone, Copy, Debug, PartialEq, Eq, Structural)]
pub enum CorrelationError {
    NotFound,
}

/// Whether an entry is still alive at `now`: no older than the time-to-live,
/// and not created in the future (a clock that ran backwards reads as
/// expired rather than granting an entry extra life).
pub open spec fn fresh_at(e: CorrelationEntry, ttl: u64, now: u64) -> bool {
    e.created_at <= now <= e.created_at + ttl
}

/// What completing `key` at `now` yields on a store holding `m`: the entry,
/// if one is present and still alive, and nothing otherwise.
pub open spec fn complete_result(
    m: Map<u128, CorrelationEntry>,
    ttl: u64,
    key: u128,
    now: u64,
) -> Option<CorrelationEntry> {
    if m.contains_key(key) && fresh_at(m[key], ttl, now) {
        Some(m[key])
    } else {
        None
    }
}

/// Completing a key removes it whatever the outcome, so a second completion
/// of the same key can never succeed, whatever the time of the second call.
pub proof fn lemma_complete_at_most_once(
    m: Map<u128, CorrelationEntry>,
    ttl: u64,
    key: u128,
    now: u64,
)
    ensures
        complete_result(m.remove(key), ttl, key, now) is None,
{
}

/// An entry strictly older than the time-to-live is refused even though it
/// was never consumed.
pub proof fn lemma_expired_entry_rejected(
    m: Map<u128, CorrelationEntry>,
    ttl: u64,
    key: u128,
    now: u64,
)
    requires
        m.contains_key(key),
        now > m[key].created_at + ttl,
    ensures
        complete_result(m, ttl, key, now) is None,
{
}

/// The store of pending verification attempts, keyed by the random 128-bit
/// correlation key handed to the identity provider as the `state` value.
/// Callers serialize access (one lock around the store), which makes each
/// `complete` an atomic remove-and-return.
pub struct CorrelationStore {
    entries: HashMap<u128, CorrelationEntry>,
    ttl: u64,
}

impl CorrelationStore {
    /// The live mapping from correlation key to pending attempt.
    pub closed spec fn entries(&self) -> Map<u128, CorrelationEntry> {
        self.entries@
    }

    /// The configured time-to-live, in the caller's clock units.
    pub closed spec fn ttl(&self) -> u64 {
        self.ttl
    }

    /// An empty store whose entries will live for `ttl` clock units.
    pub fn new(ttl: u64) -> (r: CorrelationStore)
        ensures
            r.entries() == Map::<u128, CorrelationEntry>::empty(),
            r.ttl() == ttl,
    {
        CorrelationStore { entries: HashMap::new(), ttl }
    }

    /// Starts a verification attempt: draws a fresh random key, stores the
    /// attempt under it, and returns the key. The key is random, so a
    /// collision with a live entry (which the new entry would replace) has
    /// negligible probability but is not ruled out here. If the entropy
    /// source fails, nothing changes.
    pub fn begin(&mut self, user_id: u64, guild_id: u64, now: u64) -> (r: Result<
        u128,
        IssueError,
    >)
        ensures
            r matches Ok(key) ==> final(self).entries() == old(self).entries().insert(
                key,
                (CorrelationEntry { user_id, guild_id, created_at: now }),
            ),
            r is Err ==> final(self).entries() == old(self).entries(),
            final(self).ttl() == old(self).ttl(),
    {
        let bytes = match random_bytes_32() {
            Ok(b) => b,
            Err(_) => {
                return Err(IssueError::RandomnessUnavailable);
            },
        };
        let key = key_from_bytes(&bytes);
        self.entries.insert(key, CorrelationEntry { user_id, guild_id, created_at: now });
        Ok(key)
    }

    /// Atomically retrieves and removes the entry under `key`: the requesting
    /// user and the target guild if the key is live, and `NotFound` when it
    /// was never issued, already consumed, or expired — indistinguishably.
    pub fn complete(&mut self, key: u128, now: u64) -> (r: Result<(u64, u64), CorrelationError>)
        ensures
            final(self).entries() == old(self).entries().remove(key),
            final(self).ttl() == old(self).ttl(),
            match complete_result(old(self).entries(), old(self).ttl(), key, now) {
                Some(e) => r matches Ok(p) && p.0 == e.user_id && p.1 == e.guild_id,
                None => r matches Err(CorrelationError::NotFound),
            },
    {
        match self.entries.remove(&key) {
            Some(e) => {
                if e.created_at <= now && now - e.created_at <= self.ttl {
                    Ok((e.user_id, e.guild_id))
                } else {
                    Err(CorrelationError::NotFound)
                }
            },
            None => Err(CorrelationError::NotFound),
        }
    }

    /// How many attempts are pending, live or expired.
    pub fn len(&self) -> (r: usize)
        ensures
            r == self.entries().len(),
    {
        self.entries.len()
    }
}

/// Where the version nibble of a key stands, and its value for a randomly
/// drawn key.
pub const KEY_VERSION_MASK: u128 = 0xF0000000000000000000;

/// The version nibble of a randomly drawn key: its text form reads `4`.
pub const KEY_VERSION_RANDOM: u128 = 0x40000000000000000000;

/// Where the two variant bits of a key stand.
pub const KEY_VARIANT_MASK: u128 = 0xC000000000000000;

/// The variant bits of a conventionally formed key: binary `10`.
pub const KEY_VARIANT_STANDARD: u128 = 0x8000000000000000;

/// Assembles a correlation key from sixteen random bytes, stamped with the
/// conventional version and variant bits of a randomly drawn identifier.
/// The bytes are random, so nothing is stated of the rest of the value.
fn key_from_bytes(bytes: &Vec<u8>) -> (r: u128)
    requires
        bytes@.len() >= 16,
    ensures
        r & KEY_VERSION_MASK == KEY_VERSION_RANDOM,
        r & KEY_VARIANT_MASK == KEY_VARIANT_STANDARD,
{
    let mut k: u128 = 0;
    let mut i: usize = 0;
    while i < 16
        invariant
            i <= 16,
            bytes@.len() >= 16,
        decreases 16 - i,
    {
        k = (k << 8u128) | (bytes[i] as u128);
        i = i + 1;
    }
    let r: u128 = (k & !(KEY_VERSION_MASK | KEY_VARIANT_MASK)) | KEY_VERSION_RANDOM
        | KEY_VARIANT_STANDARD;
    proof {
        let kg = k;
        let rg = r;
        assert(rg & 0xF0000000000000000000u128 == 0x40000000000000000000u128 && rg
            & 0xC000000000000000u128 == 0x8000000000000000u128) by (bit_vector)
            requires
                rg == (kg & !(0xF0000000000000000000u128 | 0xC000000000000000u128))
                    | 0x40000000000000000000u128 | 0x8000000000000000u128,
        ;
    }
    r
}

} // verus!
