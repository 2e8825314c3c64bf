//! Per-guild verification rules: the email pattern an applicant must match,
//! the role granted on success, the channel the verification panel stands in,
//! and whether the allow-list check is enabled. A simple keyed upsert/lookup
//! store.

use vstd::prelude::*;

use std::collections::HashMap;

verus! {

broadcast use vstd::std_specs::hash::group_hash_axioms;

/// One guild's verification rule.
pub struct GuildRule {
    /// Regular expression an applicant's email address must match.
    pub email_pattern: String,
    /// The role granted once verification succeeds.
    pub role_id: u64,
    /// The channel holding the verification panel.
    pub channel_id: u64,
    /// Whether the email must also stand in the guild's allow-list.
    pub enable_check_mail: bool,
}

/// The rules of all configured guilds, keyed by guild id.
pub struct GuildRules {
    table: HashMap<u64, GuildRule>,
}

impl GuildRules {
    /// The current mapping from guild id to rule.
    pub closed spec fn rules(&self) -> Map<u64, GuildRule> {
        self.table@
    }

    /// A store with no guild configured.
    pub fn new() -> (r: GuildRules)
        ensures
            r.rules() == Map::<u64, GuildRule>::empty(),
    {
        GuildRules { table: HashMap::new() }
    }

    /// Creates or replaces the rule for `guild_id`.
    pub fn add_guild(
        &mut self,
        guild_id: u64,
        email_pattern: String,
        role_id: u64,
        channel_id: u64,
        enable_check_mail: bool,
    )
        ensures
            final(self).rules() == old(self).rules().insert(
                guild_id,
                (GuildRule { email_pattern, role_id, channel_id, enable_check_mail }),
            ),
    {
        self.table.insert(
            guild_id,
            GuildRule { email_pattern, role_id, channel_id, enable_check_mail },
        );
    }

    /// The rule for `guild_id`, if one was configured.
    pub fn get_guild(&self, guild_id: u64) -> (r: Option<&GuildRule>)
        ensures
            match r {
                Some(rule) => self.rules().contains_key(guild_id) && *rule
                    == self.rules()[guild_id],
                None => !self.rules().contains_key(guild_id),
            },
    {
        self.table.get(&guild_id)
    }
}

} // verus!
