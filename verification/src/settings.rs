//! The dashboard's guild settings: the wire shape carries ids as decimal
//! strings, so writing settings validates and parses them before the rule
//! store is touched, and reading renders them back.

use vstd::prelude::*;

use crate::decimal::{dec_parses, dec_rep, dec_val, parse_u64_dec, u64_to_dec};
use crate::rules::{GuildRule, GuildRules};

verus! {

/// The wire shape of one guild's settings: ids travel as decimal strings.
pub struct GuildGeneralSettings {
    /// Regular expression an applicant's email address must match.
    pub email_pattern: String,
    /// The role granted on success, as a decimal string.
    pub role_id: String,
    /// The panel channel, as a decimal string.
    pub channel_id: String,
}

/// Rejection of a settings write: one of the ids is not a decimal number in
/// range.
#[derive(Clone, Copy, Debug, PartialEq, Eq, Structural)]
pub enum SettingsError {
    /// The role id does not parse.
    BadRoleId,
    /// The channel id does not parse.
    BadChannelId,
}

/// Writes a guild's settings: parses both ids, then creates or replaces the
/// rule, keeping the allow-list flag the guild already had (a fresh guild
/// starts with it off). Returns the panel channel id so the caller can post
/// the verification panel there. On a bad id nothing changes.
pub fn set_guild_general_settings(
    rules: &mut GuildRules,
    guild_id: u64,
    body: GuildGeneralSettings,
) -> (r: Result<u64, SettingsError>)
    ensures
        !dec_parses(body.role_id@) ==> (r matches Err(SettingsError::BadRoleId)
            && final(rules).rules() == old(rules).rules()),
        dec_parses(body.role_id@) && !dec_parses(body.channel_id@) ==> (r matches Err(
            SettingsError::BadChannelId,
        ) && final(rules).rules() == old(rules).rules()),
        dec_parses(body.role_id@) && dec_parses(body.channel_id@) ==> (r matches Ok(c) && c
            == dec_val(body.channel_id@) && final(rules).rules() == old(rules).rules().insert(
            guild_id,
            (GuildRule {
                email_pattern: body.email_pattern,
                role_id: (dec_val(body.role_id@) as u64),
                channel_id: (dec_val(body.channel_id@) as u64),
                enable_check_mail: if old(rules).rules().contains_key(guild_id) {
                    old(rules).rules()[guild_id].enable_check_mail
                } else {
                    false
                },
            }),
        )),
{
    let role_id = match parse_u64_dec(body.role_id.as_str()) {
        Some(n) => n,
        None => {
            return Err(SettingsError::BadRoleId);
        },
    };
    let channel_id = match parse_u64_dec(body.channel_id.as_str()) {
        Some(n) => n,
        None => {
            return Err(SettingsError::BadChannelId);
        },
    };
    let enable_check_mail = match rules.get_guild(guild_id) {
        Some(rule) => rule.enable_check_mail,
        None => false,
    };
    rules.add_guild(guild_id, body.email_pattern, role_id, channel_id, enable_check_mail);
    Ok(channel_id)
}

/// Renders a guild's rule back into the wire shape.
pub fn get_guild_general_settings(rule: &GuildRule) -> (r: GuildGeneralSettings)
    ensures
        r.email_pattern@ == rule.email_pattern@,
        r.role_id@ == dec_rep(rule.role_id as int),
        r.channel_id@ == dec_rep(rule.channel_id as int),
{
    GuildGeneralSettings {
        email_pattern: rule.email_pattern.clone(),
        role_id: u64_to_dec(rule.role_id),
        channel_id: u64_to_dec(rule.channel_id),
    }
}

} // verus!
