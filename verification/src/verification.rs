//! The decision at the heart of the verification callback: given the
//! correlation entry, the profile the identity provider returned, and the
//! guild's rule, decide whether the role grant is owed or which validation
//! error the applicant gets. The surrounding transport (token exchange,
//! profile fetch, role-grant execution) stays outside; this decides.

use vstd::prelude::*;

use crate::directory::{mail_listed, MailDirectory};
use crate::rules::GuildRule;

verus! {

/// The regex crate's compilation error, opaque to the library.
#[verifier::external_type_specification]
#[verifier::external_body]
pub struct ExRegexError(regex::Error);

/// Whether `Regex::new` accepts a pattern: a function of the pattern alone.
pub uninterp spec fn regex_ok(pattern: Seq<char>) -> bool;

/// Whether a compiled pattern matches a text: a function of the pattern and
/// the text alone.
pub uninterp spec fn regex_match_of(pattern: Seq<char>, text: Seq<char>) -> bool;

/// Relies on regex::Regex::new and regex::Regex::is_match: compilation
/// succeeds or fails on the pattern alone, and whether a match exists
/// depends on the pattern and the text alone.
#[verifier::external_body]
pub(crate) fn regex_is_match(pattern: &str, text: &str) -> (r: Result<bool, regex::Error>)
    ensures
        r is Ok <==> regex_ok(pattern@),
        r matches Ok(m) ==> m == regex_match_of(pattern@, text@),
{
    Ok(regex::Regex::new(pattern)?.is_match(text))
}

/// The verification callback's request body: the identity provider's
/// authorization code and the correlation key it echoed back as `state`.
pub struct RequestVerifyDiscord {
    /// The authorization code to exchange for an access token.
    pub code: String,
    /// The correlation key, as the text it travelled as.
    pub state: String,
}

/// What the identity provider's token endpoint returns.
pub struct DiscordTokenResponse {
    /// The bearer token for profile calls.
    pub access_token: String,
    /// The token's type, normally `Bearer`.
    pub token_type: String,
    /// Seconds until the token expires.
    pub expires_in: u64,
    /// The token to refresh with.
    pub refresh_token: String,
    /// The scopes granted.
    pub scope: String,
}

/// The side effect a successful verification owes: grant `role_id` to
/// `user_id` in `guild_id`.
#[derive(Clone, Copy, Debug, PartialEq, Eq, Structural)]
pub struct RoleGrant {
    /// The guild the role is granted in.
    pub guild_id: u64,
    /// The verified user.
    pub user_id: u64,
    /// The role the guild's rule names.
    pub role_id: u64,
}

/// Why a verification attempt was refused after the correlation entry was
/// consumed.
#[derive(Clone, Copy, Debug, PartialEq, Eq, Structural)]
pub enum VerifyError {
    /// The authenticated profile is not the user who began verification.
    UserMismatch,
    /// The profile carries no email address.
    EmailMissing,
    /// The guild's stored pattern does not compile.
    PatternInvalid,
    /// The email does not match the guild's pattern.
    PatternMismatch,
    /// The allow-list check is enabled and the email is not listed.
    NotInAllowList,
}

/// Evaluates a verification callback once the correlation entry
/// (`entry_user`, `entry_guild`) is consumed and the identity provider has
/// returned the profile (`profile_user`, `email`). `rule` is the guild's
/// configured rule, if any; `mails` its allow-list. Returns the role grant
/// owed, `Ok(None)` when the guild has no rule (nothing to enforce, nothing
/// granted), or the exact validation error.
pub fn evaluate_verification(
    entry_user: u64,
    entry_guild: u64,
    profile_user: u64,
    email: Option<&String>,
    rule: Option<&GuildRule>,
    mails: &MailDirectory,
) -> (r: Result<Option<RoleGrant>, VerifyError>)
    ensures
        profile_user != entry_user ==> r matches Err(VerifyError::UserMismatch),
        profile_user == entry_user ==> match rule {
            None => r matches Ok(g) && g is None,
            Some(ru) => match email {
                None => r matches Err(VerifyError::EmailMissing),
                Some(e) => {
                    if !regex_ok(ru.email_pattern@) {
                        r matches Err(VerifyError::PatternInvalid)
                    } else if !regex_match_of(ru.email_pattern@, e@) {
                        r matches Err(VerifyError::PatternMismatch)
                    } else if ru.enable_check_mail && !mail_listed(
                        mails.entries(),
                        entry_guild,
                        e@,
                    ) {
                        r matches Err(VerifyError::NotInAllowList)
                    } else {
                        r matches Ok(g) && g matches Some(grant) && grant == (RoleGrant {
                            guild_id: entry_guild,
                            user_id: entry_user,
                            role_id: ru.role_id,
                        })
                    }
                },
            },
        },
{
    if profile_user != entry_user {
        return Err(VerifyError::UserMismatch);
    }
    let rule = match rule {
        Some(ru) => ru,
        None => {
            return Ok(None);
        },
    };
    let email = match email {
        Some(e) => e,
        None => {
            return Err(VerifyError::EmailMissing);
        },
    };
    let matched = match regex_is_match(rule.email_pattern.as_str(), email.as_str()) {
        Ok(m) => m,
        Err(_) => {
            return Err(VerifyError::PatternInvalid);
        },
    };
    if !matched {
        return Err(VerifyError::PatternMismatch);
    }
    if rule.enable_check_mail && !mails.exist_mail(entry_guild, email) {
        return Err(VerifyError::NotInAllowList);
    }
    Ok(Some(RoleGrant { guild_id: entry_guild, user_id: entry_user, role_id: rule.role_id }))
}

} // verus!
