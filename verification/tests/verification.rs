use verigate::directory::MailDirectory;
use verigate::rules::{GuildRule, GuildRules};
use verigate::verification::{evaluate_verification, RoleGrant, VerifyError};

fn rule(pattern: &str, check_mail: bool) -> GuildRule {
    GuildRule {
        email_pattern: pattern.to_string(),
        role_id: 555,
        channel_id: 777,
        enable_check_mail: check_mail,
    }
}

#[test]
fn mismatched_user_is_rejected_before_anything_else() {
    let mails = MailDirectory::new();
    let email = "a@example.com".to_string();
    let r = evaluate_verification(42, 100, 43, Some(&email), Some(&rule(".*", false)), &mails);
    assert_eq!(r, Err(VerifyError::UserMismatch));
}

#[test]
fn unconfigured_guild_grants_nothing_and_errs_nothing() {
    let mails = MailDirectory::new();
    let email = "a@example.com".to_string();
    let r = evaluate_verification(42, 100, 42, Some(&email), None, &mails);
    assert_eq!(r, Ok(None));
}

#[test]
fn missing_email_is_rejected() {
    let mails = MailDirectory::new();
    let r = evaluate_verification(42, 100, 42, None, Some(&rule(".*", false)), &mails);
    assert_eq!(r, Err(VerifyError::EmailMissing));
}

#[test]
fn invalid_pattern_is_its_own_error() {
    let mails = MailDirectory::new();
    let email = "a@example.com".to_string();
    let r = evaluate_verification(42, 100, 42, Some(&email), Some(&rule("(unclosed", false)), &mails);
    assert_eq!(r, Err(VerifyError::PatternInvalid));
}

#[test]
fn email_not_matching_the_pattern_is_rejected() {
    let mails = MailDirectory::new();
    let email = "someone@elsewhere.org".to_string();
    let r = evaluate_verification(
        42,
        100,
        42,
        Some(&email),
        Some(&rule("^[a-z]+@example\\.com$", false)),
        &mails,
    );
    assert_eq!(r, Err(VerifyError::PatternMismatch));
}

#[test]
fn matching_email_earns_the_role_grant() {
    let mails = MailDirectory::new();
    let email = "someone@example.com".to_string();
    let r = evaluate_verification(
        42,
        100,
        42,
        Some(&email),
        Some(&rule("^[a-z]+@example\\.com$", false)),
        &mails,
    );
    assert_eq!(
        r,
        Ok(Some(RoleGrant {
            guild_id: 100,
            user_id: 42,
            role_id: 555,
        }))
    );
}

#[test]
fn allow_list_check_rejects_unlisted_email() {
    let mut mails = MailDirectory::new();
    mails
        .add_mail_address(100, "listed@example.com".to_string())
        .unwrap();
    let email = "someone@example.com".to_string();
    let r = evaluate_verification(42, 100, 42, Some(&email), Some(&rule(".*", true)), &mails);
    assert_eq!(r, Err(VerifyError::NotInAllowList));
}

#[test]
fn allow_list_check_passes_listed_email() {
    let mut mails = MailDirectory::new();
    mails
        .add_mail_address(100, "someone@example.com".to_string())
        .unwrap();
    let email = "someone@example.com".to_string();
    let r = evaluate_verification(42, 100, 42, Some(&email), Some(&rule(".*", true)), &mails);
    assert_eq!(
        r,
        Ok(Some(RoleGrant {
            guild_id: 100,
            user_id: 42,
            role_id: 555,
        }))
    );
}

#[test]
fn allow_list_of_another_guild_does_not_count() {
    let mut mails = MailDirectory::new();
    mails
        .add_mail_address(200, "someone@example.com".to_string())
        .unwrap();
    let email = "someone@example.com".to_string();
    let r = evaluate_verification(42, 100, 42, Some(&email), Some(&rule(".*", true)), &mails);
    assert_eq!(r, Err(VerifyError::NotInAllowList));
}

#[test]
fn guild_rules_store_and_return_rules() {
    let mut rules = GuildRules::new();
    assert!(rules.get_guild(100).is_none());
    rules.add_guild(100, "^a+$".to_string(), 1, 2, true);
    let got = rules.get_guild(100).unwrap();
    assert_eq!(got.email_pattern, "^a+$");
    assert_eq!(got.role_id, 1);
    assert_eq!(got.channel_id, 2);
    assert!(got.enable_check_mail);
    rules.add_guild(100, "^b+$".to_string(), 3, 4, false);
    let got = rules.get_guild(100).unwrap();
    assert_eq!(got.email_pattern, "^b+$");
    assert!(!got.enable_check_mail);
}
