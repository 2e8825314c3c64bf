use verigate::rules::GuildRules;
use verigate::settings::{
    get_guild_general_settings, set_guild_general_settings, GuildGeneralSettings, SettingsError,
};

fn body(pattern: &str, role: &str, channel: &str) -> GuildGeneralSettings {
    GuildGeneralSettings {
        email_pattern: pattern.to_string(),
        role_id: role.to_string(),
        channel_id: channel.to_string(),
    }
}

#[test]
fn settings_write_parses_ids_and_stores_the_rule() {
    let mut rules = GuildRules::new();
    let r = set_guild_general_settings(&mut rules, 100, body("^a+$", "555", "777"));
    assert_eq!(r, Ok(777));
    let rule = rules.get_guild(100).unwrap();
    assert_eq!(rule.email_pattern, "^a+$");
    assert_eq!(rule.role_id, 555);
    assert_eq!(rule.channel_id, 777);
    assert!(!rule.enable_check_mail);
}

#[test]
fn settings_write_rejects_bad_role_id() {
    let mut rules = GuildRules::new();
    let r = set_guild_general_settings(&mut rules, 100, body(".*", "not-a-number", "777"));
    assert_eq!(r, Err(SettingsError::BadRoleId));
    assert!(rules.get_guild(100).is_none());
}

#[test]
fn settings_write_rejects_bad_channel_id() {
    let mut rules = GuildRules::new();
    let r = set_guild_general_settings(&mut rules, 100, body(".*", "555", ""));
    assert_eq!(r, Err(SettingsError::BadChannelId));
    assert!(rules.get_guild(100).is_none());
}

#[test]
fn settings_write_rejects_out_of_range_role_id() {
    let mut rules = GuildRules::new();
    let r = set_guild_general_settings(&mut rules, 100, body(".*", "18446744073709551616", "7"));
    assert_eq!(r, Err(SettingsError::BadRoleId));
    assert!(rules.get_guild(100).is_none());
}

#[test]
fn settings_write_keeps_the_allow_list_flag() {
    let mut rules = GuildRules::new();
    rules.add_guild(100, ".*".to_string(), 1, 2, true);
    set_guild_general_settings(&mut rules, 100, body("^b+$", "3", "4")).unwrap();
    let rule = rules.get_guild(100).unwrap();
    assert_eq!(rule.role_id, 3);
    assert!(rule.enable_check_mail);
}

#[test]
fn settings_read_renders_ids_as_decimal_strings() {
    let mut rules = GuildRules::new();
    rules.add_guild(100, "^a+$".to_string(), 555, 777, false);
    let shown = get_guild_general_settings(rules.get_guild(100).unwrap());
    assert_eq!(shown.email_pattern, "^a+$");
    assert_eq!(shown.role_id, "555");
    assert_eq!(shown.channel_id, "777");
}
