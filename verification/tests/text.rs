use verigate::api::APIError;
use verigate::decimal::{parse_u64_dec, u64_to_dec};
use verigate::keytext::{parse_key, render_key};
use verigate::permissions::permission_checker;
use verigate::summaries::{text_channels, visible_roles, ChannelSummary, RoleSummary};
use verigate::urls::{auth_page_url, form_urlencode, get_oauth_url, invite_url, main_path};

#[test]
fn decimal_rendering_is_exact() {
    assert_eq!(u64_to_dec(0), "0");
    assert_eq!(u64_to_dec(7), "7");
    assert_eq!(u64_to_dec(1234567890), "1234567890");
    assert_eq!(u64_to_dec(u64::MAX), "18446744073709551615");
}

#[test]
fn decimal_parsing_accepts_exactly_in_range_digit_strings() {
    assert_eq!(parse_u64_dec("0"), Some(0));
    assert_eq!(parse_u64_dec("007"), Some(7));
    assert_eq!(parse_u64_dec("18446744073709551615"), Some(u64::MAX));
    assert_eq!(parse_u64_dec("18446744073709551616"), None);
    assert_eq!(parse_u64_dec(""), None);
    assert_eq!(parse_u64_dec("+5"), None);
    assert_eq!(parse_u64_dec("-5"), None);
    assert_eq!(parse_u64_dec("12a"), None);
    assert_eq!(parse_u64_dec(" 12"), None);
}

#[test]
fn decimal_round_trips() {
    for n in [0u64, 1, 9, 10, 99, 100, 4096, u64::MAX] {
        assert_eq!(parse_u64_dec(&u64_to_dec(n)), Some(n));
    }
}

#[test]
fn form_urlencoding_matches_the_convention() {
    assert_eq!(form_urlencode("abcXYZ019*-._"), "abcXYZ019*-._");
    assert_eq!(form_urlencode("a b"), "a+b");
    assert_eq!(form_urlencode("https://x.io/d"), "https%3A%2F%2Fx.io%2Fd");
    assert_eq!(form_urlencode("a=b&c"), "a%3Db%26c");
    assert_eq!(form_urlencode(""), "");
}

#[test]
fn invite_url_is_the_expected_string() {
    let r = invite_url(123456789);
    assert_eq!(
        r.url,
        "https://discord.com/oauth2/authorize?client_id=123456789&permissions=8&integration_type=0&scope=bot"
    );
}

#[test]
fn oauth_url_is_the_expected_string() {
    let url = get_oauth_url(42, "https://cb.example", "state-key");
    assert_eq!(
        url,
        "https://discord.com/oauth2/authorize?client_id=42&redirect_uri=https%3A%2F%2Fcb.example%2Fdiscord&response_type=code&scope=identify+email&state=state-key"
    );
}

#[test]
fn auth_page_url_carries_the_key() {
    let url = auth_page_url("https://svc.example", "0f0e0d0c-0b0a-0908-0706-050403020100");
    assert_eq!(
        url,
        "https://svc.example/auth?code=0f0e0d0c-0b0a-0908-0706-050403020100"
    );
}

#[test]
fn main_path_greets() {
    assert_eq!(main_path(), "Hello, world!");
}

#[test]
fn key_rendering_agrees_with_the_conventional_form() {
    for k in [
        0u128,
        1,
        0x0f0e0d0c0b0a09080706050403020100,
        u128::MAX,
        0xdeadbeefdeadbeefdeadbeefdeadbeef,
    ] {
        let text = render_key(k);
        assert_eq!(text, uuid::Uuid::from_u128(k).hyphenated().to_string());
        assert_eq!(parse_key(&text), Some(k));
    }
}

#[test]
fn key_parsing_rejects_wrong_shapes() {
    assert_eq!(parse_key(""), None);
    assert_eq!(parse_key("0f0e0d0c-0b0a-0908-0706-05040302010"), None);
    assert_eq!(parse_key("0f0e0d0c-0b0a-0908-0706-0504030201000"), None);
    assert_eq!(parse_key("0f0e0d0c00b0a-0908-0706-050403020100"), None);
    assert_eq!(parse_key("0F0E0D0C-0B0A-0908-0706-050403020100"), None);
    assert_eq!(parse_key("0f0e0d0g-0b0a-0908-0706-050403020100"), None);
}

#[test]
fn api_errors_carry_their_status_codes() {
    assert_eq!(APIError::notfound("m").status, 404);
    assert_eq!(APIError::forbitten("m").status, 403);
    assert_eq!(APIError::unauthorized("m").status, 401);
    assert_eq!(APIError::badrequest("m").status, 400);
    let e = APIError::badrequest("Invalid state");
    let body = e.to_response();
    assert_eq!(body.status, 400);
    assert_eq!(body.message, "Invalid state");
}

#[test]
fn admin_gate_needs_the_administrator_bit() {
    assert!(!permission_checker(&vec![]));
    assert!(!permission_checker(&vec![0, 1, 2, 4, 16]));
    assert!(permission_checker(&vec![0, 8]));
    assert!(permission_checker(&vec![0xffff_ffff_ffff_ffff]));
    assert!(permission_checker(&vec![8 | 2048]));
}

#[test]
fn role_listing_hides_everyone() {
    let roles = vec![
        RoleSummary {
            id: 1,
            name: "@everyone".to_string(),
            permissions: 0,
        },
        RoleSummary {
            id: 2,
            name: "mods".to_string(),
            permissions: 8,
        },
    ];
    let visible = visible_roles(roles);
    assert_eq!(visible.len(), 1);
    assert_eq!(visible[0].id, 2);
    assert_eq!(visible[0].name, "mods");
}

#[test]
fn channel_listing_keeps_text_channels_only() {
    let channels = vec![
        ChannelSummary { id: 1, kind: 0 },
        ChannelSummary { id: 2, kind: 2 },
        ChannelSummary { id: 3, kind: 0 },
    ];
    let text = text_channels(channels);
    assert_eq!(text.len(), 2);
    assert_eq!(text[0].id, 1);
    assert_eq!(text[1].id, 3);
}
