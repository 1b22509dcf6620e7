use facebook_api::models::has_scope;
use facebook_api::{
    AccessTokenResp, AppTokenResp, CheckTokenResp, Mode, ScopeItem, TokenData, UserFacebookData,
};

fn token(app_id: &str, mode: &str, is_valid: bool, scopes: &[&str]) -> CheckTokenResp {
    CheckTokenResp {
        data: TokenData {
            app_id: app_id.to_string(),
            mode: mode.to_string(),
            application: "X".to_string(),
            data_access_expires_at: 1,
            expires_at: 2,
            is_valid,
            scopes: scopes.iter().map(|s| s.to_string()).collect(),
            user_id: "42".to_string(),
        },
    }
}

#[test]
fn scope_item_from_str() {
    assert_eq!(Mode::from("USER".to_string()), Mode::User);
    assert_eq!(Mode::from("RANDOM".to_string()), Mode::Others);
}

#[test]
fn mode_from_str() {
    assert_eq!(ScopeItem::Email.to_string(), "email".to_string());
    assert_eq!(
        ScopeItem::PublicProfile.to_string(),
        "public_profile".to_string()
    );
}

#[test]
fn mode_is_user_only_for_the_exact_wire_string() {
    assert_eq!(Mode::from("".to_string()), Mode::Others);
    assert_eq!(Mode::from("user".to_string()), Mode::Others);
    assert_eq!(Mode::from("User".to_string()), Mode::Others);
    assert_eq!(Mode::from("USER ".to_string()), Mode::Others);
    assert_eq!(Mode::from(" USER".to_string()), Mode::Others);
    assert_eq!(Mode::from("PAGE".to_string()), Mode::Others);
    assert_eq!(Mode::from("USERS".to_string()), Mode::Others);
}

#[test]
fn scope_item_round_trips_through_its_wire_name() {
    for item in [ScopeItem::Email, ScopeItem::PublicProfile] {
        let wire = item.to_string();
        assert_eq!(ScopeItem::from_wire(&wire), Some(item));
    }
    assert_eq!(ScopeItem::from_wire("email"), Some(ScopeItem::Email));
    assert_eq!(
        ScopeItem::from_wire("public_profile"),
        Some(ScopeItem::PublicProfile)
    );
}

#[test]
fn scope_item_wire_names_are_case_sensitive() {
    assert_eq!(ScopeItem::from_wire("Email"), None);
    assert_eq!(ScopeItem::from_wire("EMAIL"), None);
    assert_eq!(ScopeItem::from_wire("PublicProfile"), None);
    assert_eq!(ScopeItem::from_wire("public-profile"), None);
    assert_eq!(ScopeItem::from_wire(" email"), None);
    assert_eq!(ScopeItem::from_wire(""), None);
}

#[test]
fn has_scope_finds_exact_names_only() {
    let scopes = vec!["email".to_string(), "user_friends".to_string()];
    assert!(has_scope(&scopes, "email"));
    assert!(has_scope(&scopes, "user_friends"));
    assert!(!has_scope(&scopes, "public_profile"));
    assert!(!has_scope(&scopes, "Email"));
    assert!(!has_scope(&scopes, "emai"));
    assert!(!has_scope(&Vec::new(), "email"));
}

#[test]
fn valid_user_token_with_both_scopes_authorizes() {
    let resp = token("APPID", "USER", true, &["email", "public_profile"]);
    assert!(resp.is_valid("APPID".to_string()));
    assert!(!resp.is_valid("OTHER".to_string()));
}

#[test]
fn token_of_another_mode_does_not_authorize() {
    let resp = token("APPID", "PAGE", true, &["email", "public_profile"]);
    assert!(!resp.is_valid("APPID".to_string()));
}

#[test]
fn token_without_public_profile_does_not_authorize() {
    let resp = token("APPID", "USER", true, &["email"]);
    assert!(!resp.is_valid("APPID".to_string()));
}

#[test]
fn token_without_email_does_not_authorize() {
    let resp = token("APPID", "USER", true, &["public_profile"]);
    assert!(!resp.is_valid("APPID".to_string()));
}

#[test]
fn token_reported_invalid_does_not_authorize() {
    let resp = token("APPID", "USER", false, &["email", "public_profile"]);
    assert!(!resp.is_valid("APPID".to_string()));
}

#[test]
fn app_id_is_compared_exactly() {
    let resp = token("APPID", "USER", true, &["email", "public_profile"]);
    assert!(!resp.is_valid("appid".to_string()));
    assert!(!resp.is_valid("APPID ".to_string()));
    assert!(!resp.is_valid("".to_string()));
}

#[test]
fn scopes_are_compared_exactly_and_in_any_order() {
    let swapped = token("APPID", "USER", true, &["public_profile", "user_friends", "email"]);
    assert!(swapped.is_valid("APPID".to_string()));
    let upper = token("APPID", "USER", true, &["EMAIL", "public_profile"]);
    assert!(!upper.is_valid("APPID".to_string()));
    let padded = token("APPID", "USER", true, &["email", " public_profile"]);
    assert!(!padded.is_valid("APPID".to_string()));
    let none = token("APPID", "USER", true, &[]);
    assert!(!none.is_valid("APPID".to_string()));
}

#[test]
fn timestamps_and_names_play_no_part() {
    let mut resp = token("APPID", "USER", true, &["email", "public_profile"]);
    resp.data.expires_at = 0;
    resp.data.data_access_expires_at = i64::MIN;
    resp.data.application = String::new();
    resp.data.user_id = String::new();
    assert!(resp.is_valid("APPID".to_string()));
}

#[test]
fn dropping_any_one_condition_turns_the_answer_false() {
    let good = token("APPID", "USER", true, &["email", "public_profile"]);
    assert!(good.is_valid("APPID".to_string()));
    let variants = [
        token("APPID", "USER", false, &["email", "public_profile"]),
        token("APPID", "OTHER", true, &["email", "public_profile"]),
        token("ELSE", "USER", true, &["email", "public_profile"]),
        token("APPID", "USER", true, &["public_profile"]),
        token("APPID", "USER", true, &["email"]),
    ];
    for resp in variants.iter() {
        assert!(!resp.is_valid("APPID".to_string()));
    }
    let two_missing = token("ELSE", "PAGE", true, &["email", "public_profile"]);
    assert!(!two_missing.is_valid("APPID".to_string()));
}

#[test]
fn response_documents_hold_what_they_are_given() {
    let app = AppTokenResp {
        access_token: "tok".to_string(),
        token_type: "bearer".to_string(),
    };
    assert_eq!(app.access_token, "tok");
    assert_eq!(app.token_type, "bearer");
    let user = AccessTokenResp {
        access_token: "utok".to_string(),
    };
    assert_eq!(user.access_token, "utok");
    let profile = UserFacebookData {
        id: "1".to_string(),
        name: "N".to_string(),
        email: "e@x".to_string(),
    };
    assert_eq!(profile.id, "1");
    assert_eq!(profile.name, "N");
    assert_eq!(profile.email, "e@x");
}
