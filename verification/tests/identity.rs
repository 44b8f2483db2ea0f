use ds_authority_governance_ui::config::{admin_api_path, config_url, Config};
use ds_authority_governance_ui::identity::{
    login_redirect_target, urlencoding_encode, userinfo_url, UserInfo,
};

#[test]
fn base_uri_is_percent_encoded_for_the_query_value() {
    assert_eq!(
        urlencoding_encode("https://issuer-admin.ds-labs.org/ux/"),
        "https%3A%2F%2Fissuer-admin.ds-labs.org%2Fux%2F"
    );
}

#[test]
fn encoding_leaves_other_characters_alone() {
    assert_eq!(urlencoding_encode(""), "");
    assert_eq!(urlencoding_encode("abc-é_1"), "abc-é_1");
    assert_eq!(urlencoding_encode("::"), "%3A%3A");
}

#[test]
fn encoded_value_holds_no_colon_or_slash() {
    let encoded = urlencoding_encode("http://a:8080/b/c:d/");
    assert!(!encoded.contains(':'));
    assert!(!encoded.contains('/'));
}

#[test]
fn login_redirect_returns_to_the_base_uri() {
    assert_eq!(
        login_redirect_target(
            Some("https://issuer-admin.ds-labs.org".to_string()),
            Some("https://issuer-admin.ds-labs.org/ux/".to_string())
        ),
        Some(
            "https://issuer-admin.ds-labs.org/api/userinfo?return_to=https%3A%2F%2Fissuer-admin.ds-labs.org%2Fux%2F"
                .to_string()
        )
    );
    assert_eq!(
        login_redirect_target(None, Some("https://issuer-admin.ds-labs.org/ux/".to_string())),
        None
    );
    assert_eq!(
        login_redirect_target(Some("https://issuer-admin.ds-labs.org".to_string()), None),
        None
    );
}

#[test]
fn config_is_beside_the_bundle_and_userinfo_at_the_origin() {
    assert_eq!(
        config_url(Some("https://host/ux/".to_string())),
        Ok("https://host/ux/configuration.json".to_string())
    );
    assert_eq!(
        userinfo_url(Some("https://host".to_string())),
        Ok("https://host/api/userinfo".to_string())
    );
    assert_eq!(
        config_url(None),
        Err("could not determine the document's base URI".to_string())
    );
    assert_eq!(
        userinfo_url(None),
        Err("could not determine the page origin".to_string())
    );
}

#[test]
fn admin_api_path_defaults_to_empty() {
    let config = Config {
        identity_api_path: "/api/identity".to_string(),
        issuer_admin_api_path: "/api/issuer".to_string(),
    };
    assert_eq!(admin_api_path(&Some(config)), "/api/issuer");
    assert_eq!(admin_api_path(&None), "");
}

#[test]
fn display_name_prefers_name_then_username_then_subject() {
    let mut user = UserInfo {
        sub: "abc123".to_string(),
        name: Some("Nico".to_string()),
        preferred_username: Some("nico".to_string()),
        email: None,
    };
    assert_eq!(user.display_name(), "Nico");
    user.name = None;
    assert_eq!(user.display_name(), "nico");
    user.preferred_username = None;
    assert_eq!(user.display_name(), "abc123");
}

#[test]
fn decoding_the_escapes_restores_the_value() {
    for value in [
        "https://issuer-admin.ds-labs.org/ux/",
        "http://localhost:8080/",
        "",
        "no-separators-here",
        "A:3/F",
    ] {
        let decoded = urlencoding_encode(value)
            .replace("%2F", "/")
            .replace("%3A", ":");
        assert_eq!(decoded, value);
    }
}
