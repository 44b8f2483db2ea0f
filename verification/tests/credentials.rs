use ds_authority_governance_ui::api_error::HubError;
use ds_authority_governance_ui::config::Config;
use ds_authority_governance_ui::views::credentials::{
    confirm_message, confirm_title, credentials_fetch_plan, describe_error, loaded_or_failed,
    status_color, CredentialAction, CredentialsFetch, CredentialsPage, CredentialsTab,
    StatusCache, StatusColor,
};
use ds_authority_governance_ui::views::loadable::Loadable;

#[test]
fn status_color_maps_revoked_to_red() {
    assert_eq!(status_color("REVOKED"), StatusColor::Red);
    assert_eq!(status_color("revoked"), StatusColor::Red);
}

#[test]
fn status_color_maps_suspended_to_orange() {
    assert_eq!(status_color("SUSPENDED"), StatusColor::Orange);
}

#[test]
fn status_color_maps_active_states_to_green() {
    assert_eq!(status_color("active"), StatusColor::Green);
    assert_eq!(status_color("ISSUED"), StatusColor::Green);
    assert_eq!(status_color("DELIVERED"), StatusColor::Green);
    assert_eq!(status_color("APPROVED"), StatusColor::Green);
}

#[test]
fn status_color_defaults_unknown_statuses_to_grey() {
    assert_eq!(status_color("SOMETHING_ELSE"), StatusColor::Grey);
}

#[test]
fn credential_action_labels_are_human_readable() {
    assert_eq!(CredentialAction::Revoke.label(), "Revoke");
    assert_eq!(CredentialAction::Suspend.label(), "Suspend");
    assert_eq!(CredentialAction::Resume.label(), "Resume");
}

#[test]
fn status_color_earlier_groups_win_and_case_is_ignored() {
    assert_eq!(status_color("issuance_error"), StatusColor::Red);
    assert_eq!(status_color("Expired"), StatusColor::Red);
    assert_eq!(status_color("suspended after approval"), StatusColor::Orange);
    assert_eq!(status_color("DeLiVeReD"), status_color("delivered"));
    assert_eq!(status_color(""), StatusColor::Grey);
    assert_eq!(status_color("REVOK"), StatusColor::Grey);
}

#[test]
fn confirmation_texts() {
    assert_eq!(confirm_title(CredentialAction::Suspend), "Suspend credential");
    assert_eq!(
        confirm_message(CredentialAction::Revoke, "vc-1"),
        "Revoke credential vc-1? This cannot be undone from this console."
    );
}

#[test]
fn errors_quote_the_status() {
    assert_eq!(
        describe_error(&HubError::Response { status: 502, body: Some("x".to_string()) }),
        "request failed: HTTP 502 Bad Gateway"
    );
    assert_eq!(
        describe_error(&HubError::Transport("timed out".to_string())),
        "timed out"
    );
}

#[test]
fn fetch_plan_and_results() {
    let config = Config {
        identity_api_path: "/api/identity".to_string(),
        issuer_admin_api_path: "/api/issuer".to_string(),
    };
    assert_eq!(credentials_fetch_plan(&None, &None), CredentialsFetch::Clear);
    assert_eq!(
        credentials_fetch_plan(&Some("p".to_string()), &None),
        CredentialsFetch::Fail("configuration.json has not loaded yet".to_string())
    );
    assert_eq!(
        credentials_fetch_plan(&Some("p".to_string()), &Some(config)),
        CredentialsFetch::Fetch
    );
    assert_eq!(loaded_or_failed(Ok(vec![1u8])), Loadable::Loaded(vec![1u8]));
    assert_eq!(
        loaded_or_failed::<u8>(Err(HubError::Response { status: 401, body: None })),
        Loadable::Failed("request failed: HTTP 401 Unauthorized".to_string())
    );
}

#[test]
fn status_cache_reads_back_what_was_written() {
    let mut cache = StatusCache::new();
    let a = "vc-a".to_string();
    let b = "vc-b".to_string();
    assert_eq!(cache.get(&a), None);
    cache.insert(a.clone(), "ISSUED".to_string());
    cache.insert(b.clone(), "SUSPENDED".to_string());
    assert_eq!(cache.get(&a), Some("ISSUED".to_string()));
    cache.insert(a.clone(), "REVOKED".to_string());
    assert_eq!(cache.get(&a), Some("REVOKED".to_string()));
    assert_eq!(cache.get(&b), Some("SUSPENDED".to_string()));
    cache.remove(&a);
    assert_eq!(cache.get(&a), None);
    assert_eq!(cache.get(&b), Some("SUSPENDED".to_string()));
    cache.remove(&a);
    assert_eq!(cache.get(&b), Some("SUSPENDED".to_string()));
}

#[test]
fn confirmed_actions_clear_the_cached_status_and_reload() {
    let mut page = CredentialsPage::new();
    let id = "vc-1".to_string();
    page.status_checked(id.clone(), "ISSUED".to_string());
    page.call_failed("boom".to_string());
    assert_eq!(page.confirm_action(true), None);
    page.request_action(CredentialAction::Revoke, id.clone());
    assert_eq!(page.confirm_action(false), None);
    assert_eq!(page.confirming, Some((CredentialAction::Revoke, id.clone())));
    assert_eq!(
        page.confirm_action(true),
        Some((CredentialAction::Revoke, id.clone()))
    );
    assert_eq!(page.confirming, None);
    assert_eq!(page.action_error, None);
    page.action_succeeded(&id);
    assert_eq!(page.statuses.get(&id), None);
    assert_eq!(page.reload, 1);
    page.request_action(CredentialAction::Resume, id.clone());
    page.cancel_action();
    assert_eq!(page.confirming, None);
    page.call_failed("x".to_string());
    page.dismiss_error();
    assert_eq!(page.action_error, None);
    page.select_tab(CredentialsTab::IssuanceProcesses);
    assert_eq!(page.tab, CredentialsTab::IssuanceProcesses);
}
