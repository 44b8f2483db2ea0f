use ds_authority_governance_ui::api_error::HubError;
use ds_authority_governance_ui::views::holders::{
    add_button_label, anonymous_label, delete_confirmed, delete_prompt, describe_error,
    holders_after_fetch, origin_missing, Holder, HoldersPanel,
};
use ds_authority_governance_ui::views::loadable::Loadable;

#[test]
fn holder_texts() {
    assert_eq!(anonymous_label(true), "yes");
    assert_eq!(anonymous_label(false), "no");
    assert_eq!(
        delete_prompt("holder-1"),
        "Revoke trust for holder \"holder-1\"? This deletes the Holder record."
    );
    assert_eq!(add_button_label(true), "Adding...");
    assert_eq!(add_button_label(false), "Add");
    assert_eq!(origin_missing(), "could not determine the page origin");
    assert_eq!(
        describe_error(&HubError::Response { status: 409, body: None }),
        "the issuer-admin-api responded with 409 Conflict"
    );
}

#[test]
fn delete_goes_ahead_unless_declined() {
    assert!(delete_confirmed(Some(true)));
    assert!(!delete_confirmed(Some(false)));
    assert!(delete_confirmed(None));
}

#[test]
fn adding_a_holder() {
    let mut panel = HoldersPanel::new();
    panel.mutation_error = Some("old".to_string());
    panel.form_id = "stale".to_string();
    panel.open_add_modal();
    assert!(panel.show_add_modal);
    assert_eq!(panel.form_id, "");
    assert_eq!(panel.mutation_error, None);
    panel.form_id = "holder-1".to_string();
    panel.form_did = "did:web:example.com:holder-1".to_string();
    panel.form_name = "Example Holder".to_string();
    let holder = panel.submit();
    assert!(panel.submitting);
    assert_eq!(holder.holder_id, "holder-1");
    assert_eq!(holder.did, "did:web:example.com:holder-1");
    assert_eq!(holder.holder_name, "Example Holder");
    panel.create_failed("nope".to_string());
    assert!(!panel.submitting);
    assert!(panel.show_add_modal);
    assert_eq!(panel.mutation_error, Some("nope".to_string()));
    panel.submit();
    panel.create_succeeded();
    assert!(!panel.show_add_modal);
    assert!(!panel.submitting);
    assert_eq!(panel.mutation_error, None);
    assert_eq!(panel.reload, 1);
}

#[test]
fn deleting_and_listing_holders() {
    let mut panel = HoldersPanel::new();
    panel.delete_failed("gone".to_string());
    assert_eq!(panel.mutation_error, Some("gone".to_string()));
    panel.delete_succeeded();
    assert_eq!(panel.mutation_error, None);
    assert_eq!(panel.reload, 1);
    let holder = Holder {
        holder_id: "h".to_string(),
        did: "did:web:h".to_string(),
        holder_name: "H".to_string(),
        anonymous: false,
    };
    panel.set_list(holders_after_fetch(Ok(vec![holder.clone()])));
    assert_eq!(panel.list, Loadable::Loaded(vec![holder]));
    panel.start_loading();
    assert_eq!(panel.list, Loadable::Loading);
    panel.set_list(holders_after_fetch(Err(HubError::Transport("dns".to_string()))));
    assert_eq!(panel.list, Loadable::Failed("dns".to_string()));
    panel.close_add_modal();
    assert!(!panel.show_add_modal);
}
