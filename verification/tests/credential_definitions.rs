use ds_authority_governance_ui::api_error::HubError;
use ds_authority_governance_ui::views::credential_definitions::{
    content_view, definition_row, describe_error, list_after_fetch, list_fetch_plan, non_empty,
    CredentialDefinition, DefinitionForm, DefinitionsPage, DefinitionsView, DeleteConfirm,
    FormValues, ListFetch, ModalState, SaveKind,
};
use ds_authority_governance_ui::config::Config;
use ds_authority_governance_ui::views::loadable::{list_view, ListView, Loadable};

fn definition() -> CredentialDefinition {
    CredentialDefinition {
        id: "cred-def-1".to_string(),
        credential_type: "MembershipCredential".to_string(),
        format: "VC1_0_JWT".to_string(),
        json_schema: Some("{\"type\":\"object\"}".to_string()),
        json_schema_url: None,
        validity: 3600,
        attestations: vec!["attestation-1".to_string()],
    }
}

fn config() -> Config {
    Config {
        identity_api_path: "/api/identity".to_string(),
        issuer_admin_api_path: "/api/issuer".to_string(),
    }
}

#[test]
fn to_dto_requires_credential_type() {
    let mut values = FormValues::empty();
    values.validity = "3600".to_string();
    values.json_schema = "{}".to_string();

    assert_eq!(values.to_dto().unwrap_err(), "Credential type is required.");
}

#[test]
fn to_dto_requires_a_numeric_validity() {
    let mut values = FormValues::empty();
    values.credential_type = "MembershipCredential".to_string();
    values.json_schema = "{}".to_string();
    values.validity = "not-a-number".to_string();

    assert_eq!(
        values.to_dto().unwrap_err(),
        "Validity must be a whole number of seconds."
    );
}

#[test]
fn to_dto_requires_exactly_one_schema_source() {
    let mut values = FormValues::empty();
    values.credential_type = "MembershipCredential".to_string();
    values.validity = "3600".to_string();

    assert_eq!(
        values.to_dto().unwrap_err(),
        "Provide either a JSON schema or a JSON schema URL."
    );

    values.json_schema = "{}".to_string();
    values.json_schema_url = "https://example.com/schema.json".to_string();

    assert_eq!(
        values.to_dto().unwrap_err(),
        "Provide only one of JSON schema or JSON schema URL, not both."
    );
}

#[test]
fn to_dto_builds_a_valid_dto_from_valid_input() {
    let mut values = FormValues::empty();
    values.credential_type = " MembershipCredential ".to_string();
    values.format = "vc1_0_jwt".to_string();
    values.json_schema = "{\"type\":\"object\"}".to_string();
    values.validity = "3600".to_string();
    values.attestations = "att-1, att-2 ,, ".to_string();

    let dto = values.to_dto().expect("valid input should produce a DTO");

    assert_eq!(dto.credential_type, "MembershipCredential");
    assert_eq!(dto.format, Some("vc1_0_jwt".to_string()));
    assert_eq!(dto.validity, 3600);
    assert_eq!(
        dto.attestations,
        vec!["att-1".to_string(), "att-2".to_string()]
    );
}

#[test]
fn from_definition_round_trips_the_domain_object_into_editable_form_values() {
    let values = FormValues::from_definition(&definition());

    assert_eq!(values.id, Some("cred-def-1".to_string()));
    assert_eq!(values.credential_type, "MembershipCredential");
    assert_eq!(values.json_schema, "{\"type\":\"object\"}");
    assert_eq!(values.json_schema_url, "");
    assert_eq!(values.validity, "3600");
    assert_eq!(values.attestations, "attestation-1");
}

#[test]
fn editing_a_definition_unchanged_submits_the_same_definition() {
    let mut d = definition();
    d.attestations = vec!["a-1".to_string(), "a-2".to_string(), "a-3".to_string()];
    d.validity = -42;
    let dto = FormValues::from_definition(&d).to_dto().unwrap();
    assert_eq!(dto.id, Some(d.id.clone()));
    assert_eq!(dto.credential_type, d.credential_type);
    assert_eq!(dto.format, Some(d.format.clone()));
    assert_eq!(dto.json_schema, d.json_schema);
    assert_eq!(dto.json_schema_url, None);
    assert_eq!(dto.validity, -42);
    assert_eq!(dto.attestations, d.attestations);
}

#[test]
fn validity_parsing_follows_integer_syntax() {
    let mut values = FormValues::empty();
    values.credential_type = "T".to_string();
    values.json_schema_url = "https://example.com/s.json".to_string();
    for (text, expected) in [
        (" +7 ", Some(7)),
        ("-0", Some(0)),
        ("0003600", Some(3600)),
        ("9223372036854775807", Some(i64::MAX)),
        ("-9223372036854775808", Some(i64::MIN)),
        ("9223372036854775808", None),
        ("-9223372036854775809", None),
        ("+", None),
        ("-", None),
        ("", None),
        ("1 2", None),
        ("1.5", None),
        ("١٢", None),
    ] {
        values.validity = text.to_string();
        match expected {
            Some(v) => assert_eq!(values.to_dto().unwrap().validity, v, "{text:?}"),
            None => assert_eq!(
                values.to_dto().unwrap_err(),
                "Validity must be a whole number of seconds.",
                "{text:?}"
            ),
        }
    }
}

#[test]
fn the_credential_type_check_comes_first() {
    let values = FormValues::empty();
    assert_eq!(values.to_dto().unwrap_err(), "Credential type is required.");
}

#[test]
fn unicode_whitespace_is_trimmed() {
    assert_eq!(non_empty("\u{3000}\tx y\u{a0}\n"), Some("x y".to_string()));
    assert_eq!(non_empty(" \u{2003} "), None);
    assert_eq!(non_empty(""), None);
}

#[test]
fn blank_format_is_sent_as_none() {
    let mut values = FormValues::empty();
    values.credential_type = "T".to_string();
    values.validity = "1".to_string();
    values.json_schema = "{}".to_string();
    values.format = "   ".to_string();
    values.id = Some("x".to_string());
    let dto = values.to_dto().unwrap();
    assert_eq!(dto.format, None);
    assert_eq!(dto.id, Some("x".to_string()));
    assert_eq!(dto.attestations, Vec::<String>::new());
}

#[test]
fn error_descriptions_quote_the_status_and_a_non_blank_body() {
    let with_body = HubError::Response {
        status: 404,
        body: Some("no such participant".to_string()),
    };
    assert_eq!(describe_error(&with_body), "HTTP 404 Not Found: no such participant");
    let blank = HubError::Response {
        status: 500,
        body: Some("  \n".to_string()),
    };
    assert_eq!(describe_error(&blank), "HTTP 500 Internal Server Error");
    let unread = HubError::Response { status: 599, body: None };
    assert_eq!(describe_error(&unread), "HTTP 599 <unknown status code>");
    let transport = HubError::Transport("connection refused".to_string());
    assert_eq!(describe_error(&transport), "connection refused");
}

#[test]
fn list_fetch_waits_for_selection_and_configuration() {
    assert_eq!(list_fetch_plan(&None, &Some(config())), ListFetch::Skip);
    assert_eq!(
        list_fetch_plan(&Some("p".to_string()), &None),
        ListFetch::Fail("Configuration has not finished loading.".to_string())
    );
    assert_eq!(
        list_fetch_plan(&Some("p".to_string()), &Some(config())),
        ListFetch::Fetch
    );
    assert_eq!(content_view(&None, &None), DefinitionsView::NoParticipant);
    assert_eq!(
        content_view(&Some("p".to_string()), &None),
        DefinitionsView::ConfigMissing
    );
    assert_eq!(
        content_view(&Some("p".to_string()), &Some(config())),
        DefinitionsView::Page
    );
}

#[test]
fn list_states_map_to_panels() {
    let loading: Loadable<Vec<CredentialDefinition>> = Loadable::Loading;
    assert_eq!(list_view(&loading), ListView::Spinner);
    assert_eq!(list_view(&list_after_fetch(Ok(vec![]))), ListView::Empty);
    assert_eq!(
        list_view(&list_after_fetch(Ok(vec![definition()]))),
        ListView::Rows
    );
    let failed = list_after_fetch(Err(HubError::Response { status: 403, body: None }));
    assert_eq!(failed, Loadable::Failed("HTTP 403 Forbidden".to_string()));
    assert_eq!(list_view(&failed), ListView::Error);
}

#[test]
fn page_modals_and_reload() {
    let mut page = DefinitionsPage::new();
    page.open_create();
    assert_eq!(page.modal, ModalState::Create);
    page.request_edit(definition());
    assert_eq!(page.modal, ModalState::Edit(definition()));
    page.close_modal();
    assert_eq!(page.modal, ModalState::Closed);
    page.request_delete(definition());
    assert_eq!(page.modal, ModalState::ConfirmDelete(definition()));
    page.saved();
    assert_eq!(page.modal, ModalState::Closed);
    assert_eq!(page.reload, 1);
}

#[test]
fn form_modal_submits_creates_and_updates() {
    let mut create = DefinitionForm::open(&None);
    assert_eq!(create.values, FormValues::empty());
    assert_eq!(create.submit(), None);
    assert_eq!(create.error, Some("Credential type is required.".to_string()));
    assert!(!create.saving);
    create.values.credential_type = "T".to_string();
    create.values.validity = "10".to_string();
    create.values.json_schema = "{}".to_string();
    let (kind, dto) = create.submit().unwrap();
    assert_eq!(kind, SaveKind::Create);
    assert_eq!(dto.credential_type, "T");
    assert_eq!(create.error, None);
    assert!(create.saving);
    create.save_failed("HTTP 409 Conflict".to_string());
    assert_eq!(create.error, Some("HTTP 409 Conflict".to_string()));
    assert!(!create.saving);

    let mut edit = DefinitionForm::open(&Some(definition()));
    assert_eq!(edit.values, FormValues::from_definition(&definition()));
    let (kind, dto) = edit.submit().unwrap();
    assert_eq!(kind, SaveKind::Update);
    assert_eq!(dto.id, Some("cred-def-1".to_string()));
}

#[test]
fn delete_confirmation_tracks_the_request() {
    let mut confirm = DeleteConfirm::new();
    confirm.start();
    assert!(confirm.deleting);
    assert_eq!(confirm.error, None);
    confirm.failed("HTTP 500".to_string());
    assert!(!confirm.deleting);
    assert_eq!(confirm.error, Some("HTTP 500".to_string()));
}

#[test]
fn table_row_cells() {
    let mut d = definition();
    d.attestations = vec!["a".to_string(), "b".to_string()];
    d.validity = 86400;
    let row = definition_row(&d);
    assert_eq!(row.credential_type, "MembershipCredential");
    assert_eq!(row.format, "VC1_0_JWT");
    assert_eq!(row.validity, "86400");
    assert_eq!(row.attestations, "a, b");
    d.attestations = vec![];
    assert_eq!(definition_row(&d).attestations, "");
}

#[test]
fn whitespace_around_fields_changes_nothing() {
    let mut plain = FormValues::empty();
    plain.credential_type = "MembershipCredential".to_string();
    plain.format = "vc1_0_jwt".to_string();
    plain.json_schema_url = "https://example.com/schema.json".to_string();
    plain.validity = "3600".to_string();
    plain.attestations = "att-1, att-2".to_string();
    let mut padded = plain.clone();
    padded.credential_type = format!("  {} \t", plain.credential_type);
    padded.format = format!("\u{3000}{}\n", plain.format);
    padded.json_schema = " \u{a0} ".to_string();
    padded.json_schema_url = format!(" {} ", plain.json_schema_url);
    padded.validity = format!("\t{}  ", plain.validity);
    padded.attestations = format!("  {}\u{2003}", plain.attestations);
    assert_eq!(padded.to_dto(), plain.to_dto());

    let mut bad = FormValues::empty();
    bad.validity = "x".to_string();
    let mut bad_padded = bad.clone();
    bad_padded.credential_type = "   ".to_string();
    assert_eq!(bad_padded.to_dto(), bad.to_dto());
}
