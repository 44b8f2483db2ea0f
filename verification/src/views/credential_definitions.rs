//! `/credential-definitions`: lists, creates, edits and deletes the
//! credential definitions the selected participant context issues. Every
//! change goes to the issuer-admin-api at once and the list is fetched
//! again afterwards.

use vstd::prelude::*;
use crate::api_error::{HubError, status_line, status_text};
use crate::config::Config;
use crate::text::{
    all_whitespace, lemma_comma_list_padded, lemma_trim_padded, comma_list, decimal, format_i64, is_list_entry, join, join_strings, lemma_comma_list_of_join,
    lemma_decimal_round_trip, parse_comma_list, parse_i64, parse_i64_str, trim, trim_str,
};
use crate::views::loadable::Loadable;

verus! {

/// A credential definition as the issuer-admin-api returns it: the fields
/// this view reads.
#[derive(Clone, Debug, PartialEq)]
pub struct CredentialDefinition {
    pub id: String,
    pub credential_type: String,
    pub format: String,
    pub json_schema: Option<String>,
    pub json_schema_url: Option<String>,
    pub validity: i64,
    pub attestations: Vec<String>,
}

/// A credential definition as the issuer-admin-api accepts it for a create
/// or an update (its rules and mappings are always sent empty).
#[derive(Clone, Debug, PartialEq)]
pub struct CredentialDefinitionDto {
    pub id: Option<String>,
    pub credential_type: String,
    pub format: Option<String>,
    pub json_schema: Option<String>,
    pub json_schema_url: Option<String>,
    pub validity: i64,
    pub attestations: Vec<String>,
}

/// The editable fields of a definition, held as plain text while the form
/// is open so that every input is always valid; validated and turned into a
/// `CredentialDefinitionDto` only on submit.
#[derive(Clone, Debug, PartialEq)]
pub struct FormValues {
    pub id: Option<String>,
    pub credential_type: String,
    pub format: String,
    pub json_schema: String,
    pub json_schema_url: String,
    pub validity: String,
    pub attestations: String,
}

/// A definition's content.
pub struct DefinitionModel {
    pub id: Seq<char>,
    pub credential_type: Seq<char>,
    pub format: Seq<char>,
    pub json_schema: Option<Seq<char>>,
    pub json_schema_url: Option<Seq<char>>,
    pub validity: i64,
    pub attestations: Seq<Seq<char>>,
}

/// A create/update request's content.
pub struct DtoModel {
    pub id: Option<Seq<char>>,
    pub credential_type: Seq<char>,
    pub format: Option<Seq<char>>,
    pub json_schema: Option<Seq<char>>,
    pub json_schema_url: Option<Seq<char>>,
    pub validity: i64,
    pub attestations: Seq<Seq<char>>,
}

/// The form's content.
pub struct FormModel {
    pub id: Option<Seq<char>>,
    pub credential_type: Seq<char>,
    pub format: Seq<char>,
    pub json_schema: Seq<char>,
    pub json_schema_url: Seq<char>,
    pub validity: Seq<char>,
    pub attestations: Seq<char>,
}

impl View for CredentialDefinition {
    type V = DefinitionModel;

    open spec fn view(&self) -> DefinitionModel {
        DefinitionModel {
            id: self.id@,
            credential_type: self.credential_type@,
            format: self.format@,
            json_schema: self.json_schema.deep_view(),
            json_schema_url: self.json_schema_url.deep_view(),
            validity: self.validity,
            attestations: self.attestations.deep_view(),
        }
    }
}

impl View for CredentialDefinitionDto {
    type V = DtoModel;

    open spec fn view(&self) -> DtoModel {
        DtoModel {
            id: self.id.deep_view(),
            credential_type: self.credential_type@,
            format: self.format.deep_view(),
            json_schema: self.json_schema.deep_view(),
            json_schema_url: self.json_schema_url.deep_view(),
            validity: self.validity,
            attestations: self.attestations.deep_view(),
        }
    }
}

impl View for FormValues {
    type V = FormModel;

    open spec fn view(&self) -> FormModel {
        FormModel {
            id: self.id.deep_view(),
            credential_type: self.credential_type@,
            format: self.format@,
            json_schema: self.json_schema@,
            json_schema_url: self.json_schema_url@,
            validity: self.validity@,
            attestations: self.attestations@,
        }
    }
}

/// The trimmed text, or nothing when only whitespace is left.
pub open spec fn non_empty_of(value: Seq<char>) -> Option<Seq<char>> {
    if trim(value).len() == 0 {
        None
    } else {
        Some(trim(value))
    }
}

/// The text of an optional field, empty when the field is absent.
pub open spec fn or_empty(value: Option<Seq<char>>) -> Seq<char> {
    match value {
        Some(v) => v,
        None => Seq::empty(),
    }
}

/// The form opened on an existing definition.
pub open spec fn form_of(d: DefinitionModel) -> FormModel {
    FormModel {
        id: Some(d.id),
        credential_type: d.credential_type,
        format: d.format,
        json_schema: or_empty(d.json_schema),
        json_schema_url: or_empty(d.json_schema_url),
        validity: decimal(d.validity as int),
        attestations: join(d.attestations, seq![',', ' ']),
    }
}

/// What submitting the form gives, checked as the issuer-admin-api's own
/// controller checks it, in this order: the credential type is required;
/// the validity is a whole number of seconds; exactly one of the inline
/// JSON schema and the JSON schema URL is given. Text fields are trimmed,
/// and the attestations are read as a comma-separated list.
pub open spec fn dto_of(f: FormModel) -> Result<DtoModel, Seq<char>> {
    let credential_type = trim(f.credential_type);
    if credential_type.len() == 0 {
        Err("Credential type is required."@)
    } else {
        match parse_i64(trim(f.validity)) {
            None => Err("Validity must be a whole number of seconds."@),
            Some(validity) => {
                let json_schema = non_empty_of(f.json_schema);
                let json_schema_url = non_empty_of(f.json_schema_url);
                if json_schema is None && json_schema_url is None {
                    Err("Provide either a JSON schema or a JSON schema URL."@)
                } else if json_schema is Some && json_schema_url is Some {
                    Err("Provide only one of JSON schema or JSON schema URL, not both."@)
                } else {
                    Ok(
                        DtoModel {
                            id: f.id,
                            credential_type,
                            format: non_empty_of(f.format),
                            json_schema,
                            json_schema_url,
                            validity,
                            attestations: comma_list(f.attestations),
                        },
                    )
                }
            },
        }
    }
}

/// Whether an executable submit result is the one `dto_of` describes.
pub open spec fn submit_result_is(r: Result<CredentialDefinitionDto, String>, m: Result<DtoModel, Seq<char>>) -> bool {
    match (r, m) {
        (Ok(dto), Ok(model)) => dto@ == model,
        (Err(e), Err(message)) => e@ == message,
        _ => false,
    }
}

/// The trimmed text, or `None` when only whitespace is left.
pub fn non_empty(value: &str) -> (r: Option<String>)
    ensures
        r.deep_view() == non_empty_of(value@),
{
    let trimmed = trim_str(value);
    if trimmed.unicode_len() == 0 {
        None
    } else {
        Some(String::from_str(trimmed))
    }
}

fn copy_optional(value: &Option<String>) -> (r: Option<String>)
    ensures
        r.deep_view() == value.deep_view(),
{
    match value {
        Some(v) => Some(v.clone()),
        None => None,
    }
}

fn text_or_empty(value: &Option<String>) -> (r: String)
    ensures
        r@ == or_empty(value.deep_view()),
{
    match value {
        Some(v) => v.clone(),
        None => String::new(),
    }
}

/// The empty form's content.
pub open spec fn empty_form() -> FormModel {
    FormModel {
        id: None,
        credential_type: Seq::empty(),
        format: Seq::empty(),
        json_schema: Seq::empty(),
        json_schema_url: Seq::empty(),
        validity: Seq::empty(),
        attestations: Seq::empty(),
    }
}

impl FormValues {
    /// The empty form a new definition starts from.
    pub fn empty() -> (r: FormValues)
        ensures
            r@ == empty_form(),
    {
        FormValues {
            id: None,
            credential_type: String::new(),
            format: String::new(),
            json_schema: String::new(),
            json_schema_url: String::new(),
            validity: String::new(),
            attestations: String::new(),
        }
    }

    /// The form opened on an existing definition, for editing: absent
    /// schema fields become empty text, the validity is written in decimal
    /// and the attestations are joined with `", "`.
    pub fn from_definition(definition: &CredentialDefinition) -> (r: FormValues)
        ensures
            r@ == form_of(definition@),
    {
        let separator = ", ";
        proof {
            reveal_strlit(", ");
            assert(separator@ =~= seq![',', ' ']);
        }
        let r = FormValues {
            id: Some(definition.id.clone()),
            credential_type: definition.credential_type.clone(),
            format: definition.format.clone(),
            json_schema: text_or_empty(&definition.json_schema),
            json_schema_url: text_or_empty(&definition.json_schema_url),
            validity: format_i64(definition.validity),
            attestations: join_strings(&definition.attestations, separator),
        };
        r
    }

    /// Validates the form and builds the create/update request, or says
    /// what is wrong with it.
    pub fn to_dto(&self) -> (r: Result<CredentialDefinitionDto, String>)
        ensures
            submit_result_is(r, dto_of(self@)),
    {
        let credential_type = trim_str(self.credential_type.as_str());
        if credential_type.unicode_len() == 0 {
            return Err(String::from_str("Credential type is required."));
        }
        let validity = match parse_i64_str(trim_str(self.validity.as_str())) {
            Some(v) => v,
            None => {
                return Err(String::from_str("Validity must be a whole number of seconds."));
            },
        };
        let json_schema = non_empty(self.json_schema.as_str());
        let json_schema_url = non_empty(self.json_schema_url.as_str());
        if json_schema.is_none() && json_schema_url.is_none() {
            return Err(String::from_str("Provide either a JSON schema or a JSON schema URL."));
        }
        if json_schema.is_some() && json_schema_url.is_some() {
            return Err(
                String::from_str("Provide only one of JSON schema or JSON schema URL, not both."),
            );
        }
        let attestations = parse_comma_list(self.attestations.as_str());
        Ok(
            CredentialDefinitionDto {
                id: copy_optional(&self.id),
                credential_type: String::from_str(credential_type),
                format: non_empty(self.format.as_str()),
                json_schema,
                json_schema_url,
                validity,
                attestations,
            },
        )
    }
}

/// What a submit checks and sends, for every form, new or opened on an
/// existing definition. It fails exactly when the credential type is blank,
/// or the trimmed validity is not an `i64`, or both or neither schema
/// fields are filled, with the first of those messages that applies. When
/// it succeeds, each field of the request comes from its own field of the
/// form: the same id, the trimmed credential type, the trimmed format (none
/// when blank), the trimmed inline schema as the schema and the trimmed URL
/// as the schema URL (none when blank), the parsed validity, and the
/// comma-separated attestations.
pub proof fn lemma_submit_fields(f: FormModel)
    ensures
        (dto_of(f) is Ok) <==> (trim(f.credential_type).len() > 0 && parse_i64(trim(f.validity)) is Some
            && (trim(f.json_schema).len() > 0) != (trim(f.json_schema_url).len() > 0)),
        trim(f.credential_type).len() == 0 ==> dto_of(f) == Err::<DtoModel, Seq<char>>(
            "Credential type is required."@,
        ),
        trim(f.credential_type).len() > 0 && parse_i64(trim(f.validity)) is None ==> dto_of(f)
            == Err::<DtoModel, Seq<char>>("Validity must be a whole number of seconds."@),
        trim(f.credential_type).len() > 0 && parse_i64(trim(f.validity)) is Some && trim(
            f.json_schema,
        ).len() == 0 && trim(f.json_schema_url).len() == 0 ==> dto_of(f) == Err::<
            DtoModel,
            Seq<char>,
        >("Provide either a JSON schema or a JSON schema URL."@),
        trim(f.credential_type).len() > 0 && parse_i64(trim(f.validity)) is Some && trim(
            f.json_schema,
        ).len() > 0 && trim(f.json_schema_url).len() > 0 ==> dto_of(f) == Err::<
            DtoModel,
            Seq<char>,
        >("Provide only one of JSON schema or JSON schema URL, not both."@),
        dto_of(f) matches Ok(d) ==> {
            &&& d.id == f.id
            &&& d.credential_type == trim(f.credential_type)
            &&& d.format == (if trim(f.format).len() == 0 {
                None
            } else {
                Some(trim(f.format))
            })
            &&& d.json_schema == (if trim(f.json_schema).len() == 0 {
                None
            } else {
                Some(trim(f.json_schema))
            })
            &&& d.json_schema_url == (if trim(f.json_schema_url).len() == 0 {
                None
            } else {
                Some(trim(f.json_schema_url))
            })
            &&& Some(d.validity) == parse_i64(trim(f.validity))
            &&& d.attestations == comma_list(f.attestations)
        },
{
}

/// A definition the form can reproduce exactly: a trimmed, non-empty
/// credential type; exactly one schema source, trimmed and non-empty; and
/// attestations that are trimmed, non-empty and free of commas.
pub open spec fn is_editable_definition(d: DefinitionModel) -> bool {
    &&& d.credential_type.len() > 0
    &&& trim(d.credential_type) == d.credential_type
    &&& (d.json_schema is Some) != (d.json_schema_url is Some)
    &&& (d.json_schema matches Some(s) ==> s.len() > 0 && trim(s) == s)
    &&& (d.json_schema_url matches Some(s) ==> s.len() > 0 && trim(s) == s)
    &&& forall|i: int| 0 <= i < d.attestations.len() ==> is_list_entry(#[trigger] d.attestations[i])
}

proof fn lemma_non_empty_of_trimmed(s: Seq<char>)
    requires
        s.len() > 0,
        trim(s) == s,
    ensures
        non_empty_of(s) == Some(s),
{
}

proof fn lemma_non_empty_of_empty()
    ensures
        non_empty_of(Seq::<char>::empty()) is None,
{
    assert(trim(Seq::<char>::empty()) =~= Seq::<char>::empty());
}

/// Opening an existing definition in the form and submitting it unchanged
/// gives back the same definition: same id, type, schema source, validity
/// and attestations, and the format unless it was blank.
pub proof fn lemma_form_round_trip(d: DefinitionModel)
    requires
        is_editable_definition(d),
    ensures
        dto_of(form_of(d)) == Ok::<DtoModel, Seq<char>>(
            DtoModel {
                id: Some(d.id),
                credential_type: d.credential_type,
                format: non_empty_of(d.format),
                json_schema: d.json_schema,
                json_schema_url: d.json_schema_url,
                validity: d.validity,
                attestations: d.attestations,
            },
        ),
{
    let f = form_of(d);
    lemma_decimal_round_trip(d.validity);
    lemma_comma_list_of_join(d.attestations);
    lemma_non_empty_of_empty();
    match d.json_schema {
        Some(s) => lemma_non_empty_of_trimmed(s),
        None => {},
    }
    match d.json_schema_url {
        Some(s) => lemma_non_empty_of_trimmed(s),
        None => {},
    }
    assert(non_empty_of(f.json_schema) == d.json_schema);
    assert(non_empty_of(f.json_schema_url) == d.json_schema_url);
}

/// `w` is `v` with whitespace added before and after it.
pub open spec fn is_padding_of(w: Seq<char>, v: Seq<char>) -> bool {
    exists|p: Seq<char>, q: Seq<char>| all_whitespace(p) && all_whitespace(q) && w == p + v + q
}

proof fn lemma_padding_trims_away(w: Seq<char>, v: Seq<char>)
    requires
        is_padding_of(w, v),
    ensures
        trim(w) == trim(v),
        comma_list(w) == comma_list(v),
{
    let (p, q) = choose|p: Seq<char>, q: Seq<char>|
        all_whitespace(p) && all_whitespace(q) && w == p + v + q;
    lemma_trim_padded(p, v, q);
    lemma_comma_list_padded(p, v, q);
}

/// Whitespace typed before or after any text field of the form changes
/// nothing: the submit gives the same error, or the same request.
pub proof fn lemma_padding_ignored(v: FormModel, w: FormModel)
    requires
        w.id == v.id,
        is_padding_of(w.credential_type, v.credential_type),
        is_padding_of(w.format, v.format),
        is_padding_of(w.json_schema, v.json_schema),
        is_padding_of(w.json_schema_url, v.json_schema_url),
        is_padding_of(w.validity, v.validity),
        is_padding_of(w.attestations, v.attestations),
    ensures
        dto_of(w) == dto_of(v),
{
    lemma_padding_trims_away(w.credential_type, v.credential_type);
    lemma_padding_trims_away(w.format, v.format);
    lemma_padding_trims_away(w.json_schema, v.json_schema);
    lemma_padding_trims_away(w.json_schema_url, v.json_schema_url);
    lemma_padding_trims_away(w.validity, v.validity);
    lemma_padding_trims_away(w.attestations, v.attestations);
}

/// How a failed issuer-admin-api call is reported on this page: the
/// transport error's message, or `HTTP <status>` followed by the response
/// body when there is a body with more than whitespace in it.
pub open spec fn definitions_error_text(error: HubError) -> Seq<char> {
    match error {
        HubError::Transport(message) => message@,
        HubError::Response { status, body } => match body {
            Some(b) => if trim(b@).len() > 0 {
                "HTTP "@ + status_line(status) + ": "@ + b@
            } else {
                "HTTP "@ + status_line(status)
            },
            None => "HTTP "@ + status_line(status),
        },
    }
}

/// How a failed issuer-admin-api call is reported on this page.
pub fn describe_error(error: &HubError) -> (r: String)
    requires
        error.well_formed(),
    ensures
        r@ == definitions_error_text(*error),
{
    match error {
        HubError::Transport(message) => message.clone(),
        HubError::Response { status, body } => {
            let line = status_text(*status);
            let head = String::from_str("HTTP ").concat(line.as_str());
            match body {
                Some(b) => {
                    if trim_str(b.as_str()).unicode_len() > 0 {
                        head.concat(": ").concat(b.as_str())
                    } else {
                        head
                    }
                },
                None => head,
            }
        },
    }
}


/// The message shown when the page's origin, which the API client is
/// built on, cannot be determined.
pub fn origin_missing() -> (r: String)
    ensures
        r@ == "Could not determine the page origin."@,
{
    String::from_str("Could not determine the page origin.")
}

/// What the list effect does when the selected participant context or the
/// reload counter changes.
#[derive(Clone, Debug, PartialEq)]
pub enum ListFetch {
    /// No participant context is selected: nothing to fetch.
    Skip,
    /// The list cannot be fetched; it shows this error.
    Fail(String),
    /// The list goes back to loading and is fetched.
    Fetch,
}

/// What the list effect does for the current selection and configuration.
pub fn list_fetch_plan(participant_context_id: &Option<String>, config: &Option<Config>) -> (r: ListFetch)
    ensures
        participant_context_id is None ==> r == ListFetch::Skip,
        participant_context_id is Some && config is None ==> (r matches ListFetch::Fail(m) && m@
            == "Configuration has not finished loading."@),
        participant_context_id is Some && config is Some ==> r == ListFetch::Fetch,
{
    if participant_context_id.is_none() {
        ListFetch::Skip
    } else if config.is_none() {
        ListFetch::Fail(String::from_str("Configuration has not finished loading."))
    } else {
        ListFetch::Fetch
    }
}

/// The list once the fetch has answered.
pub fn list_after_fetch(result: Result<Vec<CredentialDefinition>, HubError>) -> (r: Loadable<
    Vec<CredentialDefinition>,
>)
    requires
        result matches Err(e) ==> e.well_formed(),
    ensures
        match result {
            Ok(definitions) => r == Loadable::Loaded(definitions),
            Err(e) => r matches Loadable::Failed(m) && m@ == definitions_error_text(e),
        },
{
    match result {
        Ok(definitions) => Loadable::Loaded(definitions),
        Err(e) => Loadable::Failed(describe_error(&e)),
    }
}

/// What the page shows around the list.
#[derive(Clone, Copy, Debug, PartialEq, Eq)]
pub enum DefinitionsView {
    /// An empty state asking to select a participant context.
    NoParticipant,
    /// An error alert: the configuration has not loaded.
    ConfigMissing,
    /// The toolbar, the list and any open modal.
    Page,
}

/// What the page shows around the list.
pub fn content_view(participant_context_id: &Option<String>, config: &Option<Config>) -> (r: DefinitionsView)
    ensures
        r == (if participant_context_id is None {
            DefinitionsView::NoParticipant
        } else if config is None {
            DefinitionsView::ConfigMissing
        } else {
            DefinitionsView::Page
        }),
{
    if participant_context_id.is_none() {
        DefinitionsView::NoParticipant
    } else if config.is_none() {
        DefinitionsView::ConfigMissing
    } else {
        DefinitionsView::Page
    }
}

/// Which modal, if any, is open over the list.
#[derive(Clone, Debug, PartialEq)]
pub enum ModalState {
    Closed,
    Create,
    Edit(CredentialDefinition),
    ConfirmDelete(CredentialDefinition),
}

/// The page's own state: the open modal, and a counter that each
/// completed create, update or delete bumps so that the list is fetched
/// again.
#[derive(Clone, Debug, PartialEq)]
pub struct DefinitionsPage {
    pub modal: ModalState,
    pub reload: u32,
}

impl DefinitionsPage {
    /// The page with no modal open.
    pub fn new() -> (r: DefinitionsPage)
        ensures
            r.modal == ModalState::Closed,
            r.reload == 0,
    {
        DefinitionsPage { modal: ModalState::Closed, reload: 0 }
    }

    /// Opens the create modal.
    pub fn open_create(&mut self)
        ensures
            final(self).modal == ModalState::Create,
            final(self).reload == old(self).reload,
    {
        self.modal = ModalState::Create;
    }

    /// Opens the edit modal on `definition`.
    pub fn request_edit(&mut self, definition: CredentialDefinition)
        ensures
            final(self).modal == ModalState::Edit(definition),
            final(self).reload == old(self).reload,
    {
        self.modal = ModalState::Edit(definition);
    }

    /// Asks to confirm the deletion of `definition`.
    pub fn request_delete(&mut self, definition: CredentialDefinition)
        ensures
            final(self).modal == ModalState::ConfirmDelete(definition),
            final(self).reload == old(self).reload,
    {
        self.modal = ModalState::ConfirmDelete(definition);
    }

    /// Closes the open modal without a change.
    pub fn close_modal(&mut self)
        ensures
            final(self).modal == ModalState::Closed,
            final(self).reload == old(self).reload,
    {
        self.modal = ModalState::Closed;
    }

    /// A create, update or delete went through: the modal closes and the
    /// list is fetched again.
    pub fn saved(&mut self)
        requires
            old(self).reload < u32::MAX,
        ensures
            final(self).modal == ModalState::Closed,
            final(self).reload == old(self).reload + 1,
    {
        self.modal = ModalState::Closed;
        self.reload = self.reload + 1;
    }
}

/// Whether a save creates a definition or updates an existing one.
#[derive(Clone, Copy, Debug, PartialEq, Eq)]
pub enum SaveKind {
    Create,
    Update,
}

/// The create/edit modal's state: the form, the error shown above it, and
/// whether a save is in flight (which disables the buttons).
#[derive(Clone, Debug, PartialEq)]
pub struct DefinitionForm {
    pub values: FormValues,
    pub error: Option<String>,
    pub saving: bool,
}

impl DefinitionForm {
    /// The modal opened for a new definition (`None`) or on an existing one.
    pub fn open(initial: &Option<CredentialDefinition>) -> (r: DefinitionForm)
        ensures
            r.values@ == (match initial {
                Some(d) => form_of(d@),
                None => empty_form(),
            }),
            r.error is None,
            !r.saving,
    {
        let values = match initial {
            Some(d) => FormValues::from_definition(d),
            None => FormValues::empty(),
        };
        DefinitionForm { values, error: None, saving: false }
    }

    /// Submits the form. An invalid form shows its error and nothing is
    /// sent; a valid one clears the error, starts saving, and gives the
    /// request to send: an update when the form was opened on an existing
    /// definition, a create otherwise.
    pub fn submit(&mut self) -> (r: Option<(SaveKind, CredentialDefinitionDto)>)
        ensures
            final(self).values == old(self).values,
            match dto_of(old(self).values@) {
                Err(message) => {
                    &&& r is None
                    &&& final(self).error matches Some(e) && e@ == message
                    &&& final(self).saving == old(self).saving
                },
                Ok(model) => {
                    &&& r matches Some((kind, dto)) && dto@ == model && kind == (if old(
                        self,
                    ).values.id is Some {
                        SaveKind::Update
                    } else {
                        SaveKind::Create
                    })
                    &&& final(self).error is None
                    &&& final(self).saving
                },
            },
    {
        match self.values.to_dto() {
            Err(message) => {
                self.error = Some(message);
                None
            },
            Ok(dto) => {
                self.error = None;
                self.saving = true;
                let kind = if self.values.id.is_some() {
                    SaveKind::Update
                } else {
                    SaveKind::Create
                };
                Some((kind, dto))
            },
        }
    }

    /// The save did not go through: its error is shown and the form can be
    /// submitted again.
    pub fn save_failed(&mut self, message: String)
        ensures
            final(self).values == old(self).values,
            final(self).error == Some(message),
            !final(self).saving,
    {
        self.error = Some(message);
        self.saving = false;
    }
}

/// The delete confirmation's state: the error shown, and whether the
/// delete is in flight.
#[derive(Clone, Debug, PartialEq)]
pub struct DeleteConfirm {
    pub error: Option<String>,
    pub deleting: bool,
}

impl DeleteConfirm {
    /// The confirmation as it opens.
    pub fn new() -> (r: DeleteConfirm)
        ensures
            r.error is None,
            !r.deleting,
    {
        DeleteConfirm { error: None, deleting: false }
    }

    /// The delete is confirmed and sent.
    pub fn start(&mut self)
        ensures
            final(self).error is None,
            final(self).deleting,
    {
        self.error = None;
        self.deleting = true;
    }

    /// The delete did not go through: its error is shown.
    pub fn failed(&mut self, message: String)
        ensures
            final(self).error == Some(message),
            !final(self).deleting,
    {
        self.error = Some(message);
        self.deleting = false;
    }
}

/// The cells of one row of the definitions table.
#[derive(Clone, Debug, PartialEq)]
pub struct DefinitionRow {
    pub credential_type: String,
    pub format: String,
    pub validity: String,
    pub attestations: String,
}

/// The cells of the table row for `definition`: the validity in decimal
/// and the attestations joined with `", "`.
pub fn definition_row(definition: &CredentialDefinition) -> (r: DefinitionRow)
    ensures
        r.credential_type@ == definition.credential_type@,
        r.format@ == definition.format@,
        r.validity@ == decimal(definition.validity as int),
        r.attestations@ == join(definition.attestations.deep_view(), seq![',', ' ']),
{
    let separator = ", ";
    proof {
        reveal_strlit(", ");
        assert(separator@ =~= seq![',', ' ']);
    }
    DefinitionRow {
        credential_type: definition.credential_type.clone(),
        format: definition.format.clone(),
        validity: format_i64(definition.validity),
        attestations: join_strings(&definition.attestations, separator),
    }
}

} // verus!
