//! `/holders`: which DIDs this authority trusts to request credentials.
//!
//! The issuer-admin-api's holder record has no pending or approval state:
//! creating a holder is the trust decision. So the "Approved" tab lists,
//! creates and deletes real holder records, and the "Pending Review" tab is
//! a labelled placeholder that shows no data.

use vstd::prelude::*;
use crate::api_error::{HubError, described, describe_with_prefix};
use crate::views::loadable::Loadable;

verus! {

/// A trusted holder record: the fields this view reads.
#[derive(Clone, Debug, PartialEq)]
pub struct Holder {
    pub holder_id: String,
    pub did: String,
    pub holder_name: String,
    pub anonymous: bool,
}

/// A holder record to create.
#[derive(Clone, Debug, PartialEq)]
pub struct NewHolder {
    pub holder_id: String,
    pub did: String,
    pub holder_name: String,
}

/// The two tabs of the page.
#[derive(Clone, Copy, Debug, PartialEq, Eq)]
pub enum HoldersTab {
    Approved,
    Pending,
}

/// How a failed issuer-admin-api call is reported on this page.
pub fn describe_error(error: &HubError) -> (r: String)
    requires
        error.well_formed(),
    ensures
        r@ == described(*error, "the issuer-admin-api responded with "@),
{
    describe_with_prefix(error, "the issuer-admin-api responded with ")
}

/// The message shown when the page's origin, which the API client is
/// built on, cannot be determined.
pub fn origin_missing() -> (r: String)
    ensures
        r@ == "could not determine the page origin"@,
{
    String::from_str("could not determine the page origin")
}

/// The holders list once its fetch has answered.
pub fn holders_after_fetch(result: Result<Vec<Holder>, HubError>) -> (r: Loadable<Vec<Holder>>)
    requires
        result matches Err(e) ==> e.well_formed(),
    ensures
        match result {
            Ok(holders) => r == Loadable::Loaded(holders),
            Err(e) => r matches Loadable::Failed(m) && m@ == described(
                e,
                "the issuer-admin-api responded with "@,
            ),
        },
{
    match result {
        Ok(holders) => Loadable::Loaded(holders),
        Err(e) => Loadable::Failed(describe_error(&e)),
    }
}

/// The "Anonymous" cell of a holder's row.
pub fn anonymous_label(anonymous: bool) -> (r: &'static str)
    ensures
        r@ == (if anonymous {
            "yes"@
        } else {
            "no"@
        }),
{
    if anonymous {
        "yes"
    } else {
        "no"
    }
}

/// The question asked before a holder record is deleted.
pub fn delete_prompt(holder_id: &str) -> (r: String)
    ensures
        r@ == "Revoke trust for holder \""@ + holder_id@ + "\"? This deletes the Holder record."@,
{
    String::from_str("Revoke trust for holder \"").concat(holder_id).concat(
        "\"? This deletes the Holder record.",
    )
}

/// Whether to go on with a delete, given the answer to the prompt: when
/// the browser could not ask, the delete goes ahead.
pub fn delete_confirmed(answer: Option<bool>) -> (r: bool)
    ensures
        r == (match answer {
            Some(a) => a,
            None => true,
        }),
{
    match answer {
        Some(a) => a,
        None => true,
    }
}

/// The label of the add modal's submit button.
pub fn add_button_label(submitting: bool) -> (r: &'static str)
    ensures
        r@ == (if submitting {
            "Adding..."@
        } else {
            "Add"@
        }),
{
    if submitting {
        "Adding..."
    } else {
        "Add"
    }
}

/// The "Approved" panel's own state: the holders list, the error of the
/// last change, the add modal and its form, and a counter that each
/// completed change bumps so that the list is fetched again.
#[derive(Clone, Debug, PartialEq)]
pub struct HoldersPanel {
    pub list: Loadable<Vec<Holder>>,
    pub mutation_error: Option<String>,
    pub show_add_modal: bool,
    pub form_id: String,
    pub form_did: String,
    pub form_name: String,
    pub submitting: bool,
    pub reload: u32,
}

impl HoldersPanel {
    /// The panel as it mounts: loading, no modal.
    pub fn new() -> (r: HoldersPanel)
        ensures
            r.list == Loadable::<Vec<Holder>>::Loading,
            r.mutation_error is None,
            !r.show_add_modal,
            r.form_id@ == Seq::<char>::empty(),
            r.form_did@ == Seq::<char>::empty(),
            r.form_name@ == Seq::<char>::empty(),
            !r.submitting,
            r.reload == 0,
    {
        HoldersPanel {
            list: Loadable::Loading,
            mutation_error: None,
            show_add_modal: false,
            form_id: String::new(),
            form_did: String::new(),
            form_name: String::new(),
            submitting: false,
            reload: 0,
        }
    }

    /// The list is being fetched again.
    pub fn start_loading(&mut self)
        ensures
            *final(self) == (HoldersPanel { list: Loadable::Loading, ..*old(self) }),
    {
        self.list = Loadable::Loading;
    }

    /// The fetch answered, or could not be made.
    pub fn set_list(&mut self, list: Loadable<Vec<Holder>>)
        ensures
            *final(self) == (HoldersPanel { list, ..*old(self) }),
    {
        self.list = list;
    }

    /// Opens the add modal on an empty form, clearing the last error.
    pub fn open_add_modal(&mut self)
        ensures
            final(self).show_add_modal,
            final(self).form_id@ == Seq::<char>::empty(),
            final(self).form_did@ == Seq::<char>::empty(),
            final(self).form_name@ == Seq::<char>::empty(),
            final(self).mutation_error is None,
            final(self).list == old(self).list,
            final(self).submitting == old(self).submitting,
            final(self).reload == old(self).reload,
    {
        self.form_id = String::new();
        self.form_did = String::new();
        self.form_name = String::new();
        self.mutation_error = None;
        self.show_add_modal = true;
    }

    /// Closes the add modal.
    pub fn close_add_modal(&mut self)
        ensures
            *final(self) == (HoldersPanel { show_add_modal: false, ..*old(self) }),
    {
        self.show_add_modal = false;
    }

    /// Submits the add form: the record to create, as typed.
    pub fn submit(&mut self) -> (r: NewHolder)
        ensures
            r.holder_id@ == old(self).form_id@,
            r.did@ == old(self).form_did@,
            r.holder_name@ == old(self).form_name@,
            *final(self) == (HoldersPanel { submitting: true, ..*old(self) }),
    {
        self.submitting = true;
        NewHolder {
            holder_id: self.form_id.clone(),
            did: self.form_did.clone(),
            holder_name: self.form_name.clone(),
        }
    }

    /// The holder was created: the modal closes, the error clears and the
    /// list is fetched again.
    pub fn create_succeeded(&mut self)
        requires
            old(self).reload < u32::MAX,
        ensures
            *final(self) == (HoldersPanel {
                mutation_error: None,
                show_add_modal: false,
                submitting: false,
                reload: (old(self).reload + 1) as u32,
                ..*old(self)
            }),
    {
        self.mutation_error = None;
        self.show_add_modal = false;
        self.reload = self.reload + 1;
        self.submitting = false;
    }

    /// The create did not go through: its error is shown and the modal
    /// stays open.
    pub fn create_failed(&mut self, message: String)
        ensures
            *final(self) == (HoldersPanel {
                mutation_error: Some(message),
                submitting: false,
                ..*old(self)
            }),
    {
        self.mutation_error = Some(message);
        self.submitting = false;
    }

    /// A holder was deleted: the error clears and the list is fetched again.
    pub fn delete_succeeded(&mut self)
        requires
            old(self).reload < u32::MAX,
        ensures
            *final(self) == (HoldersPanel {
                mutation_error: None,
                reload: (old(self).reload + 1) as u32,
                ..*old(self)
            }),
    {
        self.mutation_error = None;
        self.reload = self.reload + 1;
    }

    /// The delete did not go through: its error is shown.
    pub fn delete_failed(&mut self, message: String)
        ensures
            *final(self) == (HoldersPanel { mutation_error: Some(message), ..*old(self) }),
    {
        self.mutation_error = Some(message);
    }
}

} // verus!
