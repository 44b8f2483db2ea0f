//! `/identity-bootstrap`: this app's two-step bootstrap flow. The
//! participant context is created, then activated; activation publishes
//! its DID as a side effect, so there is no separate publish step (the
//! issuer service does not serve the DID and keypair APIs at all).

use vstd::prelude::*;
use crate::store::AppState;

verus! {

/// The wizard's steps.
#[derive(Clone, Copy, Debug, PartialEq, Eq)]
pub enum Step {
    CreateContext,
    Activate,
    Done,
}

/// How a step is shown in the progress stepper.
#[derive(Clone, Copy, Debug, PartialEq, Eq)]
pub enum StepStatus {
    Success,
    Info,
    Pending,
}

/// The position of a step in the flow.
pub open spec fn step_rank(step: Step) -> int {
    match step {
        Step::CreateContext => 0,
        Step::Activate => 1,
        Step::Done => 2,
    }
}

/// How `step` is shown while the wizard is at `current`: done steps as a
/// success, the current one as info, later ones as pending.
pub fn step_status(step: Step, current: Step) -> (r: StepStatus)
    ensures
        r == (if step_rank(step) < step_rank(current) {
            StepStatus::Success
        } else if step == current {
            StepStatus::Info
        } else {
            StepStatus::Pending
        }),
{
    match (step, current) {
        (Step::CreateContext, Step::Activate) | (Step::CreateContext, Step::Done) => StepStatus::Success,
        (Step::Activate, Step::Done) => StepStatus::Success,
        (Step::CreateContext, Step::CreateContext) => StepStatus::Info,
        (Step::Activate, Step::Activate) => StepStatus::Info,
        (Step::Done, Step::Done) => StepStatus::Info,
        _ => StepStatus::Pending,
    }
}

/// What the wizard's body shows.
#[derive(Clone, Debug, PartialEq)]
pub enum WizardBody {
    /// The create-context panel.
    Create,
    /// The activation panel for this participant context.
    Activate(String),
    /// An error: the activation step has no participant context.
    NoContextToActivate,
    /// The success alert for this participant context.
    Done(String),
}

/// The wizard's state: the participant context it works on and its step.
#[derive(Clone, Debug, PartialEq)]
pub struct BootstrapWizard {
    pub participant_id: Option<String>,
    pub step: Step,
}

/// The wizard after the context `id` was created.
pub open spec fn after_created(w: BootstrapWizard, id: String) -> BootstrapWizard {
    BootstrapWizard { participant_id: Some(id), step: Step::Activate }
}

/// The wizard and the store after the context was activated.
pub open spec fn after_activated(w: BootstrapWizard, app: AppState) -> (BootstrapWizard, AppState) {
    (
        BootstrapWizard { step: Step::Done, ..w },
        match w.participant_id {
            Some(id) => AppState { selected_participant_context: Some(id), ..app },
            None => app,
        },
    )
}

impl BootstrapWizard {
    /// The wizard opened with the app's selected participant context: a
    /// selected context goes straight to activation.
    pub fn new(selected: Option<String>) -> (r: BootstrapWizard)
        ensures
            r.participant_id == selected,
            r.step == (if selected is Some {
                Step::Activate
            } else {
                Step::CreateContext
            }),
    {
        let step = if selected.is_some() {
            Step::Activate
        } else {
            Step::CreateContext
        };
        BootstrapWizard { participant_id: selected, step }
    }

    /// The context `created_id` was created: activation comes next.
    pub fn created(&mut self, created_id: String)
        ensures
            *final(self) == after_created(*old(self), created_id),
    {
        self.participant_id = Some(created_id);
        self.step = Step::Activate;
    }

    /// The context was activated: the wizard is done, and the context
    /// becomes the app's selected participant context, so that every other
    /// view opens on it.
    pub fn activated(&mut self, app: &mut AppState)
        ensures
            (*final(self), *final(app)) == after_activated(*old(self), *old(app)),
    {
        self.step = Step::Done;
        match &self.participant_id {
            Some(id) => {
                app.selected_participant_context = Some(id.clone());
            },
            None => {},
        }
    }

    /// What the body shows at the current step.
    pub fn body(&self) -> (r: WizardBody)
        ensures
            match self.step {
                Step::CreateContext => r == WizardBody::Create,
                Step::Activate => match self.participant_id {
                    Some(id) => r == WizardBody::Activate(id),
                    None => r == WizardBody::NoContextToActivate,
                },
                Step::Done => match self.participant_id {
                    Some(id) => r == WizardBody::Done(id),
                    None => (r matches WizardBody::Done(s) && s@ == Seq::<char>::empty()),
                },
            },
    {
        match self.step {
            Step::CreateContext => WizardBody::Create,
            Step::Activate => match &self.participant_id {
                Some(id) => WizardBody::Activate(id.clone()),
                None => WizardBody::NoContextToActivate,
            },
            Step::Done => match &self.participant_id {
                Some(id) => WizardBody::Done(id.clone()),
                None => WizardBody::Done(String::new()),
            },
        }
    }
}

/// The success message for the participant context `id`.
pub fn done_message(id: &str) -> (r: String)
    ensures
        r@ == "\""@ + id@ + "\" is active and its DID is published."@,
{
    String::from_str("\"").concat(id).concat("\" is active and its DID is published.")
}

/// Creating a context and then activating it finishes the wizard with that
/// context selected app-wide, the rest of the store unchanged.
pub proof fn lemma_create_then_activate_selects(w: BootstrapWizard, app: AppState, id: String)
    ensures
        after_activated(after_created(w, id), app).0.step == Step::Done,
        after_activated(after_created(w, id), app).1 == (AppState {
            selected_participant_context: Some(id),
            ..app
        }),
{
}

/// The wizard never moves backwards: each transition leaves it at the same
/// step or a later one.
pub proof fn lemma_steps_advance(w: BootstrapWizard, app: AppState, id: String)
    requires
        w.step != Step::Done,
    ensures
        step_rank(after_created(w, id).step) >= step_rank(w.step),
        step_rank(after_activated(w, app).0.step) >= step_rank(w.step),
{
}

} // verus!
