//! The app's startup sequence: load `configuration.json`, then the
//! signed-in user, then check whether this deployment's identity is
//! bootstrapped, and only then mount the shell. The outside work (fetches,
//! the login navigation) is the caller's; this module decides what comes
//! next after each result.

use vstd::prelude::*;
use crate::api_error::{HubError, described, describe_with_prefix};
use crate::config::Config;
use crate::identity::UserInfo;
use crate::routes::Route;
use crate::store::AppState;

verus! {

/// The wire value of the identity-api's `ACTIVATED` participant-context
/// state (`CREATED` is 100, `ACTIVATED` 200, `DEACTIVATED` 300).
pub const PARTICIPANT_STATE_ACTIVATED: u16 = 200;

/// The startup bootstrap gate: the deployment still needs bootstrapping
/// when no participant context exists yet, or the first one is not
/// activated. Only the first context counts: one identity is bootstrapped
/// per deployment. Activation alone is the signal, because activating a
/// participant publishes its DID as a side effect.
pub fn needs_bootstrap(participant_states: &Vec<u16>) -> (r: bool)
    ensures
        r == (participant_states@.len() == 0 || participant_states@[0]
            != PARTICIPANT_STATE_ACTIVATED),
{
    if participant_states.len() == 0 {
        true
    } else {
        participant_states[0] != PARTICIPANT_STATE_ACTIVATED
    }
}

/// The endpoint the identity-api client is built on: the page's origin.
/// Without one the check cannot be made, and the error says so.
pub fn identity_api_endpoint(origin: Option<String>) -> (r: Result<String, String>)
    ensures
        match origin {
            Some(o) => r == Ok::<String, String>(o),
            None => r matches Err(e) && e@ == "could not determine the page origin"@,
        },
{
    match origin {
        Some(o) => Ok(o),
        None => Err(String::from_str("could not determine the page origin")),
    }
}

/// How a failed identity-api call is reported on the startup error page.
pub fn describe_identity_hub_error(error: &HubError) -> (r: String)
    requires
        error.well_formed(),
    ensures
        r@ == described(*error, "identity-api responded with "@),
{
    describe_with_prefix(error, "identity-api responded with ")
}

/// Where the page is in the startup sequence, as it is rendered.
#[derive(Clone, Debug, PartialEq)]
pub enum LoadState {
    Loading,
    /// `configuration.json` could not be fetched or parsed.
    ConfigError(String),
    /// The configuration and the user loaded, but the bootstrap check failed.
    BootstrapCheckError(String),
    /// Everything loaded; the shell is mounted, opening on the bootstrap
    /// wizard when the identity still needs bootstrapping.
    Ready { needs_bootstrap: bool },
}

/// Which result the startup sequence is waiting for.
#[derive(Clone, Copy, Debug, PartialEq, Eq)]
pub enum StartupPhase {
    AwaitingConfig,
    AwaitingUserinfo,
    AwaitingBootstrapCheck,
    /// The user is not signed in; the page is navigating to the login.
    RedirectingToLogin,
    /// The sequence is over: an error page or the shell is shown.
    Settled,
}

/// The result of one step of outside work.
#[derive(Debug, PartialEq)]
pub enum StartupEvent {
    ConfigLoaded(Result<Config, String>),
    UserinfoLoaded(Result<UserInfo, String>),
    BootstrapChecked(Result<bool, String>),
}

/// The outside work to do next.
#[derive(Clone, Copy, Debug, PartialEq, Eq)]
pub enum StartupAction {
    FetchUserinfo,
    CheckBootstrap,
    /// A real top-level navigation to the login page: a fetch would follow
    /// the login redirect silently and show nothing.
    RedirectToLogin,
    Idle,
}

/// The startup sequence's state. It begins awaiting the configuration,
/// whose fetch is the first thing the page does.
#[derive(Clone, Debug, PartialEq)]
pub struct Startup {
    pub phase: StartupPhase,
    pub load_state: LoadState,
}

/// What each phase says of the rendered state and of the shared store:
/// nothing is rendered but a spinner until the sequence settles, and the
/// shell is only reached with the configuration and the user in the store.
pub open spec fn startup_invariant(s: Startup, app: AppState) -> bool {
    &&& match s.phase {
        StartupPhase::AwaitingConfig => s.load_state == LoadState::Loading,
        StartupPhase::AwaitingUserinfo => s.load_state == LoadState::Loading && app.config is Some,
        StartupPhase::AwaitingBootstrapCheck => s.load_state == LoadState::Loading && app.config is Some
            && app.user is Some,
        StartupPhase::RedirectingToLogin => s.load_state == LoadState::Loading && app.config is Some,
        StartupPhase::Settled => s.load_state != LoadState::Loading,
    }
    &&& (s.load_state is Ready ==> app.config is Some && app.user is Some)
}

/// The state, the store and the next action after `event` arrives.
/// A result that the current phase does not wait for changes nothing.
pub open spec fn startup_next(s: Startup, app: AppState, event: StartupEvent) -> (
    Startup,
    AppState,
    StartupAction,
) {
    match (s.phase, event) {
        (StartupPhase::AwaitingConfig, StartupEvent::ConfigLoaded(Ok(config))) => (
            Startup { phase: StartupPhase::AwaitingUserinfo, load_state: LoadState::Loading },
            AppState { config: Some(config), ..app },
            StartupAction::FetchUserinfo,
        ),
        (StartupPhase::AwaitingConfig, StartupEvent::ConfigLoaded(Err(message))) => (
            Startup { phase: StartupPhase::Settled, load_state: LoadState::ConfigError(message) },
            app,
            StartupAction::Idle,
        ),
        (StartupPhase::AwaitingUserinfo, StartupEvent::UserinfoLoaded(Ok(user))) => (
            Startup { phase: StartupPhase::AwaitingBootstrapCheck, load_state: LoadState::Loading },
            AppState { user: Some(user), ..app },
            StartupAction::CheckBootstrap,
        ),
        (StartupPhase::AwaitingUserinfo, StartupEvent::UserinfoLoaded(Err(_))) => (
            Startup { phase: StartupPhase::RedirectingToLogin, load_state: LoadState::Loading },
            app,
            StartupAction::RedirectToLogin,
        ),
        (StartupPhase::AwaitingBootstrapCheck, StartupEvent::BootstrapChecked(Ok(needs))) => (
            Startup {
                phase: StartupPhase::Settled,
                load_state: LoadState::Ready { needs_bootstrap: needs },
            },
            app,
            StartupAction::Idle,
        ),
        (StartupPhase::AwaitingBootstrapCheck, StartupEvent::BootstrapChecked(Err(message))) => (
            Startup {
                phase: StartupPhase::Settled,
                load_state: LoadState::BootstrapCheckError(message),
            },
            app,
            StartupAction::Idle,
        ),
        _ => (s, app, StartupAction::Idle),
    }
}

impl Startup {
    /// The sequence before anything has loaded.
    pub fn new() -> (r: Startup)
        ensures
            r.phase == StartupPhase::AwaitingConfig,
            r.load_state == LoadState::Loading,
    {
        Startup { phase: StartupPhase::AwaitingConfig, load_state: LoadState::Loading }
    }

    /// Takes in the result of one step of outside work, stores what it
    /// loaded in the shared store, and says what to do next.
    pub fn step(&mut self, app: &mut AppState, event: StartupEvent) -> (action: StartupAction)
        ensures
            (*final(self), *final(app), action) == startup_next(*old(self), *old(app), event),
    {
        match (self.phase, event) {
            (StartupPhase::AwaitingConfig, StartupEvent::ConfigLoaded(Ok(config))) => {
                app.config = Some(config);
                self.phase = StartupPhase::AwaitingUserinfo;
                self.load_state = LoadState::Loading;
                StartupAction::FetchUserinfo
            },
            (StartupPhase::AwaitingConfig, StartupEvent::ConfigLoaded(Err(message))) => {
                self.phase = StartupPhase::Settled;
                self.load_state = LoadState::ConfigError(message);
                StartupAction::Idle
            },
            (StartupPhase::AwaitingUserinfo, StartupEvent::UserinfoLoaded(Ok(user))) => {
                app.user = Some(user);
                self.phase = StartupPhase::AwaitingBootstrapCheck;
                self.load_state = LoadState::Loading;
                StartupAction::CheckBootstrap
            },
            (StartupPhase::AwaitingUserinfo, StartupEvent::UserinfoLoaded(Err(_))) => {
                self.phase = StartupPhase::RedirectingToLogin;
                self.load_state = LoadState::Loading;
                StartupAction::RedirectToLogin
            },
            (StartupPhase::AwaitingBootstrapCheck, StartupEvent::BootstrapChecked(Ok(needs))) => {
                self.phase = StartupPhase::Settled;
                self.load_state = LoadState::Ready { needs_bootstrap: needs };
                StartupAction::Idle
            },
            (
                StartupPhase::AwaitingBootstrapCheck,
                StartupEvent::BootstrapChecked(Err(message)),
            ) => {
                self.phase = StartupPhase::Settled;
                self.load_state = LoadState::BootstrapCheckError(message);
                StartupAction::Idle
            },
            _ => StartupAction::Idle,
        }
    }
}

/// Every step keeps the startup invariant: in particular the shell, which
/// `Ready` mounts, always finds the configuration and the user in the
/// shared store.
pub proof fn lemma_startup_step_keeps_invariant(s: Startup, app: AppState, event: StartupEvent)
    requires
        startup_invariant(s, app),
    ensures
        startup_invariant(startup_next(s, app, event).0, startup_next(s, app, event).1),
{
}

/// The sequence starts in a state that satisfies the invariant.
pub proof fn lemma_startup_begins_valid(app: AppState)
    ensures
        startup_invariant(
            Startup { phase: StartupPhase::AwaitingConfig, load_state: LoadState::Loading },
            app,
        ),
{
}

/// A settled sequence stays settled: nothing arriving later changes what
/// is shown or what is stored.
pub proof fn lemma_settled_is_final(s: Startup, app: AppState, event: StartupEvent)
    requires
        s.phase == StartupPhase::Settled,
    ensures
        startup_next(s, app, event) == (s, app, StartupAction::Idle),
{
}

/// The shell mounts (the state becomes `Ready`) only on a successful
/// bootstrap check, and then reports exactly what the check found.
pub proof fn lemma_ready_only_after_check(s: Startup, app: AppState, event: StartupEvent)
    requires
        startup_invariant(s, app),
        !(s.load_state is Ready),
        startup_next(s, app, event).0.load_state is Ready,
    ensures
        s.phase == StartupPhase::AwaitingBootstrapCheck,
        event matches StartupEvent::BootstrapChecked(Ok(needs)) && startup_next(
            s,
            app,
            event,
        ).0.load_state == (LoadState::Ready { needs_bootstrap: needs }),
{
}

/// Each result moves the sequence on: a loaded configuration is stored
/// and the user is fetched; a failed one settles on the configuration error;
/// a loaded user is stored and the bootstrap check runs; a failed one sends
/// the browser to the login; a successful check, whatever it found, settles
/// the sequence with the shell mounted and told that finding; a failed
/// check settles on the check error.
pub proof fn lemma_each_result_moves_on(s: Startup, app: AppState, event: StartupEvent)
    ensures
        s.phase == StartupPhase::AwaitingConfig ==> (event matches StartupEvent::ConfigLoaded(
            Ok(config),
        ) ==> startup_next(s, app, event) == (
            Startup { phase: StartupPhase::AwaitingUserinfo, load_state: LoadState::Loading },
            AppState { config: Some(config), ..app },
            StartupAction::FetchUserinfo,
        )),
        s.phase == StartupPhase::AwaitingConfig ==> (event matches StartupEvent::ConfigLoaded(
            Err(m),
        ) ==> startup_next(s, app, event).0 == (Startup {
            phase: StartupPhase::Settled,
            load_state: LoadState::ConfigError(m),
        })),
        s.phase == StartupPhase::AwaitingUserinfo ==> (event matches StartupEvent::UserinfoLoaded(
            Ok(user),
        ) ==> startup_next(s, app, event) == (
            Startup { phase: StartupPhase::AwaitingBootstrapCheck, load_state: LoadState::Loading },
            AppState { user: Some(user), ..app },
            StartupAction::CheckBootstrap,
        )),
        s.phase == StartupPhase::AwaitingUserinfo ==> (event matches StartupEvent::UserinfoLoaded(
            Err(_),
        ) ==> startup_next(s, app, event).2 == StartupAction::RedirectToLogin
            && startup_next(s, app, event).0.load_state == LoadState::Loading),
        s.phase == StartupPhase::AwaitingBootstrapCheck ==> (
        event matches StartupEvent::BootstrapChecked(Ok(needs)) ==> startup_next(s, app, event) == (
            Startup {
                phase: StartupPhase::Settled,
                load_state: LoadState::Ready { needs_bootstrap: needs },
            },
            app,
            StartupAction::Idle,
        )),
        s.phase == StartupPhase::AwaitingBootstrapCheck ==> (
        event matches StartupEvent::BootstrapChecked(Err(m)) ==> startup_next(s, app, event).0 == (
        Startup { phase: StartupPhase::Settled, load_state: LoadState::BootstrapCheckError(m) })),
{
}

/// Three successful results in a row, from the start, mount the shell with
/// the bootstrap check's finding, the configuration and the user stored.
pub proof fn lemma_all_loaded_mounts_shell(
    app: AppState,
    config: Config,
    user: UserInfo,
    needs: bool,
)
    ensures
        ({
            let s0 = Startup { phase: StartupPhase::AwaitingConfig, load_state: LoadState::Loading };
            let r1 = startup_next(s0, app, StartupEvent::ConfigLoaded(Ok(config)));
            let r2 = startup_next(r1.0, r1.1, StartupEvent::UserinfoLoaded(Ok(user)));
            let r3 = startup_next(r2.0, r2.1, StartupEvent::BootstrapChecked(Ok(needs)));
            &&& r1.2 == StartupAction::FetchUserinfo
            &&& r2.2 == StartupAction::CheckBootstrap
            &&& r3.0.phase == StartupPhase::Settled
            &&& r3.0.load_state == (LoadState::Ready { needs_bootstrap: needs })
            &&& r3.1.config == Some(config)
            &&& r3.1.user == Some(user)
            &&& r3.1.selected_participant_context == app.selected_participant_context
        }),
{
}

/// Where the shell sends the user on mount: to the bootstrap wizard when
/// the identity still needs bootstrapping (a real route change, so a
/// reload or a shared link lands there too), nowhere otherwise.
pub fn bootstrap_redirect_target(needs_bootstrap: bool) -> (r: Option<Route>)
    ensures
        r == (if needs_bootstrap {
            Some(Route::IdentityBootstrap)
        } else {
            None
        }),
{
    if needs_bootstrap {
        Some(Route::IdentityBootstrap)
    } else {
        None
    }
}

} // verus!
