use ds_authority_governance_ui::api_error::HubError;
use ds_authority_governance_ui::config::Config;
use ds_authority_governance_ui::identity::UserInfo;
use ds_authority_governance_ui::routes::{nav_routes, Route};
use ds_authority_governance_ui::startup::{
    bootstrap_redirect_target, describe_identity_hub_error, identity_api_endpoint,
    needs_bootstrap, LoadState, Startup, StartupAction, StartupEvent, StartupPhase,
};
use ds_authority_governance_ui::store::AppState;
use ds_authority_governance_ui::views::identity_bootstrap::{
    done_message, step_status, BootstrapWizard, Step, StepStatus, WizardBody,
};

fn config() -> Config {
    Config {
        identity_api_path: "/api/identity".to_string(),
        issuer_admin_api_path: "/api/issuer".to_string(),
    }
}

fn user() -> UserInfo {
    UserInfo {
        sub: "abc123".to_string(),
        name: None,
        preferred_username: None,
        email: None,
    }
}

#[test]
fn bootstrap_gate_checks_the_first_participant() {
    assert!(needs_bootstrap(&vec![]));
    assert!(needs_bootstrap(&vec![100]));
    assert!(!needs_bootstrap(&vec![200]));
    assert!(!needs_bootstrap(&vec![200, 100]));
    assert!(needs_bootstrap(&vec![300, 200]));
}

#[test]
fn startup_loads_everything_before_the_shell() {
    let mut app = AppState::default();
    let mut startup = Startup::new();
    assert_eq!(
        startup.step(&mut app, StartupEvent::ConfigLoaded(Ok(config()))),
        StartupAction::FetchUserinfo
    );
    assert_eq!(app.config, Some(config()));
    assert_eq!(startup.load_state, LoadState::Loading);
    assert_eq!(
        startup.step(&mut app, StartupEvent::UserinfoLoaded(Ok(user()))),
        StartupAction::CheckBootstrap
    );
    assert_eq!(app.user, Some(user()));
    assert_eq!(
        startup.step(&mut app, StartupEvent::BootstrapChecked(Ok(true))),
        StartupAction::Idle
    );
    assert_eq!(startup.load_state, LoadState::Ready { needs_bootstrap: true });
    assert_eq!(startup.phase, StartupPhase::Settled);
    assert_eq!(
        startup.step(&mut app, StartupEvent::BootstrapChecked(Ok(false))),
        StartupAction::Idle
    );
    assert_eq!(startup.load_state, LoadState::Ready { needs_bootstrap: true });
}

#[test]
fn startup_errors_and_login_redirect() {
    let mut app = AppState::default();
    let mut startup = Startup::new();
    assert_eq!(
        startup.step(&mut app, StartupEvent::ConfigLoaded(Err("404".to_string()))),
        StartupAction::Idle
    );
    assert_eq!(startup.load_state, LoadState::ConfigError("404".to_string()));
    assert_eq!(app, AppState::default());

    let mut app = AppState::default();
    let mut startup = Startup::new();
    assert_eq!(
        startup.step(&mut app, StartupEvent::UserinfoLoaded(Ok(user()))),
        StartupAction::Idle
    );
    assert_eq!(startup.phase, StartupPhase::AwaitingConfig);
    startup.step(&mut app, StartupEvent::ConfigLoaded(Ok(config())));
    assert_eq!(
        startup.step(&mut app, StartupEvent::UserinfoLoaded(Err("html".to_string()))),
        StartupAction::RedirectToLogin
    );
    assert_eq!(startup.load_state, LoadState::Loading);
    assert_eq!(app.user, None);

    let mut app = AppState::default();
    let mut startup = Startup::new();
    startup.step(&mut app, StartupEvent::ConfigLoaded(Ok(config())));
    startup.step(&mut app, StartupEvent::UserinfoLoaded(Ok(user())));
    startup.step(&mut app, StartupEvent::BootstrapChecked(Err("x".to_string())));
    assert_eq!(startup.load_state, LoadState::BootstrapCheckError("x".to_string()));
}

#[test]
fn identity_api_errors_and_origin() {
    assert_eq!(
        describe_identity_hub_error(&HubError::Response { status: 404, body: None }),
        "identity-api responded with 404 Not Found"
    );
    assert_eq!(
        describe_identity_hub_error(&HubError::Transport("refused".to_string())),
        "refused"
    );
    assert_eq!(
        identity_api_endpoint(Some("https://h".to_string())),
        Ok("https://h".to_string())
    );
    assert_eq!(
        identity_api_endpoint(None),
        Err("could not determine the page origin".to_string())
    );
}

#[test]
fn routes_round_trip_and_redirect() {
    let routes = nav_routes();
    assert_eq!(routes.len(), 5);
    for route in routes {
        assert_eq!(Route::recognize(route.path()), Some(route));
    }
    assert_eq!(Route::recognize("/nowhere"), None);
    assert_eq!(Route::recognize(""), None);
    assert_eq!(Route::Holders.path(), "/holders");
    assert_eq!(Route::CredentialDefinitions.nav_label(), "Credential Definitions");
    assert_eq!(bootstrap_redirect_target(true), Some(Route::IdentityBootstrap));
    assert_eq!(bootstrap_redirect_target(false), None);
}

#[test]
fn wizard_creates_then_activates() {
    assert_eq!(step_status(Step::CreateContext, Step::Activate), StepStatus::Success);
    assert_eq!(step_status(Step::Activate, Step::Activate), StepStatus::Info);
    assert_eq!(step_status(Step::Activate, Step::CreateContext), StepStatus::Pending);
    assert_eq!(step_status(Step::Activate, Step::Done), StepStatus::Success);

    let mut app = AppState::default();
    let mut wizard = BootstrapWizard::new(None);
    assert_eq!(wizard.step, Step::CreateContext);
    assert_eq!(wizard.body(), WizardBody::Create);
    wizard.created("authority".to_string());
    assert_eq!(wizard.body(), WizardBody::Activate("authority".to_string()));
    wizard.activated(&mut app);
    assert_eq!(wizard.body(), WizardBody::Done("authority".to_string()));
    assert_eq!(app.selected_participant_context, Some("authority".to_string()));
    assert_eq!(
        done_message("authority"),
        "\"authority\" is active and its DID is published."
    );

    let resumed = BootstrapWizard::new(Some("p".to_string()));
    assert_eq!(resumed.step, Step::Activate);
    let broken = BootstrapWizard { participant_id: None, step: Step::Activate };
    assert_eq!(broken.body(), WizardBody::NoContextToActivate);
}
