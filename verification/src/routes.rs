//! The app's route table. The app routes on the URL hash (`/#/holders`),
//! never in history mode, so the built bundle can be served from any static
//! host with no server-side fallback rule.

use vstd::prelude::*;
use crate::text::str_equals;

verus! {

/// The five routed views.
#[derive(Clone, Copy, Debug, PartialEq, Eq)]
pub enum Route {
    Dashboard,
    CredentialDefinitions,
    Holders,
    Credentials,
    IdentityBootstrap,
}

/// The path each route lives at.
pub open spec fn route_path(route: Route) -> Seq<char> {
    match route {
        Route::Dashboard => "/"@,
        Route::CredentialDefinitions => "/credential-definitions"@,
        Route::Holders => "/holders"@,
        Route::Credentials => "/credentials"@,
        Route::IdentityBootstrap => "/identity-bootstrap"@,
    }
}

/// The route that lives at `path`, if any.
pub open spec fn route_at(path: Seq<char>) -> Option<Route> {
    if path == "/"@ {
        Some(Route::Dashboard)
    } else if path == "/credential-definitions"@ {
        Some(Route::CredentialDefinitions)
    } else if path == "/holders"@ {
        Some(Route::Holders)
    } else if path == "/credentials"@ {
        Some(Route::Credentials)
    } else if path == "/identity-bootstrap"@ {
        Some(Route::IdentityBootstrap)
    } else {
        None
    }
}

/// The label of each route in the navigation sidebar.
pub open spec fn route_label(route: Route) -> Seq<char> {
    match route {
        Route::Dashboard => "Dashboard"@,
        Route::CredentialDefinitions => "Credential Definitions"@,
        Route::Holders => "Holders"@,
        Route::Credentials => "Credentials"@,
        Route::IdentityBootstrap => "Identity Bootstrap"@,
    }
}

/// The sidebar's entries, top to bottom.
pub open spec fn nav_order() -> Seq<Route> {
    seq![
        Route::Dashboard,
        Route::CredentialDefinitions,
        Route::Holders,
        Route::Credentials,
        Route::IdentityBootstrap,
    ]
}

impl Route {
    /// The path this route lives at.
    pub fn path(&self) -> (r: &'static str)
        ensures
            r@ == route_path(*self),
    {
        match self {
            Route::Dashboard => "/",
            Route::CredentialDefinitions => "/credential-definitions",
            Route::Holders => "/holders",
            Route::Credentials => "/credentials",
            Route::IdentityBootstrap => "/identity-bootstrap",
        }
    }

    /// The route that lives at `path`, if any.
    pub fn recognize(path: &str) -> (r: Option<Route>)
        ensures
            r == route_at(path@),
    {
        if str_equals(path, "/") {
            Some(Route::Dashboard)
        } else if str_equals(path, "/credential-definitions") {
            Some(Route::CredentialDefinitions)
        } else if str_equals(path, "/holders") {
            Some(Route::Holders)
        } else if str_equals(path, "/credentials") {
            Some(Route::Credentials)
        } else if str_equals(path, "/identity-bootstrap") {
            Some(Route::IdentityBootstrap)
        } else {
            None
        }
    }

    /// The label of this route in the navigation sidebar.
    pub fn nav_label(&self) -> (r: &'static str)
        ensures
            r@ == route_label(*self),
    {
        match self {
            Route::Dashboard => "Dashboard",
            Route::CredentialDefinitions => "Credential Definitions",
            Route::Holders => "Holders",
            Route::Credentials => "Credentials",
            Route::IdentityBootstrap => "Identity Bootstrap",
        }
    }
}

/// The sidebar's entries, top to bottom.
pub fn nav_routes() -> (r: Vec<Route>)
    ensures
        r@ == nav_order(),
{
    let mut v = Vec::new();
    v.push(Route::Dashboard);
    v.push(Route::CredentialDefinitions);
    v.push(Route::Holders);
    v.push(Route::Credentials);
    v.push(Route::IdentityBootstrap);
    proof {
        assert(v@ =~= nav_order());
    }
    v
}

/// Every route is found again at its own path.
pub proof fn lemma_route_round_trip(route: Route)
    ensures
        route_at(route_path(route)) == Some(route),
{
    reveal_strlit("/");
    reveal_strlit("/credential-definitions");
    reveal_strlit("/holders");
    reveal_strlit("/credentials");
    reveal_strlit("/identity-bootstrap");
    let p = route_path(route);
    assert("/"@.len() == 1);
    assert("/credential-definitions"@.len() == 23);
    assert("/holders"@.len() == 8);
    assert("/credentials"@.len() == 12);
    assert("/identity-bootstrap"@.len() == 19);
    if p == "/credential-definitions"@ {
        assert(p.len() == 23);
    }
    if p == "/holders"@ {
        assert(p.len() == 8);
    }
    if p == "/credentials"@ {
        assert(p.len() == 12);
    }
    if p == "/"@ {
        assert(p.len() == 1);
    }
}

/// Each route lives at its own documented path, and each of those paths
/// opens its own route: `/` the dashboard, `/credential-definitions` the
/// credential definitions, `/holders` the holders, `/credentials` the
/// credentials and issuance, `/identity-bootstrap` the bootstrap wizard.
pub proof fn lemma_routes_at_documented_paths()
    ensures
        route_path(Route::Dashboard) == "/"@,
        route_path(Route::CredentialDefinitions) == "/credential-definitions"@,
        route_path(Route::Holders) == "/holders"@,
        route_path(Route::Credentials) == "/credentials"@,
        route_path(Route::IdentityBootstrap) == "/identity-bootstrap"@,
        route_at("/"@) == Some(Route::Dashboard),
        route_at("/credential-definitions"@) == Some(Route::CredentialDefinitions),
        route_at("/holders"@) == Some(Route::Holders),
        route_at("/credentials"@) == Some(Route::Credentials),
        route_at("/identity-bootstrap"@) == Some(Route::IdentityBootstrap),
{
    lemma_route_round_trip(Route::Dashboard);
    lemma_route_round_trip(Route::CredentialDefinitions);
    lemma_route_round_trip(Route::Holders);
    lemma_route_round_trip(Route::Credentials);
    lemma_route_round_trip(Route::IdentityBootstrap);
}

/// Each route appears in the sidebar exactly once.
pub proof fn lemma_nav_lists_each_route_once(route: Route)
    ensures
        nav_order().contains(route),
        forall|i: int, j: int|
            0 <= i < j < nav_order().len() ==> nav_order()[i] != nav_order()[j],
{
    let o = nav_order();
    assert(o[0] == Route::Dashboard);
    assert(o[1] == Route::CredentialDefinitions);
    assert(o[2] == Route::Holders);
    assert(o[3] == Route::Credentials);
    assert(o[4] == Route::IdentityBootstrap);
    match route {
        Route::Dashboard => assert(o[0] == route),
        Route::CredentialDefinitions => assert(o[1] == route),
        Route::Holders => assert(o[2] == route),
        Route::Credentials => assert(o[3] == route),
        Route::IdentityBootstrap => assert(o[4] == route),
    }
}

} // verus!
