//! Runtime configuration, read from `configuration.json` beside the app's
//! bundle. Both paths are same-origin, relative paths (such as
//! `/api/identity`): a reverse proxy in front of the app forwards each one
//! to the real identity-api / issuer-admin-api. There is deliberately no
//! API key here; the proxy injects it server-side.

use vstd::prelude::*;

verus! {

/// The two same-origin API path prefixes the app talks to.
#[derive(Clone, Debug, Default, PartialEq)]
pub struct Config {
    pub identity_api_path: String,
    pub issuer_admin_api_path: String,
}

/// Where `configuration.json` is fetched from: the document's base URI
/// (which already ends in the app's own path prefix) followed by the file
/// name, never the origin's root. Without a base URI there is nothing to
/// fetch, and the error says so.
pub fn config_url(base: Option<String>) -> (r: Result<String, String>)
    ensures
        match base {
            Some(b) => r matches Ok(u) && u@ == b@ + "configuration.json"@,
            None => r matches Err(e) && e@ == "could not determine the document's base URI"@,
        },
{
    match base {
        Some(b) => Ok(b.concat("configuration.json")),
        None => Err(String::from_str("could not determine the document's base URI")),
    }
}

/// The issuer-admin-api path prefix of a loaded configuration, or the
/// empty path while none has loaded.
pub fn admin_api_path(config: &Option<Config>) -> (r: String)
    ensures
        match config {
            Some(c) => r@ == c.issuer_admin_api_path@,
            None => r@ == Seq::<char>::empty(),
        },
{
    match config {
        Some(c) => c.issuer_admin_api_path.clone(),
        None => String::new(),
    }
}

} // verus!
