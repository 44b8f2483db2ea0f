//! Application-wide state, shared by every route view, so nothing is
//! fetched or derived twice.

use vstd::prelude::*;
use crate::config::Config;
use crate::identity::UserInfo;

verus! {

/// The single shared store. `config` is loaded once at startup and then
/// read from here; nothing after startup fetches `configuration.json`
/// again. `user` is the signed-in user, loaded at startup too.
#[derive(Clone, Debug, Default, PartialEq)]
pub struct AppState {
    pub selected_participant_context: Option<String>,
    pub config: Option<Config>,
    pub user: Option<UserInfo>,
}

} // verus!
