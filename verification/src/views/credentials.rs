//! `/credentials`: the verifiable-credential lifecycle (list, revoke,
//! suspend, resume, status) and the issuance processes, both scoped to the
//! selected participant context.

use vstd::prelude::*;
use crate::api_error::{HubError, described, describe_with_prefix};
use crate::config::Config;
use crate::text::{codes, has_infix, upper_codes, upper_contains};
use crate::views::loadable::Loadable;

verus! {

/// The color of a status label.
#[derive(Clone, Copy, Debug, PartialEq, Eq)]
pub enum StatusColor {
    Red,
    Orange,
    Green,
    Grey,
}

/// The color of a free-text credential or issuance-process status. The
/// APIs return free text rather than a shared enum, so the status is
/// matched case-insensitively (ASCII) on fragments: revoked, errored and
/// expired are red, suspended is orange, issued, active, delivered and
/// approved are green, anything else grey; earlier groups win.
pub open spec fn status_color_of(status: Seq<char>) -> StatusColor {
    let u = upper_codes(status);
    if has_infix(u, codes("REVOKE"@)) || has_infix(u, codes("ERROR"@)) || has_infix(
        u,
        codes("EXPIR"@),
    ) {
        StatusColor::Red
    } else if has_infix(u, codes("SUSPEND"@)) {
        StatusColor::Orange
    } else if has_infix(u, codes("ISSU"@)) || has_infix(u, codes("ACTIVE"@)) || has_infix(
        u,
        codes("DELIVER"@),
    ) || has_infix(u, codes("APPROV"@)) {
        StatusColor::Green
    } else {
        StatusColor::Grey
    }
}

/// The color of a free-text status.
pub fn status_color(status: &str) -> (r: StatusColor)
    ensures
        r == status_color_of(status@),
{
    if upper_contains(status, "REVOKE") || upper_contains(status, "ERROR") || upper_contains(
        status,
        "EXPIR",
    ) {
        StatusColor::Red
    } else if upper_contains(status, "SUSPEND") {
        StatusColor::Orange
    } else if upper_contains(status, "ISSU") || upper_contains(status, "ACTIVE") || upper_contains(
        status,
        "DELIVER",
    ) || upper_contains(status, "APPROV") {
        StatusColor::Green
    } else {
        StatusColor::Grey
    }
}

/// Whether `status`, uppercased in ASCII, holds the text `fragment`.
pub open spec fn mentions(status: Seq<char>, fragment: Seq<char>) -> bool {
    has_infix(upper_codes(status), codes(fragment))
}

/// A status mentioning a revocation, an error or an expiry, in any letter
/// case, is red; one mentioning a suspension and none of those is orange;
/// one mentioning issuance, activity, delivery or approval and none of the
/// above is green; any other is grey.
pub proof fn lemma_status_color_by_fragment(status: Seq<char>)
    ensures
        mentions(status, "REVOKE"@) ==> status_color_of(status) == StatusColor::Red,
        mentions(status, "ERROR"@) ==> status_color_of(status) == StatusColor::Red,
        mentions(status, "EXPIR"@) ==> status_color_of(status) == StatusColor::Red,
        !mentions(status, "REVOKE"@) && !mentions(status, "ERROR"@) && !mentions(status, "EXPIR"@)
            && mentions(status, "SUSPEND"@) ==> status_color_of(status) == StatusColor::Orange,
        !mentions(status, "REVOKE"@) && !mentions(status, "ERROR"@) && !mentions(status, "EXPIR"@)
            && !mentions(status, "SUSPEND"@) && (mentions(status, "ISSU"@) || mentions(
            status,
            "ACTIVE"@,
        ) || mentions(status, "DELIVER"@) || mentions(status, "APPROV"@))
            ==> status_color_of(status) == StatusColor::Green,
        !mentions(status, "REVOKE"@) && !mentions(status, "ERROR"@) && !mentions(status, "EXPIR"@)
            && !mentions(status, "SUSPEND"@) && !mentions(status, "ISSU"@) && !mentions(
            status,
            "ACTIVE"@,
        ) && !mentions(status, "DELIVER"@) && !mentions(status, "APPROV"@)
            ==> status_color_of(status) == StatusColor::Grey,
{
}

/// Two statuses that differ only in ASCII letter case get the same color.
pub proof fn lemma_status_color_ignores_case(a: Seq<char>, b: Seq<char>)
    requires
        upper_codes(a) == upper_codes(b),
    ensures
        status_color_of(a) == status_color_of(b),
{
}

/// A lifecycle action on an issued credential.
#[derive(Clone, Copy, Debug, PartialEq, Eq)]
pub enum CredentialAction {
    Revoke,
    Suspend,
    Resume,
}

/// The label of an action's button.
pub open spec fn action_label(action: CredentialAction) -> Seq<char> {
    match action {
        CredentialAction::Revoke => "Revoke"@,
        CredentialAction::Suspend => "Suspend"@,
        CredentialAction::Resume => "Resume"@,
    }
}

impl CredentialAction {
    /// The label of the action's button.
    pub fn label(self) -> (r: &'static str)
        ensures
            r@ == action_label(self),
    {
        match self {
            CredentialAction::Revoke => "Revoke",
            CredentialAction::Suspend => "Suspend",
            CredentialAction::Resume => "Resume",
        }
    }
}

/// The title of the confirmation modal for `action`.
pub fn confirm_title(action: CredentialAction) -> (r: String)
    ensures
        r@ == action_label(action) + " credential"@,
{
    String::from_str(action.label()).concat(" credential")
}

/// The question the confirmation modal asks before `action` is applied to
/// the credential `credential_id`.
pub fn confirm_message(action: CredentialAction, credential_id: &str) -> (r: String)
    ensures
        r@ == action_label(action) + " credential "@ + credential_id@
            + "? This cannot be undone from this console."@,
{
    String::from_str(action.label()).concat(" credential ").concat(credential_id).concat(
        "? This cannot be undone from this console.",
    )
}

/// How a failed issuer-admin-api call is reported on this page.
pub fn describe_error(error: &HubError) -> (r: String)
    requires
        error.well_formed(),
    ensures
        r@ == described(*error, "request failed: HTTP "@),
{
    describe_with_prefix(error, "request failed: HTTP ")
}

/// The two tabs of the page.
#[derive(Clone, Copy, Debug, PartialEq, Eq)]
pub enum CredentialsTab {
    Credentials,
    IssuanceProcesses,
}

/// What the loading effect does when the selected participant context or
/// the reload counter changes; it applies to both lists alike.
#[derive(Clone, Debug, PartialEq)]
pub enum CredentialsFetch {
    /// No participant context: both lists are loaded and empty.
    Clear,
    /// Both lists fail with this message.
    Fail(String),
    /// Both lists go back to loading and are fetched.
    Fetch,
}

/// What the loading effect does for the current selection and configuration.
pub fn credentials_fetch_plan(participant_context_id: &Option<String>, config: &Option<Config>) -> (r: CredentialsFetch)
    ensures
        participant_context_id is None ==> r == CredentialsFetch::Clear,
        participant_context_id is Some && config is None ==> (r matches CredentialsFetch::Fail(m)
            && m@ == "configuration.json has not loaded yet"@),
        participant_context_id is Some && config is Some ==> r == CredentialsFetch::Fetch,
{
    if participant_context_id.is_none() {
        CredentialsFetch::Clear
    } else if config.is_none() {
        CredentialsFetch::Fail(String::from_str("configuration.json has not loaded yet"))
    } else {
        CredentialsFetch::Fetch
    }
}

/// A list once its fetch has answered.
pub fn loaded_or_failed<T>(result: Result<Vec<T>, HubError>) -> (r: Loadable<Vec<T>>)
    requires
        result matches Err(e) ==> e.well_formed(),
    ensures
        match result {
            Ok(items) => r == Loadable::Loaded(items),
            Err(e) => r matches Loadable::Failed(m) && m@ == described(e, "request failed: HTTP "@),
        },
{
    match result {
        Ok(items) => Loadable::Loaded(items),
        Err(e) => Loadable::Failed(describe_error(&e)),
    }
}

/// The status found for the credential `id` among `entries`, the latest
/// entry for that id winning.
pub open spec fn lookup(entries: Seq<(Seq<char>, Seq<char>)>, id: Seq<char>) -> Option<Seq<char>>
    decreases entries.len(),
{
    if entries.len() == 0 {
        None
    } else if entries.last().0 == id {
        Some(entries.last().1)
    } else {
        lookup(entries.drop_last(), id)
    }
}

/// No two entries are for the same credential.
pub open spec fn distinct_ids(entries: Seq<(Seq<char>, Seq<char>)>) -> bool {
    forall|i: int, j: int| 0 <= i < j < entries.len() ==> #[trigger] entries[i].0 != #[trigger] entries[j].0
}

proof fn lemma_lookup_found(entries: Seq<(Seq<char>, Seq<char>)>, i: int)
    requires
        distinct_ids(entries),
        0 <= i < entries.len(),
    ensures
        lookup(entries, entries[i].0) == Some(entries[i].1),
    decreases entries.len(),
{
    if i < entries.len() - 1 {
        let front = entries.drop_last();
        assert(entries[i].0 != entries[entries.len() - 1].0);
        assert(front[i] == entries[i]);
        assert(distinct_ids(front)) by {
            assert forall|a: int, b: int| 0 <= a < b < front.len() implies #[trigger] front[a].0
                != #[trigger] front[b].0 by {
                assert(front[a] == entries[a] && front[b] == entries[b]);
            }
        }
        lemma_lookup_found(front, i);
    }
}

proof fn lemma_lookup_missing(entries: Seq<(Seq<char>, Seq<char>)>, id: Seq<char>)
    requires
        forall|i: int| 0 <= i < entries.len() ==> #[trigger] entries[i].0 != id,
    ensures
        lookup(entries, id) is None,
    decreases entries.len(),
{
    if entries.len() > 0 {
        let front = entries.drop_last();
        assert(entries[entries.len() - 1].0 != id);
        assert forall|i: int| 0 <= i < front.len() implies #[trigger] front[i].0 != id by {
            assert(front[i] == entries[i]);
        }
        lemma_lookup_missing(front, id);
    }
}

/// The last known status of each credential whose status was checked. A
/// credential's status is dropped after a lifecycle action on it, so that
/// its row offers "Check status" again.
///
/// The statuses are kept as (credential id, status) pairs in a `Vec` with
/// no id twice, not in a `HashMap<String, _>`: vstd's specification of
/// `HashMap` holds only for key types known to obey its key model, which
/// `String` is not, so lookups in such a map could not be proved. Like a
/// map, the cache has no order: its contracts speak only of `status_of`.
#[derive(Clone, Debug, PartialEq)]
pub struct StatusCache {
    entries: Vec<(String, String)>,
}

impl StatusCache {
    /// The entries as (credential id, status) pairs of text.
    pub closed spec fn pairs(&self) -> Seq<(Seq<char>, Seq<char>)> {
        self.entries@.map_values(|e: (String, String)| (e.0@, e.1@))
    }

    /// Each credential has at most one entry.
    pub closed spec fn well_formed(&self) -> bool {
        distinct_ids(self.pairs())
    }

    /// The status recorded for `id`, if any.
    pub closed spec fn status_of(&self, id: Seq<char>) -> Option<Seq<char>> {
        lookup(self.pairs(), id)
    }

    /// The empty cache.
    pub fn new() -> (r: StatusCache)
        ensures
            r.well_formed(),
            forall|id: Seq<char>| #[trigger] r.status_of(id) is None,
    {
        let r = StatusCache { entries: Vec::new() };
        proof {
            assert(r.pairs() =~= Seq::<(Seq<char>, Seq<char>)>::empty());
        }
        r
    }

    fn find(&self, id: &String) -> (r: Option<usize>)
        requires
            self.well_formed(),
        ensures
            match r {
                Some(i) => i < self.entries@.len() && self.pairs()[i as int].0 == id@,
                None => forall|i: int| 0 <= i < self.pairs().len() ==> #[trigger] self.pairs()[i].0 != id@,
            },
    {
        let n = self.entries.len();
        let mut i: usize = 0;
        while i < n
            invariant
                n == self.entries@.len(),
                i <= n,
                forall|k: int| 0 <= k < i ==> #[trigger] self.pairs()[k].0 != id@,
            decreases n - i,
        {
            if self.entries[i].0 == *id {
                return Some(i);
            }
            i = i + 1;
        }
        None
    }

    /// The status recorded for `id`, if any.
    pub fn get(&self, id: &String) -> (r: Option<String>)
        requires
            self.well_formed(),
        ensures
            r.deep_view() == self.status_of(id@),
    {
        match self.find(id) {
            Some(i) => {
                proof {
                    lemma_lookup_found(self.pairs(), i as int);
                }
                Some(self.entries[i].1.clone())
            },
            None => {
                proof {
                    lemma_lookup_missing(self.pairs(), id@);
                }
                None
            },
        }
    }

    /// Records `status` as the status of `id`, replacing any earlier one.
    pub fn insert(&mut self, id: String, status: String)
        requires
            old(self).well_formed(),
        ensures
            final(self).well_formed(),
            final(self).status_of(id@) == Some(status@),
            forall|other: Seq<char>|
                other != id@ ==> #[trigger] final(self).status_of(other) == old(self).status_of(
                    other,
                ),
    {
        let ghost old_pairs = self.pairs();
        let ghost key = id@;
        let ghost value = status@;
        match self.find(&id) {
            Some(i) => {
                self.entries.set(i, (id, status));
                proof {
                    let p = self.pairs();
                    assert(p =~= old_pairs.update(i as int, (key, value)));
                    assert(distinct_ids(p)) by {
                        assert forall|a: int, b: int| 0 <= a < b < p.len() implies #[trigger] p[a].0
                            != #[trigger] p[b].0 by {
                            assert(old_pairs[a].0 != old_pairs[b].0);
                        }
                    }
                    lemma_lookup_found(p, i as int);
                    assert forall|other: Seq<char>| other != key implies #[trigger] lookup(p, other)
                        == lookup(old_pairs, other) by {
                        if exists|k: int| 0 <= k < p.len() && p[k].0 == other {
                            let k = choose|k: int| 0 <= k < p.len() && p[k].0 == other;
                            lemma_lookup_found(p, k);
                            lemma_lookup_found(old_pairs, k);
                        } else {
                            assert forall|k: int| 0 <= k < old_pairs.len() implies #[trigger] old_pairs[k].0
                                != other by {
                                assert(p[k].0 != other);
                            }
                            lemma_lookup_missing(p, other);
                            lemma_lookup_missing(old_pairs, other);
                        }
                    }
                }
            },
            None => {
                self.entries.push((id, status));
                proof {
                    let p = self.pairs();
                    assert(p =~= old_pairs.push((key, value)));
                    assert(p.drop_last() =~= old_pairs);
                    assert(distinct_ids(p)) by {
                        assert forall|a: int, b: int| 0 <= a < b < p.len() implies #[trigger] p[a].0
                            != #[trigger] p[b].0 by {
                            if b == p.len() - 1 {
                                assert(old_pairs[a].0 != key);
                            } else {
                                assert(old_pairs[a].0 != old_pairs[b].0);
                            }
                        }
                    }
                }
            },
        }
    }

    /// Forgets the status of `id`.
    pub fn remove(&mut self, id: &String)
        requires
            old(self).well_formed(),
        ensures
            final(self).well_formed(),
            final(self).status_of(id@) is None,
            forall|other: Seq<char>|
                other != id@ ==> #[trigger] final(self).status_of(other) == old(self).status_of(
                    other,
                ),
    {
        let ghost old_pairs = self.pairs();
        let ghost key = id@;
        match self.find(id) {
            Some(i) => {
                self.entries.remove(i);
                proof {
                    let p = self.pairs();
                    assert(p =~= old_pairs.remove(i as int));
                    assert forall|a: int| 0 <= a < p.len() implies #[trigger] p[a] == (if a < i {
                        old_pairs[a]
                    } else {
                        old_pairs[a + 1]
                    }) by {}
                    assert(distinct_ids(p)) by {
                        assert forall|a: int, b: int| 0 <= a < b < p.len() implies #[trigger] p[a].0
                            != #[trigger] p[b].0 by {
                            let oa = if a < i { a } else { a + 1 };
                            let ob = if b < i { b } else { b + 1 };
                            assert(old_pairs[oa].0 != old_pairs[ob].0);
                        }
                    }
                    assert forall|k: int| 0 <= k < p.len() implies #[trigger] p[k].0 != key by {
                        let ok = if k < i { k } else { k + 1 };
                        assert(old_pairs[ok].0 != old_pairs[i as int].0);
                    }
                    lemma_lookup_missing(p, key);
                    assert forall|other: Seq<char>| other != key implies #[trigger] lookup(p, other)
                        == lookup(old_pairs, other) by {
                        if exists|k: int| 0 <= k < old_pairs.len() && old_pairs[k].0 == other {
                            let k = choose|k: int| 0 <= k < old_pairs.len() && old_pairs[k].0 == other;
                            assert(k != i);
                            let nk = if k < i { k } else { k - 1 };
                            assert(p[nk] == old_pairs[k]);
                            lemma_lookup_found(p, nk);
                            lemma_lookup_found(old_pairs, k);
                        } else {
                            assert forall|k: int| 0 <= k < p.len() implies #[trigger] p[k].0 != other by {
                                let ok = if k < i { k } else { k + 1 };
                                assert(old_pairs[ok].0 != other);
                            }
                            lemma_lookup_missing(p, other);
                            lemma_lookup_missing(old_pairs, other);
                        }
                    }
                }
            },
            None => {
                proof {
                    lemma_lookup_missing(old_pairs, key);
                }
            },
        }
    }
}

/// The page's own state: the selected tab, the status cache, the action
/// awaiting confirmation, the last action error, and a counter that each
/// completed action bumps so that the lists are fetched again.
#[derive(Clone, Debug, PartialEq)]
pub struct CredentialsPage {
    pub tab: CredentialsTab,
    pub statuses: StatusCache,
    pub confirming: Option<(CredentialAction, String)>,
    pub action_error: Option<String>,
    pub reload: u32,
}

impl CredentialsPage {
    /// The page as it opens: on the credentials tab, nothing cached,
    /// nothing awaiting confirmation.
    pub fn new() -> (r: CredentialsPage)
        ensures
            r.tab == CredentialsTab::Credentials,
            r.statuses.well_formed(),
            forall|id: Seq<char>| #[trigger] r.statuses.status_of(id) is None,
            r.confirming is None,
            r.action_error is None,
            r.reload == 0,
    {
        CredentialsPage {
            tab: CredentialsTab::Credentials,
            statuses: StatusCache::new(),
            confirming: None,
            action_error: None,
            reload: 0,
        }
    }

    /// Switches to `tab`.
    pub fn select_tab(&mut self, tab: CredentialsTab)
        ensures
            *final(self) == (CredentialsPage { tab, ..*old(self) }),
    {
        self.tab = tab;
    }

    /// Asks to confirm `action` on the credential `credential_id`.
    pub fn request_action(&mut self, action: CredentialAction, credential_id: String)
        ensures
            *final(self) == (CredentialsPage {
                confirming: Some((action, credential_id)),
                ..*old(self)
            }),
    {
        self.confirming = Some((action, credential_id));
    }

    /// Dismisses the confirmation without acting.
    pub fn cancel_action(&mut self)
        ensures
            *final(self) == (CredentialsPage { confirming: None, ..*old(self) }),
    {
        self.confirming = None;
    }

    /// Confirms the pending action: it is handed out to be sent, the
    /// confirmation closes and the last error is cleared. With nothing
    /// pending, or while the configuration has not loaded, nothing happens.
    pub fn confirm_action(&mut self, config_loaded: bool) -> (r: Option<(CredentialAction, String)>)
        ensures
            old(self).confirming is Some && config_loaded ==> {
                &&& r == old(self).confirming
                &&& *final(self) == (CredentialsPage {
                    confirming: None,
                    action_error: None,
                    ..*old(self)
                })
            },
            !(old(self).confirming is Some && config_loaded) ==> r is None && *final(self) == *old(
                self,
            ),
    {
        if !config_loaded {
            return None;
        }
        match self.confirming.take() {
            Some(pending) => {
                self.action_error = None;
                Some(pending)
            },
            None => None,
        }
    }

    /// A lifecycle action on `credential_id` went through: its cached
    /// status is dropped and the lists are fetched again.
    pub fn action_succeeded(&mut self, credential_id: &String)
        requires
            old(self).statuses.well_formed(),
            old(self).reload < u32::MAX,
        ensures
            final(self).statuses.well_formed(),
            final(self).statuses.status_of(credential_id@) is None,
            forall|other: Seq<char>|
                other != credential_id@ ==> #[trigger] final(self).statuses.status_of(other)
                    == old(self).statuses.status_of(other),
            final(self).reload == old(self).reload + 1,
            final(self).tab == old(self).tab,
            final(self).confirming == old(self).confirming,
            final(self).action_error == old(self).action_error,
    {
        self.statuses.remove(credential_id);
        self.reload = self.reload + 1;
    }

    /// A status check answered: the status is cached for the credential.
    pub fn status_checked(&mut self, credential_id: String, status: String)
        requires
            old(self).statuses.well_formed(),
        ensures
            final(self).statuses.well_formed(),
            final(self).statuses.status_of(credential_id@) == Some(status@),
            forall|other: Seq<char>|
                other != credential_id@ ==> #[trigger] final(self).statuses.status_of(other)
                    == old(self).statuses.status_of(other),
            final(self).reload == old(self).reload,
            final(self).tab == old(self).tab,
            final(self).confirming == old(self).confirming,
            final(self).action_error == old(self).action_error,
    {
        self.statuses.insert(credential_id, status);
    }

    /// An action or a status check failed: its error is shown.
    pub fn call_failed(&mut self, message: String)
        ensures
            *final(self) == (CredentialsPage { action_error: Some(message), ..*old(self) }),
    {
        self.action_error = Some(message);
    }

    /// The user closed the error alert.
    pub fn dismiss_error(&mut self)
        ensures
            *final(self) == (CredentialsPage { action_error: None, ..*old(self) }),
    {
        self.action_error = None;
    }
}

} // verus!
