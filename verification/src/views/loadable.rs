//! The outcome of a data-fetching effect, shared by the list views.

use vstd::prelude::*;

verus! {

/// Where a fetched value currently stands.
#[derive(Clone, Debug, PartialEq)]
pub enum Loadable<T> {
    Loading,
    Loaded(T),
    Failed(String),
}

/// What a list panel shows: a spinner while loading, an error alert, an
/// empty state for an empty list, or the rows.
#[derive(Clone, Copy, Debug, PartialEq, Eq)]
pub enum ListView {
    Spinner,
    Error,
    Empty,
    Rows,
}

/// What a list panel shows for `state`.
pub open spec fn list_view_of<T>(state: Loadable<Vec<T>>) -> ListView {
    match state {
        Loadable::Loading => ListView::Spinner,
        Loadable::Failed(_) => ListView::Error,
        Loadable::Loaded(items) => if items@.len() == 0 {
            ListView::Empty
        } else {
            ListView::Rows
        },
    }
}

/// What a list panel shows for `state`.
pub fn list_view<T>(state: &Loadable<Vec<T>>) -> (r: ListView)
    ensures
        r == list_view_of(*state),
{
    match state {
        Loadable::Loading => ListView::Spinner,
        Loadable::Failed(_) => ListView::Error,
        Loadable::Loaded(items) => if items.len() == 0 {
            ListView::Empty
        } else {
            ListView::Rows
        },
    }
}

/// A list panel shows a spinner while loading and an alert on failure; a
/// loaded list shows its rows when it has any entry, and the empty state
/// exactly when it has none.
pub proof fn lemma_list_view_shows_rows_of_nonempty_lists<T>(items: Vec<T>, message: String)
    ensures
        list_view_of(Loadable::<Vec<T>>::Loading) == ListView::Spinner,
        list_view_of(Loadable::<Vec<T>>::Failed(message)) == ListView::Error,
        (list_view_of(Loadable::Loaded(items)) == ListView::Empty) <==> items@.len() == 0,
        (list_view_of(Loadable::Loaded(items)) == ListView::Rows) <==> items@.len() > 0,
{
}

} // verus!
