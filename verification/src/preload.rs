//! Preload Scheduler: for a matched route, the one fetch that must complete
//! before the route's view is shown, and the population of the route's
//! outcome slot once that fetch resolves.
//!
//! The fetch itself is the API client's work; this module decides which call
//! to make ([`plan_preload`]) and builds the populated route variant from
//! whatever outcome came back ([`populate_stories`], [`populate_user`]), so
//! its decisions hold for every possible outcome of the fetch.

use vstd::prelude::*;
use crate::data::{ErrorKind, FetchOutcome, RouteVariant, SortMode, StoryItem, UserProfile};
use crate::route::RouteMatch;
use crate::route::RouteTag;

verus! {

/// The single fetch a matched route requires of the API client.
#[derive(Clone, Debug, PartialEq, Eq)]
pub enum FetchPlan {
    /// Call the list-stories operation with this sort mode.
    Stories(SortMode),
    /// Call the get-user-page operation with this username.
    UserPage(String),
}

/// Planning step of the Preload Scheduler: which fetch the matched route
/// requires. `Ok(None)` means the route needs no fetch (NotFound is rendered
/// immediately); `Err(InvalidRoute)` reports a User match that arrived
/// without its username parameter — a route-registration bug, raised if and
/// only if that parameter is absent.
pub fn plan_preload(m: &RouteMatch) -> (r: Result<Option<FetchPlan>, ErrorKind>)
    ensures
        m.tag is Top ==> r == Ok::<Option<FetchPlan>, ErrorKind>(
            Some(FetchPlan::Stories(SortMode::Top)),
        ),
        m.tag is New ==> r == Ok::<Option<FetchPlan>, ErrorKind>(
            Some(FetchPlan::Stories(SortMode::New)),
        ),
        m.tag is Best ==> r == Ok::<Option<FetchPlan>, ErrorKind>(
            Some(FetchPlan::Stories(SortMode::Best)),
        ),
        m.tag is Show ==> r == Ok::<Option<FetchPlan>, ErrorKind>(
            Some(FetchPlan::Stories(SortMode::Show)),
        ),
        m.tag is User && m.params@.len() >= 1 ==> (r matches Ok(Some(FetchPlan::UserPage(u)))
            && u@ == m.params@[0]@),
        m.tag is NotFound ==> r == Ok::<Option<FetchPlan>, ErrorKind>(None),
        r is Err <==> m.tag is User && m.params@.len() == 0,
        r is Err ==> r == Err::<Option<FetchPlan>, ErrorKind>(ErrorKind::InvalidRoute),
{
    match m.tag {
        RouteTag::Top => Ok(Some(FetchPlan::Stories(SortMode::Top))),
        RouteTag::New => Ok(Some(FetchPlan::Stories(SortMode::New))),
        RouteTag::Best => Ok(Some(FetchPlan::Stories(SortMode::Best))),
        RouteTag::Show => Ok(Some(FetchPlan::Stories(SortMode::Show))),
        RouteTag::User => {
            if m.params.len() >= 1 {
                Ok(Some(FetchPlan::UserPage(m.params[0].clone())))
            } else {
                Err(ErrorKind::InvalidRoute)
            }
        },
        RouteTag::NotFound => Ok(None),
    }
}

/// The populated variant of a story route: the tag that belongs to `sort`,
/// carrying `data` in its outcome slot.
pub open spec fn spec_populate_stories(
    sort: SortMode,
    data: FetchOutcome<Vec<StoryItem>>,
) -> RouteVariant {
    match sort {
        SortMode::Top => RouteVariant::Top { data },
        SortMode::New => RouteVariant::New { data },
        SortMode::Best => RouteVariant::Best { data },
        SortMode::Show => RouteVariant::Show { data },
    }
}

/// Populate a story route's outcome slot with what the list-stories fetch
/// produced, success or failure.
pub fn populate_stories(sort: SortMode, data: FetchOutcome<Vec<StoryItem>>) -> (v: RouteVariant)
    ensures
        v == spec_populate_stories(sort, data),
{
    match sort {
        SortMode::Top => RouteVariant::Top { data },
        SortMode::New => RouteVariant::New { data },
        SortMode::Best => RouteVariant::Best { data },
        SortMode::Show => RouteVariant::Show { data },
    }
}

/// Populate the User route's outcome slot with what the get-user-page fetch
/// produced, success or failure.
pub fn populate_user(username: String, data: FetchOutcome<UserProfile>) -> (v: RouteVariant)
    ensures
        v == (RouteVariant::User { username, data }),
{
    RouteVariant::User { username, data }
}

} // verus!
