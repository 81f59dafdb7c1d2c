//! Shared record shapes: story and user records, the sort-mode enum, fetch
//! outcomes, and the tagged union of populated route states.

use vstd::prelude::*;

verus! {

/// Sort order of a story feed, fixed by the route that was matched.
#[derive(Clone, Copy, Debug, PartialEq, Eq, Structural)]
pub enum SortMode {
    Top,
    New,
    Best,
    Show,
}

/// One story record as the remote API returns it; owned by the story list it
/// belongs to and never mutated after the fetch.
#[derive(Clone, Debug, PartialEq, Eq)]
pub struct StoryItem {
    pub id: u64,
    pub title: String,
    pub url: String,
    pub score: u64,
    pub author: String,
    pub comment_count: u64,
    pub timestamp: u64,
}

/// A user profile record, owned by the User route's result slot.
#[derive(Clone, Debug, PartialEq, Eq)]
pub struct UserProfile {
    pub username: String,
    pub karma: i64,
    pub about: String,
    pub submissions: Vec<u64>,
}

/// Why a navigation could not complete normally.
#[derive(Clone, Debug, PartialEq, Eq)]
pub enum ErrorKind {
    /// The API client reported a network, parse or remote failure; recovered
    /// locally by rendering an inline error notice.
    FetchFailure(String),
    /// A User-tagged match reached the preload step without its username
    /// parameter: a route-registration bug, not a runtime condition.
    InvalidRoute,
}

/// Result of one preload fetch: a populated payload or a failure, exactly one.
/// Produced once per navigation and consumed once by the view composer.
#[derive(Clone, Debug, PartialEq, Eq)]
pub enum FetchOutcome<T> {
    Success(T),
    Failure(ErrorKind),
}

/// A route once its fetch-outcome slot is populated: the tagged union over
/// every navigable view. Each data-bearing variant holds exactly one fetch
/// outcome; NotFound needs none.
#[derive(Clone, Debug, PartialEq, Eq)]
pub enum RouteVariant {
    Top { data: FetchOutcome<Vec<StoryItem>> },
    New { data: FetchOutcome<Vec<StoryItem>> },
    Best { data: FetchOutcome<Vec<StoryItem>> },
    Show { data: FetchOutcome<Vec<StoryItem>> },
    User { username: String, data: FetchOutcome<UserProfile> },
    NotFound,
}

} // verus!
