//! View Composer: a pure, synchronous mapping from a ready route variant to a
//! view tree, and the chrome wrapping that frames every page body with the
//! static header and footer.
//!
//! The nodes stand for the presentation components the markup layer renders:
//! the composer decides which component shows and with which data, never how
//! it looks.

use vstd::prelude::*;
use crate::data::{ErrorKind, FetchOutcome, RouteVariant, StoryItem, UserProfile};

verus! {

/// One node of the composed view tree.
#[derive(Clone, Debug, PartialEq, Eq)]
pub enum ViewNode {
    /// Static chrome above every page body.
    Header,
    /// Static chrome below every page body.
    Footer,
    /// The shared story-list presentation, items exactly in API order.
    StoryList(Vec<StoryItem>),
    /// The user-detail presentation.
    UserDetail(UserProfile),
    /// The generic "error loading data" notice, carrying the error it reports.
    ErrorNotice(ErrorKind),
    /// The static "page not found" notice.
    NotFoundNotice,
}

/// A fully rendered page: a route's body wrapped in the static chrome.
#[derive(Clone, Debug, PartialEq, Eq)]
pub struct Page {
    pub nodes: Vec<ViewNode>,
}

/// What a story route's outcome composes to: the story list on success, in
/// the order the API returned, or the error notice on failure.
pub open spec fn spec_compose_stories(data: FetchOutcome<Vec<StoryItem>>) -> ViewNode {
    match data {
        FetchOutcome::Success(items) => ViewNode::StoryList(items),
        FetchOutcome::Failure(e) => ViewNode::ErrorNotice(e),
    }
}

/// What the User route's outcome composes to: the user detail on success or
/// the error notice on failure.
pub open spec fn spec_compose_user(data: FetchOutcome<UserProfile>) -> ViewNode {
    match data {
        FetchOutcome::Success(profile) => ViewNode::UserDetail(profile),
        FetchOutcome::Failure(e) => ViewNode::ErrorNotice(e),
    }
}

/// The View Composer as a mathematical function: the body node every ready
/// route variant composes to.
pub open spec fn spec_compose(v: RouteVariant) -> ViewNode {
    match v {
        RouteVariant::Top { data } => spec_compose_stories(data),
        RouteVariant::New { data } => spec_compose_stories(data),
        RouteVariant::Best { data } => spec_compose_stories(data),
        RouteVariant::Show { data } => spec_compose_stories(data),
        RouteVariant::User { username: _, data } => spec_compose_user(data),
        RouteVariant::NotFound => ViewNode::NotFoundNotice,
    }
}

/// The full page for a ready route variant: header, composed body, footer.
pub open spec fn spec_page(v: RouteVariant) -> Seq<ViewNode> {
    seq![ViewNode::Header, spec_compose(v), ViewNode::Footer]
}

fn compose_stories(data: FetchOutcome<Vec<StoryItem>>) -> (n: ViewNode)
    ensures
        n == spec_compose_stories(data),
{
    match data {
        FetchOutcome::Success(items) => ViewNode::StoryList(items),
        FetchOutcome::Failure(e) => ViewNode::ErrorNotice(e),
    }
}

/// View Composer: the body node for a ready route variant. Pure: the result
/// is a function of the variant alone, so equal variants always compose to
/// structurally identical trees.
pub fn compose(v: RouteVariant) -> (n: ViewNode)
    ensures
        n == spec_compose(v),
{
    match v {
        RouteVariant::Top { data } => compose_stories(data),
        RouteVariant::New { data } => compose_stories(data),
        RouteVariant::Best { data } => compose_stories(data),
        RouteVariant::Show { data } => compose_stories(data),
        RouteVariant::User { username: _, data } => match data {
            FetchOutcome::Success(profile) => ViewNode::UserDetail(profile),
            FetchOutcome::Failure(e) => ViewNode::ErrorNotice(e),
        },
        RouteVariant::NotFound => ViewNode::NotFoundNotice,
    }
}

/// Wrap a composed body in the static chrome: header above, footer below.
pub fn wrap_chrome(body: ViewNode) -> (p: Page)
    ensures
        p.nodes@ == seq![ViewNode::Header, body, ViewNode::Footer],
{
    let mut nodes: Vec<ViewNode> = Vec::new();
    nodes.push(ViewNode::Header);
    nodes.push(body);
    nodes.push(ViewNode::Footer);
    proof {
        assert(nodes@ =~= seq![ViewNode::Header, nodes@[1], ViewNode::Footer]);
    }
    Page { nodes }
}

/// Compose a ready route variant and wrap it in the chrome: the page the
/// navigation layer mounts.
pub fn render_page(v: RouteVariant) -> (p: Page)
    ensures
        p.nodes@ == spec_page(v),
{
    let body = compose(v);
    wrap_chrome(body)
}

/// The View Composer is a pure function: composing the same route variant
/// twice yields structurally identical view trees.
pub proof fn lemma_compose_pure(v: RouteVariant, n1: ViewNode, n2: ViewNode)
    requires
        n1 == spec_compose(v),
        n2 == spec_compose(v),
    ensures
        n1 == n2,
{
}

/// A story route whose fetch failed composes to the generic error notice,
/// never to the story list.
pub proof fn lemma_failure_renders_error_notice(e: ErrorKind)
    ensures
        spec_compose_stories(FetchOutcome::Failure(e)) == ViewNode::ErrorNotice(e),
        !(spec_compose_stories(FetchOutcome::Failure(e)) is StoryList),
{
}

} // verus!
