use story_shell::data::{ErrorKind, FetchOutcome, RouteVariant, SortMode, StoryItem, UserProfile};
use story_shell::preload::{populate_stories, populate_user};
use story_shell::view::{compose, render_page, wrap_chrome, ViewNode};

fn story(id: u64, title: &str) -> StoryItem {
    StoryItem {
        id,
        title: title.to_string(),
        url: format!("https://example.invalid/item/{id}"),
        score: 10,
        author: "someone".to_string(),
        comment_count: 3,
        timestamp: 1_700_000_000,
    }
}

fn profile(username: &str) -> UserProfile {
    UserProfile {
        username: username.to_string(),
        karma: 42,
        about: "about text".to_string(),
        submissions: vec![1, 2, 3],
    }
}

#[test]
fn compose_twice_yields_identical_trees() {
    let make = || RouteVariant::Best {
        data: FetchOutcome::Success(vec![story(1, "A"), story(2, "B")]),
    };
    assert_eq!(compose(make()), compose(make()));

    let make_user = || RouteVariant::User {
        username: "alice".to_string(),
        data: FetchOutcome::Failure(ErrorKind::FetchFailure("offline".to_string())),
    };
    assert_eq!(compose(make_user()), compose(make_user()));
}

#[test]
fn compose_top_failure_is_error_notice() {
    let failed = populate_stories(
        SortMode::Top,
        FetchOutcome::Failure(ErrorKind::FetchFailure("connection reset".to_string())),
    );
    let node = compose(failed);
    assert_eq!(
        node,
        ViewNode::ErrorNotice(ErrorKind::FetchFailure("connection reset".to_string()))
    );
    assert!(!matches!(node, ViewNode::StoryList(_)));
}

#[test]
fn compose_success_keeps_api_order() {
    let items = vec![story(7, "later"), story(3, "earlier"), story(9, "last")];
    let node = compose(populate_stories(SortMode::New, FetchOutcome::Success(items.clone())));
    assert_eq!(node, ViewNode::StoryList(items));
}

#[test]
fn compose_user_success_is_user_detail() {
    let v = populate_user("carol".to_string(), FetchOutcome::Success(profile("carol")));
    assert_eq!(compose(v), ViewNode::UserDetail(profile("carol")));
}

#[test]
fn compose_user_failure_is_error_notice() {
    let v = populate_user(
        "carol".to_string(),
        FetchOutcome::Failure(ErrorKind::FetchFailure("timeout".to_string())),
    );
    assert_eq!(
        compose(v),
        ViewNode::ErrorNotice(ErrorKind::FetchFailure("timeout".to_string()))
    );
}

#[test]
fn compose_not_found_is_not_found_notice() {
    assert_eq!(compose(RouteVariant::NotFound), ViewNode::NotFoundNotice);
}

#[test]
fn wrap_chrome_frames_body_with_header_and_footer() {
    let page = wrap_chrome(ViewNode::NotFoundNotice);
    assert_eq!(
        page.nodes,
        vec![ViewNode::Header, ViewNode::NotFoundNotice, ViewNode::Footer]
    );
}

#[test]
fn render_page_composes_then_wraps() {
    let items = vec![story(1, "A")];
    let page = render_page(populate_stories(
        SortMode::Show,
        FetchOutcome::Success(items.clone()),
    ));
    assert_eq!(page.nodes.len(), 3);
    assert_eq!(page.nodes[0], ViewNode::Header);
    assert_eq!(page.nodes[1], ViewNode::StoryList(items));
    assert_eq!(page.nodes[2], ViewNode::Footer);
}
