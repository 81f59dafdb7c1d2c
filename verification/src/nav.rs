//! Navigation Integration: the bridge between URL-change events and the
//! route–preload–compose pipeline.
//!
//! The shell that owns the event loop reports each URL change through
//! [`Navigator::begin_navigation`], performs the returned fetch plan, and
//! reports the populated route variant back through [`Navigator::resolve`].
//! The navigator owns the single current-view slot and the token of the most
//! recently initiated navigation; a fetch that resolves after a newer
//! navigation has started carries a stale token and is discarded, so the
//! mounted view always reflects the most recently initiated navigation,
//! never merely the most recently resolved one.

use vstd::prelude::*;
use crate::data::{RouteVariant, SortMode};
use crate::preload::{plan_preload, FetchPlan};
use crate::route::{match_path, spec_route_tag, spec_username, RouteTag};
use crate::view::{render_page, spec_page, Page, ViewNode};

verus! {

/// What starting a navigation hands back: the navigation's token, to quote
/// when its fetch resolves, and the fetch to perform, if the route needs one.
#[derive(Clone, Debug, PartialEq, Eq)]
pub struct NavStart {
    pub token: u64,
    pub plan: Option<FetchPlan>,
}

/// Process-wide navigation state: one current-view slot and the token of the
/// most recently initiated navigation. Constructed once at startup; mutated
/// only by the navigation-driven update path.
pub struct Navigator {
    token: u64,
    current: Option<Page>,
}

impl Navigator {
    /// Token of the most recently initiated navigation.
    pub closed spec fn spec_token(&self) -> u64 {
        self.token
    }

    /// The currently mounted page, if a navigation has completed.
    pub closed spec fn spec_current(&self) -> Option<Page> {
        self.current
    }

    /// The nodes of the currently mounted page, if any.
    pub open spec fn spec_mounted(&self) -> Option<Seq<ViewNode>> {
        match self.spec_current() {
            Some(p) => Some(p.nodes@),
            None => None,
        }
    }

    /// A fresh navigator: nothing mounted, no navigation initiated yet.
    pub fn new() -> (n: Navigator)
        ensures
            n.spec_token() == 0,
            n.spec_current() is None,
    {
        Navigator { token: 0, current: None }
    }

    /// Token of the most recently initiated navigation, for the shell to
    /// test against the token bound before starting another one.
    pub fn token(&self) -> (t: u64)
        ensures
            t == self.spec_token(),
    {
        self.token
    }

    /// The currently mounted page, for the shell to render.
    pub fn current_page(&self) -> (p: &Option<Page>)
        ensures
            *p == self.spec_current(),
    {
        &self.current
    }

    /// Start a navigation to `path`: match the route, advance the token so
    /// that any still-unresolved earlier fetch becomes stale, and return the
    /// fetch the route requires. A NotFound match requires no fetch and its
    /// page is mounted immediately.
    pub fn begin_navigation(&mut self, path: &str) -> (s: NavStart)
        requires
            old(self).spec_token() < u64::MAX,
        ensures
            final(self).spec_token() == old(self).spec_token() + 1,
            s.token == final(self).spec_token(),
            spec_route_tag(path@) is Top ==> s.plan == Some(FetchPlan::Stories(SortMode::Top)),
            spec_route_tag(path@) is New ==> s.plan == Some(FetchPlan::Stories(SortMode::New)),
            spec_route_tag(path@) is Best ==> s.plan == Some(FetchPlan::Stories(SortMode::Best)),
            spec_route_tag(path@) is Show ==> s.plan == Some(FetchPlan::Stories(SortMode::Show)),
            spec_route_tag(path@) is User ==> (s.plan matches Some(FetchPlan::UserPage(u))
                && u@ == spec_username(path@)),
            spec_route_tag(path@) is NotFound ==> s.plan is None
                && final(self).spec_mounted() == Some(spec_page(RouteVariant::NotFound)),
            spec_route_tag(path@) !is NotFound ==> final(self).spec_mounted()
                == old(self).spec_mounted(),
    {
        self.token = self.token + 1;
        let m = match_path(path);
        if m.tag == RouteTag::NotFound {
            let page = render_page(RouteVariant::NotFound);
            self.current = Some(page);
            return NavStart { token: self.token, plan: None };
        }
        let plan = match plan_preload(&m) {
            Ok(p) => p,
            // A table match always carries the parameters its plan needs, so
            // planning cannot fail here; the verifier discharges this arm as
            // unreachable.
            Err(_) => None,
        };
        NavStart { token: self.token, plan }
    }

    /// Complete a navigation: if `token` is still the token of the most
    /// recently initiated navigation, compose and mount the page for the
    /// populated route variant and report true; a stale token — an older
    /// navigation resolving after a newer one started — is discarded, leaves
    /// the mounted view untouched, and reports false.
    pub fn resolve(&mut self, token: u64, v: RouteVariant) -> (applied: bool)
        ensures
            applied == (token == old(self).spec_token()),
            final(self).spec_token() == old(self).spec_token(),
            applied ==> final(self).spec_mounted() == Some(spec_page(v)),
            !applied ==> final(self).spec_mounted() == old(self).spec_mounted(),
    {
        if token == self.token {
            let page = render_page(v);
            self.current = Some(page);
            true
        } else {
            false
        }
    }
}

} // verus!
