//! Route Table: a total, deterministic mapping from a URL path to exactly one
//! route tag plus the parameters captured from the path.
//!
//! Supported patterns: the literal paths `/`, `/new`, `/best`, `/show` and the
//! parameterized path `/user/<username>`, where `<username>` is one non-empty
//! path segment. Every other path maps to NotFound.

use vstd::prelude::*;
use vstd::string::StrSliceExecFns;

verus! {

/// Tag of the route a path matched.
#[derive(Clone, Copy, Debug, PartialEq, Eq, Structural)]
pub enum RouteTag {
    Top,
    New,
    Best,
    Show,
    User,
    NotFound,
}

/// A matched route: its tag and the captured parameters, in capture order.
/// Only the User route captures anything: its single non-empty username.
#[derive(Clone, Debug, PartialEq, Eq)]
pub struct RouteMatch {
    pub tag: RouteTag,
    pub params: Vec<String>,
}

/// A path names a user page when it starts with `/user/` and the remainder is
/// one non-empty segment, i.e. contains no further `/`.
pub open spec fn is_user_path(s: Seq<char>) -> bool {
    &&& s.len() > 6
    &&& s.subrange(0, 6) == "/user/"@
    &&& forall|i: int| 6 <= i < s.len() ==> s[i] != '/'
}

/// The username a user path captures.
pub open spec fn spec_username(s: Seq<char>) -> Seq<char>
    recommends
        is_user_path(s),
{
    s.subrange(6, s.len() as int)
}

/// The route table as one total function: every path yields exactly one tag,
/// never zero, never more than one.
pub open spec fn spec_route_tag(s: Seq<char>) -> RouteTag {
    if s == "/"@ {
        RouteTag::Top
    } else if s == "/new"@ {
        RouteTag::New
    } else if s == "/best"@ {
        RouteTag::Best
    } else if s == "/show"@ {
        RouteTag::Show
    } else if is_user_path(s) {
        RouteTag::User
    } else {
        RouteTag::NotFound
    }
}

/// Character-for-character string equality, decided without assuming anything
/// about either argument's encoding.
fn str_eq(a: &str, b: &str) -> (r: bool)
    ensures
        r == (a@ == b@),
{
    let an = a.unicode_len();
    let bn = b.unicode_len();
    if an != bn {
        return false;
    }
    let mut i: usize = 0;
    while i < an
        invariant
            i <= an,
            an == a@.len(),
            an == b@.len(),
            forall|j: int| 0 <= j < i ==> a@[j] == b@[j],
        decreases an - i,
    {
        if a.get_char(i) != b.get_char(i) {
            return false;
        }
        i += 1;
    }
    proof {
        assert(a@ =~= b@);
    }
    true
}

/// True when `s` contains no `/`, i.e. is at most one path segment.
fn has_no_slash(s: &str) -> (r: bool)
    ensures
        r == (forall|i: int| 0 <= i < s@.len() ==> s@[i] != '/'),
{
    let n = s.unicode_len();
    let mut i: usize = 0;
    while i < n
        invariant
            i <= n,
            n == s@.len(),
            forall|j: int| 0 <= j < i ==> s@[j] != '/',
        decreases n - i,
    {
        if s.get_char(i) == '/' {
            return false;
        }
        i += 1;
    }
    true
}

/// Route Table lookup: the matched tag and the captured parameters for
/// `path`. Total and pure: every path produces exactly one match, and a path
/// matching no pattern produces NotFound with no parameters.
pub fn match_path(path: &str) -> (m: RouteMatch)
    ensures
        m.tag == spec_route_tag(path@),
        m.tag is User ==> m.params@.len() == 1 && m.params@[0]@ == spec_username(path@),
        m.tag !is User ==> m.params@.len() == 0,
{
    if str_eq(path, "/") {
        RouteMatch { tag: RouteTag::Top, params: Vec::new() }
    } else if str_eq(path, "/new") {
        RouteMatch { tag: RouteTag::New, params: Vec::new() }
    } else if str_eq(path, "/best") {
        RouteMatch { tag: RouteTag::Best, params: Vec::new() }
    } else if str_eq(path, "/show") {
        RouteMatch { tag: RouteTag::Show, params: Vec::new() }
    } else {
        let n = path.unicode_len();
        if n <= 6 {
            return RouteMatch { tag: RouteTag::NotFound, params: Vec::new() };
        }
        let prefix = path.substring_char(0, 6);
        if !str_eq(prefix, "/user/") {
            return RouteMatch { tag: RouteTag::NotFound, params: Vec::new() };
        }
        let rest = path.substring_char(6, n);
        if !has_no_slash(rest) {
            proof {
                assert(!is_user_path(path@)) by {
                    if is_user_path(path@) {
                        assert(forall|j: int|
                            0 <= j < rest@.len() ==> rest@[j] == path@[6 + j]);
                    }
                }
            }
            return RouteMatch { tag: RouteTag::NotFound, params: Vec::new() };
        }
        proof {
            assert forall|i: int| 6 <= i < path@.len() implies path@[i] != '/' by {
                assert(path@[i] == rest@[i - 6]);
            }
            assert(is_user_path(path@));
        }
        let username = rest.to_owned();
        let mut params: Vec<String> = Vec::new();
        params.push(username);
        RouteMatch { tag: RouteTag::User, params }
    }
}

/// The route patterns are pairwise disjoint: the four literal patterns are
/// distinct from one another, and none of them is shaped like a user path, so
/// no path can ever match two patterns. This discharges, once and for all,
/// the registration-time disjointness obligation of the route table.
pub proof fn lemma_patterns_disjoint(s: Seq<char>)
    ensures
        s == "/"@ ==> s != "/new"@ && s != "/best"@ && s != "/show"@ && !is_user_path(s),
        s == "/new"@ ==> s != "/best"@ && s != "/show"@ && !is_user_path(s),
        s == "/best"@ ==> s != "/show"@ && !is_user_path(s),
        s == "/show"@ ==> !is_user_path(s),
{
    reveal_strlit("/");
    reveal_strlit("/new");
    reveal_strlit("/best");
    reveal_strlit("/show");
    assert("/"@.len() == 1);
    assert("/new"@.len() == 4);
    assert("/best"@.len() == 5);
    assert("/show"@.len() == 5);
    assert("/best"@[1] == 'b');
    assert("/show"@[1] == 's');
}

} // verus!
