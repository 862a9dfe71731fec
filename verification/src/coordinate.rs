//! The action-coordinate matcher: parses a step's action reference string
//! `owner/repo[/subpath][@ref]` into a coordinate, and compares coordinates
//! while ignoring the pinned ref.

use vstd::prelude::*;

use crate::strutil;
use crate::strutil::{first_index_from, last_index_below};

verus! {

/// The identity of a reusable action: owner, repository, optional subpath
/// inside the repository, and the optional ref it was pinned to.
#[derive(Debug)]
pub struct Coordinate {
    pub owner: String,
    pub repo: String,
    pub subpath: Option<String>,
    pub git_ref: Option<String>,
}

/// Mathematical image of a `Coordinate`.
pub struct CoordinateView {
    pub owner: Seq<char>,
    pub repo: Seq<char>,
    pub subpath: Option<Seq<char>>,
    pub git_ref: Option<Seq<char>>,
}

impl View for Coordinate {
    type V = CoordinateView;

    open spec fn view(&self) -> CoordinateView {
        CoordinateView {
            owner: self.owner@,
            repo: self.repo@,
            subpath: match self.subpath {
                Some(ref s) => Some(s@),
                None => None,
            },
            git_ref: match self.git_ref {
                Some(ref s) => Some(s@),
                None => None,
            },
        }
    }
}

/// Image of an optional coordinate.
pub open spec fn view_opt_coordinate(c: Option<Coordinate>) -> Option<CoordinateView> {
    match c {
        Some(x) => Some(x@),
        None => None,
    }
}

/// Image of an optional string.
pub open spec fn view_opt_string(s: Option<String>) -> Option<Seq<char>> {
    match s {
        Some(x) => Some(x@),
        None => None,
    }
}

/// Grammar of the part before any `@`: `owner/repo` or `owner/repo/subpath`,
/// with owner and repo nonempty, the subpath nonempty where present, and an
/// owner that does not begin with `.` (such a reference is a local path, not
/// a repository coordinate).
pub open spec fn parse_path(p: Seq<char>, git_ref: Option<Seq<char>>) -> Option<CoordinateView> {
    match first_index_from(p, '/', 0) {
        None => None,
        Some(i) => {
            let owner = p.subrange(0, i);
            let rest = p.subrange(i + 1, p.len() as int);
            if owner.len() == 0 || owner[0] == '.' {
                None
            } else {
                match first_index_from(rest, '/', 0) {
                    None => if rest.len() == 0 {
                        None
                    } else {
                        Some(CoordinateView { owner, repo: rest, subpath: None, git_ref })
                    },
                    Some(j) => {
                        let repo = rest.subrange(0, j);
                        let sub = rest.subrange(j + 1, rest.len() as int);
                        if repo.len() == 0 || sub.len() == 0 {
                            None
                        } else {
                            Some(
                                CoordinateView { owner, repo, subpath: Some(sub), git_ref },
                            )
                        }
                    },
                }
            }
        },
    }
}

/// Grammar of a full action reference: an optional `@ref` suffix, split at
/// the last `@` and required to be nonempty, then the path grammar.
pub open spec fn parse_action_ref(s: Seq<char>) -> Option<CoordinateView> {
    match last_index_below(s, '@', s.len() as int) {
        None => parse_path(s, None),
        Some(a) => if a + 1 < s.len() {
            parse_path(s.subrange(0, a), Some(s.subrange(a + 1, s.len() as int)))
        } else {
            None
        },
    }
}

/// Two coordinates name the same action when owner, repository and subpath
/// agree; the pinned ref plays no part.
pub open spec fn same_action(a: CoordinateView, b: CoordinateView) -> bool {
    a.owner == b.owner && a.repo == b.repo && a.subpath == b.subpath
}

/// Any two coordinates that agree on owner, repository and subpath are the
/// same action, whatever refs they were pinned to.
pub proof fn lemma_matching_ignores_pinned_ref(a: CoordinateView, b: CoordinateView)
    requires
        a.owner == b.owner,
        a.repo == b.repo,
        a.subpath == b.subpath,
    ensures
        same_action(a, b),
{
}

fn parse_path_exec(p: &str, git_ref: Option<String>) -> (r: Option<Coordinate>)
    ensures
        view_opt_coordinate(r) == parse_path(p@, view_opt_string(git_ref)),
{
    let len = p.unicode_len();
    let i = match strutil::find_first(p, '/') {
        None => {
            return None;
        },
        Some(i) => i,
    };
    if i == 0 || p.get_char(0) == '.' {
        return None;
    }
    let owner = strutil::substring_owned(p, 0, i);
    let rest = p.substring_char(i + 1, len);
    let rest_len = len - (i + 1);
    match strutil::find_first(rest, '/') {
        None => {
            if rest_len == 0 {
                None
            } else {
                Some(Coordinate { owner, repo: rest.to_owned(), subpath: None, git_ref })
            }
        },
        Some(j) => {
            if j == 0 || j + 1 == rest_len {
                return None;
            }
            let repo = strutil::substring_owned(rest, 0, j);
            let sub = strutil::substring_owned(rest, j + 1, rest_len);
            Some(Coordinate { owner, repo, subpath: Some(sub), git_ref })
        },
    }
}

/// Parse a step's declared action reference, or report that it is no
/// repository coordinate (a local or malformed reference is silently ignored
/// by every registry lookup, not an error).
pub fn from_step(s: &str) -> (r: Option<Coordinate>)
    ensures
        view_opt_coordinate(r) == parse_action_ref(s@),
{
    let len = s.unicode_len();
    match strutil::find_last(s, '@') {
        None => parse_path_exec(s, None),
        Some(a) => {
            if a + 1 == len {
                return None;
            }
            let path = s.substring_char(0, a);
            let git_ref = strutil::substring_owned(s, a + 1, len);
            parse_path_exec(path, Some(git_ref))
        },
    }
}

impl Coordinate {
    /// Does `self` refer to the same action as `other`, ignoring the pinned
    /// ref on either side?
    pub fn matches(&self, other: &Coordinate) -> (r: bool)
        ensures
            r == same_action(self@, other@),
    {
        strutil::str_eq(self.owner.as_str(), other.owner.as_str())
            && strutil::str_eq(self.repo.as_str(), other.repo.as_str())
            && strutil::option_str_eq(&self.subpath, &other.subpath)
    }
}

} // verus!
