//! The list filter that index pages read from their query string: a free-text
//! search, a role and a trashed mode, each kept only when it is meaningful.
use vstd::prelude::*;
use crate::string_map::StringMap;
use crate::text::{law_trim_idempotent, str_eq, string_of, trim, trim_seq};

verus! {

/// The roles a list can be filtered by.
pub open spec fn is_known_role(s: Seq<char>) -> bool {
    s == "admin"@ || s == "editor"@ || s == "user"@
}

/// The trashed modes a list can be filtered by.
pub open spec fn is_known_trashed(s: Seq<char>) -> bool {
    s == "only"@ || s == "with"@
}

/// What `normalize_search` keeps of a search term: the trimmed term, unless
/// nothing is left of it.
pub open spec fn normalized_search(search: Option<Seq<char>>) -> Option<Seq<char>> {
    match search {
        Some(s) => if trim_seq(s).len() == 0 {
            None
        } else {
            Some(trim_seq(s))
        },
        None => None,
    }
}

/// The view of an optional text.
pub open spec fn opt_view(o: Option<String>) -> Option<Seq<char>> {
    match o {
        Some(s) => Some(s@),
        None => None,
    }
}

fn owned(o: Option<&String>) -> (r: Option<String>)
    ensures
        opt_view(r) == match o {
            Some(s) => Some(s@),
            None => None,
        },
{
    match o {
        Some(s) => Some(string_of(s.as_str())),
        None => None,
    }
}

/// A list filter.
#[derive(Debug, Clone)]
pub struct SearchFilter {
    pub search: Option<String>,
    pub role: Option<String>,
    pub trashed: Option<String>,
}

impl Default for SearchFilter {
    fn default() -> (f: Self)
        ensures
            f.search is None && f.role is None && f.trashed is None,
    {
        SearchFilter { search: None, role: None, trashed: None }
    }
}

impl SearchFilter {
    /// A filter that filters nothing.
    pub fn new() -> (f: Self)
        ensures
            f.search is None && f.role is None && f.trashed is None,
    {
        SearchFilter { search: None, role: None, trashed: None }
    }

    /// Whether any of the three filters is set.
    pub fn has_filters(&self) -> (r: bool)
        ensures
            r == (self.search is Some || self.role is Some || self.trashed is Some),
    {
        self.search.is_some() || self.role.is_some() || self.trashed.is_some()
    }

    /// Keeps a role only when it is `admin`, `editor` or `user`.
    pub fn normalize_role(role: Option<String>) -> (r: Option<String>)
        ensures
            r == (if role is Some && is_known_role(role->0@) {
                role
            } else {
                None
            }),
    {
        match role {
            Some(s) => {
                if str_eq(s.as_str(), "admin") || str_eq(s.as_str(), "editor") || str_eq(
                    s.as_str(),
                    "user",
                ) {
                    Some(s)
                } else {
                    None
                }
            },
            None => None,
        }
    }

    /// Keeps a trashed mode only when it is `only` or `with`.
    pub fn normalize_trashed(trashed: Option<String>) -> (r: Option<String>)
        ensures
            r == (if trashed is Some && is_known_trashed(trashed->0@) {
                trashed
            } else {
                None
            }),
    {
        match trashed {
            Some(s) => {
                if str_eq(s.as_str(), "only") || str_eq(s.as_str(), "with") {
                    Some(s)
                } else {
                    None
                }
            },
            None => None,
        }
    }

    /// Trims a search term and drops it when nothing is left.
    pub fn normalize_search(search: Option<String>) -> (r: Option<String>)
        ensures
            opt_view(r) == normalized_search(opt_view(search)),
    {
        match search {
            Some(s) => {
                let t = trim(s.as_str());
                if t.as_str().is_empty() {
                    None
                } else {
                    Some(t)
                }
            },
            None => None,
        }
    }

    /// The filter that the query parameters `search`, `role` and `trashed`
    /// describe.
    pub fn from_query_params(params: StringMap) -> (f: Self)
        ensures
            opt_view(f.search) == normalized_search(
                if params.view().dom().contains("search"@) {
                    Some(params.view()["search"@]@)
                } else {
                    None
                },
            ),
            opt_view(f.role) == (if params.view().dom().contains("role"@) && is_known_role(
                params.view()["role"@]@,
            ) {
                Some(params.view()["role"@]@)
            } else {
                None
            }),
            opt_view(f.trashed) == (if params.view().dom().contains("trashed"@)
                && is_known_trashed(params.view()["trashed"@]@) {
                Some(params.view()["trashed"@]@)
            } else {
                None
            }),
    {
        SearchFilter {
            search: Self::normalize_search(owned(params.get("search"))),
            role: Self::normalize_role(owned(params.get("role"))),
            trashed: Self::normalize_trashed(owned(params.get("trashed"))),
        }
    }
}

/// Normalizing a search term twice gives what normalizing it once gives:
/// a normalized term has nothing left to trim.
pub proof fn law_normalize_search_idempotent(search: Option<Seq<char>>)
    ensures
        normalized_search(normalized_search(search)) == normalized_search(search),
{
    if let Some(s) = search {
        law_trim_idempotent(s);
    }
}

} // verus!
