//! Resolution of an `owner/name` repository reference.
//!
//! A reference string is split on its first `/`; the name runs to the second
//! `/` or to the end, and anything after a second `/` is ignored.

use vstd::prelude::*;

use crate::errors::Error;
use crate::errors::ErrorV;

verus! {

/// The pair identifying the target repository.
#[derive(Debug)]
pub struct RepoRef {
    pub owner: String,
    pub name: String,
}

/// The mathematical shape of a [`RepoRef`].
pub ghost struct RepoRefV {
    pub owner: Seq<char>,
    pub name: Seq<char>,
}

impl View for RepoRef {
    type V = RepoRefV;

    open spec fn view(&self) -> RepoRefV {
        RepoRefV { owner: self.owner@, name: self.name@ }
    }
}

/// `i` indexes a `/` in `s`.
pub open spec fn is_slash_at(s: Seq<char>, i: int) -> bool {
    0 <= i < s.len() && s[i] == '/'
}

/// `s` holds at least one `/`.
pub open spec fn contains_slash(s: Seq<char>) -> bool {
    exists|i: int| is_slash_at(s, i)
}

/// `i` indexes the first `/` in `s`.
pub open spec fn is_first_slash(s: Seq<char>, i: int) -> bool {
    is_slash_at(s, i) && (forall|k: int| 0 <= k < i ==> s[k] != '/')
}

/// The index of the first `/` in `s` (meaningful only when one exists).
pub open spec fn first_slash(s: Seq<char>) -> int {
    choose|i: int| is_first_slash(s, i)
}

/// A first slash is unique.
proof fn lemma_first_slash_unique(s: Seq<char>, i: int, j: int)
    requires
        is_first_slash(s, i),
        is_first_slash(s, j),
    ensures
        i == j,
{
    if i < j {
        assert(s[i] != '/');
    } else if j < i {
        assert(s[j] != '/');
    }
}

/// The owner segment: everything before the first `/`.
pub open spec fn owner_of(s: Seq<char>) -> Seq<char> {
    s.subrange(0, first_slash(s))
}

/// The name segment: everything between the first `/` and the second `/`, or
/// the end of the string when there is no second `/`.
pub open spec fn name_of(s: Seq<char>) -> Seq<char> {
    let rest = s.subrange(first_slash(s) + 1, s.len() as int);
    if contains_slash(rest) {
        rest.subrange(0, first_slash(rest))
    } else {
        rest
    }
}

/// Splits a reference of the shape `owner/name` on its first `/`.
///
/// A string without a `/` is rejected with a format error; a segment after a
/// second `/` is ignored.
pub fn parse_repo_name(repo_name: &str) -> (r: Result<RepoRef, Error>)
    ensures
        r is Ok <==> contains_slash(repo_name@),
        r matches Ok(p) ==> p.owner@ == owner_of(repo_name@) && p.name@ == name_of(repo_name@),
        r matches Err(e) ==> e@ == ErrorV::FormatError,
{
    let ghost s = repo_name@;
    let len = repo_name.unicode_len();
    let mut i: usize = 0;
    loop
        invariant
            i <= len,
            len == s.len(),
            s == repo_name@,
            forall|k: int| 0 <= k < i ==> s[k] != '/',
        ensures
            is_first_slash(s, i as int),
            i < len,
        decreases len - i,
    {
        if i == len {
            assert(!contains_slash(s));
            return Err(Error::FormatError);
        }
        if repo_name.get_char(i) == '/' {
            break;
        }
        i = i + 1;
    }
    assert(is_first_slash(s, i as int));
    proof {
        lemma_first_slash_unique(s, i as int, first_slash(s));
    }
    let mut j: usize = i + 1;
    loop
        invariant
            i + 1 <= j <= len,
            len == s.len(),
            s == repo_name@,
            forall|k: int| i + 1 <= k < j ==> s[k] != '/',
            is_first_slash(s, i as int),
        ensures
            i + 1 <= j <= len,
            forall|k: int| i + 1 <= k < j ==> s[k] != '/',
            j < len ==> s[j as int] == '/',
        decreases len - j,
    {
        if j == len {
            break;
        }
        if repo_name.get_char(j) == '/' {
            break;
        }
        j = j + 1;
    }
    let owner = String::from_str(repo_name.substring_char(0, i));
    let name = String::from_str(repo_name.substring_char(i + 1, j));
    proof {
        let rest = s.subrange(i + 1, s.len() as int);
        if j < len {
            assert(rest[j - (i + 1)] == s[j as int]);
            assert(is_first_slash(rest, j - (i + 1)));
            lemma_first_slash_unique(rest, j - (i + 1), first_slash(rest));
            assert(name_of(s) =~= s.subrange(i + 1, j as int));
        } else {
            assert(forall|k: int| 0 <= k < rest.len() ==> rest[k] == s[k + i + 1] && rest[k] != '/');
            assert(!contains_slash(rest));
            assert(name_of(s) =~= s.subrange(i + 1, j as int));
        }
        assert(owner_of(s) =~= s.subrange(0, i as int));
    }
    Ok(RepoRef { owner, name })
}

/// Resolves a reference string, substituting the fixed fallback pair when it
/// has no `/`.
pub fn resolve_repo(repo_name: &str) -> (r: RepoRef)
    ensures
        contains_slash(repo_name@) ==> r.owner@ == owner_of(repo_name@) && r.name@ == name_of(
            repo_name@,
        ),
        !contains_slash(repo_name@) ==> r.owner@ == "tomhoule"@ && r.name@ == "graphql-client"@,
{
    match parse_repo_name(repo_name) {
        Ok(p) => p,
        Err(_) => RepoRef {
            owner: String::from_str("tomhoule"),
            name: String::from_str("graphql-client"),
        },
    }
}

} // verus!
