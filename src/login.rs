//! Reading the token out of the login endpoint's reply.

use std::collections::BTreeMap;
use vstd::prelude::*;

verus! {

#[verifier::external_type_specification]
#[verifier::external_body]
pub struct ExJsonError(serde_json::Error);

/// The entries of a JSON object whose values are all strings, in the order of
/// their keys, read from `body`; `None` where `body` is no such object.
pub uninterp spec fn json_string_entries(body: Seq<u8>) -> Option<Seq<(Seq<char>, Seq<char>)>>;

/// The view of a list of string pairs.
pub open spec fn entries_view(entries: Seq<(String, String)>) -> Seq<(Seq<char>, Seq<char>)> {
    entries.map_values(|e: (String, String)| (e.0@, e.1@))
}

/// Relies on serde_json::from_slice, reading `body` into a map from strings
/// to strings, whose entries are then listed in key order: which entries come
/// back, or whether it fails, depends on the bytes alone.
#[verifier::external_body]
fn parse_string_map(body: &[u8]) -> (r: Result<Vec<(String, String)>, serde_json::Error>)
    ensures
        match r {
            Ok(v) => json_string_entries(body@) == Some(entries_view(v@)),
            Err(_) => json_string_entries(body@) is None,
        },
{
    serde_json::from_slice::<BTreeMap<String, String>>(body).map(|m| m.into_iter().collect())
}

/// The key under which the login endpoint hands out the token.
pub open spec fn token_key() -> Seq<char> {
    "token"@
}

/// The value of the first entry whose key is `key`.
pub open spec fn lookup(entries: Seq<(Seq<char>, Seq<char>)>, key: Seq<char>) -> Option<Seq<char>>
    decreases entries.len(),
{
    if entries.len() == 0 {
        None
    } else if entries[0].0 == key {
        Some(entries[0].1)
    } else {
        lookup(entries.drop_first(), key)
    }
}

/// Why a login reply yields no token.
#[derive(Debug, Clone, Copy, PartialEq, Eq, Structural)]
pub enum LoginError {
    /// The reply is not a JSON object whose values are all strings.
    MalformedResponse,
    /// The reply is such an object, without a `token` entry.
    MissingToken,
}

/// What the login reply `body` yields: its token, or why there is none.
pub open spec fn login_outcome(body: Seq<u8>) -> Result<Seq<char>, LoginError> {
    match json_string_entries(body) {
        None => Err(LoginError::MalformedResponse),
        Some(entries) => match lookup(entries, token_key()) {
            None => Err(LoginError::MissingToken),
            Some(t) => Ok(t),
        },
    }
}

proof fn lemma_lookup_skip(entries: Seq<(Seq<char>, Seq<char>)>, key: Seq<char>, i: int)
    requires
        0 <= i < entries.len(),
        forall|j: int| 0 <= j < i ==> entries[j].0 != key,
    ensures
        lookup(entries, key) == lookup(entries.subrange(i, entries.len() as int), key),
    decreases i,
{
    if i > 0 {
        let rest = entries.drop_first();
        lemma_lookup_skip(rest, key, i - 1);
        assert(rest.subrange(i - 1, rest.len() as int) =~= entries.subrange(i, entries.len() as int));
    } else {
        assert(entries.subrange(0, entries.len() as int) =~= entries);
    }
}

/// No entry has the key `key`: nothing is found under it.
pub proof fn lemma_lookup_absent(entries: Seq<(Seq<char>, Seq<char>)>, key: Seq<char>)
    requires
        forall|j: int| 0 <= j < entries.len() ==> (#[trigger] entries[j]).0 != key,
    ensures
        lookup(entries, key) is None,
    decreases entries.len(),
{
    if entries.len() > 0 {
        lemma_lookup_absent(entries.drop_first(), key);
    }
}

/// The token among the entries of a login reply: the value of the first
/// entry whose key is `token`.
pub fn token_from_entries(entries: &Vec<(String, String)>) -> (r: Option<String>)
    ensures
        match r {
            Some(t) => lookup(entries_view(entries@), token_key()) == Some(t@),
            None => lookup(entries_view(entries@), token_key()) is None,
        },
{
    let ghost view = entries_view(entries@);
    let key = "token".to_owned();
    let mut i: usize = 0;
    while i < entries.len()
        invariant
            i <= entries.len(),
            view == entries_view(entries@),
            key@ == token_key(),
            forall|j: int| 0 <= j < i ==> view[j].0 != token_key(),
        decreases entries.len() - i,
    {
        assert(view[i as int] == (entries@[i as int].0@, entries@[i as int].1@));
        if entries[i].0 == key {
            proof {
                lemma_lookup_skip(view, token_key(), i as int);
            }
            return Some(entries[i].1.clone());
        }
        i = i + 1;
    }
    proof {
        lemma_lookup_absent(view, token_key());
    }
    None
}

/// The token that the login reply `body` hands out.
pub fn token_from_login_response(body: &[u8]) -> (r: Result<String, LoginError>)
    ensures
        match r {
            Ok(t) => login_outcome(body@) == Ok::<Seq<char>, LoginError>(t@),
            Err(e) => login_outcome(body@) == Err::<Seq<char>, LoginError>(e),
        },
{
    match parse_string_map(body) {
        Err(_) => Err(LoginError::MalformedResponse),
        Ok(entries) => match token_from_entries(&entries) {
            None => Err(LoginError::MissingToken),
            Some(t) => Ok(t),
        },
    }
}

} // verus!
