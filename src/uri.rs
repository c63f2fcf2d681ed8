//! Redirect and post-logout URI allow-lists: exact entries and `*` prefixes.

use vstd::prelude::*;
use crate::text::{first_of, is_prefix, str_eq, starts_with, split_once, ends_with_char};

verus! {

/// An allow-list entry admits a URI: the two are equal, or the entry ends
/// with `*` and the URI starts with what precedes the entry's first `*`.
pub open spec fn uri_entry_matches(entry: Seq<char>, uri: Seq<char>) -> bool {
    entry == uri || (entry.len() > 0 && entry.last() == '*' && match first_of(entry, '*') {
        Some(i) => is_prefix(entry.subrange(0, i), uri),
        None => false,
    })
}

/// Some entry of the allow-list admits the URI.
pub open spec fn uri_allowed(list: Seq<String>, uri: Seq<char>) -> bool {
    exists|i: int| 0 <= i < list.len() && uri_entry_matches((#[trigger] list[i])@, uri)
}

/// Whether the allow-list entry `entry` admits `uri`.
pub fn uri_entry_admits(entry: &str, uri: &str) -> (r: bool)
    ensures
        r == uri_entry_matches(entry@, uri@),
{
    if str_eq(entry, uri) {
        return true;
    }
    if !ends_with_char(entry, '*') {
        return false;
    }
    match split_once(entry, '*') {
        Some((prefix, _)) => starts_with(uri, prefix.as_str()),
        None => false,
    }
}

/// Whether some entry of `list` admits `uri`.
pub fn is_uri_allowed(list: &Vec<String>, uri: &str) -> (r: bool)
    ensures
        r == uri_allowed(list@, uri@),
{
    let mut i: usize = 0;
    while i < list.len()
        invariant
            i <= list@.len(),
            forall|j: int| 0 <= j < i ==> !uri_entry_matches((#[trigger] list@[j])@, uri@),
        decreases list@.len() - i,
    {
        if uri_entry_admits(list[i].as_str(), uri) {
            return true;
        }
        i = i + 1;
    }
    false
}

} // verus!
