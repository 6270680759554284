//! Where the signalling server is and who connects to it.

use vstd::prelude::*;
use vstd::string::StrSliceExecFns;

verus! {

/// The connection settings of one peer.
#[derive(Clone, Debug)]
pub struct Args {
    /// Host name or address of the signalling server.
    pub server_address: String,
    /// Port of the signalling server.
    pub port: u16,
    /// The name to sign in with.
    pub username: String,
    /// The password to sign in with.
    pub password: String,
}

/// Whether `query` is `search` without the question marks that `search`
/// begins with.
pub open spec fn is_query_of(search: Seq<char>, query: Seq<char>) -> bool {
    &&& query.len() <= search.len()
    &&& query == search.subrange(search.len() - query.len(), search.len() as int)
    &&& forall|i: int| 0 <= i < search.len() - query.len() ==> search[i] == '?'
    &&& query.len() > 0 ==> query[0] != '?'
}

/// Takes the query out of the search part of a page address, in which a
/// question mark comes first: every question mark at the start is dropped,
/// and what follows is kept as it is.
pub fn query_of(search: &str) -> (r: &str)
    ensures
        is_query_of(search@, r@),
{
    let n = search.unicode_len();
    let mut i: usize = 0;
    while i < n && search.get_char(i) == '?'
        invariant
            n == search@.len(),
            i <= n,
            forall|k: int| 0 <= k < i ==> search@[k] == '?',
        decreases n - i,
    {
        i += 1;
    }
    search.substring_char(i, n)
}

/// A search part has one query and no other.
pub proof fn lemma_query_is_unique(search: Seq<char>, a: Seq<char>, b: Seq<char>)
    requires
        is_query_of(search, a),
        is_query_of(search, b),
    ensures
        a == b,
{
    let cut_a = search.len() - a.len();
    let cut_b = search.len() - b.len();
    if cut_a < cut_b {
        assert(a[0] == search[cut_a]);
    }
    if cut_b < cut_a {
        assert(b[0] == search[cut_b]);
    }
}

} // verus!
