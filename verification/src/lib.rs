//! Verified core of a new-tab / bookmarking backend: the subscription
//! reconciliation engine and the rules around it.
//!
//! Three entry points — confirm, cancel, and the provider's deletion
//! webhook — must keep the payment provider's subscription object, the
//! local subscription row and the derived membership record consistent
//! without a distributed transaction. The engine here decides all of that
//! over plain observations of the provider and an in-memory store model,
//! and reports every write it performs so a persistence layer can replay
//! them. Around it live the token issuer, the session and feature gates,
//! the settings rules, and the link helpers.

pub mod errors;
pub mod model;
pub mod provider;
pub mod store;
pub mod engine;
pub mod token;
pub mod settings;
pub mod auth;
pub mod links;

use vstd::prelude::*;

verus! {

/// A vector's deep view is as long as the vector.
pub broadcast proof fn lemma_vec_deep_view_len<T: DeepView>(v: &Vec<T>)
    ensures
        #[trigger] v.deep_view().len() == v@.len(),
{
}

/// Indexing a vector's deep view is the deep view of the element.
pub broadcast proof fn lemma_vec_deep_view_index<T: DeepView>(v: &Vec<T>, i: int)
    requires
        0 <= i < v@.len(),
    ensures
        #[trigger] v.deep_view()[i] == v@[i].deep_view(),
{
}

/// Exact string comparison by characters: true exactly when the two views agree.
pub fn str_eq(a: &str, b: &str) -> (r: bool)
    ensures
        r == (a@ == b@),
{
    let n = a.unicode_len();
    if n != b.unicode_len() {
        return false;
    }
    let mut i: usize = 0;
    while i < n
        invariant
            n == a@.len(),
            n == b@.len(),
            i <= n,
            forall|j: int| 0 <= j < i ==> a@[j] == b@[j],
        decreases n - i,
    {
        if a.get_char(i) != b.get_char(i) {
            return false;
        }
        i = i + 1;
    }
    proof {
        assert(a@ =~= b@);
    }
    true
}

} // verus!
