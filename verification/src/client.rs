//! Settings of the HTTP client that depend on the environment.

use vstd::prelude::*;
use crate::text::{lemma_trim_idempotent, trim, trimmed};

verus! {

/// The value of the demo API-key header for the key found in the
/// environment: the key without surrounding white space, or no header when
/// there is no key or it is blank.
pub fn api_key_header(env_key: Option<String>) -> (r: Option<String>)
    ensures
        match env_key {
            Some(k) => if trimmed(k@).len() > 0 {
                r matches Some(v) && v@ == trimmed(k@)
            } else {
                r is None
            },
            None => r is None,
        },
        r matches Some(v) ==> trimmed(v@) == v@ && v@.len() > 0,
{
    match env_key {
        Some(k) => {
            proof { lemma_trim_idempotent(k@); }
            let t = trim(k.as_str());
            if t.as_str().is_empty() {
                None
            } else {
                Some(t)
            }
        },
        None => None,
    }
}

} // verus!
