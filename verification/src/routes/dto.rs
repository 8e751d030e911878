//! The untrusted boundary record: what the transport layer decodes the
//! request body into, before any validation.

use vstd::prelude::*;

verus! {

/// A submitted subscription form: two plain strings, exactly as decoded,
/// with no rule checked yet.
#[derive(Debug)]
pub struct SubscriptionFormData {
    pub name: String,
    pub email: String,
}

} // verus!
