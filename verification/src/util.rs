//! Sharing one dispatcher among many connections.

use crate::service::{header_view, Decision, Service};
use std::sync::Arc;
use vstd::prelude::*;

verus! {

/// A handle on a service that lives behind a pointer. The handle answers
/// as the service does and holds no state of its own, so every connection
/// can have one.
pub struct DerefService<S>(pub S);

impl DerefService<Arc<Service>> {
    /// Decides on a request as the shared service does.
    pub fn call<'a>(&'a self, path: &str, signature: Option<&[u8]>) -> (decision: Decision<'a>)
        ensures
            self.0.decides(path@, header_view(signature), decision),
    {
        self.0.call(path, signature)
    }
}

} // verus!
