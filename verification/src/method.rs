//! HTTP request methods, as far as the router tells them apart.

use vstd::prelude::*;

verus! {

/// An HTTP request method. The router matches `Get` exactly; every other
/// method falls through to the default handler, so they need no further
/// distinction beyond their identity.
#[derive(Clone, Copy, Debug, PartialEq, Eq, Structural)]
pub enum Method {
    Get,
    Head,
    Post,
    Put,
    Delete,
    Connect,
    Options,
    Trace,
    Patch,
}

impl Method {
    /// True exactly when the method is `GET`.
    pub fn is_get(&self) -> (r: bool)
        ensures
            r == (*self == Method::Get),
    {
        *self == Method::Get
    }
}

} // verus!
