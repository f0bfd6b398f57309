//! A thin piece of the protocol client built on the generated types.

use vstd::prelude::*;

verus! {

/// The identifier of an independent browser session: the generated wrapper
/// type over a wire string, modeled by its string value.
#[derive(Debug)]
pub struct BrowserContextId {
    pub inner: String,
}

/// BrowserContexts provide a way to operate multiple independent browser
/// sessions.
#[derive(Debug)]
pub struct BrowserContext {
    pub id: BrowserContextId,
}

} // verus!
