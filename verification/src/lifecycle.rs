//! Process-wide setup of the optimizer engine.

use crate::error::Error;
use vstd::prelude::*;

verus! {

/// Calls `wasm_opt_sys::init`. That function has an empty body: it exists so
/// that a call to it pulls the native engine into the link. It returns
/// nothing, never fails and keeps no state, so nothing is claimed of it.
#[verifier::external_body]
fn link_engine() {
    wasm_opt_sys::init();
}

/// Establishes linkage to the native engine. Must be called before any other
/// engine operation; further calls are harmless and succeed in the same way.
pub fn init() -> (r: Result<(), Error>)
    ensures
        r == Ok::<(), Error>(()),
{
    link_engine();
    Ok(())
}

} // verus!
