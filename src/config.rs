use vstd::prelude::*;

use crate::error::ZecError;

verus! {

/// Process-wide configuration. The transparent-only pipeline needs no
/// prover material, so the handle carries nothing.
#[derive(Debug)]
pub struct Config {}

/// Builds the configuration handle.
pub fn init_config() -> (r: Result<Config, ZecError>)
    ensures
        r is Ok,
{
    Ok(Config {})
}

/// Returns the configuration handle, or `InitError` when none was set up.
pub fn get_config(handle: Option<&Config>) -> (r: Result<&Config, ZecError>)
    ensures
        handle is None <==> r is Err,
        r matches Err(e) ==> e matches ZecError::InitError(m) && m@ == "Config not initialized."@,
        handle is Some ==> r == Ok::<&Config, ZecError>(handle->Some_0),
{
    match handle {
        Some(c) => Ok(c),
        None => Err(ZecError::InitError("Config not initialized.".to_owned())),
    }
}

} // verus!
