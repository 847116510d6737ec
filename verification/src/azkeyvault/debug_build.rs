//! Connection options of a debug build.

use vstd::prelude::*;
use crate::env::{env_view, errors_view, errs, required_setting, required_spec, EnvError, EnvErrorView};

verus! {

/// The vault a debug build connects to.
#[derive(Debug, Clone)]
pub struct ConnectOptions {
    /// `AZURE_KEYVAULT_ADDR`, which must be set.
    pub address: String,
}

impl ConnectOptions {
    /// Reads the options from an environment snapshot.
    pub fn from_vars(vars: &Vec<(String, String)>) -> (r: Result<ConnectOptions, Vec<EnvError>>)
        ensures
            ({
                let address = required_spec(env_view(vars@), "AZURE_KEYVAULT_ADDR"@);
                match r {
                    Ok(o) => address == Ok::<Seq<char>, EnvErrorView>(o.address@),
                    Err(es) => errs(address).len() > 0 && errors_view(es@) == errs(address),
                }
            }),
    {
        match required_setting(vars, "AZURE_KEYVAULT_ADDR") {
            Ok(address) => Ok(ConnectOptions { address }),
            Err(e) => {
                let mut errors: Vec<EnvError> = Vec::new();
                errors.push(e);
                Err(errors)
            },
        }
    }
}

} // verus!
