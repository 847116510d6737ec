//! Connection options of the MongoDB resource.

use vstd::prelude::*;
use crate::env::{env_view, errors_view, errs, required_setting, required_spec, EnvError, EnvErrorView};

verus! {

/// Where the MongoDB resource connects.
#[derive(Clone, Debug)]
pub struct ConnectOptions {
    /// `MONGODB_URL`, which must be set.
    pub uri: String,
}

impl ConnectOptions {
    /// Reads the options from an environment snapshot.
    pub fn from_vars(vars: &Vec<(String, String)>) -> (r: Result<ConnectOptions, Vec<EnvError>>)
        ensures
            ({
                let uri = required_spec(env_view(vars@), "MONGODB_URL"@);
                match r {
                    Ok(o) => uri == Ok::<Seq<char>, EnvErrorView>(o.uri@),
                    Err(es) => errs(uri).len() > 0 && errors_view(es@) == errs(uri),
                }
            }),
    {
        match required_setting(vars, "MONGODB_URL") {
            Ok(uri) => Ok(ConnectOptions { uri }),
            Err(e) => {
                let mut errors: Vec<EnvError> = Vec::new();
                errors.push(e);
                Err(errors)
            },
        }
    }
}

} // verus!
