//! Connection options of the Postgres resource.

use vstd::prelude::*;
use crate::env::{
    env_view, errors_view, errs, number_spec, required_setting, required_spec, usize_setting,
    EnvError, EnvErrorView,
};
use crate::postgres::{
    pool_settings, pool_settings_spec, postgres_uri_parts, PoolConfigError, PoolSettings,
    PoolSettingsView,
};

verus! {

/// Where the Postgres resource connects and how many connections it pools.
#[derive(Debug, Clone)]
pub struct ConnectOptions {
    /// `POSTGRES_URL`, which must be set.
    pub uri: String,
    /// `POSTGRES_POOL_SIZE`, by default 10.
    pub pool_size: usize,
}

impl ConnectOptions {
    /// Reads the options from an environment snapshot; every setting that
    /// is missing or does not read as its type is reported, in field order.
    pub fn from_vars(vars: &Vec<(String, String)>) -> (r: Result<ConnectOptions, Vec<EnvError>>)
        ensures
            ({
                let env = env_view(vars@);
                let uri = required_spec(env, "POSTGRES_URL"@);
                let size = number_spec(env, "POSTGRES_POOL_SIZE"@, 10, usize::MAX as int);
                let all = errs(uri) + errs(size);
                match r {
                    Ok(o) => all.len() == 0 && uri == Ok::<Seq<char>, EnvErrorView>(o.uri@)
                        && size == Ok::<int, EnvErrorView>(o.pool_size as int),
                    Err(es) => all.len() > 0 && errors_view(es@) == all,
                }
            }),
    {
        let uri = required_setting(vars, "POSTGRES_URL");
        let size = usize_setting(vars, "POSTGRES_POOL_SIZE", 10);
        let mut errors: Vec<EnvError> = Vec::new();
        let uri = match uri {
            Ok(u) => u,
            Err(e) => {
                errors.push(e);
                String::new()
            },
        };
        let pool_size = match size {
            Ok(n) => n,
            Err(e) => {
                errors.push(e);
                0
            },
        };
        if errors.len() > 0 {
            return Err(errors);
        }
        Ok(ConnectOptions { uri, pool_size })
    }

    /// The pool settings of these options' URI and size.
    pub fn pool_settings(&self) -> (r: Result<PoolSettings, PoolConfigError>)
        ensures
            match r {
                Ok(s) => pool_settings_spec(postgres_uri_parts(self.uri@), self.pool_size) == Ok::<PoolSettingsView, PoolConfigError>(s@),
                Err(e) => pool_settings_spec(postgres_uri_parts(self.uri@), self.pool_size) == Err::<PoolSettingsView, PoolConfigError>(e),
            },
    {
        pool_settings(self.uri.as_str(), self.pool_size)
    }
}

} // verus!
