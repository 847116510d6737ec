//! Connection options of the Redis backend.

use vstd::prelude::*;
use crate::env::{
    env_view, errors_view, errs, number_spec, text_or, text_setting, u64_setting, usize_setting,
    EnvError, EnvErrorView,
};

verus! {

/// Where and how the Redis backend connects.
#[derive(Debug, Clone)]
pub struct ConnectOptions {
    /// `REDIS_URL`, by default `redis://localhost:6379`.
    pub url: String,
    /// `REDIS_MAX_RETRIES`, by default 3.
    pub max_retries: usize,
    /// `REDIS_MAX_DELAY` in milliseconds, by default 1000.
    pub max_delay: u64,
}

impl ConnectOptions {
    /// Reads the options from an environment snapshot; every setting that
    /// does not read as its type is reported, in field order.
    pub fn from_vars(vars: &Vec<(String, String)>) -> (r: Result<ConnectOptions, Vec<EnvError>>)
        ensures
            ({
                let env = env_view(vars@);
                let retries = number_spec(env, "REDIS_MAX_RETRIES"@, 3, usize::MAX as int);
                let delay = number_spec(env, "REDIS_MAX_DELAY"@, 1000, u64::MAX as int);
                let all = errs(retries) + errs(delay);
                match r {
                    Ok(o) => all.len() == 0 && o.url@ == text_or(env, "REDIS_URL"@, "redis://localhost:6379"@)
                        && retries == Ok::<int, EnvErrorView>(o.max_retries as int)
                        && delay == Ok::<int, EnvErrorView>(o.max_delay as int),
                    Err(es) => all.len() > 0 && errors_view(es@) == all,
                }
            }),
    {
        let url = text_setting(vars, "REDIS_URL", "redis://localhost:6379");
        let retries = usize_setting(vars, "REDIS_MAX_RETRIES", 3);
        let delay = u64_setting(vars, "REDIS_MAX_DELAY", 1000);
        let mut errors: Vec<EnvError> = Vec::new();
        let max_retries = match retries {
            Ok(n) => n,
            Err(e) => {
                errors.push(e);
                0
            },
        };
        let max_delay = match delay {
            Ok(n) => n,
            Err(e) => {
                errors.push(e);
                0
            },
        };
        if errors.len() > 0 {
            return Err(errors);
        }
        Ok(ConnectOptions { url, max_retries, max_delay })
    }
}

} // verus!
