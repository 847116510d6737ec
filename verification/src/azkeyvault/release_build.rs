//! Connection options of a release build.

use vstd::prelude::*;
use crate::env::{env_view, errors_view, errs, required_setting, required_spec, EnvError, EnvErrorView};

verus! {

/// The vault a release build connects to and the service principal it
/// signs in as.
#[derive(Debug, Clone)]
pub struct ConnectOptions {
    /// `AZURE_KEYVAULT_ADDR`.
    pub address: String,
    /// `AZURE_TENANT_ID`.
    pub tenant_id: String,
    /// `AZURE_CLIENT_ID`.
    pub client_id: String,
    /// `AZURE_CLIENT_SECRET`.
    pub client_secret: String,
}

/// Takes the value of a setting, or records its error and gives an empty
/// text.
fn take_setting(r: Result<String, EnvError>, errors: &mut Vec<EnvError>) -> (v: String)
    ensures
        match r {
            Ok(s) => v@ == s@ && final(errors)@ == old(errors)@,
            Err(e) => final(errors)@ == old(errors)@.push(e),
        },
{
    match r {
        Ok(s) => s,
        Err(e) => {
            errors.push(e);
            String::new()
        },
    }
}

impl ConnectOptions {
    /// Reads the options from an environment snapshot; every setting that is
    /// not set is reported, in field order.
    pub fn from_vars(vars: &Vec<(String, String)>) -> (r: Result<ConnectOptions, Vec<EnvError>>)
        ensures
            ({
                let env = env_view(vars@);
                let address = required_spec(env, "AZURE_KEYVAULT_ADDR"@);
                let tenant = required_spec(env, "AZURE_TENANT_ID"@);
                let client = required_spec(env, "AZURE_CLIENT_ID"@);
                let secret = required_spec(env, "AZURE_CLIENT_SECRET"@);
                let all = errs(address) + errs(tenant) + errs(client) + errs(secret);
                match r {
                    Ok(o) => all.len() == 0 && address == Ok::<Seq<char>, EnvErrorView>(o.address@)
                        && tenant == Ok::<Seq<char>, EnvErrorView>(o.tenant_id@)
                        && client == Ok::<Seq<char>, EnvErrorView>(o.client_id@)
                        && secret == Ok::<Seq<char>, EnvErrorView>(o.client_secret@),
                    Err(es) => all.len() > 0 && errors_view(es@) == all,
                }
            }),
    {
        let mut errors: Vec<EnvError> = Vec::new();
        let address = take_setting(required_setting(vars, "AZURE_KEYVAULT_ADDR"), &mut errors);
        let tenant_id = take_setting(required_setting(vars, "AZURE_TENANT_ID"), &mut errors);
        let client_id = take_setting(required_setting(vars, "AZURE_CLIENT_ID"), &mut errors);
        let client_secret = take_setting(required_setting(vars, "AZURE_CLIENT_SECRET"), &mut errors);
        if errors.len() > 0 {
            return Err(errors);
        }
        Ok(ConnectOptions { address, tenant_id, client_id, client_secret })
    }
}

} // verus!
