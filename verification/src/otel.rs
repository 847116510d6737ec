//! OpenTelemetry export: the connection options of the gRPC collector.

use vstd::prelude::*;
use crate::env::{env_view, text_or, text_setting};

verus! {

/// Where the OpenTelemetry backend sends traces and metrics.
#[derive(Debug, Clone)]
pub struct ConnectOptions {
    /// `OTEL_GRPC_URL`, by default `http://localhost:4317`.
    pub grpc_url: String,
}

impl ConnectOptions {
    /// Reads the options from an environment snapshot; this cannot fail.
    pub fn from_vars(vars: &Vec<(String, String)>) -> (o: ConnectOptions)
        ensures
            o.grpc_url@ == text_or(env_view(vars@), "OTEL_GRPC_URL"@, "http://localhost:4317"@),
    {
        ConnectOptions { grpc_url: text_setting(vars, "OTEL_GRPC_URL", "http://localhost:4317") }
    }
}

} // verus!
