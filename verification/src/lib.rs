//! Core logic of the realtime platform: error codes, reply envelopes,
//! schema-registry framing, backend configuration and the guest macro grammar.

pub mod runtime_error;
pub mod text;
pub mod be_kafka;
pub mod buildgen;
pub mod fabric;
pub mod env;
pub mod postgres;
pub mod sql;
pub mod res_sql;
pub mod res_kafka;
pub mod redis;
pub mod mongodb;
pub mod otel;
pub mod res_postgres;
pub mod messaging;
pub mod nats;
pub mod nats_message;
pub mod azure;
pub mod azkeyvault;
pub mod build_config;
