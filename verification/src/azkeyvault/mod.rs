//! Connection options of the Azure Key Vault resource: a debug build signs
//! in with the developer tools and reads only the vault address; a release
//! build signs in as a service principal.

pub mod debug_build;
pub mod release_build;
