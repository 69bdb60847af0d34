//! Startup configuration of the service, loaded and validated by the
//! surrounding process before anything runs.

use vstd::prelude::*;

verus! {

/// The service configuration: where the HTTP server binds, where the
/// key-value backend listens, which namespace (database index) to select,
/// and an optional backend password.
#[derive(Clone, Debug)]
pub struct AppConfig {
    pub host: String,
    pub port: String,
    pub redis_host: String,
    pub redis_port: u16,
    pub redis_password: Option<String>,
    pub db_index: i64,
}

} // verus!
