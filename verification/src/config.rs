//! The service's settings and what each is when nothing sets it.

use vstd::prelude::*;

verus! {

/// Seconds to wait for a connection to a feed's or a page's server.
pub const CONNECT_TIMEOUT_SECS: u64 = 5;

/// The domain of a development build.
pub const DEV_DOMAIN: &'static str = "localhost";

/// The log filter of a development build, which also logs the web
/// framework.
pub const DEV_ENV_FILTER: &'static str =
    "info,my_feed=debug,axum=debug,axum-core=debug,tower_http=debug";

/// The log filter of any other build.
pub const ENV_FILTER: &'static str = "info,my_feed=debug";

/// The address that a development build listens on: the loopback interface.
pub const DEV_LISTEN_ADDR: &'static str = "127.0.0.1:8013";

/// The address that any other build listens on: every interface.
pub const LISTEN_ADDR: &'static str = "0.0.0.0:8013";

/// Where a development build finds the web client.
pub const DEV_WEB_DIR: &'static str = "./web/dist";

/// Where any other build finds the web client.
pub const WEB_DIR: &'static str = "/my-feed-web";

/// Where a development build keeps the database.
pub const DEV_DATA_DIR: &'static str = "./my-feed-data";

/// Where any other build keeps the database.
pub const DATA_DIR: &'static str = "/my-feed-data";

/// The password of a development build.
pub const DEV_PASSWORD: &'static str = "password";

/// The settings of a running service.
#[derive(Debug)]
pub struct Config {
    /// The URI under which the service is reached.
    pub domain: String,
    /// The socket address to listen on.
    pub listen_addr: String,
    pub multi_thread_runtime: bool,
    pub runtime_workers: Option<usize>,
    /// The filter for what is logged.
    pub tracing_filter: String,
    /// The directory that holds the web client.
    pub web_dir: String,
    /// The directory that holds the database.
    pub data_dir: String,
    /// The shared secret that authorizes a request.
    pub password: String,
}

/// The domain of a development build.
pub fn dev_domain() -> (domain: String)
    ensures
        domain@ == DEV_DOMAIN@,
{
    DEV_DOMAIN.to_owned()
}

/// The log filter of a build.
pub fn default_env_filter(debug_build: bool) -> (filter: String)
    ensures
        filter@ == if debug_build {
            DEV_ENV_FILTER@
        } else {
            ENV_FILTER@
        },
{
    if debug_build {
        DEV_ENV_FILTER.to_owned()
    } else {
        ENV_FILTER.to_owned()
    }
}

/// The address that a build listens on.
pub fn default_listen_addr(debug_build: bool) -> (addr: String)
    ensures
        addr@ == if debug_build {
            DEV_LISTEN_ADDR@
        } else {
            LISTEN_ADDR@
        },
{
    if debug_build {
        DEV_LISTEN_ADDR.to_owned()
    } else {
        LISTEN_ADDR.to_owned()
    }
}

/// The directory of the web client, as it is written before it is resolved
/// on disk.
pub fn default_web_dir(debug_build: bool) -> (dir: String)
    ensures
        dir@ == if debug_build {
            DEV_WEB_DIR@
        } else {
            WEB_DIR@
        },
{
    if debug_build {
        DEV_WEB_DIR.to_owned()
    } else {
        WEB_DIR.to_owned()
    }
}

/// The directory of the database, as it is written before it is resolved on
/// disk.
pub fn default_data_dir(debug_build: bool) -> (dir: String)
    ensures
        dir@ == if debug_build {
            DEV_DATA_DIR@
        } else {
            DATA_DIR@
        },
{
    if debug_build {
        DEV_DATA_DIR.to_owned()
    } else {
        DATA_DIR.to_owned()
    }
}

/// The password of a development build. Any other build has no default
/// password: its password must be set, and nobody may ask for a default.
pub fn default_password(debug_build: bool) -> (password: String)
    requires
        debug_build,
    ensures
        password@ == DEV_PASSWORD@,
{
    DEV_PASSWORD.to_owned()
}

} // verus!
