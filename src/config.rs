//! Settings resolved once at start-up and handed to the components that need them.
use vstd::prelude::*;

verus! {

/// Every setting the program reads from its environment; `None` where the
/// variable is not set.
#[derive(Clone, Debug, Default)]
pub struct Config {
    pub priority_platform: Option<String>,
    pub spotify_client_id: Option<String>,
    pub spotify_client_secret: Option<String>,
    pub lastfm_api_key: Option<String>,
    pub lastfm_shared_secret: Option<String>,
    pub lastfm_username: Option<String>,
    pub login_server_ip: Option<String>,
    pub login_server_port: Option<String>,
}

} // verus!
