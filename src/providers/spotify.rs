//! Spotify: signs in through the authorization-code flow, then polls the
//! player with a bearer token.
use vstd::prelude::*;

use crate::config::Config;

pub mod connection;
pub mod playing;

pub use connection::AccessTokenJson;

verus! {

pub open spec fn spec_verify(config: &Config) -> bool {
    config.spotify_client_id is Some && config.spotify_client_secret is Some
}

/// Whether the client id and the client secret are both configured.
pub fn verify(config: &Config) -> (r: bool)
    ensures
        r == spec_verify(config),
{
    config.spotify_client_id.is_some() && config.spotify_client_secret.is_some()
}

} // verus!
