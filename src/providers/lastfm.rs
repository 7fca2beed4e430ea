//! LastFM: polls a user's recent tracks with an API key; no login.
use vstd::prelude::*;

use crate::config::Config;
use crate::providers::spotify::connection::{form_is, pair};
use crate::providers::{Error, ErrorType, Song};

verus! {

/// The LastFM API endpoint.
pub const API_URL: &'static str = "http://ws.audioscrobbler.com/2.0/";

/// LastFM's error code for an unknown user.
pub const UNKNOWN_USER: u16 = 6;

/// LastFM's error code for an API key it does not accept.
pub const INVALID_API_KEY: u16 = 10;

/// LastFM's error code for too many requests.
pub const RATE_LIMIT_EXCEEDED: u16 = 29;

pub open spec fn spec_verify(config: &Config) -> bool {
    &&& config.lastfm_api_key is Some
    &&& config.lastfm_shared_secret is Some
    &&& config.lastfm_username is Some
}

/// Whether the API key, the shared secret and the user name are all configured.
pub fn verify(config: &Config) -> (r: bool)
    ensures
        r == spec_verify(config),
{
    config.lastfm_api_key.is_some() && config.lastfm_shared_secret.is_some()
        && config.lastfm_username.is_some()
}

/// The query that asks for the user's most recent track.
pub fn recent_tracks_query(username: &str, api_key: &str) -> (r: Vec<(String, String)>)
    ensures
        form_is(
            r@,
            seq![
                ("method"@, "user.getrecenttracks"@),
                ("user"@, username@),
                ("api_key"@, api_key@),
                ("format"@, "json"@),
                ("limit"@, "1"@),
            ],
        ),
{
    let mut query: Vec<(String, String)> = Vec::new();
    query.push(pair("method", "user.getrecenttracks"));
    query.push(pair("user", username));
    query.push(pair("api_key", api_key));
    query.push(pair("format", "json"));
    query.push(pair("limit", "1"));
    query
}

/// A track of the recent-tracks list.
#[derive(Clone, Debug)]
pub struct LastfmTrack {
    pub name: String,
    pub artist: String,
    pub album: String,
    /// The `nowplaying` attribute, where the track has one.
    pub nowplaying: Option<String>,
}

/// A body as it could be read.
#[derive(Clone, Debug)]
pub enum LastfmReply {
    /// A recent-tracks list, most recent first.
    Tracks(Vec<LastfmTrack>),
    /// An error object with this code.
    ErrorCode(u16),
    /// Neither.
    Malformed,
}

pub open spec fn is_now_playing(nowplaying: Option<String>) -> bool {
    nowplaying is Some && nowplaying->0@ == "true"@
}

/// The error a LastFM error code stands for.
pub open spec fn code_error(code: u16) -> (ErrorType, Seq<char>) {
    if code == UNKNOWN_USER {
        (ErrorType::ConfigurationError, "Unknown user"@)
    } else if code == INVALID_API_KEY {
        (ErrorType::ConfigurationError, "Incorrect API Key"@)
    } else if code == RATE_LIMIT_EXCEEDED {
        (ErrorType::RateLimited, "Too many requests"@)
    } else {
        (ErrorType::Unknown, "Unhandled request error coming from LastFM"@)
    }
}

/// Classifies an answer: 204 is nothing playing and 429 too many requests; a
/// 200 with a track list gives its first track, or nothing for an empty list;
/// another status with an error object gives the error its code stands for.
/// Every other answer is a failure of the server.
pub fn currently_playing(status: u16, reply: LastfmReply) -> (r: Result<Option<Song>, Error>)
    ensures
        status == 204 ==> r matches Ok(None),
        status == 429 ==> r is Err && r->Err_0.is(ErrorType::RateLimited, "Too many requests"@),
        status == 200 ==> match reply {
            LastfmReply::Tracks(tracks) => if tracks@.len() == 0 {
                r matches Ok(None)
            } else {
                r is Ok && r->Ok_0 is Some && r->Ok_0->0.has(
                    is_now_playing(tracks@[0].nowplaying),
                    tracks@[0].name@,
                    tracks@[0].artist@,
                    tracks@[0].album@,
                )
            },
            _ => r is Err && r->Err_0.is(
                ErrorType::ServerFailure,
                "Malformed recent tracks response"@,
            ),
        },
        status != 200 && status != 204 && status != 429 ==> match reply {
            LastfmReply::ErrorCode(code) => r is Err && r->Err_0.is(
                code_error(code).0,
                code_error(code).1,
            ),
            _ => r is Err && r->Err_0.is(ErrorType::ServerFailure, "Unexpected status"@),
        },
{
    if status == 204 {
        return Ok(None);
    }
    if status == 429 {
        return Err(Error::new(ErrorType::RateLimited, "Too many requests"));
    }
    if status != 200 {
        return match reply {
            LastfmReply::ErrorCode(code) => {
                if code == UNKNOWN_USER {
                    Err(Error::new(ErrorType::ConfigurationError, "Unknown user"))
                } else if code == INVALID_API_KEY {
                    Err(Error::new(ErrorType::ConfigurationError, "Incorrect API Key"))
                } else if code == RATE_LIMIT_EXCEEDED {
                    Err(Error::new(ErrorType::RateLimited, "Too many requests"))
                } else {
                    Err(
                        Error::new(
                            ErrorType::Unknown,
                            "Unhandled request error coming from LastFM",
                        ),
                    )
                }
            },
            _ => Err(Error::new(ErrorType::ServerFailure, "Unexpected status")),
        };
    }
    match reply {
        LastfmReply::Tracks(tracks) => {
            if tracks.len() == 0 {
                Ok(None)
            } else {
                let track = &tracks[0];
                let playing = match &track.nowplaying {
                    Some(flag) => *flag == String::from_str("true"),
                    None => false,
                };
                Ok(
                    Some(
                        Song {
                            playing,
                            title: track.name.clone(),
                            artist: track.artist.clone(),
                            album: track.album.clone(),
                        },
                    ),
                )
            }
        },
        _ => Err(Error::new(ErrorType::ServerFailure, "Malformed recent tracks response")),
    }
}

} // verus!
