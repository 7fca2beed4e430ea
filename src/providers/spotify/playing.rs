//! Reading Spotify's answer to a "currently playing" request.
use vstd::prelude::*;

use crate::providers::{Error, ErrorType, Song};

verus! {

/// Where the player is asked what it plays.
pub const CURRENTLY_PLAYING_API_LINK: &'static str = "https://api.spotify.com/v1/me/player/currently-playing";

/// The fields of a "currently playing" body that a song is made of.
#[derive(Clone, Debug)]
pub struct SpotifyPlaying {
    pub is_playing: bool,
    pub name: String,
    pub artists: Vec<String>,
    pub album: String,
}

/// The first artist's name, or `None` where the item lists no artist.
pub open spec fn first_artist(artists: Seq<String>) -> Seq<char> {
    if artists.len() > 0 {
        artists[0]@
    } else {
        "None"@
    }
}

/// The kind of error an answer with `status` is, its body readable or not;
/// `None` where the answer is a song or nothing playing.
pub open spec fn status_error(status: u16, readable: bool) -> Option<ErrorType> {
    if status == 204 {
        None
    } else if status == 401 {
        Some(ErrorType::ExpiredToken)
    } else if status == 429 {
        Some(ErrorType::RateLimited)
    } else if status != 200 || !readable {
        Some(ErrorType::ServerFailure)
    } else {
        None
    }
}

/// Classifies an answer: 204 is nothing playing, 401 an expired token, 429 too
/// many requests; a 200 with a readable body is the song it names; anything
/// else is a failure of the server.
pub fn currently_playing(status: u16, body: Option<SpotifyPlaying>) -> (r: Result<
    Option<Song>,
    Error,
>)
    ensures
        r is Err <==> status_error(status, body is Some) is Some,
        r is Err ==> r->Err_0.error_type == status_error(status, body is Some)->0,
        status == 204 ==> r matches Ok(None),
        status == 401 ==> r is Err && r->Err_0.is(
            ErrorType::ExpiredToken,
            "Current token is expired"@,
        ),
        status == 429 ==> r is Err && r->Err_0.is(ErrorType::RateLimited, "Too many requests"@),
        status == 200 && body is Some ==> r is Ok && r->Ok_0 is Some && r->Ok_0->0.has(
            body->0.is_playing,
            body->0.name@,
            first_artist(body->0.artists@),
            body->0.album@,
        ),
        status == 200 && body is None ==> r is Err && r->Err_0.is(
            ErrorType::ServerFailure,
            "Malformed currently playing response"@,
        ),
        status != 200 && status != 204 && status != 401 && status != 429 ==> r is Err
            && r->Err_0.is(ErrorType::ServerFailure, "Unexpected status"@),
{
    if status == 204 {
        return Ok(None);
    }
    if status == 401 {
        return Err(Error::new(ErrorType::ExpiredToken, "Current token is expired"));
    }
    if status == 429 {
        return Err(Error::new(ErrorType::RateLimited, "Too many requests"));
    }
    if status != 200 {
        return Err(Error::new(ErrorType::ServerFailure, "Unexpected status"));
    }
    match body {
        None => Err(Error::new(ErrorType::ServerFailure, "Malformed currently playing response")),
        Some(b) => {
            let artist = if b.artists.len() > 0 {
                b.artists[0].clone()
            } else {
                String::from_str("None")
            };
            Ok(Some(Song { playing: b.is_playing, title: b.name, artist, album: b.album }))
        },
    }
}

} // verus!
