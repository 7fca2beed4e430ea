use imaginal::providers::lastfm::{self, LastfmReply, LastfmTrack};
use imaginal::providers::spotify::playing::{self, SpotifyPlaying};
use imaginal::providers::ErrorType;

fn spotify_body(artists: &[&str]) -> SpotifyPlaying {
    SpotifyPlaying {
        is_playing: true,
        name: "Blue in Green".to_string(),
        artists: artists.iter().map(|a| a.to_string()).collect(),
        album: "Kind of Blue".to_string(),
    }
}

fn track(name: &str, nowplaying: Option<&str>) -> LastfmTrack {
    LastfmTrack {
        name: name.to_string(),
        artist: "Miles Davis".to_string(),
        album: "Kind of Blue".to_string(),
        nowplaying: nowplaying.map(|s| s.to_string()),
    }
}

#[test]
fn spotify_ok_copies_first_item() {
    let song = playing::currently_playing(200, Some(spotify_body(&["Miles Davis", "Bill Evans"])))
        .unwrap()
        .unwrap();
    assert!(song.playing);
    assert_eq!(song.title, "Blue in Green");
    assert_eq!(song.artist, "Miles Davis");
    assert_eq!(song.album, "Kind of Blue");
}

#[test]
fn spotify_ok_without_artist_names_none() {
    let song = playing::currently_playing(200, Some(spotify_body(&[]))).unwrap().unwrap();
    assert_eq!(song.artist, "None");
}

#[test]
fn spotify_no_content_is_nothing_playing() {
    assert!(matches!(playing::currently_playing(204, None), Ok(None)));
    assert!(matches!(playing::currently_playing(204, Some(spotify_body(&["x"]))), Ok(None)));
}

#[test]
fn spotify_unauthorized_is_expired_token() {
    let err = playing::currently_playing(401, None).unwrap_err();
    assert_eq!(err.error_type, ErrorType::ExpiredToken);
    assert_eq!(err.message, "Current token is expired");
}

#[test]
fn spotify_too_many_requests_is_rate_limited() {
    let err = playing::currently_playing(429, Some(spotify_body(&["x"]))).unwrap_err();
    assert_eq!(err.error_type, ErrorType::RateLimited);
    assert_eq!(err.message, "Too many requests");
}

#[test]
fn spotify_malformed_body_is_server_failure() {
    let err = playing::currently_playing(200, None).unwrap_err();
    assert_eq!(err.error_type, ErrorType::ServerFailure);
}

#[test]
fn spotify_other_status_is_server_failure() {
    let err = playing::currently_playing(500, Some(spotify_body(&["x"]))).unwrap_err();
    assert_eq!(err.error_type, ErrorType::ServerFailure);
    assert_eq!(err.message, "Unexpected status");
}

#[test]
fn lastfm_first_track_now_playing() {
    let reply = LastfmReply::Tracks(vec![track("So What", Some("true")), track("Freddie", None)]);
    let song = lastfm::currently_playing(200, reply).unwrap().unwrap();
    assert!(song.playing);
    assert_eq!(song.title, "So What");
    assert_eq!(song.artist, "Miles Davis");
    assert_eq!(song.album, "Kind of Blue");
}

#[test]
fn lastfm_track_not_now_playing() {
    let reply = LastfmReply::Tracks(vec![track("So What", Some("false"))]);
    assert!(!lastfm::currently_playing(200, reply).unwrap().unwrap().playing);
    let reply = LastfmReply::Tracks(vec![track("So What", None)]);
    assert!(!lastfm::currently_playing(200, reply).unwrap().unwrap().playing);
}

#[test]
fn lastfm_empty_list_is_nothing() {
    assert!(matches!(lastfm::currently_playing(200, LastfmReply::Tracks(vec![])), Ok(None)));
}

#[test]
fn lastfm_no_content_and_rate_limit() {
    assert!(matches!(lastfm::currently_playing(204, LastfmReply::Malformed), Ok(None)));
    let err = lastfm::currently_playing(429, LastfmReply::Malformed).unwrap_err();
    assert_eq!(err.error_type, ErrorType::RateLimited);
}

#[test]
fn lastfm_error_codes() {
    let err = lastfm::currently_playing(404, LastfmReply::ErrorCode(6)).unwrap_err();
    assert_eq!(err.error_type, ErrorType::ConfigurationError);
    assert_eq!(err.message, "Unknown user");
    let err = lastfm::currently_playing(403, LastfmReply::ErrorCode(10)).unwrap_err();
    assert_eq!(err.error_type, ErrorType::ConfigurationError);
    assert_eq!(err.message, "Incorrect API Key");
    let err = lastfm::currently_playing(400, LastfmReply::ErrorCode(29)).unwrap_err();
    assert_eq!(err.error_type, ErrorType::RateLimited);
    assert_eq!(err.message, "Too many requests");
    let err = lastfm::currently_playing(400, LastfmReply::ErrorCode(8)).unwrap_err();
    assert_eq!(err.error_type, ErrorType::Unknown);
    assert_eq!(err.message, "Unhandled request error coming from LastFM");
}

#[test]
fn lastfm_malformed_bodies() {
    let err = lastfm::currently_playing(200, LastfmReply::ErrorCode(6)).unwrap_err();
    assert_eq!(err.error_type, ErrorType::ServerFailure);
    let err = lastfm::currently_playing(500, LastfmReply::Malformed).unwrap_err();
    assert_eq!(err.error_type, ErrorType::ServerFailure);
}

#[test]
fn lastfm_query_pairs() {
    let query = lastfm::recent_tracks_query("rj", "KEY");
    let expected = [
        ("method", "user.getrecenttracks"),
        ("user", "rj"),
        ("api_key", "KEY"),
        ("format", "json"),
        ("limit", "1"),
    ];
    assert_eq!(query.len(), expected.len());
    for (got, want) in query.iter().zip(expected.iter()) {
        assert_eq!(got.0, want.0);
        assert_eq!(got.1, want.1);
    }
}
