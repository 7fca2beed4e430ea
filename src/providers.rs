//! Music providers, their errors, and the polling session state machine.
use vstd::prelude::*;

use crate::config::Config;
use crate::database::{save_spec, CredentialStore};
use crate::providers::spotify::connection::{AccessTokenJson, RefreshTokenJson};
use crate::text::{contains, occurs_in};

pub mod lastfm;
pub mod spotify;

verus! {

/// Seconds to hold off after the provider reports too many requests.
pub const RATELIMIT_WAIT_SECS: u64 = 60;

/// Seconds between two polls of a provider.
pub const POLL_INTERVAL_SECS: u64 = 2;

/// A track as a provider reports it.
#[derive(Clone, Debug)]
pub struct Song {
    pub playing: bool,
    pub title: String,
    pub artist: String,
    pub album: String,
}

impl Song {
    pub open spec fn has(
        &self,
        playing: bool,
        title: Seq<char>,
        artist: Seq<char>,
        album: Seq<char>,
    ) -> bool {
        &&& self.playing == playing
        &&& self.title@ == title
        &&& self.artist@ == artist
        &&& self.album@ == album
    }
}

/// What went wrong, in the terms the session needs to choose a recovery.
#[derive(Clone, Copy, Debug, PartialEq, Eq, Structural)]
pub enum ErrorType {
    ExpiredToken,
    RateLimited,
    TransportFailure,
    ServerFailure,
    AuthorizationFailure,
    ConfigurationError,
    WebServer,
    Unknown,
}

impl ErrorType {
    pub open spec fn spec_name(self) -> Seq<char> {
        match self {
            ErrorType::ExpiredToken => "ExpiredToken"@,
            ErrorType::RateLimited => "RateLimited"@,
            ErrorType::TransportFailure => "TransportFailure"@,
            ErrorType::ServerFailure => "ServerFailure"@,
            ErrorType::AuthorizationFailure => "AuthorizationFailure"@,
            ErrorType::ConfigurationError => "ConfigurationError"@,
            ErrorType::WebServer => "WebServer"@,
            ErrorType::Unknown => "Unknown"@,
        }
    }

    /// The variant's name.
    pub fn name(&self) -> (r: &'static str)
        ensures
            r@ == self.spec_name(),
    {
        match self {
            ErrorType::ExpiredToken => "ExpiredToken",
            ErrorType::RateLimited => "RateLimited",
            ErrorType::TransportFailure => "TransportFailure",
            ErrorType::ServerFailure => "ServerFailure",
            ErrorType::AuthorizationFailure => "AuthorizationFailure",
            ErrorType::ConfigurationError => "ConfigurationError",
            ErrorType::WebServer => "WebServer",
            ErrorType::Unknown => "Unknown",
        }
    }

    /// Errors after which the process cannot go on.
    pub open spec fn spec_is_fatal(self) -> bool {
        self == ErrorType::ConfigurationError || self == ErrorType::AuthorizationFailure
    }
}

/// A classified error with a message for the log.
#[derive(Clone, Debug)]
pub struct Error {
    pub error_type: ErrorType,
    pub message: String,
}

impl Error {
    pub fn new(error_type: ErrorType, message: &str) -> (r: Error)
        ensures
            r.error_type == error_type,
            r.message@ == message@,
    {
        Error { error_type, message: String::from_str(message) }
    }

    pub open spec fn is(&self, error_type: ErrorType, message: Seq<char>) -> bool {
        self.error_type == error_type && self.message@ == message
    }

    /// `Kind: message`, the form in which errors are logged.
    pub fn describe(&self) -> (r: String)
        ensures
            r@ == self.error_type.spec_name() + ": "@ + self.message@,
    {
        let head = String::from_str(self.error_type.name());
        let head = head.concat(": ");
        head.concat(self.message.as_str())
    }
}

/// The providers the program can poll.
#[derive(Clone, Copy, Debug, PartialEq, Eq, Structural)]
pub enum Platform {
    Spotify,
    LastFM,
}

impl Platform {
    /// Whether the settings this platform needs are all present.
    pub fn verify(&self, config: &Config) -> (r: bool)
        ensures
            *self == Platform::Spotify ==> r == spotify::spec_verify(config),
            *self == Platform::LastFM ==> r == lastfm::spec_verify(config),
    {
        match self {
            Platform::Spotify => spotify::verify(config),
            Platform::LastFM => lastfm::verify(config),
        }
    }

    /// Seconds to wait between two requests.
    pub fn ratelimit(&self) -> (r: u64)
        ensures
            r == POLL_INTERVAL_SECS,
    {
        match self {
            Platform::Spotify => POLL_INTERVAL_SECS,
            Platform::LastFM => POLL_INTERVAL_SECS,
        }
    }

    /// Whether the platform signs in through the authorization-code flow;
    /// the others use a key and need no login.
    pub open spec fn spec_needs_login(self) -> bool {
        self == Platform::Spotify
    }

    pub fn needs_login(&self) -> (r: bool)
        ensures
            r == self.spec_needs_login(),
    {
        match self {
            Platform::Spotify => true,
            Platform::LastFM => false,
        }
    }
}

pub open spec fn opt_view(o: Option<String>) -> Option<Seq<char>> {
    match o {
        Some(s) => Some(s@),
        None => None,
    }
}

/// The credentials a session polls with.
#[derive(Clone, Debug, Default)]
pub struct PlatformParameters {
    pub spotify_access_token: Option<String>,
    pub spotify_refresh_token: Option<String>,
}

impl PlatformParameters {
    pub open spec fn holds(&self, access_token: Seq<char>, refresh_token: Seq<char>) -> bool {
        &&& opt_view(self.spotify_access_token) == Some(access_token)
        &&& opt_view(self.spotify_refresh_token) == Some(refresh_token)
    }

    /// Both tokens present, the access token non-empty.
    pub open spec fn usable(&self) -> bool {
        &&& self.spotify_access_token is Some
        &&& self.spotify_refresh_token is Some
        &&& self.spotify_access_token->0@.len() > 0
    }

    pub fn from_credentials(creds: AccessTokenJson) -> (r: PlatformParameters)
        ensures
            r.holds(creds.access_token@, creds.refresh_token@),
    {
        PlatformParameters {
            spotify_access_token: Some(creds.access_token),
            spotify_refresh_token: Some(creds.refresh_token),
        }
    }
}

/// Where a session stands.
#[derive(Clone, Copy, Debug, PartialEq, Eq, Structural)]
pub enum SessionState {
    Unauthenticated,
    Connecting,
    Authenticated,
    Refreshing,
}

/// What the caller does after `Provider::connect`.
#[derive(Clone, Copy, Debug, PartialEq, Eq, Structural)]
pub enum ConnectStep {
    /// The session is authenticated: start polling.
    Ready,
    /// No usable stored credentials: run the authorization flow and hand its
    /// outcome to `Provider::finish_connect`.
    Authorize,
}

/// What the caller does after a poll.
#[derive(Clone, Copy, Debug, PartialEq, Eq, Structural)]
pub enum Reaction {
    /// Wait the normal interval, then poll again.
    Proceed,
    /// Exchange the refresh token and hand the outcome to `Provider::refresh`.
    Refresh,
    /// Sleep this many seconds before the next poll.
    Sleep(u64),
    /// Stop: the error cannot be recovered from.
    Abort,
}

/// How a session answers an error of kind `kind` on `platform`.
pub open spec fn reaction_to(platform: Platform, kind: ErrorType) -> Reaction {
    if kind == ErrorType::ExpiredToken && platform.spec_needs_login() {
        Reaction::Refresh
    } else if kind == ErrorType::RateLimited {
        Reaction::Sleep(RATELIMIT_WAIT_SECS)
    } else if kind.spec_is_fatal() {
        Reaction::Abort
    } else {
        Reaction::Proceed
    }
}

pub open spec fn state_after(reaction: Reaction) -> SessionState {
    if reaction == Reaction::Refresh {
        SessionState::Refreshing
    } else {
        SessionState::Authenticated
    }
}

/// A polling session on one platform.
pub struct Provider {
    pub platform: Platform,
    pub params: Option<PlatformParameters>,
    pub state: SessionState,
}

impl Provider {
    /// An authenticated or refreshing session on a platform that signs in
    /// holds usable credentials.
    pub open spec fn wf(&self) -> bool {
        (self.platform.spec_needs_login() && (self.state == SessionState::Authenticated
            || self.state == SessionState::Refreshing)) ==> (self.params is Some
            && self.params->0.usable())
    }

    pub fn new(platform: Platform) -> (r: Provider)
        ensures
            r.platform == platform,
            r.params is None,
            r.state == SessionState::Unauthenticated,
            r.wf(),
    {
        Provider { platform, params: None, state: SessionState::Unauthenticated }
    }

    /// Starts the session from the credentials found in the store.
    pub fn connect(&mut self, stored: Option<AccessTokenJson>) -> (r: ConnectStep)
        requires
            old(self).state == SessionState::Unauthenticated,
        ensures
            final(self).platform == old(self).platform,
            final(self).wf(),
            !old(self).platform.spec_needs_login() ==> r == ConnectStep::Ready
                && final(self).state == SessionState::Authenticated && final(self).params is None,
            old(self).platform.spec_needs_login() && spotify::connection::spec_usable(stored)
                ==> r == ConnectStep::Ready && final(self).state == SessionState::Authenticated
                && final(self).params is Some && final(self).params->0.holds(
                stored->0.access_token@,
                stored->0.refresh_token@,
            ),
            old(self).platform.spec_needs_login() && !spotify::connection::spec_usable(stored)
                ==> r == ConnectStep::Authorize && final(self).state == SessionState::Connecting
                && final(self).params == old(self).params,
    {
        match self.platform {
            Platform::LastFM => {
                self.params = None;
                self.state = SessionState::Authenticated;
                ConnectStep::Ready
            },
            Platform::Spotify => {
                match spotify::connection::connect(stored) {
                    Some(params) => {
                        self.params = Some(params);
                        self.state = SessionState::Authenticated;
                        ConnectStep::Ready
                    },
                    None => {
                        self.state = SessionState::Connecting;
                        ConnectStep::Authorize
                    },
                }
            },
        }
    }

    /// Completes a connection with the outcome of the authorization flow.
    pub fn finish_connect(&mut self, outcome: Result<AccessTokenJson, Error>) -> (r: Result<
        (),
        Error,
    >)
        requires
            old(self).state == SessionState::Connecting,
        ensures
            final(self).platform == old(self).platform,
            final(self).wf(),
            r is Ok <==> spotify::connection::spec_usable_result(outcome),
            r is Ok ==> final(self).state == SessionState::Authenticated && final(self).params is Some
                && final(self).params->0.holds(
                outcome->Ok_0.access_token@,
                outcome->Ok_0.refresh_token@,
            ),
            r is Err ==> final(self).state == SessionState::Unauthenticated && final(self).params
                == old(self).params,
            outcome is Err ==> r == Err::<(), Error>(outcome->Err_0),
            outcome is Ok && r is Err ==> r->Err_0.is(
                ErrorType::ServerFailure,
                "Empty access token"@,
            ),
    {
        match outcome {
            Ok(creds) => {
                if creds.access_token.as_str().is_empty() {
                    self.state = SessionState::Unauthenticated;
                    Err(Error::new(ErrorType::ServerFailure, "Empty access token"))
                } else {
                    self.params = Some(PlatformParameters::from_credentials(creds));
                    self.state = SessionState::Authenticated;
                    Ok(())
                }
            },
            Err(e) => {
                self.state = SessionState::Unauthenticated;
                Err(e)
            },
        }
    }

    pub open spec fn spec_bearer(&self) -> Option<Seq<char>> {
        if self.platform.spec_needs_login() && self.state == SessionState::Authenticated
            && self.params is Some && self.params->0.spotify_access_token is Some {
            Some("Bearer "@ + self.params->0.spotify_access_token->0@)
        } else {
            None
        }
    }

    /// The `Authorization` header value a poll carries: `Bearer <access token>`.
    /// `None` while no token may be used (the platform uses a key, or the
    /// session is not authenticated).
    pub fn bearer(&self) -> (r: Option<String>)
        ensures
            opt_view(r) == self.spec_bearer(),
    {
        if self.platform.needs_login() && self.state == SessionState::Authenticated {
            match &self.params {
                Some(p) => match &p.spotify_access_token {
                    Some(token) => {
                        let head = String::from_str("Bearer ");
                        Some(head.concat(token.as_str()))
                    },
                    None => None,
                },
                None => None,
            }
        } else {
            None
        }
    }

    /// Decides what follows an error from a poll.
    pub fn react(&mut self, error: &Error) -> (r: Reaction)
        requires
            old(self).state == SessionState::Authenticated,
            old(self).wf(),
        ensures
            r == reaction_to(old(self).platform, error.error_type),
            final(self).state == state_after(r),
            final(self).platform == old(self).platform,
            final(self).params == old(self).params,
            final(self).wf(),
    {
        let r = match error.error_type {
            ErrorType::ExpiredToken => {
                if self.platform.needs_login() {
                    Reaction::Refresh
                } else {
                    Reaction::Proceed
                }
            },
            ErrorType::RateLimited => Reaction::Sleep(RATELIMIT_WAIT_SECS),
            ErrorType::ConfigurationError => Reaction::Abort,
            ErrorType::AuthorizationFailure => Reaction::Abort,
            _ => Reaction::Proceed,
        };
        if r == Reaction::Refresh {
            self.state = SessionState::Refreshing;
        }
        r
    }

    /// Takes the outcome of a poll: a song or nothing lets polling go on, an
    /// error is answered by `react`.
    pub fn currently_playing(&mut self, polled: &Result<Option<Song>, Error>) -> (r: Reaction)
        requires
            old(self).state == SessionState::Authenticated,
            old(self).wf(),
        ensures
            polled is Ok ==> r == Reaction::Proceed,
            polled is Err ==> r == reaction_to(old(self).platform, polled->Err_0.error_type),
            final(self).state == state_after(r),
            final(self).platform == old(self).platform,
            final(self).params == old(self).params,
            final(self).wf(),
    {
        match polled {
            Ok(_) => Reaction::Proceed,
            Err(e) => self.react(e),
        }
    }

    pub open spec fn spec_refresh_token(&self) -> Option<Seq<char>> {
        if self.state == SessionState::Refreshing && self.params is Some {
            opt_view(self.params->0.spotify_refresh_token)
        } else {
            None
        }
    }

    /// The refresh token to exchange, while a refresh is due.
    pub fn refresh_token(&self) -> (r: Option<String>)
        ensures
            opt_view(r) == self.spec_refresh_token(),
    {
        if self.state == SessionState::Refreshing {
            match &self.params {
                Some(p) => p.spotify_refresh_token.clone(),
                None => None,
            }
        } else {
            None
        }
    }

    /// Takes the outcome of a refresh and goes back to polling. On success the
    /// session holds the new access token, and the new refresh token where the
    /// provider sent one (else the old one), and these credentials are saved in
    /// the store under the session's platform and returned. On failure the
    /// session and the store keep their credentials.
    pub fn refresh(
        &mut self,
        store: &mut CredentialStore,
        outcome: Result<RefreshTokenJson, Error>,
    ) -> (r: Result<AccessTokenJson, Error>)
        requires
            old(self).state == SessionState::Refreshing,
            old(self).wf(),
        ensures
            final(self).state == SessionState::Authenticated,
            final(self).platform == old(self).platform,
            final(self).wf(),
            spotify::connection::result_view(r) == spotify::connection::spec_refresh(
                old(self).params,
                outcome,
            ),
            r is Ok ==> final(self).params is Some && final(self).params->0.holds(
                r->Ok_0.access_token@,
                r->Ok_0.refresh_token@,
            ),
            r is Err ==> final(self).params == old(self).params,
            r is Ok ==> final(store)@ == save_spec(old(store)@, old(self).platform, r->Ok_0@),
            r is Err ==> final(store)@ == old(store)@,
    {
        let r = spotify::connection::refresh(&self.params, outcome);
        match &r {
            Ok(creds) => {
                self.params = Some(PlatformParameters::from_credentials(creds.copied()));
                store.save(self.platform, creds.copied());
            },
            Err(_) => {},
        }
        self.state = SessionState::Authenticated;
        r
    }

    /// Seconds to wait before the next poll.
    pub fn wait(&self) -> (r: u64)
        ensures
            r == POLL_INTERVAL_SECS,
    {
        self.platform.ratelimit()
    }
}

impl Provider {
    /// The same session in another state.
    pub open spec fn in_state(self, state: SessionState) -> Provider {
        Provider { platform: self.platform, params: self.params, state }
    }
}

/// An expired token on a platform that signs in is answered by one refresh
/// before the next poll: the session turns to refreshing, where a refresh is
/// due and no token is handed out for a poll; once the refresh is taken,
/// whatever its outcome, polling resumes with no further refresh due.
pub proof fn lemma_expired_token_refreshes_once(session: Provider, refreshed: Provider)
    requires
        session.wf(),
        session.state == SessionState::Authenticated,
        session.platform.spec_needs_login(),
        refreshed.wf(),
        refreshed.state == SessionState::Authenticated,
        refreshed.platform == session.platform,
    ensures
        reaction_to(session.platform, ErrorType::ExpiredToken) == Reaction::Refresh,
        session.in_state(state_after(Reaction::Refresh)).spec_refresh_token() is Some,
        session.in_state(state_after(Reaction::Refresh)).spec_bearer() is None,
        refreshed.spec_refresh_token() is None,
        refreshed.spec_bearer() is Some,
{
}

/// On Spotify, an answer of 204 is no error; an answer of 401 is an expired
/// token, which the session answers with a refresh; an answer of 429 is too
/// many requests, which it answers with the sixty-second sleep.
pub proof fn lemma_poll_status_reactions(readable: bool)
    ensures
        spotify::playing::status_error(204, readable) is None,
        spotify::playing::status_error(401, readable) == Some(ErrorType::ExpiredToken),
        reaction_to(Platform::Spotify, ErrorType::ExpiredToken) == Reaction::Refresh,
        spotify::playing::status_error(429, readable) == Some(ErrorType::RateLimited),
        reaction_to(Platform::Spotify, ErrorType::RateLimited) == Reaction::Sleep(60),
{
}

/// Too many requests is answered, on every platform, by a sleep of the fixed
/// cooldown of sixty seconds, after which polling resumes.
pub proof fn lemma_rate_limit_sleeps_cooldown(platform: Platform)
    ensures
        reaction_to(platform, ErrorType::RateLimited) == Reaction::Sleep(60),
        state_after(reaction_to(platform, ErrorType::RateLimited)) == SessionState::Authenticated,
{
}

pub fn new(platform: Platform) -> (r: Provider)
    ensures
        r.platform == platform,
        r.params is None,
        r.state == SessionState::Unauthenticated,
{
    Provider::new(platform)
}

pub uninterp spec fn lowercase_of(s: Seq<char>) -> Seq<char>;

/// Relies on `str::to_lowercase`: Unicode lower case, which depends on the
/// characters alone.
#[verifier::external_body]
fn lowercase(s: &str) -> (r: String)
    ensures
        r@ == lowercase_of(s@),
{
    s.to_lowercase()
}

pub open spec fn spec_platform_from_name(lowered: Seq<char>) -> Option<Platform> {
    if occurs_in(lowered, "lastfm"@) {
        Some(Platform::LastFM)
    } else if occurs_in(lowered, "spotify"@) {
        Some(Platform::Spotify)
    } else {
        None
    }
}

/// The platform a lower-cased preference names: one that mentions `lastfm`
/// picks LastFM, else one that mentions `spotify` picks Spotify.
pub fn platform_from_name(lowered: &str) -> (r: Option<Platform>)
    ensures
        r == spec_platform_from_name(lowered@),
{
    if contains(lowered, "lastfm") {
        Some(Platform::LastFM)
    } else if contains(lowered, "spotify") {
        Some(Platform::Spotify)
    } else {
        None
    }
}

fn get_platform_from_env(preference: &str) -> (r: Option<Platform>)
    ensures
        r == spec_platform_from_name(lowercase_of(preference@)),
{
    let lowered = lowercase(preference);
    platform_from_name(lowered.as_str())
}

pub open spec fn spec_detect_platform(config: &Config) -> Option<Platform> {
    match config.priority_platform {
        Some(p) => spec_platform_from_name(lowercase_of(p@)),
        None => if lastfm::spec_verify(config) {
            Some(Platform::LastFM)
        } else if spotify::spec_verify(config) {
            Some(Platform::Spotify)
        } else {
            None
        },
    }
}

/// Picks the platform: the configured preference if any, else the first
/// platform whose settings are all present, LastFM before Spotify.
pub fn detect_platform(config: &Config) -> (r: Option<Platform>)
    ensures
        r == spec_detect_platform(config),
{
    match &config.priority_platform {
        Some(p) => get_platform_from_env(p.as_str()),
        None => {
            if lastfm::verify(config) {
                Some(Platform::LastFM)
            } else if spotify::verify(config) {
                Some(Platform::Spotify)
            } else {
                None
            }
        },
    }
}

} // verus!
