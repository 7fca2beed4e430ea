//! Signing in to Spotify: the authorization-code flow, the token exchange and
//! the refresh of an expired access token.
use vstd::prelude::*;

use base64::prelude::BASE64_STANDARD;
use base64::Engine;
use rand::distr::{Alphanumeric, SampleString};

use crate::commands::connect::LoginServerInfo;
use crate::database::{save_spec, CredentialStore};
use crate::providers::{Error, ErrorType, Platform, PlatformParameters};
use crate::text::{decimal, decimal_text};

verus! {

/// Where the user's browser is sent to grant access.
pub const AUTHORIZE_API_LINK: &'static str = "https://accounts.spotify.com/authorize";

/// Where codes and refresh tokens are exchanged for access tokens.
pub const ACCESS_TOKEN_API_LINK: &'static str = "https://accounts.spotify.com/api/token";

/// Length of the state token that guards the callback.
pub const STATE_LEN: usize = 16;

/// The tokens the token endpoint hands out, as they are persisted.
#[derive(Clone, Debug)]
pub struct AccessTokenJson {
    pub access_token: String,
    pub refresh_token: String,
}

impl View for AccessTokenJson {
    type V = (Seq<char>, Seq<char>);

    open spec fn view(&self) -> (Seq<char>, Seq<char>) {
        (self.access_token@, self.refresh_token@)
    }
}

impl AccessTokenJson {
    /// A copy with the same tokens.
    pub fn copied(&self) -> (r: AccessTokenJson)
        ensures
            r@ == self@,
    {
        AccessTokenJson {
            access_token: self.access_token.clone(),
            refresh_token: self.refresh_token.clone(),
        }
    }
}

/// The answer to a refresh: a new access token, and a new refresh token only
/// where the provider rotates it.
#[derive(Clone, Debug)]
pub struct RefreshTokenJson {
    pub access_token: String,
    pub refresh_token: Option<String>,
}

pub open spec fn error_view(e: Error) -> (ErrorType, Seq<char>) {
    (e.error_type, e.message@)
}

pub open spec fn result_view(r: Result<AccessTokenJson, Error>) -> Result<
    (Seq<char>, Seq<char>),
    (ErrorType, Seq<char>),
> {
    match r {
        Ok(c) => Ok(c@),
        Err(e) => Err(error_view(e)),
    }
}

/// Stored credentials a session can start from.
pub open spec fn spec_usable(stored: Option<AccessTokenJson>) -> bool {
    stored is Some && stored->0.access_token@.len() > 0
}

pub open spec fn spec_usable_result(outcome: Result<AccessTokenJson, Error>) -> bool {
    outcome is Ok && outcome->Ok_0.access_token@.len() > 0
}

/// The session parameters for stored credentials, if they can be used.
pub fn connect(stored: Option<AccessTokenJson>) -> (r: Option<PlatformParameters>)
    ensures
        r is Some <==> spec_usable(stored),
        r is Some ==> r->0.usable() && r->0.holds(
            stored->0.access_token@,
            stored->0.refresh_token@,
        ),
{
    match stored {
        Some(creds) => {
            if creds.access_token.as_str().is_empty() {
                None
            } else {
                Some(PlatformParameters::from_credentials(creds))
            }
        },
        None => None,
    }
}

pub open spec fn spec_refresh(
    params: Option<PlatformParameters>,
    outcome: Result<RefreshTokenJson, Error>,
) -> Result<(Seq<char>, Seq<char>), (ErrorType, Seq<char>)> {
    if params is None || params->0.spotify_refresh_token is None {
        Err((ErrorType::Unknown, "No parameters provided"@))
    } else {
        match outcome {
            Err(e) => Err(error_view(e)),
            Ok(json) => if json.access_token@.len() == 0 {
                Err((ErrorType::ServerFailure, "Empty access token"@))
            } else {
                match json.refresh_token {
                    Some(rotated) => Ok((json.access_token@, rotated@)),
                    None => Ok((json.access_token@, params->0.spotify_refresh_token->0@)),
                }
            },
        }
    }
}

/// The credentials after a refresh: the new access token, and the refresh
/// token the provider sent, or the one held before where it sent none.
pub fn refresh(params: &Option<PlatformParameters>, outcome: Result<RefreshTokenJson, Error>) -> (r:
    Result<AccessTokenJson, Error>)
    ensures
        result_view(r) == spec_refresh(*params, outcome),
{
    let held = match params {
        Some(p) => match &p.spotify_refresh_token {
            Some(t) => t.clone(),
            None => {
                return Err(Error::new(ErrorType::Unknown, "No parameters provided"));
            },
        },
        None => {
            return Err(Error::new(ErrorType::Unknown, "No parameters provided"));
        },
    };
    match outcome {
        Err(e) => Err(e),
        Ok(json) => {
            if json.access_token.as_str().is_empty() {
                Err(Error::new(ErrorType::ServerFailure, "Empty access token"))
            } else {
                let refresh_token = match json.refresh_token {
                    Some(rotated) => rotated,
                    None => held,
                };
                Ok(AccessTokenJson { access_token: json.access_token, refresh_token })
            }
        },
    }
}

/// The pairs of a form, as text.
pub open spec fn form_is(v: Seq<(String, String)>, expected: Seq<(Seq<char>, Seq<char>)>) -> bool {
    &&& v.len() == expected.len()
    &&& forall|i: int| 0 <= i < v.len() ==> (#[trigger] v[i]).0@ == expected[i].0 && v[i].1@ == expected[i].1
}

pub fn pair(name: &str, value: &str) -> (r: (String, String))
    ensures
        r.0@ == name@,
        r.1@ == value@,
{
    (String::from_str(name), String::from_str(value))
}

/// The form that exchanges a refresh token.
pub fn refresh_form(refresh_token: &str) -> (r: Vec<(String, String)>)
    ensures
        form_is(
            r@,
            seq![("grant_type"@, "refresh_token"@), ("refresh_token"@, refresh_token@)],
        ),
{
    let mut form: Vec<(String, String)> = Vec::new();
    form.push(pair("grant_type", "refresh_token"));
    form.push(pair("refresh_token", refresh_token));
    form
}

/// The form that exchanges an authorization code.
pub fn access_token_form(code: &str, redirect_uri: &str) -> (r: Vec<(String, String)>)
    ensures
        form_is(
            r@,
            seq![
                ("grant_type"@, "authorization_code"@),
                ("code"@, code@),
                ("redirect_uri"@, redirect_uri@),
            ],
        ),
{
    let mut form: Vec<(String, String)> = Vec::new();
    form.push(pair("grant_type", "authorization_code"));
    form.push(pair("code", code));
    form.push(pair("redirect_uri", redirect_uri));
    form
}

/// What the token endpoint answered: its status, its body, and the body read
/// as credentials where it could be.
#[derive(Clone, Debug)]
pub struct TokenReply {
    pub status: u16,
    pub body: String,
    pub credentials: Option<AccessTokenJson>,
}

pub open spec fn spec_access_token_result(reply: TokenReply) -> Result<
    (Seq<char>, Seq<char>),
    (ErrorType, Seq<char>),
> {
    if reply.status != 200 {
        Err((ErrorType::AuthorizationFailure, reply.body@))
    } else {
        match reply.credentials {
            None => Err((ErrorType::ServerFailure, "Malformed token response"@)),
            Some(c) => if c.access_token@.len() == 0 {
                Err((ErrorType::ServerFailure, "Empty access token"@))
            } else {
                Ok(c@)
            },
        }
    }
}

/// Reads the answer to a code exchange: anything but 200 is a refusal that
/// carries the body; a 200 must hold credentials with an access token.
pub fn access_token_result(reply: TokenReply) -> (r: Result<AccessTokenJson, Error>)
    ensures
        result_view(r) == spec_access_token_result(reply),
{
    if reply.status != 200 {
        return Err(Error { error_type: ErrorType::AuthorizationFailure, message: reply.body });
    }
    match reply.credentials {
        None => Err(Error::new(ErrorType::ServerFailure, "Malformed token response")),
        Some(c) => {
            if c.access_token.as_str().is_empty() {
                Err(Error::new(ErrorType::ServerFailure, "Empty access token"))
            } else {
                Ok(c)
            }
        },
    }
}

pub open spec fn spec_refresh_reply(status: u16, parsed: Option<RefreshTokenJson>) -> Result<
    RefreshTokenJson,
    (ErrorType, Seq<char>),
> {
    if status != 200 {
        Err((ErrorType::ServerFailure, "Couldn't refresh Spotify token"@))
    } else {
        match parsed {
            None => Err((ErrorType::ServerFailure, "Malformed token response"@)),
            Some(json) => Ok(json),
        }
    }
}

/// Reads the answer to a refresh: a status other than 200 is a refusal by the
/// server, and a 200 must hold an access token.
pub fn refresh_reply(status: u16, parsed: Option<RefreshTokenJson>) -> (r: Result<
    RefreshTokenJson,
    Error,
>)
    ensures
        match spec_refresh_reply(status, parsed) {
            Ok(json) => r == Ok::<RefreshTokenJson, Error>(json),
            Err(e) => r is Err && error_view(r->Err_0) == e,
        },
{
    if status != 200 {
        return Err(Error::new(ErrorType::ServerFailure, "Couldn't refresh Spotify token"));
    }
    match parsed {
        None => Err(Error::new(ErrorType::ServerFailure, "Malformed token response")),
        Some(json) => Ok(json),
    }
}

pub uninterp spec fn base64_of(s: Seq<char>) -> Seq<char>;

/// Relies on base64's `STANDARD` engine `encode`: the padded standard
/// encoding of the text's UTF-8 bytes, which depends on the text alone. Its
/// one panic, on a length whose encoding overflows `usize`, needs an input
/// longer than a `str` can be.
#[verifier::external_body]
fn base64_standard(s: &str) -> (r: String)
    ensures
        r@ == base64_of(s@),
{
    BASE64_STANDARD.encode(s)
}

/// `Basic <encoded>`, the value of an `Authorization` header.
pub fn basic_authorization_from_encoded(encoded: &str) -> (r: String)
    ensures
        r@ == "Basic "@ + encoded@,
{
    String::from_str("Basic ").concat(encoded)
}

/// The client's `Authorization` header value: `Basic` and the base64 of
/// `client_id:client_secret`.
pub fn basic_authorization(client_id: &str, client_secret: &str) -> (r: String)
    ensures
        r@ == "Basic "@ + base64_of(client_id@ + ":"@ + client_secret@),
{
    let plain = String::from_str(client_id).concat(":").concat(client_secret);
    let encoded = base64_standard(plain.as_str());
    basic_authorization_from_encoded(encoded.as_str())
}

pub open spec fn is_alphanumeric(c: char) -> bool {
    ('a' <= c && c <= 'z') || ('A' <= c && c <= 'Z') || ('0' <= c && c <= '9')
}

/// Relies on rand's `Alphanumeric.sample_string` with the thread generator
/// (`rand::rng`): `len` characters, each an ASCII letter or digit. The thread
/// generator panics only where the operating system offers no randomness to
/// seed it.
#[verifier::external_body]
fn random_alphanumeric(len: usize) -> (r: String)
    ensures
        r@.len() == len,
        forall|i: int| 0 <= i < r@.len() ==> is_alphanumeric(#[trigger] r@[i]),
{
    Alphanumeric.sample_string(&mut rand::rng(), len)
}

pub open spec fn redirect_uri_text(ip: Seq<char>, port: u16) -> Seq<char> {
    "http://"@ + ip + ":"@ + decimal(port as nat) + "/callback"@
}

/// The address the provider redirects the browser to.
pub fn get_redirect_uri(ip: &str, port: u16) -> (r: String)
    ensures
        r@ == redirect_uri_text(ip@, port),
{
    let port_text = decimal_text(port);
    String::from_str("http://").concat(ip).concat(":").concat(port_text.as_str()).concat(
        "/callback",
    )
}

pub open spec fn authorize_url_text(
    client_id: Seq<char>,
    redirect_uri: Seq<char>,
    state: Seq<char>,
) -> Seq<char> {
    "https://accounts.spotify.com/authorize"@ + "?response_type=code"@ + "&client_id="@
        + client_id + "&scope=user-read-currently-playing"@ + "&redirect_uri="@ + redirect_uri
        + "&state="@ + state
}

/// The address that asks the user to grant access.
pub fn get_authorize_url(client_id: &str, redirect_uri: &str, state: &str) -> (r: String)
    ensures
        r@ == authorize_url_text(client_id@, redirect_uri@, state@),
{
    String::from_str(AUTHORIZE_API_LINK).concat("?response_type=code").concat(
        "&client_id=",
    ).concat(client_id).concat("&scope=user-read-currently-playing").concat(
        "&redirect_uri=",
    ).concat(redirect_uri).concat("&state=").concat(state)
}

/// Where an authorization attempt stands.
#[derive(Clone, Copy, Debug, PartialEq, Eq, Structural)]
pub enum FlowPhase {
    AwaitingCallback,
    AwaitingToken,
    Completed,
    Failed,
}

/// The phase after the callback brings back `state` for an attempt that sent
/// `csrf_state`.
pub open spec fn phase_after_callback(csrf_state: Seq<char>, state: Seq<char>) -> FlowPhase {
    if state == csrf_state {
        FlowPhase::AwaitingToken
    } else {
        FlowPhase::Failed
    }
}

/// The store after a token exchange answered with `outcome` in phase `phase`:
/// credentials are kept only from an exchange that was due and succeeded.
pub open spec fn store_after_exchange(
    phase: FlowPhase,
    store: Map<Platform, (Seq<char>, Seq<char>)>,
    outcome: Result<(Seq<char>, Seq<char>), (ErrorType, Seq<char>)>,
) -> Map<Platform, (Seq<char>, Seq<char>)> {
    if phase == FlowPhase::AwaitingToken && outcome is Ok {
        save_spec(store, Platform::Spotify, outcome->Ok_0)
    } else {
        store
    }
}

pub open spec fn spec_exchange_result(
    phase: FlowPhase,
    exchange: Result<TokenReply, Error>,
) -> Result<(Seq<char>, Seq<char>), (ErrorType, Seq<char>)> {
    if phase != FlowPhase::AwaitingToken {
        Err((ErrorType::AuthorizationFailure, "No authorization code to exchange"@))
    } else {
        match exchange {
            Err(e) => Err(error_view(e)),
            Ok(reply) => spec_access_token_result(reply),
        }
    }
}

/// One authorization-code attempt: the state token it sent, the redirect
/// address, and the address the browser is sent to.
pub struct AuthorizationFlow {
    pub csrf_state: String,
    pub redirect_uri: String,
    pub authorize_url: String,
    pub phase: FlowPhase,
}

impl AuthorizationFlow {
    /// An attempt guarded by the given state token.
    pub fn with_state(client_id: &str, info: &LoginServerInfo, csrf_state: String) -> (r: Self)
        ensures
            r.csrf_state@ == csrf_state@,
            r.redirect_uri@ == redirect_uri_text(info.ip@, info.port),
            r.authorize_url@ == authorize_url_text(client_id@, r.redirect_uri@, csrf_state@),
            r.phase == FlowPhase::AwaitingCallback,
    {
        let redirect_uri = get_redirect_uri(info.ip.as_str(), info.port);
        let authorize_url = get_authorize_url(
            client_id,
            redirect_uri.as_str(),
            csrf_state.as_str(),
        );
        AuthorizationFlow {
            csrf_state,
            redirect_uri,
            authorize_url,
            phase: FlowPhase::AwaitingCallback,
        }
    }

    /// A fresh attempt with a random state token of sixteen letters and digits.
    pub fn start(client_id: &str, info: &LoginServerInfo) -> (r: Self)
        ensures
            r.csrf_state@.len() == STATE_LEN,
            forall|i: int| 0 <= i < r.csrf_state@.len() ==> is_alphanumeric(#[trigger] r.csrf_state@[i]),
            r.redirect_uri@ == redirect_uri_text(info.ip@, info.port),
            r.authorize_url@ == authorize_url_text(client_id@, r.redirect_uri@, r.csrf_state@),
            r.phase == FlowPhase::AwaitingCallback,
    {
        let csrf_state = random_alphanumeric(STATE_LEN);
        Self::with_state(client_id, info, csrf_state)
    }

    /// Takes the callback's `code` and `state`. A state that differs from the
    /// token sent fails the attempt; a matching one gives the form that
    /// exchanges the code.
    pub fn on_callback(&mut self, code: &str, state: &str) -> (r: Result<Vec<(String, String)>, Error>)
        requires
            old(self).phase == FlowPhase::AwaitingCallback,
        ensures
            final(self).phase == phase_after_callback(old(self).csrf_state@, state@),
            final(self).csrf_state == old(self).csrf_state,
            final(self).redirect_uri == old(self).redirect_uri,
            final(self).authorize_url == old(self).authorize_url,
            state@ == old(self).csrf_state@ ==> r is Ok && form_is(
                r->Ok_0@,
                seq![
                    ("grant_type"@, "authorization_code"@),
                    ("code"@, code@),
                    ("redirect_uri"@, old(self).redirect_uri@),
                ],
            ),
            state@ != old(self).csrf_state@ ==> r is Err && r->Err_0.is(
                ErrorType::AuthorizationFailure,
                "Different state between authorization URL and callback"@,
            ),
    {
        let same = self.csrf_state == String::from_str(state);
        if same {
            self.phase = FlowPhase::AwaitingToken;
            Ok(access_token_form(code, self.redirect_uri.as_str()))
        } else {
            self.phase = FlowPhase::Failed;
            Err(
                Error::new(
                    ErrorType::AuthorizationFailure,
                    "Different state between authorization URL and callback",
                ),
            )
        }
    }

    /// Takes the answer to the code exchange. Only an exchange that was due
    /// and succeeded stores credentials, under Spotify.
    pub fn on_token_response(
        &mut self,
        store: &mut CredentialStore,
        exchange: Result<TokenReply, Error>,
    ) -> (r: Result<AccessTokenJson, Error>)
        ensures
            result_view(r) == spec_exchange_result(old(self).phase, exchange),
            final(store)@ == store_after_exchange(old(self).phase, old(store)@, result_view(r)),
            final(self).phase == (if old(self).phase != FlowPhase::AwaitingToken {
                old(self).phase
            } else if r is Ok {
                FlowPhase::Completed
            } else {
                FlowPhase::Failed
            }),
            final(self).csrf_state == old(self).csrf_state,
            final(self).redirect_uri == old(self).redirect_uri,
            final(self).authorize_url == old(self).authorize_url,
    {
        if self.phase != FlowPhase::AwaitingToken {
            return Err(
                Error::new(ErrorType::AuthorizationFailure, "No authorization code to exchange"),
            );
        }
        let r = match exchange {
            Err(e) => Err(e),
            Ok(reply) => access_token_result(reply),
        };
        match &r {
            Ok(creds) => {
                store.save(Platform::Spotify, creds.copied());
                self.phase = FlowPhase::Completed;
            },
            Err(_) => {
                self.phase = FlowPhase::Failed;
            },
        }
        r
    }
}

pub open spec fn pair_is(p: (String, String), first: Seq<char>, second: Seq<char>) -> bool {
    p.0@ == first && p.1@ == second
}

/// The handoff between the callback handler and the flow: the first callback's
/// `code` and `state` are kept, and later ones are ignored.
#[derive(Debug, Default)]
pub struct CallbackSlot {
    pub received: Option<(String, String)>,
}

impl CallbackSlot {
    pub fn new() -> (r: CallbackSlot)
        ensures
            r.received is None,
    {
        CallbackSlot { received: None }
    }

    /// Keeps `code` and `state` if nothing was received yet; tells whether it did.
    pub fn record(&mut self, code: String, state: String) -> (r: bool)
        ensures
            r == old(self).received is None,
            r ==> final(self).received is Some && pair_is(final(self).received->0, code@, state@),
            !r ==> final(self).received == old(self).received,
    {
        if self.received.is_some() {
            return false;
        }
        self.received = Some((code, state));
        true
    }

    /// Hands out what was received, once.
    pub fn take(&mut self) -> (r: Option<(String, String)>)
        ensures
            r == old(self).received,
            final(self).received is None,
    {
        let r = self.received.take();
        r
    }
}

/// A callback whose state differs from the token sent fails the attempt with
/// an authorization failure, and whatever the token endpoint answers after
/// that, nothing is stored.
pub proof fn lemma_state_mismatch_never_persists(
    csrf_state: Seq<char>,
    state: Seq<char>,
    store: Map<Platform, (Seq<char>, Seq<char>)>,
    exchange: Result<TokenReply, Error>,
)
    requires
        state != csrf_state,
    ensures
        phase_after_callback(csrf_state, state) == FlowPhase::Failed,
        spec_exchange_result(phase_after_callback(csrf_state, state), exchange) is Err,
        store_after_exchange(
            phase_after_callback(csrf_state, state),
            store,
            spec_exchange_result(phase_after_callback(csrf_state, state), exchange),
        ) == store,
{
}

} // verus!
