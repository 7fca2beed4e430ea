use imaginal::commands::connect::{get_server_info, LoginServerInfo, DEFAULT_PORT};
use imaginal::config::Config;
use imaginal::database::spotify::{get_creds, set_creds};
use imaginal::database::CredentialStore;
use imaginal::providers::spotify::connection::{
    access_token_result, basic_authorization, basic_authorization_from_encoded, get_authorize_url,
    get_redirect_uri, AccessTokenJson, AuthorizationFlow, CallbackSlot, FlowPhase, TokenReply,
};
use imaginal::providers::{ConnectStep, Error, ErrorType, Platform, Provider};

fn info() -> LoginServerInfo {
    LoginServerInfo { ip: "127.0.0.1".to_string(), port: 9761 }
}

fn ok_reply(access: &str, refresh: &str) -> TokenReply {
    TokenReply {
        status: 200,
        body: String::new(),
        credentials: Some(AccessTokenJson {
            access_token: access.to_string(),
            refresh_token: refresh.to_string(),
        }),
    }
}

#[test]
fn redirect_uri_and_authorize_url() {
    assert_eq!(get_redirect_uri("127.0.0.1", 9761), "http://127.0.0.1:9761/callback");
    assert_eq!(
        get_authorize_url("cid", "http://h:1/callback", "abc"),
        "https://accounts.spotify.com/authorize?response_type=code&client_id=cid\
         &scope=user-read-currently-playing&redirect_uri=http://h:1/callback&state=abc"
    );
}

#[test]
fn basic_authorization_encodes_credentials() {
    assert_eq!(basic_authorization("id", "secret"), "Basic aWQ6c2VjcmV0");
    assert_eq!(basic_authorization("client", "s3cr3t"), "Basic Y2xpZW50OnMzY3IzdA==");
    assert_eq!(basic_authorization_from_encoded("xyz"), "Basic xyz");
}

#[test]
fn start_draws_a_sixteen_character_state() {
    let flow = AuthorizationFlow::start("cid", &info());
    assert_eq!(flow.csrf_state.len(), 16);
    assert!(flow.csrf_state.chars().all(|c| c.is_ascii_alphanumeric()));
    assert_eq!(flow.phase, FlowPhase::AwaitingCallback);
    assert!(flow.authorize_url.contains("response_type=code"));
    assert!(flow.authorize_url.ends_with(&format!("&state={}", flow.csrf_state)));
    let other = AuthorizationFlow::start("cid", &info());
    assert_ne!(flow.csrf_state, other.csrf_state);
}

#[test]
fn state_mismatch_fails_and_stores_nothing() {
    let mut store = CredentialStore::new();
    let mut flow = AuthorizationFlow::with_state("cid", &info(), "AAAAbbbbCCCCdddd".to_string());
    let err = flow.on_callback("abc123", "AAAAbbbbCCCCddde").unwrap_err();
    assert_eq!(err.error_type, ErrorType::AuthorizationFailure);
    assert_eq!(err.message, "Different state between authorization URL and callback");
    assert_eq!(flow.phase, FlowPhase::Failed);
    let err = flow.on_token_response(&mut store, Ok(ok_reply("AT1", "RT1"))).unwrap_err();
    assert_eq!(err.error_type, ErrorType::AuthorizationFailure);
    assert!(store.load(Platform::Spotify).is_none());
}

#[test]
fn scenario_connect_without_stored_credentials() {
    let mut store = CredentialStore::new();
    let mut session = Provider::new(Platform::Spotify);
    assert_eq!(session.connect(get_creds(&store)), ConnectStep::Authorize);

    let mut flow = AuthorizationFlow::start("cid", &info());
    assert!(flow.authorize_url.contains("response_type=code"));
    assert!(flow.authorize_url.contains(&format!("state={}", flow.csrf_state)));
    assert_eq!(flow.csrf_state.len(), 16);

    let state = flow.csrf_state.clone();
    let form = flow.on_callback("abc123", &state).unwrap();
    assert_eq!(form[0], ("grant_type".to_string(), "authorization_code".to_string()));
    assert_eq!(form[1], ("code".to_string(), "abc123".to_string()));
    assert_eq!(
        form[2],
        ("redirect_uri".to_string(), "http://127.0.0.1:9761/callback".to_string())
    );
    let creds = flow.on_token_response(&mut store, Ok(ok_reply("AT1", "RT1"))).unwrap();
    assert_eq!(flow.phase, FlowPhase::Completed);
    let stored = get_creds(&store).unwrap();
    assert_eq!(stored.access_token, "AT1");
    assert_eq!(stored.refresh_token, "RT1");

    assert!(session.finish_connect(Ok(creds)).is_ok());
    assert_eq!(session.bearer().unwrap(), "Bearer AT1");
}

#[test]
fn token_exchange_refused_carries_body() {
    let mut store = CredentialStore::new();
    let mut flow = AuthorizationFlow::with_state("cid", &info(), "s".to_string());
    flow.on_callback("code", "s").unwrap();
    let reply = TokenReply { status: 400, body: "invalid_grant".to_string(), credentials: None };
    let err = flow.on_token_response(&mut store, Ok(reply)).unwrap_err();
    assert_eq!(err.error_type, ErrorType::AuthorizationFailure);
    assert_eq!(err.message, "invalid_grant");
    assert_eq!(flow.phase, FlowPhase::Failed);
    assert!(get_creds(&store).is_none());
}

#[test]
fn token_exchange_transport_failure() {
    let mut store = CredentialStore::new();
    let mut flow = AuthorizationFlow::with_state("cid", &info(), "s".to_string());
    flow.on_callback("code", "s").unwrap();
    let err = flow
        .on_token_response(&mut store, Err(Error::new(ErrorType::TransportFailure, "refused")))
        .unwrap_err();
    assert_eq!(err.error_type, ErrorType::TransportFailure);
    assert!(get_creds(&store).is_none());
}

#[test]
fn access_token_result_cases() {
    assert_eq!(access_token_result(ok_reply("A", "R")).unwrap().access_token, "A");
    let malformed = TokenReply { status: 200, body: "{}".to_string(), credentials: None };
    assert_eq!(access_token_result(malformed).unwrap_err().error_type, ErrorType::ServerFailure);
    assert_eq!(
        access_token_result(ok_reply("", "R")).unwrap_err().error_type,
        ErrorType::ServerFailure
    );
}

#[test]
fn server_info_defaults_and_overrides() {
    let c = Config::default();
    let i = get_server_info(&c).unwrap();
    assert_eq!(i.ip, "0.0.0.0");
    assert_eq!(i.port, DEFAULT_PORT);
    assert_eq!(i.port, 9761);

    let mut c = Config::default();
    c.login_server_ip = Some("127.0.0.1".to_string());
    c.login_server_port = Some("8080".to_string());
    let i = get_server_info(&c).unwrap();
    assert_eq!(i.ip, "127.0.0.1");
    assert_eq!(i.port, 8080);

    c.login_server_port = Some("80a".to_string());
    let err = get_server_info(&c).unwrap_err();
    assert_eq!(err.error_type, ErrorType::ConfigurationError);
}

#[test]
fn saving_twice_then_loading_gives_what_was_saved() {
    let mut store = CredentialStore::new();
    let c = AccessTokenJson { access_token: "AT1".to_string(), refresh_token: "RT1".to_string() };
    set_creds(&mut store, c.clone());
    set_creds(&mut store, c.clone());
    let loaded = get_creds(&store).unwrap();
    assert_eq!(loaded.access_token, c.access_token);
    assert_eq!(loaded.refresh_token, c.refresh_token);
    assert!(store.load(Platform::LastFM).is_none());
    store.save(Platform::LastFM, c.copied());
    assert_eq!(store.load(Platform::LastFM).unwrap().access_token, "AT1");
}

#[test]
fn callback_slot_keeps_the_first_callback() {
    let mut slot = CallbackSlot::new();
    assert!(slot.record("abc123".to_string(), "s1".to_string()));
    assert!(!slot.record("other".to_string(), "s2".to_string()));
    let (code, state) = slot.take().unwrap();
    assert_eq!(code, "abc123");
    assert_eq!(state, "s1");
    assert!(slot.take().is_none());
}
