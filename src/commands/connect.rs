//! Settings of the local server that receives the authorization callback.
use vstd::prelude::*;

use crate::config::Config;
use crate::providers::{Error, ErrorType};
use crate::text::{is_u16_text, digits_value, parse_u16, unsigned_digits};

verus! {

/// Address the callback server binds when none is configured.
pub const DEFAULT_IP: &'static str = "0.0.0.0";

/// Port the callback server binds when none is configured.
pub const DEFAULT_PORT: u16 = 9761;

/// Where the callback server listens.
#[derive(Clone, Debug)]
pub struct LoginServerInfo {
    pub ip: String,
    pub port: u16,
}

/// The configured address and port, each falling back to its default. A
/// configured port that is not the text of a `u16` is a configuration error.
pub fn get_server_info(config: &Config) -> (r: Result<LoginServerInfo, Error>)
    ensures
        r is Ok <==> (config.login_server_port is None || is_u16_text(
            config.login_server_port->0@,
        )),
        r is Ok ==> (match config.login_server_ip {
            Some(ip) => r->Ok_0.ip@ == ip@,
            None => r->Ok_0.ip@ == "0.0.0.0"@,
        }),
        r is Ok ==> (match config.login_server_port {
            Some(port) => r->Ok_0.port as nat == digits_value(unsigned_digits(port@)),
            None => r->Ok_0.port == DEFAULT_PORT,
        }),
        r is Err ==> r->Err_0.is(ErrorType::ConfigurationError, "Invalid login server port"@),
{
    let port = match &config.login_server_port {
        Some(text) => match parse_u16(text.as_str()) {
            Some(p) => p,
            None => {
                return Err(Error::new(ErrorType::ConfigurationError, "Invalid login server port"));
            },
        },
        None => DEFAULT_PORT,
    };
    let ip = match &config.login_server_ip {
        Some(ip) => ip.clone(),
        None => String::from_str("0.0.0.0"),
    };
    Ok(LoginServerInfo { ip, port })
}

} // verus!
