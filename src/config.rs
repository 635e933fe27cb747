use vstd::prelude::*;

verus! {

/// Largest request body the service takes: 64 MiB.
pub const MAX_BODY_BYTES: u64 = 64 * 1024 * 1024;

/// The settings of the service, fixed when it starts.
pub struct Config {
    pub pkg_version: String,
    pub paste_dir: String,
    pub server_host: String,
    pub server_port: u16,
    pub paste_bearer_token: String,
}

pub fn default_pkg_version() -> (r: String)
    ensures
        r@ == "0.1.0"@,
{
    "0.1.0".to_owned()
}

pub fn default_paste_dir() -> (r: String)
    ensures
        r@ == "pastes"@,
{
    "pastes".to_owned()
}

pub fn default_server_host() -> (r: String)
    ensures
        r@ == "127.0.0.1"@,
{
    "127.0.0.1".to_owned()
}

pub fn default_server_port() -> (r: u16)
    ensures
        r == 80,
{
    80
}

impl Config {
    /// Builds the settings from the values that were given, with the
    /// defaults for those that were not. The bearer secret has no default.
    pub fn with_defaults(
        paste_dir: Option<String>,
        server_host: Option<String>,
        server_port: Option<u16>,
        paste_bearer_token: String,
    ) -> (r: Config)
        ensures
            r.pkg_version@ == "0.1.0"@,
            r.paste_dir@ == (match paste_dir {
                Some(d) => d@,
                None => "pastes"@,
            }),
            r.server_host@ == (match server_host {
                Some(h) => h@,
                None => "127.0.0.1"@,
            }),
            r.server_port == (match server_port {
                Some(p) => p,
                None => 80,
            }),
            r.paste_bearer_token@ == paste_bearer_token@,
    {
        Config {
            pkg_version: default_pkg_version(),
            paste_dir: match paste_dir {
                Some(d) => d,
                None => default_paste_dir(),
            },
            server_host: match server_host {
                Some(h) => h,
                None => default_server_host(),
            },
            server_port: match server_port {
                Some(p) => p,
                None => default_server_port(),
            },
            paste_bearer_token,
        }
    }
}

} // verus!
