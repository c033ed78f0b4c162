//! User-level application settings and their documented defaults.

use vstd::prelude::*;
use vstd::string::StringExecFns;

verus! {

/// The user-level settings that drive configuration assembly: DNS resolvers,
/// inbound bind addresses and ports, protocol toggles and the TCP fast-open
/// flag.
pub struct AppConfig {
    pub dns: Vec<String>,
    pub socks_port: i32,
    pub socks_bind: String,
    pub http_port: i32,
    pub http_bind: String,
    pub tcp_fast_open: bool,
    pub http_status: bool,
    pub sock5_status: bool,
}

/// The settings used when no stored configuration exists.
pub fn get_default_config() -> (r: AppConfig)
    ensures
        r.dns@.len() == 3,
        r.dns@[0]@ == "1.1.1.1"@,
        r.dns@[1]@ == "8.8.8.8"@,
        r.dns@[2]@ == "8.8.4.4"@,
        r.socks_port == 11451,
        r.socks_bind@ == "127.0.0.1"@,
        r.http_port == 11452,
        r.http_bind@ == "127.0.0.1"@,
        !r.tcp_fast_open,
        r.http_status,
        r.sock5_status,
{
    let mut dns: Vec<String> = Vec::new();
    dns.push(String::from_str("1.1.1.1"));
    dns.push(String::from_str("8.8.8.8"));
    dns.push(String::from_str("8.8.4.4"));
    AppConfig {
        dns,
        socks_port: 11451,
        socks_bind: String::from_str("127.0.0.1"),
        http_port: 11452,
        http_bind: String::from_str("127.0.0.1"),
        tcp_fast_open: false,
        http_status: true,
        sock5_status: true,
    }
}

} // verus!
