//! Service addresses derived from the host's configured IP.
use vstd::prelude::*;
use crate::text::{join3, owned, text_eq};

verus! {

/// The address the API server listens on for RPC: `{ip}:47001`.
pub fn open_server(host_ip: &str) -> (r: String)
    ensures
        r@ == host_ip@ + ":47001"@,
{
    let mut r = owned(host_ip);
    r.append(":47001");
    r
}

/// The address the API server listens on for REST: `{ip}:47099`.
pub fn open_rest_server(host_ip: &str) -> (r: String)
    ensures
        r@ == host_ip@ + ":47099"@,
{
    let mut r = owned(host_ip);
    r.append(":47099");
    r
}

/// The URL clients use to reach the API server: `http://{ip}:47001`.
pub fn connect_server(host_ip: &str) -> (r: String)
    ensures
        r@ == "http://"@ + host_ip@ + ":47001"@,
{
    join3("http://", host_ip, ":47001")
}

/// The IP a node reports: the configured one unless it is empty or the
/// wildcard `0.0.0.0`, else the loopback address.
pub fn get_local_ip(configured_ip: &str) -> (r: String)
    ensures
        !(configured_ip@.len() == 0 || configured_ip@ == "0.0.0.0"@) ==> r@ == configured_ip@,
        (configured_ip@.len() == 0 || configured_ip@ == "0.0.0.0"@) ==> r@ == "127.0.0.1"@,
{
    if configured_ip.unicode_len() != 0 && !text_eq(configured_ip, "0.0.0.0") {
        owned(configured_ip)
    } else {
        owned("127.0.0.1")
    }
}

} // verus!
