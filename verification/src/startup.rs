//! Where the server listens, and how that is written down.
//!
//! The address of the machine and a free port are found outside this
//! library.  This module holds what is decided about them: the address used
//! where none was found, the port tried first, and the texts that name the
//! socket and the URL.

use crate::text::{decimal, decimal_string};
use vstd::prelude::*;

verus! {

/// The port that is tried first.
pub const FIRST_PORT: u16 = 5437;

/// The address that stands for every address of the machine.
pub open spec fn wildcard() -> Seq<char> {
    "0.0.0.0"@
}

/// The host to listen on: the address that was found, or the wildcard.
pub open spec fn host_of(found: Option<Seq<char>>) -> Seq<char> {
    match found {
        Some(address) => address,
        None => wildcard(),
    }
}

/// The port to try next: the free port that was found, or port 0, which
/// leaves the choice to the system.
pub open spec fn port_of(found: Option<u16>) -> u16 {
    match found {
        Some(port) => port,
        None => 0,
    }
}

/// The name of the socket `host:port`.
pub open spec fn socket_name(host: Seq<char>, port: u16) -> Seq<char> {
    host + ":"@ + decimal(port as nat)
}

/// The URL `http://host:port`.
pub open spec fn url_text(host: Seq<char>, port: u16) -> Seq<char> {
    "http://"@ + socket_name(host, port)
}

/// The host to listen on: `found`, or the wildcard address where no address
/// was found.
pub fn host_or_wildcard(found: Option<String>) -> (host: String)
    ensures
        host@ == host_of(
            match found {
                Some(address) => Some(address@),
                None => None,
            },
        ),
{
    match found {
        Some(address) => address,
        None => String::from_str("0.0.0.0"),
    }
}

/// The port to try after a failed bind: `found`, or 0 where no free port was
/// found.
pub fn port_or_zero(found: Option<u16>) -> (port: u16)
    ensures
        port == port_of(found),
{
    match found {
        Some(port) => port,
        None => 0,
    }
}

/// The name of the socket to bind.
pub fn bind_address(host: &str, port: u16) -> (out: String)
    ensures
        out@ == socket_name(host@, port),
{
    let mut out = String::from_str(host);
    out.append(":");
    let digits = decimal_string(port as u128);
    out.append(digits.as_str());
    out
}

/// The URL under which the server is reached.
pub fn server_url(host: &str, port: u16) -> (out: String)
    ensures
        out@ == url_text(host@, port),
{
    let mut out = String::from_str("http://");
    let socket = bind_address(host, port);
    out.append(socket.as_str());
    out
}

} // verus!
