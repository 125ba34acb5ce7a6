//! Addresses of endpoints, held as plain values.

use vstd::prelude::*;

verus! {

/// An IP address: the four octets of version 4, or the eight segments of version 6.
#[derive(Debug, Clone, Copy, PartialEq, Eq)]
pub enum IpAddress {
    V4([u8; 4]),
    V6([u16; 8]),
}

/// An IP address and a port.
#[derive(Debug, Clone, Copy, PartialEq, Eq)]
pub struct SocketAddress {
    pub ip: IpAddress,
    pub port: u16,
}

/// The address that a piece of text denotes, as the standard library's parser of
/// `IpAddr` reads it; `None` where it rejects the text.
pub uninterp spec fn ip_address_of(text: Seq<char>) -> Option<IpAddress>;

/// Reads an address with the standard library's `IpAddr::from_str` and copies out its
/// octets or segments. The outcome is a function of the text alone, which
/// `ip_address_of` names. On rejection the parser's own description is handed back.
#[verifier::external_body]
pub(crate) fn parse_ip_address(text: &str) -> (r: Result<IpAddress, String>)
    ensures
        r matches Ok(ip) ==> ip_address_of(text@) == Some(ip),
        r is Err ==> ip_address_of(text@) is None,
{
    match text.parse::<core::net::IpAddr>() {
        Ok(core::net::IpAddr::V4(v4)) => Ok(IpAddress::V4(v4.octets())),
        Ok(core::net::IpAddr::V6(v6)) => Ok(IpAddress::V6(v6.segments())),
        Err(error) => Err(format!("{error}")),
    }
}

} // verus!
