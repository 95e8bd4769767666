//! Reading the address that a request came from.

use crate::errors::InternalError;
use vstd::prelude::*;

verus! {

/// An IP network: an address with the length of its network prefix.
#[allow(inconsistent_fields)]
#[derive(Clone, Copy, Debug, PartialEq, Eq, Structural)]
pub enum IpNetwork {
    V4 { addr: u32, prefix: u8 },
    V6 { addr: u128, prefix: u8 },
}

/// What `ipnetwork` reads from a text: the network it denotes, or nothing
/// where the text denotes none.
pub uninterp spec fn ip_network_from_str(s: Seq<char>) -> Option<IpNetwork>;

/// Reads a network from text with `<ipnetwork::IpNetwork as FromStr>::from_str`,
/// which tries an IPv4 network, then an IPv6 one, each written as an address
/// with an optional `/` and prefix. The result is named by
/// `ip_network_from_str` of the text; what the source's constructors
/// `Ipv4Network::new` and `Ipv6Network::new` check is stated too: a prefix is
/// at most 32 bits for IPv4 and at most 128 for IPv6.
#[verifier::external_body]
fn parse_ip_network(s: &str) -> (r: Option<IpNetwork>)
    ensures
        r == ip_network_from_str(s@),
        r matches Some(IpNetwork::V4 { prefix, .. }) ==> prefix <= 32,
        r matches Some(IpNetwork::V6 { prefix, .. }) ==> prefix <= 128,
{
    match s.parse::<ipnetwork::IpNetwork>() {
        Ok(ipnetwork::IpNetwork::V4(n)) => Some(
            IpNetwork::V4 { addr: u32::from(n.ip()), prefix: n.prefix() },
        ),
        Ok(ipnetwork::IpNetwork::V6(n)) => Some(
            IpNetwork::V6 { addr: u128::from(n.ip()), prefix: n.prefix() },
        ),
        Err(_) => None,
    }
}

/// The error for a request without a remote address.
pub open spec fn missing_address_error() -> InternalError {
    InternalError::ParseIpError("Failed to retrieve remote address.")
}

/// The error for a remote address that is not an IP network.
pub open spec fn malformed_address_error() -> InternalError {
    InternalError::ParseIpError("Failed to parse valid remote address.")
}

/// What reading the client's address gives once the address text has been
/// parsed: the network, or the error for a malformed address.
pub open spec fn spec_client_ip_from_parsed(parsed: Option<IpNetwork>) -> Result<
    IpNetwork,
    InternalError,
> {
    match parsed {
        Some(n) => Ok(n),
        None => Err(malformed_address_error()),
    }
}

/// What reading the client's address gives: the error for a missing address,
/// else the parsed network or the error for a malformed one. The address is
/// taken as its text.
pub open spec fn spec_parse_client_ip(remote_addr: Option<Seq<char>>) -> Result<
    IpNetwork,
    InternalError,
> {
    match remote_addr {
        None => Err(missing_address_error()),
        Some(s) => spec_client_ip_from_parsed(ip_network_from_str(s)),
    }
}

/// The text of an optional address.
pub open spec fn address_text(remote_addr: Option<&str>) -> Option<Seq<char>> {
    match remote_addr {
        Some(s) => Some(s@),
        None => None,
    }
}

/// Turns the parse of the client's address into the network or the error
/// for a malformed address.
pub fn client_ip_from_parsed(parsed: Option<IpNetwork>) -> (r: Result<IpNetwork, InternalError>)
    ensures
        r == spec_client_ip_from_parsed(parsed),
{
    match parsed {
        Some(n) => Ok(n),
        None => Err(InternalError::ParseIpError("Failed to parse valid remote address.")),
    }
}

/// Reads the network of the client's address.
pub fn parse_client_ip(remote_addr: &Option<&str>) -> (r: Result<IpNetwork, InternalError>)
    ensures
        r == spec_parse_client_ip(address_text(*remote_addr)),
{
    let ip_address = match remote_addr {
        Some(s) => *s,
        None => {
            return Err(InternalError::ParseIpError("Failed to retrieve remote address."));
        },
    };
    client_ip_from_parsed(parse_ip_network(ip_address))
}

} // verus!
