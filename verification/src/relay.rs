//! Decision core of the per-destination datagram relay handle.
//!
//! A relay handle owns one non-blocking UDP socket, bound to a local
//! wildcard address and associated with exactly one resolved destination.
//! The socket operations themselves are I/O and live in the unverified
//! shell around this crate; everything the handle's construction decides
//! is here: validating the port string, selecting the destination among
//! the resolver's answers, classifying the connect attempt's outcome, and
//! assembling the handle's identity (target, context id, link state).

use vstd::prelude::*;
use vstd::string::StringExecFns;

use crate::errors::Error;
use crate::text::dec_spec;
use crate::text::parse_u16;
use crate::text::parse_u16_spec;
use crate::text::u16_to_decimal;

verus! {

/// A destination or local IP address, held as plain values.
#[derive(Clone, Copy, Debug, PartialEq, Eq)]
pub enum IpAddress {
    /// IPv4: the four octets, in textual order.
    V4(u8, u8, u8, u8),
    /// IPv6: the sixteen octets as one big-endian 128-bit value.
    V6(u128),
}

/// A socket address: an IP address and a port.
#[derive(Clone, Copy, Debug, PartialEq, Eq)]
pub struct SockAddr {
    pub ip: IpAddress,
    pub port: u16,
}

/// Relay construction parameters. Today both fields have fixed defaults;
/// the multiplexing layer above is expected to supply real values later.
#[derive(Clone, Copy, Debug, PartialEq, Eq)]
pub struct RelayConfig {
    /// Local address the relay socket is bound to.
    pub bind_addr: SockAddr,
    /// Context identifier carried by the handle for the caller's
    /// datagram-multiplexing needs.
    pub context_id: u64,
}

/// The documented default configuration: bind to the IPv4 wildcard on an
/// ephemeral port, context id zero.
pub open spec fn default_config() -> RelayConfig {
    RelayConfig {
        bind_addr: SockAddr { ip: IpAddress::V4(0, 0, 0, 0), port: 0 },
        context_id: 0,
    }
}

impl Default for RelayConfig {
    /// IPv4 wildcard (`0.0.0.0`), ephemeral port (`0`), context id `0`.
    fn default() -> (c: Self)
        ensures
            c == default_config(),
    {
        RelayConfig {
            bind_addr: SockAddr { ip: IpAddress::V4(0, 0, 0, 0), port: 0 },
            context_id: 0,
        }
    }
}

/// What the shell observed when it asked the socket to associate with the
/// destination (UDP "connect": filter and default destination, no
/// handshake).
#[derive(Clone, Copy, Debug, PartialEq, Eq)]
pub enum ConnectOutcome {
    /// The association was made.
    Succeeded,
    /// The attempt reported a transient would-block condition; retrying
    /// is the caller's concern.
    WouldBlock,
    /// Any other failure.
    Failed,
}

/// Link state of a constructed handle: associated, or association still
/// pending after a would-block connect attempt.
#[derive(Clone, Copy, Debug, PartialEq, Eq)]
pub enum LinkState {
    Connected,
    Pending,
}

/// The identity of a constructed relay handle: the fields the verified
/// core decides. The shell pairs this with the socket it owns.
#[derive(Clone, Copy, Debug, PartialEq, Eq)]
pub struct RelayMeta {
    /// The resolved destination, immutable for the handle's lifetime.
    pub target: SockAddr,
    /// The caller's multiplexing tag, immutable for the handle's lifetime.
    pub context_id: u64,
    pub link: LinkState,
}

/// Port-string validation step of host/port construction: the string must
/// parse as a 16-bit unsigned integer and name an actual destination port
/// (nonzero). Anything else — malformed, out of range, or zero — fails
/// with `DestinationNotFound`, and with nothing else.
pub fn parse_port(port: &str) -> (r: Result<u16, Error>)
    ensures
        match parse_u16_spec(port@) {
            Some(p) => if p == 0 {
                r == Err::<u16, Error>(Error::DestinationNotFound)
            } else {
                r == Ok::<u16, Error>(p)
            },
            None => r == Err::<u16, Error>(Error::DestinationNotFound),
        },
{
    match parse_u16(port) {
        Some(p) => {
            if p == 0 {
                Err(Error::DestinationNotFound)
            } else {
                Ok(p)
            }
        },
        None => Err(Error::DestinationNotFound),
    }
}

/// The query string handed to the system resolver for a host and port:
/// `host`, a colon, and the port in decimal.
pub fn resolver_query(host: &str, port: u16) -> (q: String)
    ensures
        q@ == host@ + seq![':'] + dec_spec(port as int),
{
    let mut q = String::from_str(host);
    q.append(":");
    let p = u16_to_decimal(port);
    let r = q.concat(p.as_str());
    proof {
        reveal_strlit(":");
        assert(":"@ =~= seq![':']);
        assert(r@ =~= host@ + seq![':'] + dec_spec(port as int));
    }
    r
}

/// Destination selection after resolution. `resolved` is what the system
/// resolver produced for the query — `None` where the resolver itself
/// failed. The first returned address wins; a failed and an empty
/// resolution are both `DnsError`, deliberately undistinguished.
pub fn pick_destination(resolved: Option<Vec<SockAddr>>) -> (r: Result<SockAddr, Error>)
    ensures
        match resolved {
            None => r == Err::<SockAddr, Error>(Error::DnsError),
            Some(addrs) => if addrs@.len() == 0 {
                r == Err::<SockAddr, Error>(Error::DnsError)
            } else {
                r == Ok::<SockAddr, Error>(addrs@[0])
            },
        },
{
    match resolved {
        None => Err(Error::DnsError),
        Some(addrs) => {
            if addrs.len() == 0 {
                Err(Error::DnsError)
            } else {
                Ok(addrs[0])
            }
        },
    }
}

/// Final construction step of a relay handle, after the shell has bound
/// the socket and attempted the association: a failed connect attempt is
/// `ConnectionRefused`; a made or still-pending association yields the
/// handle's identity, with the configured context id and the link state
/// recording whether the association is complete.
pub fn establish(target: SockAddr, outcome: ConnectOutcome, config: &RelayConfig) -> (r: Result<
    RelayMeta,
    Error,
>)
    ensures
        match outcome {
            ConnectOutcome::Failed => r == Err::<RelayMeta, Error>(Error::ConnectionRefused),
            ConnectOutcome::Succeeded => r == Ok::<RelayMeta, Error>(
                (RelayMeta { target, context_id: config.context_id, link: LinkState::Connected }),
            ),
            ConnectOutcome::WouldBlock => r == Ok::<RelayMeta, Error>(
                (RelayMeta { target, context_id: config.context_id, link: LinkState::Pending }),
            ),
        },
{
    match outcome {
        ConnectOutcome::Failed => Err(Error::ConnectionRefused),
        ConnectOutcome::Succeeded => Ok(
            RelayMeta { target, context_id: config.context_id, link: LinkState::Connected },
        ),
        ConnectOutcome::WouldBlock => Ok(
            RelayMeta { target, context_id: config.context_id, link: LinkState::Pending },
        ),
    }
}

} // verus!
