//! The outbound HTTP guard: the address policy of the client used for
//! fetching debug files from untrusted sources.
//!
//! The client factory produces two client kinds. A trusted client carries
//! no network-address policy. An untrusted client refuses connections to
//! any IPv4 address inside the reserved and private ranges, unless the
//! configuration allows reserved addresses globally. IPv6 is not filtered:
//! which IPv6 addresses would be internal is unknown, so IPv6 hosts bypass
//! the guard (a documented limitation). The decision functions live here;
//! wiring them into an HTTP client's connection hook is the embedding
//! program's part.

use vstd::prelude::*;

use crate::config::Config;

verus! {

/// An IP address as the guard sees it: an IPv4 address as its 32-bit
/// value, or an IPv6 address, which the guard does not inspect.
#[derive(Debug, Clone, Copy, PartialEq, Eq, Structural)]
pub enum IpAddr {
    /// An IPv4 address, most significant octet first.
    V4(u32),
    /// An IPv6 address as its 128-bit value.
    V6(u128),
}

/// Whether `ip` lies in one of the reserved or private IPv4 blocks:
/// 0/8, 10/8, 100.64/10, 127/8, 169.254/16, 172.16/12, 192.0.0/29,
/// 192.0.2/24, 192.88.99/24, 192.168/16, 198.18/15, 198.51.100/24, 224/4,
/// 240/4 and 255.255.255.255/32, each written as its inclusive range.
pub open spec fn spec_is_reserved_ipv4(ip: u32) -> bool {
    ||| ip <= 0x00FFFFFFu32  // 0.0.0.0/8
    ||| (0x0A000000u32 <= ip <= 0x0AFFFFFFu32)  // 10.0.0.0/8
    ||| (0x64400000u32 <= ip <= 0x647FFFFFu32)  // 100.64.0.0/10
    ||| (0x7F000000u32 <= ip <= 0x7FFFFFFFu32)  // 127.0.0.0/8
    ||| (0xA9FE0000u32 <= ip <= 0xA9FEFFFFu32)  // 169.254.0.0/16
    ||| (0xAC100000u32 <= ip <= 0xAC1FFFFFu32)  // 172.16.0.0/12
    ||| (0xC0000000u32 <= ip <= 0xC0000007u32)  // 192.0.0.0/29
    ||| (0xC0000200u32 <= ip <= 0xC00002FFu32)  // 192.0.2.0/24
    ||| (0xC0586300u32 <= ip <= 0xC05863FFu32)  // 192.88.99.0/24
    ||| (0xC0A80000u32 <= ip <= 0xC0A8FFFFu32)  // 192.168.0.0/16
    ||| (0xC6120000u32 <= ip <= 0xC613FFFFu32)  // 198.18.0.0/15
    ||| (0xC6336400u32 <= ip <= 0xC63364FFu32)  // 198.51.100.0/24
    ||| (0xE0000000u32 <= ip <= 0xEFFFFFFFu32)  // 224.0.0.0/4
    ||| ip >= 0xF0000000u32  // 240.0.0.0/4, including 255.255.255.255/32
}

/// Whether `ip` passes the guard as external: an IPv4 address outside
/// every reserved block. Which IPv6 addresses would be internal is not
/// known, so IPv6 is not inspected and passes: v6 hosts bypass the filter,
/// a documented limitation.
pub open spec fn spec_is_external(ip: IpAddr) -> bool {
    match ip {
        IpAddr::V4(v) => !spec_is_reserved_ipv4(v),
        IpAddr::V6(_) => true,
    }
}

/// The 32-bit value of the IPv4 address `a.b.c.d`.
pub fn ipv4_from_octets(a: u8, b: u8, c: u8, d: u8) -> (r: u32)
    ensures
        r == a * 0x1000000 + b * 0x10000 + c * 0x100 + d,
{
    (a as u32) * 0x1000000 + (b as u32) * 0x10000 + (c as u32) * 0x100 + (d as u32)
}

/// Says whether the untrusted client may connect to `ip`: true exactly for
/// IPv4 addresses outside the reserved blocks. A rejection is counted and
/// surfaced as a connection-level failure by the caller.
pub fn is_external_ip(ip: &IpAddr) -> (r: bool)
    ensures
        r == spec_is_external(*ip),
{
    let v = match ip {
        IpAddr::V4(v) => *v,
        IpAddr::V6(_) => {
            return true;
        },
    };
    if v <= 0x00FFFFFFu32 {
        return false;
    }
    if 0x0A000000u32 <= v && v <= 0x0AFFFFFFu32 {
        return false;
    }
    if 0x64400000u32 <= v && v <= 0x647FFFFFu32 {
        return false;
    }
    if 0x7F000000u32 <= v && v <= 0x7FFFFFFFu32 {
        return false;
    }
    if 0xA9FE0000u32 <= v && v <= 0xA9FEFFFFu32 {
        return false;
    }
    if 0xAC100000u32 <= v && v <= 0xAC1FFFFFu32 {
        return false;
    }
    if 0xC0000000u32 <= v && v <= 0xC0000007u32 {
        return false;
    }
    if 0xC0000200u32 <= v && v <= 0xC00002FFu32 {
        return false;
    }
    if 0xC0586300u32 <= v && v <= 0xC05863FFu32 {
        return false;
    }
    if 0xC0A80000u32 <= v && v <= 0xC0A8FFFFu32 {
        return false;
    }
    if 0xC6120000u32 <= v && v <= 0xC613FFFFu32 {
        return false;
    }
    if 0xC6336400u32 <= v && v <= 0xC63364FFu32 {
        return false;
    }
    if 0xE0000000u32 <= v && v <= 0xEFFFFFFFu32 {
        return false;
    }
    if v >= 0xF0000000u32 {
        return false;
    }
    true
}

/// Whether a client built for this configuration applies the reserved-IP
/// filter: only untrusted clients do, and only while reserved addresses
/// are not allowed globally.
pub open spec fn spec_applies_ip_filter(config: Config, trusted: bool) -> bool {
    !trusted && !config.connect_to_reserved_ips
}

/// Whether a client of the given trust, built for this configuration, may
/// connect to `ip`: trusted clients and permissive configurations connect
/// anywhere; an untrusted client under the guard only to external
/// addresses.
pub open spec fn spec_connection_allowed(config: Config, trusted: bool, ip: IpAddr) -> bool {
    spec_applies_ip_filter(config, trusted) ==> spec_is_external(ip)
}

/// Decides whether a connection of a client of the given trust to `ip` is
/// allowed under `config`. This is the policy the client factory installs
/// as the connection hook of untrusted clients.
pub fn connection_allowed(config: &Config, trusted: bool, ip: &IpAddr) -> (r: bool)
    ensures
        r == spec_connection_allowed(*config, trusted, *ip),
{
    if trusted || config.connect_to_reserved_ips {
        true
    } else {
        is_external_ip(ip)
    }
}

/// Untrusted guard: with reserved addresses disallowed, an untrusted
/// client may not fetch from the loopback address, while the same fetch is
/// allowed once the configuration permits reserved addresses, and a
/// trusted client was never filtered.
pub proof fn lemma_untrusted_guard(blocked: Config, permissive: Config)
    requires
        blocked.connect_to_reserved_ips == false,
        permissive.connect_to_reserved_ips == true,
    ensures
        !spec_connection_allowed(blocked, false, IpAddr::V4(0x7F000001u32)),
        spec_connection_allowed(permissive, false, IpAddr::V4(0x7F000001u32)),
        spec_connection_allowed(blocked, true, IpAddr::V4(0x7F000001u32)),
{
}

} // verus!
