use vstd::prelude::*;

use crate::errors::TransferError;

verus! {

/// The resolved address of the client behind the current request, as plain
/// values: four octets for IPv4, eight 16-bit segments for IPv6.
#[derive(Clone, Copy, Debug, PartialEq, Eq, Structural)]
pub enum ClientIp {
    V4(u8, u8, u8, u8),
    V6(u16, u16, u16, u16, u16, u16, u16, u16),
}

/// A loopback address: 127.0.0.0/8 for IPv4, `::1` for IPv6.
pub open spec fn spec_is_loopback(ip: ClientIp) -> bool {
    match ip {
        ClientIp::V4(a, _b, _c, _d) => a == 127,
        ClientIp::V6(s0, s1, s2, s3, s4, s5, s6, s7) => s0 == 0 && s1 == 0 && s2 == 0 && s3
            == 0 && s4 == 0 && s5 == 0 && s6 == 0 && s7 == 1,
    }
}

/// An address of the local machine or of a private network: loopback,
/// the RFC1918 IPv4 ranges 10/8, 172.16/12 and 192.168/16, the IPv4
/// link-local range 169.254/16, and for IPv6 the unique-local block
/// fc00::/7 and the link-local block fe80::/10.
pub open spec fn spec_is_local_or_private(ip: ClientIp) -> bool {
    spec_is_loopback(ip) || match ip {
        ClientIp::V4(a, b, _c, _d) => a == 10 || (a == 172 && 16 <= b <= 31) || (a == 192 && b
            == 168) || (a == 169 && b == 254),
        ClientIp::V6(s0, _s1, _s2, _s3, _s4, _s5, _s6, _s7) => (s0 & 0xfe00) == 0xfc00 || (s0
            & 0xffc0) == 0xfe80,
    }
}

/// Whether the client address belongs to the local machine or to a private
/// network, as the private-range admission policy defines it.
pub fn is_local_or_private_ip(ip: &ClientIp) -> (allowed: bool)
    ensures
        allowed == spec_is_local_or_private(*ip),
{
    match ip {
        ClientIp::V4(a, b, _c, _d) => {
            *a == 127 || *a == 10 || (*a == 172 && 16 <= *b && *b <= 31) || (*a == 192 && *b
                == 168) || (*a == 169 && *b == 254)
        },
        ClientIp::V6(s0, s1, s2, s3, s4, s5, s6, s7) => {
            (*s0 == 0 && *s1 == 0 && *s2 == 0 && *s3 == 0 && *s4 == 0 && *s5 == 0 && *s6 == 0
                && *s7 == 1) || (*s0 & 0xfe00) == 0xfc00 || (*s0 & 0xffc0) == 0xfe80
        },
    }
}

/// The admission policy the access gate applies to every inbound request.
#[derive(Clone, Copy, Debug, PartialEq, Eq, Structural)]
pub enum AdmissionPolicy {
    /// Allow exactly one address and reject every other.
    ExactAllow(ClientIp),
    /// Allow loopback, private-range and link-local addresses; reject
    /// public ones.
    LocalPrivate,
}

/// Whether the policy admits the given client address.
pub open spec fn spec_admits(policy: AdmissionPolicy, ip: ClientIp) -> bool {
    match policy {
        AdmissionPolicy::ExactAllow(allowed) => ip == allowed,
        AdmissionPolicy::LocalPrivate => spec_is_local_or_private(ip),
    }
}

/// The access gate: evaluates the resolved client address against the
/// admission policy before any handler runs. Admitted requests proceed;
/// all others are answered `Forbidden`, whatever the target route.
pub fn check_client_ip(policy: &AdmissionPolicy, ip: &ClientIp) -> (verdict: Result<
    (),
    TransferError,
>)
    ensures
        verdict is Ok <==> spec_admits(*policy, *ip),
        verdict is Err ==> verdict->Err_0 == TransferError::Forbidden,
{
    let admitted = match policy {
        AdmissionPolicy::ExactAllow(allowed) => *ip == *allowed,
        AdmissionPolicy::LocalPrivate => is_local_or_private_ip(ip),
    };
    if admitted {
        Ok(())
    } else {
        Err(TransferError::Forbidden)
    }
}

} // verus!
