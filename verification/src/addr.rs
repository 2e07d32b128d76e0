//! A socket address as plain values.
//!
//! The engine only carries addresses through: the sender address of the
//! datagram currently buffered, and the destination of the pending message.
//! It never looks inside one, so an address is modelled by its numeric
//! parts and converted at the transport boundary.

use vstd::prelude::*;

verus! {

/// An IPv4 or IPv6 socket address, held as plain integers.
///
/// An IPv4 address is its four octets packed big-endian into a `u32`; an
/// IPv6 address is its sixteen octets packed big-endian into a `u128`.
#[derive(Clone, Copy, Debug, PartialEq, Eq, Structural)]
pub enum SockAddr {
    V4 { ip: u32, port: u16 },
    V6 { ip: u128, port: u16 },
}

impl SockAddr {
    /// The IPv4 address `a.b.c.d:port`.
    pub fn v4(a: u8, b: u8, c: u8, d: u8, port: u16) -> (r: SockAddr)
        ensures
            r == (SockAddr::V4 {
                ip: (a * 0x1000000 + b * 0x10000 + c * 0x100 + d) as u32,
                port,
            }),
    {
        SockAddr::V4 {
            ip: (a as u32) * 0x1000000 + (b as u32) * 0x10000 + (c as u32) * 0x100 + (d as u32),
            port,
        }
    }

    /// The unspecified IPv4 address `0.0.0.0:0`, the initial destination
    /// of a transmit engine before any message was submitted.
    pub fn unspecified() -> (r: SockAddr)
        ensures
            r == (SockAddr::V4 { ip: 0u32, port: 0u16 }),
    {
        SockAddr::V4 { ip: 0, port: 0 }
    }
}

} // verus!
