//! Writing Zcash/Bitcoin wire types into a byte buffer.

use crate::bytes::{
    append, be_bytes, byte_range, le_bytes, le_value, lemma_le_bytes_value, u16_be, u16_le, u32_le,
    u64_le,
};
use vstd::prelude::*;
use vstd::string::StringSliceAdditionalSpecFns;

verus! {

/// The Bitcoin `CompactSize` encoding of `n`: one byte for values up to
/// `0xfc`, otherwise a marker byte (`0xfd`, `0xfe`, `0xff`) followed by the
/// value as a little-endian `u16`, `u32` or `u64`.
pub open spec fn compactsize(n: u64) -> Seq<u8> {
    if n <= 0xfc {
        seq![n as u8]
    } else if n <= 0xffff {
        seq![0xfdu8] + le_bytes(n as nat, 2)
    } else if n <= 0xffff_ffff {
        seq![0xfeu8] + le_bytes(n as nat, 4)
    } else {
        seq![0xffu8] + le_bytes(n as nat, 8)
    }
}

/// An IP address, by its octets in network order.
#[derive(Clone, Copy, Debug, PartialEq, Eq)]
pub enum IpAddr {
    V4([u8; 4]),
    V6([u8; 16]),
}

/// An IP address with a port.
#[derive(Clone, Copy, Debug, PartialEq, Eq)]
pub struct SocketAddr {
    pub ip: IpAddr,
    pub port: u16,
}

/// The sixteen octets of `addr` as an IPv6 address; an IPv4 address is
/// taken as the IPv4-mapped address `::ffff:a.b.c.d`.
pub open spec fn ipv6_octets(addr: IpAddr) -> Seq<u8> {
    match addr {
        IpAddr::V4(o) => seq![0u8, 0, 0, 0, 0, 0, 0, 0, 0, 0, 0xff, 0xff] + o@,
        IpAddr::V6(o) => o@,
    }
}

/// The Bitcoin encoding of a socket address: the IPv6 octets, then the port
/// in big-endian order.
pub open spec fn socket_addr_bytes(addr: SocketAddr) -> Seq<u8> {
    ipv6_octets(addr.ip) + be_bytes(addr.port as nat, 2)
}

/// The Bitcoin encoding of a string: its UTF-8 length as a `CompactSize`,
/// then its UTF-8 bytes.
pub open spec fn string_bytes(s: &str) -> Seq<u8> {
    compactsize(s.spec_bytes().len() as u64) + s.spec_bytes()
}

/// Extends a byte sink with methods for writing Zcash/Bitcoin types.
pub trait WriteZcashExt {
    /// Everything written to the sink so far.
    spec fn written(&self) -> Seq<u8>;

    /// Writes a `u64` using the Bitcoin `CompactSize` encoding.
    fn write_compactsize(&mut self, n: u64)
        ensures
            final(self).written() == old(self).written() + compactsize(n),
    ;

    /// Writes an IP address in Bitcoin format (sixteen IPv6 octets).
    fn write_ip_addr(&mut self, addr: IpAddr)
        ensures
            final(self).written() == old(self).written() + ipv6_octets(addr),
    ;

    /// Writes a socket address in Bitcoin format.
    fn write_socket_addr(&mut self, addr: SocketAddr)
        ensures
            final(self).written() == old(self).written() + socket_addr_bytes(addr),
    ;

    /// Writes a string in Bitcoin format.
    fn write_string(&mut self, string: &str)
        ensures
            final(self).written() == old(self).written() + string_bytes(string),
    ;

    /// Writes exactly 32 bytes.
    fn write_32_bytes(&mut self, bytes: &[u8; 32])
        ensures
            final(self).written() == old(self).written() + bytes@,
    ;

    /// Writes exactly 64 bytes.
    fn write_64_bytes(&mut self, bytes: &[u8; 64])
        ensures
            final(self).written() == old(self).written() + bytes@,
    ;
}

impl WriteZcashExt for Vec<u8> {
    open spec fn written(&self) -> Seq<u8> {
        self@
    }

    fn write_compactsize(&mut self, n: u64) {
        if n <= 0xfc {
            self.push(n as u8);
        } else if n <= 0xffff {
            self.push(0xfd);
            let b = u16_le(n as u16);
            append(self, &b);
        } else if n <= 0xffff_ffff {
            self.push(0xfe);
            let b = u32_le(n as u32);
            append(self, &b);
        } else {
            self.push(0xff);
            let b = u64_le(n);
            append(self, &b);
        }
    }

    fn write_ip_addr(&mut self, addr: IpAddr) {
        match addr {
            IpAddr::V4(o) => {
                let mapped: [u8; 12] = [0, 0, 0, 0, 0, 0, 0, 0, 0, 0, 0xff, 0xff];
                append(self, &mapped);
                append(self, &o);
                assert(mapped@ =~= seq![0u8, 0, 0, 0, 0, 0, 0, 0, 0, 0, 0xff, 0xff]);
            },
            IpAddr::V6(o) => {
                append(self, &o);
            },
        }
    }

    fn write_socket_addr(&mut self, addr: SocketAddr) {
        self.write_ip_addr(addr.ip);
        let b = u16_be(addr.port);
        append(self, &b);
    }

    fn write_string(&mut self, string: &str) {
        let bytes = string.as_bytes();
        let len = bytes.len();
        let ghost before = self@;
        self.write_compactsize(len as u64);
        append(self, bytes);
        assert(self@ =~= before + string_bytes(string));
    }

    fn write_32_bytes(&mut self, bytes: &[u8; 32]) {
        append(self, bytes);
    }

    fn write_64_bytes(&mut self, bytes: &[u8; 64]) {
        append(self, bytes);
    }
}

/// The length of a `CompactSize` encoding is fixed by its first byte: one
/// byte below `0xfd`, then three, five or nine bytes for the markers
/// `0xfd`, `0xfe` and `0xff`.
pub proof fn lemma_compactsize_length(n: u64)
    ensures
        compactsize(n).len() == if compactsize(n)[0] < 0xfd {
            1int
        } else if compactsize(n)[0] == 0xfd {
            3int
        } else if compactsize(n)[0] == 0xfe {
            5int
        } else {
            9int
        },
        n <= 0xfc ==> compactsize(n).len() == 1,
        0xfd <= n <= 0xffff ==> compactsize(n).len() == 3,
        0x1_0000 <= n <= 0xffff_ffff ==> compactsize(n).len() == 5,
        0x1_0000_0000 <= n ==> compactsize(n).len() == 9,
{
    reveal_with_fuel(byte_range, 9);
    if n <= 0xfc {
    } else if n <= 0xffff {
        lemma_le_bytes_value(n as nat, 2);
    } else if n <= 0xffff_ffff {
        lemma_le_bytes_value(n as nat, 4);
    } else {
        lemma_le_bytes_value(n as nat, 8);
    }
}

/// Reads a `CompactSize` value back from its encoding.
pub open spec fn compactsize_value(s: Seq<u8>) -> nat {
    if s[0] < 0xfd {
        s[0] as nat
    } else {
        le_value(s.drop_first())
    }
}

/// Every value has exactly one `CompactSize` encoding, and the encoding
/// gives the value back: distinct values never encode alike.
pub proof fn lemma_compactsize_injective(a: u64, b: u64)
    ensures
        compactsize_value(compactsize(a)) == a,
        compactsize(a) == compactsize(b) ==> a == b,
{
    lemma_compactsize_value(a);
    lemma_compactsize_value(b);
}

proof fn lemma_compactsize_value(n: u64)
    ensures
        compactsize_value(compactsize(n)) == n,
{
    reveal_with_fuel(byte_range, 9);
    let s = compactsize(n);
    if n <= 0xfc {
    } else if n <= 0xffff {
        lemma_le_bytes_value(n as nat, 2);
        assert(s.drop_first() =~= le_bytes(n as nat, 2));
    } else if n <= 0xffff_ffff {
        lemma_le_bytes_value(n as nat, 4);
        assert(s.drop_first() =~= le_bytes(n as nat, 4));
    } else {
        lemma_le_bytes_value(n as nat, 8);
        assert(s.drop_first() =~= le_bytes(n as nat, 8));
    }
}

/// A socket address is written as eighteen bytes: the address as sixteen
/// IPv6 octets (an IPv4 address as `::ffff:a.b.c.d`), then the port, high
/// byte first.
pub proof fn lemma_socket_addr_layout(addr: SocketAddr)
    ensures
        socket_addr_bytes(addr).len() == 18,
        socket_addr_bytes(addr)[16] == (addr.port / 256) as u8,
        socket_addr_bytes(addr)[17] == (addr.port % 256) as u8,
        match addr.ip {
            IpAddr::V4(o) => {
                &&& forall|i: int| 0 <= i < 10 ==> #[trigger] socket_addr_bytes(addr)[i] == 0
                &&& socket_addr_bytes(addr)[10] == 0xff
                &&& socket_addr_bytes(addr)[11] == 0xff
                &&& forall|i: int| 0 <= i < 4 ==> #[trigger] socket_addr_bytes(addr)[12 + i] == o@[i]
            },
            IpAddr::V6(o) => forall|i: int|
                0 <= i < 16 ==> #[trigger] socket_addr_bytes(addr)[i] == o@[i],
        },
{
    reveal_with_fuel(be_bytes, 3);
    let port = be_bytes(addr.port as nat, 2);
    assert(port =~= seq![((addr.port as nat / 256) % 256) as u8, (addr.port as nat % 256) as u8]);
    assert(ipv6_octets(addr.ip).len() == 16);
    let b = socket_addr_bytes(addr);
    assert(b[16] == port[0]);
    assert(b[17] == port[1]);
    match addr.ip {
        IpAddr::V4(o) => {
            assert forall|i: int| 0 <= i < 4 implies #[trigger] b[12 + i] == o@[i] by {
                assert(b[12 + i] == ipv6_octets(addr.ip)[12 + i]);
            }
            assert forall|i: int| 0 <= i < 10 implies #[trigger] b[i] == 0 by {
                assert(b[i] == ipv6_octets(addr.ip)[i]);
            }
        },
        IpAddr::V6(o) => {
            assert forall|i: int| 0 <= i < 16 implies #[trigger] b[i] == o@[i] by {
                assert(b[i] == ipv6_octets(addr.ip)[i]);
            }
        },
    }
}

/// The first byte of a `CompactSize` encoding is the value itself below
/// `0xfd`, otherwise the marker for the width that follows; the bytes after
/// a marker are the value, low byte first.
pub proof fn lemma_compactsize_layout(n: u64)
    ensures
        n <= 0xfc ==> compactsize(n) == seq![n as u8],
        0xfd <= n <= 0xffff ==> compactsize(n) == seq![0xfdu8, (n % 256) as u8, (n / 256) as u8],
        0x1_0000 <= n <= 0xffff_ffff ==> compactsize(n)[0] == 0xfe && compactsize(n).len() == 5,
        0x1_0000_0000 <= n ==> compactsize(n)[0] == 0xff && compactsize(n).len() == 9,
        n > 0xfc ==> le_value(compactsize(n).drop_first()) == n,
{
    lemma_compactsize_length(n);
    lemma_compactsize_injective(n, n);
    if 0xfd <= n <= 0xffff {
        reveal_with_fuel(le_bytes, 3);
        assert(compactsize(n) =~= seq![0xfdu8, (n % 256) as u8, (n / 256) as u8]);
    }
}

} // verus!
