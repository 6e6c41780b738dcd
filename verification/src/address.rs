//! The address mapper: a deterministic IPv4 address for every identifier
//! inside a network prefix. Addresses are 32-bit values in host order, the
//! first octet in the highest byte.

use vstd::prelude::*;
use crate::identity::Identifier;

verus! {

/// The bits of an IPv4 address that a prefix of `len` bits leaves to the host.
pub open spec fn host_mask(len: u8) -> u32 {
    if len < 32 {
        u32::MAX >> (len as u32)
    } else {
        0u32
    }
}

/// The network mask of a prefix of `len` bits.
pub open spec fn network_mask(len: u8) -> u32 {
    !host_mask(len)
}

/// Bytes 12 to 15 of an identifier, read as a big-endian 32-bit number.
pub open spec fn host_value(id: Seq<u8>) -> u32
    recommends
        id.len() == 16,
{
    (id[12] as u32) << 24 | (id[13] as u32) << 16 | (id[14] as u32) << 8 | (id[15] as u32)
}

/// The address that an identifier gets inside the network that starts at
/// `base` and has `len` network bits: the network bits of `base`, and the
/// low bits of the identifier's number as host bits.
pub open spec fn derive_address(id: Seq<u8>, base: u32, len: u8) -> u32 {
    base | (host_mask(len) & host_value(id))
}

/// An IPv4 network: its first address and the number of network bits.
/// No host bit of the first address is set.
#[derive(Clone, Copy, Debug, PartialEq, Eq)]
pub struct NetworkPrefix {
    base: u32,
    len: u8,
}

impl NetworkPrefix {
    /// The first address of the network.
    pub closed spec fn base(self) -> u32 {
        self.base
    }

    /// The number of network bits.
    pub closed spec fn len(self) -> u8 {
        self.len
    }

    /// At most 32 network bits, and no host bit set in the first address.
    pub open spec fn wf(self) -> bool {
        self.len() <= 32 && self.base() & host_mask(self.len()) == 0
    }

    #[verifier::type_invariant]
    pub open spec fn inv(self) -> bool {
        self.wf()
    }

    /// True when `addr` has the network bits of this prefix.
    pub open spec fn contains(self, addr: u32) -> bool {
        addr & network_mask(self.len()) == self.base()
    }

    /// The address that this prefix assigns to an identifier.
    pub open spec fn address_of(self, id: Seq<u8>) -> u32 {
        derive_address(id, self.base(), self.len())
    }

    /// The prefix with first address `base` and `len` network bits; `None`
    /// where `len` exceeds 32 or `base` has a host bit set.
    pub fn new(base: u32, len: u8) -> (r: Option<NetworkPrefix>)
        ensures
            r is Some <==> len <= 32 && base & host_mask(len) == 0,
            r matches Some(p) ==> p.base() == base && p.len() == len && p.wf(),
    {
        if len > 32 {
            return None;
        }
        let host: u32 = if len < 32 {
            u32::MAX >> len
        } else {
            0
        };
        assert(host == host_mask(len)) by {
            if len < 32 {
                let l32 = len as u32;
                assert(u32::MAX >> len == u32::MAX >> l32) by (bit_vector)
                    requires
                        l32 == len as u32,
                ;
            }
        }
        if base & host != 0 {
            return None;
        }
        Some(NetworkPrefix { base, len })
    }

    /// The first address of the network.
    pub fn first_address(&self) -> (r: u32)
        ensures
            r == self.base(),
    {
        self.base
    }

    /// The number of network bits.
    pub fn network_length(&self) -> (r: u8)
        ensures
            r == self.len(),
            r <= 32,
    {
        proof {
            use_type_invariant(self);
        }
        self.len
    }

    /// The network mask, as the `cidr` crate computes it.
    pub fn mask(&self) -> (r: u32)
        ensures
            r == network_mask(self.len()),
    {
        proof {
            use_type_invariant(self);
        }
        cidr_mask(self.base, self.len)
    }
}

/// Builds a `cidr::Ipv4Cidr` from a first address and a length and asks it
/// for its `mask()`. The constructor accepts exactly the pairs that the
/// precondition admits; the mask it then gives has the top `len` bits set
/// and the others clear.
#[verifier::external_body]
fn cidr_mask(base: u32, len: u8) -> (mask: u32)
    requires
        len <= 32,
        base & host_mask(len) == 0,
    ensures
        mask == network_mask(len),
{
    let net = cidr::Ipv4Cidr::new(base.into(), len).unwrap();
    net.mask().into()
}

/// The number that bytes 12 to 15 of an identifier spell, big-endian.
pub fn host_number(destination: &Identifier) -> (n: u32)
    ensures
        n == host_value(destination@),
{
    let b0: u32 = destination.bytes[12] as u32;
    let b1: u32 = destination.bytes[13] as u32;
    let b2: u32 = destination.bytes[14] as u32;
    let b3: u32 = destination.bytes[15] as u32;
    b0 << 24 | b1 << 16 | b2 << 8 | b3
}

/// The address of `destination` inside `prefix`.
pub fn destination_to_ip(destination: Identifier, prefix: NetworkPrefix) -> (ip: u32)
    ensures
        ip == prefix.address_of(destination@),
        prefix.contains(ip),
        ip & host_mask(prefix.len()) == host_value(destination@) & host_mask(prefix.len()),
{
    let n: u32 = host_number(&destination);
    let network_bits: u32 = prefix.mask();
    let host_bits: u32 = (!network_bits) & n;
    let ip: u32 = prefix.first_address() | host_bits;
    proof {
        use_type_invariant(prefix);
        let hm = host_mask(prefix.len());
        let base = prefix.base();
        assert(!!hm == hm) by (bit_vector);
        lemma_address_in_prefix(destination@, prefix);
    }
    ip
}

/// Every derived address lies in the prefix it was derived for: its network
/// bits are those of the prefix.
pub proof fn lemma_address_in_prefix(id: Seq<u8>, prefix: NetworkPrefix)
    requires
        prefix.wf(),
    ensures
        prefix.contains(prefix.address_of(id)),
        prefix.address_of(id) & host_mask(prefix.len()) == host_value(id) & host_mask(
            prefix.len(),
        ),
{
    let hm = host_mask(prefix.len());
    let base = prefix.base();
    let n = host_value(id);
    assert((base | (hm & n)) & !hm == base && (base | (hm & n)) & hm == n & hm) by (bit_vector)
        requires
            base & hm == 0,
    ;
}

/// Two identifiers that agree on bytes 12 to 15 get the same address.
pub proof fn lemma_same_segment_same_address(a: Seq<u8>, b: Seq<u8>, prefix: NetworkPrefix)
    requires
        a[12] == b[12],
        a[13] == b[13],
        a[14] == b[14],
        a[15] == b[15],
    ensures
        prefix.address_of(a) == prefix.address_of(b),
{
}

} // verus!
