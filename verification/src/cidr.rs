//! Addresses and networks in CIDR form, held by their numeric values.
//!
//! The arithmetic on networks (how many addresses a prefix holds, which
//! address comes n-th, what the mask is) is done by the `ipnetwork` crate.
//! Each call into it is a small private function whose contract is believed,
//! not proved; the contracts are written over the bit-level spec functions
//! below, which repeat what that crate's source computes.

use vstd::prelude::*;

verus! {

/// An IP address of either family, held as the integer it encodes.
#[derive(Clone, Copy, Debug, PartialEq, Eq, Structural)]
pub enum Address {
    V4(u32),
    V6(u128),
}

/// The number of addresses in a network, in the integer type of its family.
#[derive(Clone, Copy, Debug, PartialEq, Eq, Structural)]
pub enum NetworkSize {
    V4(u32),
    V6(u128),
}

/// What a network is: an address, as it was given, and the length of the
/// prefix that all addresses of the network share with it.
#[derive(Clone, Copy, Debug, PartialEq, Eq, Structural)]
pub struct Cidr {
    pub ip: Address,
    pub prefix: u8,
}

/// A network whose prefix length fits its address family.
#[derive(Clone, Copy, Debug, PartialEq, Eq)]
pub struct Network {
    ip: Address,
    prefix: u8,
}

/// The IPv4 mask of a prefix: its `prefix` most significant bits are set.
pub open spec fn v4_mask(prefix: u8) -> u32 {
    if prefix == 0 {
        0u32
    } else {
        u32::MAX << ((32 - prefix) as u32)
    }
}

/// The IPv6 mask of a prefix: its `prefix` most significant bits are set.
pub open spec fn v6_mask(prefix: u8) -> u128 {
    if prefix == 0 {
        0u128
    } else {
        u128::MAX << ((128 - prefix) as u128)
    }
}

/// How many addresses an IPv4 network of this prefix counts. The prefix 0
/// counts one less than the whole address space, so that the count fits.
pub open spec fn v4_size(prefix: u8) -> u32 {
    if prefix == 0 {
        u32::MAX
    } else {
        1u32 << ((32 - prefix) as u32)
    }
}

/// How many addresses an IPv6 network of this prefix counts. The prefix 0
/// counts one less than the whole address space, so that the count fits.
pub open spec fn v6_size(prefix: u8) -> u128 {
    if prefix == 0 {
        u128::MAX
    } else {
        1u128 << ((128 - prefix) as u128)
    }
}

/// The text that `ipnetwork` prints for an IPv4 network.
pub uninterp spec fn ipv4_network_text(addr: u32, prefix: u8) -> Seq<char>;

/// The text that `ipnetwork` prints for an IPv6 network.
pub uninterp spec fn ipv6_network_text(addr: u128, prefix: u8) -> Seq<char>;

impl Address {
    /// The number of bits in an address of this family.
    pub open spec fn bits(self) -> u8 {
        match self {
            Address::V4(_) => 32,
            Address::V6(_) => 128,
        }
    }

    /// The address as a number.
    pub open spec fn value(self) -> nat {
        match self {
            Address::V4(a) => a as nat,
            Address::V6(a) => a as nat,
        }
    }

    /// Whether this address is the mask of the prefix `p` in its family.
    pub open spec fn is_mask_of(self, p: u8) -> bool {
        match self {
            Address::V4(m) => p <= 32 && m == v4_mask(p),
            Address::V6(m) => p <= 128 && m == v6_mask(p),
        }
    }

    /// The prefix length that this address is the mask of, if it is a mask.
    pub open spec fn mask_prefix(self) -> Option<u8> {
        if exists|p: u8| self.is_mask_of(p) {
            Some(choose|p: u8| self.is_mask_of(p))
        } else {
            None
        }
    }
}

impl NetworkSize {
    /// The size as a number.
    pub open spec fn count(self) -> nat {
        match self {
            NetworkSize::V4(s) => s as nat,
            NetworkSize::V6(s) => s as nat,
        }
    }
}

impl Cidr {
    /// The prefix is no longer than an address of the family.
    pub open spec fn valid(self) -> bool {
        self.prefix <= self.ip.bits()
    }

    /// The network of an address and a prefix, where the prefix fits.
    pub open spec fn checked(ip: Address, prefix: u8) -> Option<Cidr> {
        if prefix <= ip.bits() {
            Some(Cidr { ip, prefix })
        } else {
            None
        }
    }

    /// The number of addresses in the network, typed by family.
    pub open spec fn size(self) -> NetworkSize {
        match self.ip {
            Address::V4(_) => NetworkSize::V4(v4_size(self.prefix)),
            Address::V6(_) => NetworkSize::V6(v6_size(self.prefix)),
        }
    }

    /// The number of addresses in the network.
    pub open spec fn capacity(self) -> nat {
        self.size().count()
    }

    /// The network's mask.
    pub open spec fn mask(self) -> Address {
        match self.ip {
            Address::V4(_) => Address::V4(v4_mask(self.prefix)),
            Address::V6(_) => Address::V6(v6_mask(self.prefix)),
        }
    }

    /// The lowest address of the network: the given address with the bits
    /// below the prefix cleared.
    pub open spec fn first(self) -> Address {
        match self.ip {
            Address::V4(a) => Address::V4(a & v4_mask(self.prefix)),
            Address::V6(a) => Address::V6(a & v6_mask(self.prefix)),
        }
    }

    /// The address `n` places after the lowest one, or nothing where the
    /// network has no more than `n` addresses.
    pub open spec fn nth(self, n: nat) -> Option<Address> {
        if n < self.capacity() {
            Some(
                match self.ip {
                    Address::V4(a) => Address::V4(((a & v4_mask(self.prefix)) + n) as u32),
                    Address::V6(a) => Address::V6(((a & v6_mask(self.prefix)) + n) as u128),
                },
            )
        } else {
            None
        }
    }

    /// The network in text, address then prefix, as `ipnetwork` prints it.
    pub open spec fn text(self) -> Seq<char> {
        match self.ip {
            Address::V4(a) => ipv4_network_text(a, self.prefix),
            Address::V6(a) => ipv6_network_text(a, self.prefix),
        }
    }
}

/// The view of a network that may be absent.
pub open spec fn view_of(net: Option<Network>) -> Option<Cidr> {
    match net {
        Some(n) => Some(n@),
        None => None,
    }
}

impl View for Network {
    type V = Cidr;

    closed spec fn view(&self) -> Cidr {
        Cidr { ip: self.ip, prefix: self.prefix }
    }
}

/// Calls `ipnetwork::Ipv4Network::size`, which returns `u32::MAX` for the
/// prefix 0 and `1 << (32 - prefix)` for any other.
#[verifier::external_body]
fn ipv4_size(addr: u32, prefix: u8) -> (size: u32)
    requires
        prefix <= 32,
    ensures
        size == v4_size(prefix),
{
    ipnetwork::Ipv4Network::new(addr.into(), prefix).unwrap().size()
}

/// Calls `ipnetwork::Ipv6Network::size`, which returns `u128::MAX` for the
/// prefix 0 and `1 << (128 - prefix)` for any other.
#[verifier::external_body]
fn ipv6_size(addr: u128, prefix: u8) -> (size: u128)
    requires
        prefix <= 128,
    ensures
        size == v6_size(prefix),
{
    ipnetwork::Ipv6Network::new(addr.into(), prefix).unwrap().size()
}

/// Calls `ipnetwork::Ipv4Network::nth`, which for `n` below the network's
/// size adds `n` to the network's lowest address, and else returns nothing.
#[verifier::external_body]
fn ipv4_nth(addr: u32, prefix: u8, n: u32) -> (ip: Option<u32>)
    requires
        prefix <= 32,
    ensures
        ip == if n < v4_size(prefix) {
            Some(((addr & v4_mask(prefix)) + n) as u32)
        } else {
            None
        },
{
    ipnetwork::Ipv4Network::new(addr.into(), prefix).unwrap().nth(n).map(u32::from)
}

/// Calls `ipnetwork::Ipv6Network::nth`, which for `n` below the network's
/// size adds `n` to the network's lowest address, and else returns nothing.
#[verifier::external_body]
fn ipv6_nth(addr: u128, prefix: u8, n: u128) -> (ip: Option<u128>)
    requires
        prefix <= 128,
    ensures
        ip == if n < v6_size(prefix) {
            Some(((addr & v6_mask(prefix)) + n) as u128)
        } else {
            None
        },
{
    ipnetwork::Ipv6Network::new(addr.into(), prefix).unwrap().nth(n).map(u128::from)
}

/// Calls `ipnetwork::Ipv4Network::mask`, which returns 0 for the prefix 0
/// and `u32::MAX << (32 - prefix)` for any other.
#[verifier::external_body]
fn ipv4_mask(addr: u32, prefix: u8) -> (mask: u32)
    requires
        prefix <= 32,
    ensures
        mask == v4_mask(prefix),
{
    ipnetwork::Ipv4Network::new(addr.into(), prefix).unwrap().mask().into()
}

/// Calls `ipnetwork::Ipv6Network::mask`, which returns 0 for the prefix 0
/// and `u128::MAX << (128 - prefix)` for any other.
#[verifier::external_body]
fn ipv6_mask(addr: u128, prefix: u8) -> (mask: u128)
    requires
        prefix <= 128,
    ensures
        mask == v6_mask(prefix),
{
    ipnetwork::Ipv6Network::new(addr.into(), prefix).unwrap().mask().into()
}

/// Calls `ipnetwork::ipv4_mask_to_prefix`, which counts the leading set bits
/// of the mask and fails where a set bit follows them.
#[verifier::external_body]
fn ipv4_mask_to_prefix(mask: u32) -> (prefix: Option<u8>)
    ensures
        match prefix {
            Some(p) => p <= 32 && mask == v4_mask(p),
            None => forall|p: u8| p <= 32 ==> mask != #[trigger] v4_mask(p),
        },
{
    ipnetwork::ipv4_mask_to_prefix(mask.into()).ok()
}

/// Calls `ipnetwork::ipv6_mask_to_prefix`, which counts the leading set bits
/// of the mask and fails where a set bit follows them.
#[verifier::external_body]
fn ipv6_mask_to_prefix(mask: u128) -> (prefix: Option<u8>)
    ensures
        match prefix {
            Some(p) => p <= 128 && mask == v6_mask(p),
            None => forall|p: u8| p <= 128 ==> mask != #[trigger] v6_mask(p),
        },
{
    ipnetwork::ipv6_mask_to_prefix(mask.into()).ok()
}

/// Formats an `ipnetwork::Ipv4Network` with its `Display` impl.
#[verifier::external_body]
fn ipv4_text(addr: u32, prefix: u8) -> (text: String)
    requires
        prefix <= 32,
    ensures
        text@ == ipv4_network_text(addr, prefix),
{
    ipnetwork::Ipv4Network::new(addr.into(), prefix).unwrap().to_string()
}

/// Formats an `ipnetwork::Ipv6Network` with its `Display` impl.
#[verifier::external_body]
fn ipv6_text(addr: u128, prefix: u8) -> (text: String)
    requires
        prefix <= 128,
    ensures
        text@ == ipv6_network_text(addr, prefix),
{
    ipnetwork::Ipv6Network::new(addr.into(), prefix).unwrap().to_string()
}

/// Two prefixes of one family with the same mask are the same prefix.
pub proof fn lemma_mask_injective(like: Address, p: u8, q: u8)
    requires
        p <= like.bits(),
        q <= like.bits(),
        (Cidr { ip: like, prefix: p }).mask() == (Cidr { ip: like, prefix: q }).mask(),
    ensures
        p == q,
{
    match like {
        Address::V4(_) => {
            assert(p <= 32 && q <= 32 && v4_mask(p) == v4_mask(q) ==> p == q) by (bit_vector);
        },
        Address::V6(_) => {
            assert(p <= 128 && q <= 128 && v6_mask(p) == v6_mask(q) ==> p == q) by (bit_vector);
        },
    }
}

/// The mask of a valid network is the mask of its prefix and of no other.
pub proof fn lemma_mask_prefix(net: Cidr)
    requires
        net.valid(),
    ensures
        net.mask().mask_prefix() == Some(net.prefix),
{
    let mask = net.mask();
    assert(mask.is_mask_of(net.prefix));
    let p = choose|p: u8| mask.is_mask_of(p);
    lemma_mask_injective(net.ip, p, net.prefix);
}

/// The addresses of a valid network follow its lowest address one by one,
/// without passing the end of the address space.
pub proof fn lemma_nth_value(net: Cidr, n: nat)
    requires
        net.valid(),
        n < net.capacity(),
    ensures
        net.nth(n) is Some,
        net.nth(n)->0.value() == net.first().value() + n,
        net.nth(n)->0.bits() == net.ip.bits(),
{
    let prefix = net.prefix;
    match net.ip {
        Address::V4(a) => {
            let k = n as u32;
            assert(prefix <= 32 && k < v4_size(prefix) ==> (a & v4_mask(prefix)) + k
                <= 0xffff_ffff) by (bit_vector);
        },
        Address::V6(a) => {
            let k = n as u128;
            assert(prefix <= 128 && k < v6_size(prefix) ==> (a & v6_mask(prefix)) + k
                <= 0xffff_ffff_ffff_ffff_ffff_ffff_ffff_ffff) by (bit_vector);
        },
    }
}

impl Network {
    #[verifier::type_invariant]
    spec fn fits(self) -> bool {
        self.prefix <= self.ip.bits()
    }

    /// The network of an address and a prefix length. There is none where
    /// the prefix is longer than an address of the family.
    pub fn new(ip: Address, prefix: u8) -> (net: Option<Network>)
        ensures
            view_of(net) == Cidr::checked(ip, prefix),
    {
        let bits: u8 = match ip {
            Address::V4(_) => 32,
            Address::V6(_) => 128,
        };
        if prefix <= bits {
            Some(Network { ip, prefix })
        } else {
            None
        }
    }

    /// The address that the network was made with.
    pub fn ip(&self) -> (ip: Address)
        ensures
            ip == self@.ip,
            self@.valid(),
    {
        proof {
            use_type_invariant(self);
        }
        self.ip
    }

    /// The length of the network's prefix.
    pub fn prefix(&self) -> (prefix: u8)
        ensures
            prefix == self@.prefix,
            self@.valid(),
    {
        proof {
            use_type_invariant(self);
        }
        self.prefix
    }

    /// The number of addresses in the network.
    pub fn size(&self) -> (size: NetworkSize)
        ensures
            size == self@.size(),
            self@.valid(),
    {
        proof {
            use_type_invariant(self);
        }
        match self.ip {
            Address::V4(a) => NetworkSize::V4(ipv4_size(a, self.prefix)),
            Address::V6(a) => NetworkSize::V6(ipv6_size(a, self.prefix)),
        }
    }

    /// The address `n` places after the network's lowest, if there is one.
    pub fn nth(&self, n: usize) -> (ip: Option<Address>)
        ensures
            ip == self@.nth(n as nat),
    {
        proof {
            use_type_invariant(self);
        }
        match self.ip {
            Address::V4(a) => {
                match u32::try_from(n) {
                    Ok(k) => match ipv4_nth(a, self.prefix, k) {
                        Some(ip) => Some(Address::V4(ip)),
                        None => None,
                    },
                    Err(_) => None,
                }
            },
            Address::V6(a) => {
                match ipv6_nth(a, self.prefix, n as u128) {
                    Some(ip) => Some(Address::V6(ip)),
                    None => None,
                }
            },
        }
    }

    /// The network's mask.
    pub fn mask(&self) -> (mask: Address)
        ensures
            mask == self@.mask(),
    {
        proof {
            use_type_invariant(self);
        }
        match self.ip {
            Address::V4(a) => Address::V4(ipv4_mask(a, self.prefix)),
            Address::V6(a) => Address::V6(ipv6_mask(a, self.prefix)),
        }
    }

    /// The network of an address and a mask. There is none where `mask` is
    /// not the mask of a prefix, or where that prefix is longer than an
    /// address of the family of `ip`.
    pub fn with_netmask(ip: Address, mask: Address) -> (net: Option<Network>)
        ensures
            view_of(net) == match mask.mask_prefix() {
                Some(p) => Cidr::checked(ip, p),
                None => None,
            },
    {
        let prefix: Option<u8> = match mask {
            Address::V4(m) => ipv4_mask_to_prefix(m),
            Address::V6(m) => ipv6_mask_to_prefix(m),
        };
        match prefix {
            Some(p) => {
                proof {
                    assert(mask.is_mask_of(p));
                    let q = choose|q: u8| mask.is_mask_of(q);
                    lemma_mask_injective(mask, p, q);
                }
                Network::new(ip, p)
            },
            None => {
                assert(forall|p: u8| !mask.is_mask_of(p));
                None
            },
        }
    }

    /// The network in text: its address, a slash and its prefix length.
    pub fn to_text(&self) -> (text: String)
        ensures
            text@ == self@.text(),
    {
        proof {
            use_type_invariant(self);
        }
        match self.ip {
            Address::V4(a) => ipv4_text(a, self.prefix),
            Address::V6(a) => ipv6_text(a, self.prefix),
        }
    }
}

} // verus!
