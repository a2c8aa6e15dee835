//! A pool that hands out the addresses of one network.
//!
//! The pool serves recycled addresses first, the most recently recycled one
//! before the others, and otherwise walks the network upwards from the
//! offset it was made with. What it does is stated over [`PoolState`], a
//! plain description of a pool.

use crate::cidr::{
    lemma_mask_prefix, lemma_nth_value, v4_size, v6_size, view_of, Address, Cidr, Network,
    NetworkSize,
};
use std::num::TryFromIntError;
use vstd::prelude::*;
use vstd::std_specs::convert::FromSpecImpl;
use vstd::string::to_string_from_display_ensures;

verus! {

/// Why a pool could not be made.
#[derive(Debug, PartialEq)]
pub enum IpPoolError {
    /// The size of the network does not fit the integer type of an offset.
    CheckOffsetError(TryFromIntError),
    /// The offset is larger than the size of the network.
    OffsetTooBig,
}

impl Clone for IpPoolError {
    fn clone(&self) -> (copy: IpPoolError)
        ensures
            copy == *self,
    {
        match self {
            IpPoolError::CheckOffsetError(err) => IpPoolError::CheckOffsetError(*err),
            IpPoolError::OffsetTooBig => IpPoolError::OffsetTooBig,
        }
    }
}

impl From<TryFromIntError> for IpPoolError {
    fn from(err: TryFromIntError) -> (error: IpPoolError) {
        IpPoolError::CheckOffsetError(err)
    }
}

impl FromSpecImpl<TryFromIntError> for IpPoolError {
    open spec fn obeys_from_spec() -> bool {
        true
    }

    open spec fn from_spec(err: TryFromIntError) -> IpPoolError {
        IpPoolError::CheckOffsetError(err)
    }
}

impl IpPoolError {
    /// Whether `text` is the error in words. A failed conversion is worded
    /// by std.
    pub open spec fn is_message(self, text: String) -> bool {
        match self {
            IpPoolError::OffsetTooBig => text@ == "Offset is bigger than size of networking"@,
            IpPoolError::CheckOffsetError(err) => to_string_from_display_ensures(&err, text),
        }
    }

    /// The error in words.
    pub fn message(&self) -> (text: String)
        ensures
            self.is_message(text),
    {
        match self {
            IpPoolError::OffsetTooBig => "Offset is bigger than size of networking".to_string(),
            IpPoolError::CheckOffsetError(err) => err.to_string(),
        }
    }
}

/// What a pool is: its network, how many of the network's addresses the
/// forward cursor has passed, and the recycled addresses, oldest first.
pub struct PoolState {
    pub net: Cidr,
    pub cursor: nat,
    pub recycled: Seq<Address>,
}

impl PoolState {
    /// The network is valid, its size fits an offset, and the cursor has
    /// not passed its end.
    pub open spec fn wf(self) -> bool {
        &&& self.net.valid()
        &&& self.net.capacity() <= usize::MAX
        &&& self.cursor <= self.net.capacity()
    }

    /// A pool from which nothing was taken yet: the cursor stands `offset`
    /// addresses after the network's lowest, and nothing is recycled.
    pub open spec fn fresh(net: Cidr, offset: nat) -> PoolState {
        PoolState { net, cursor: offset, recycled: Seq::empty() }
    }

    /// What the next allocation returns: the address recycled last, where
    /// there is one, with the pool's prefix, if that prefix fits the
    /// address's family; otherwise the address under the cursor, if the
    /// network has one left.
    pub open spec fn next_address(self) -> Option<Cidr> {
        if self.recycled.len() > 0 {
            Cidr::checked(self.recycled.last(), self.net.prefix)
        } else {
            match self.net.nth(self.cursor) {
                Some(ip) => Some(Cidr { ip, prefix: self.net.prefix }),
                None => None,
            }
        }
    }

    /// The pool after one allocation: the address recycled last has left
    /// the pool, or else the cursor has moved on by one, or else, with the
    /// network exhausted, nothing has changed.
    pub open spec fn allocate(self) -> PoolState {
        if self.recycled.len() > 0 {
            PoolState { recycled: self.recycled.drop_last(), ..self }
        } else if self.cursor < self.net.capacity() {
            PoolState { cursor: self.cursor + 1, ..self }
        } else {
            self
        }
    }

    /// The pool after an address was handed back.
    pub open spec fn recycle(self, ip: Address) -> PoolState {
        PoolState { recycled: self.recycled.push(ip), ..self }
    }

    /// The pool after `n` allocations in a row.
    pub open spec fn allocate_times(self, n: nat) -> PoolState
        decreases n,
    {
        if n == 0 {
            self
        } else {
            self.allocate().allocate_times((n - 1) as nat)
        }
    }

    /// Whether the pool still has the address to hand out: it is among the
    /// recycled addresses, or the cursor has yet to come to it.
    pub open spec fn holds(self, ip: Address) -> bool {
        ||| self.recycled.contains(ip)
        ||| exists|k: nat| self.cursor <= k && #[trigger] self.net.nth(k) == Some(ip)
    }
}

/// A pool from which nothing was recycled, after any number of
/// allocations: the cursor has moved on by that number, or stands at the
/// end of the network.
pub proof fn lemma_walk_position(net: Cidr, offset: nat, taken: nat)
    requires
        offset <= net.capacity(),
    ensures
        PoolState::fresh(net, offset).allocate_times(taken) == PoolState::fresh(
            net,
            if offset + taken <= net.capacity() {
                offset + taken
            } else {
                net.capacity()
            },
        ),
    decreases taken,
{
    if taken > 0 {
        let pool = PoolState::fresh(net, offset);
        if offset < net.capacity() {
            assert(pool.allocate() == PoolState::fresh(net, offset + 1));
            lemma_walk_position(net, offset + 1, (taken - 1) as nat);
        } else {
            assert(pool.allocate() == pool);
            lemma_walk_position(net, offset, (taken - 1) as nat);
        }
    }
}

/// A fresh pool with the offset `offset` hands out the network's addresses
/// in their order, beginning with the one that stands `offset` places after
/// the lowest. Once the last address of the network is out, every further
/// allocation returns nothing.
pub proof fn lemma_fresh_pool_walks_the_network(net: Cidr, offset: nat, taken: nat)
    requires
        net.valid(),
        offset <= net.capacity(),
    ensures
        offset + taken < net.capacity() ==> {
            &&& PoolState::fresh(net, offset).allocate_times(taken).next_address() matches Some(c)
            &&& c.prefix == net.prefix
            &&& net.nth(offset + taken) == Some(c.ip)
            &&& c.ip.value() == net.first().value() + offset + taken
        },
        offset + taken >= net.capacity() ==> PoolState::fresh(net, offset).allocate_times(
            taken,
        ).next_address() is None,
{
    lemma_walk_position(net, offset, taken);
    if offset + taken < net.capacity() {
        lemma_nth_value(net, offset + taken);
    }
}

/// An address handed back is what the next allocation returns, with the
/// pool's prefix, and that allocation leaves the pool as it was before the
/// address came back: the cursor has not moved. The prefix must fit the
/// family of the address.
pub proof fn lemma_recycled_address_is_served_next(pool: PoolState, ip: Address)
    requires
        pool.net.prefix <= ip.bits(),
    ensures
        pool.recycle(ip).next_address() == Some(Cidr { ip, prefix: pool.net.prefix }),
        pool.recycle(ip).allocate() == pool,
{
    assert(pool.recycled.push(ip).drop_last() == pool.recycled);
}

/// A pool that starts at the last address of its network hands out that
/// address and nothing after it.
pub proof fn lemma_last_offset_serves_one_address(net: Cidr)
    requires
        net.valid(),
    ensures
        net.capacity() >= 1,
        PoolState::fresh(net, (net.capacity() - 1) as nat).next_address() matches Some(c)
            && c.prefix == net.prefix && c.ip.value() == net.first().value() + net.capacity() - 1,
        PoolState::fresh(net, (net.capacity() - 1) as nat).allocate().next_address() is None,
{
    let prefix = net.prefix;
    assert(net.capacity() >= 1) by {
        assert(prefix <= 32 ==> v4_size(prefix) >= 1) by (bit_vector);
        assert(prefix <= 128 ==> v6_size(prefix) >= 1) by (bit_vector);
    }
    lemma_nth_value(net, (net.capacity() - 1) as nat);
}

/// An address that the pool does not hold is not handed out, however many
/// allocations follow, as long as nobody hands it back.
pub proof fn lemma_absent_address_is_not_served(pool: PoolState, ip: Address, taken: nat)
    requires
        !pool.holds(ip),
    ensures
        !pool.allocate_times(taken).holds(ip),
        pool.allocate_times(taken).next_address() matches Some(c) ==> c.ip != ip,
    decreases taken,
{
    if taken == 0 {
        if pool.recycled.len() > 0 {
            assert(pool.recycled.contains(pool.recycled.last()));
        }
    } else {
        let after = pool.allocate();
        assert(!after.holds(ip)) by {
            if pool.recycled.len() > 0 {
                assert forall|i: int| 0 <= i < after.recycled.len() implies after.recycled[i]
                    != ip by {
                    assert(pool.recycled[i] == after.recycled[i]);
                    assert(pool.recycled.contains(pool.recycled[i]));
                }
            }
        }
        lemma_absent_address_is_not_served(after, ip, (taken - 1) as nat);
    }
}

/// Once the cursor has handed out an address, the pool holds it no more.
pub proof fn lemma_walked_address_left_the_pool(pool: PoolState)
    requires
        pool.wf(),
        pool.recycled.len() == 0,
        pool.cursor < pool.net.capacity(),
    ensures
        pool.next_address() matches Some(c) && !pool.allocate().holds(c.ip),
{
    let ip = pool.net.nth(pool.cursor)->0;
    lemma_nth_value(pool.net, pool.cursor);
    assert forall|k: nat| pool.cursor + 1 <= k implies #[trigger] pool.net.nth(k) != Some(ip) by {
        if k < pool.net.capacity() {
            lemma_nth_value(pool.net, k);
        }
    }
}

/// The forward walk over a network: the network and the number of its
/// addresses that the walk has passed.
struct Walk {
    net: Network,
    next: usize,
}

impl Walk {
    #[verifier::type_invariant]
    spec fn inv(self) -> bool {
        &&& self.net@.valid()
        &&& self.net@.capacity() <= usize::MAX
        &&& self.next <= self.net@.capacity()
    }
}

/// A pool of the addresses of one network.
pub struct IpPool {
    walk: Walk,
    ip_vec: Vec<Address>,
}

impl View for IpPool {
    type V = PoolState;

    closed spec fn view(&self) -> PoolState {
        PoolState { net: self.walk.net@, cursor: self.walk.next as nat, recycled: self.ip_vec@ }
    }
}

impl IpPool {
    /// A pool over `net` that starts `offset` addresses after the network's
    /// lowest address. The offset may be as large as the network: the pool
    /// is then exhausted from the start.
    pub fn new(net: Network, offset: usize) -> (pool: Result<IpPool, IpPoolError>)
        ensures
            match pool {
                Ok(p) => {
                    &&& net@.capacity() <= usize::MAX
                    &&& offset <= net@.capacity()
                    &&& p@ == PoolState::fresh(net@, offset as nat)
                    &&& p@.wf()
                },
                Err(IpPoolError::OffsetTooBig) => {
                    &&& net@.capacity() <= usize::MAX
                    &&& offset > net@.capacity()
                },
                Err(IpPoolError::CheckOffsetError(_)) => net@.capacity() > usize::MAX,
            },
    {
        match net.size() {
            NetworkSize::V4(s) => {
                let size: usize = match usize::try_from(s) {
                    Ok(size) => size,
                    Err(err) => {
                        return Err(IpPoolError::from(err));
                    },
                };
                if offset > size {
                    return Err(IpPoolError::OffsetTooBig);
                }
            },
            NetworkSize::V6(s) => {
                let size: usize = match usize::try_from(s) {
                    Ok(size) => size,
                    Err(err) => {
                        return Err(IpPoolError::from(err));
                    },
                };
                if offset > size {
                    return Err(IpPoolError::OffsetTooBig);
                }
            },
        }
        Ok(IpPool { walk: Walk { net, next: offset }, ip_vec: Vec::new() })
    }

    /// Takes the next address out of the pool and returns it as a network
    /// with the pool's prefix. Returns nothing once no recycled address is
    /// left and the cursor has reached the end of the network.
    pub fn new_addr(&mut self) -> (addr: Option<Network>)
        ensures
            view_of(addr) == old(self)@.next_address(),
            final(self)@ == old(self)@.allocate(),
            final(self)@.wf(),
    {
        proof {
            use_type_invariant(&self.walk);
            lemma_mask_prefix(self.walk.net@);
        }
        let ip: Address = match self.ip_vec.pop() {
            Some(ip) => ip,
            None => match self.walk.net.nth(self.walk.next) {
                Some(ip) => {
                    proof {
                        lemma_nth_value(self.walk.net@, self.walk.next as nat);
                    }
                    self.walk.next = self.walk.next + 1;
                    ip
                },
                None => {
                    return None;
                },
            },
        };
        Network::with_netmask(ip, self.walk.net.mask())
    }

    /// Hands an address back to the pool. The pool takes any address: it
    /// does not ask whether it ever handed it out.
    pub fn recycle(&mut self, ip: Address)
        ensures
            final(self)@ == old(self)@.recycle(ip),
            final(self)@.wf(),
    {
        proof {
            use_type_invariant(&self.walk);
        }
        self.ip_vec.push(ip)
    }
}

} // verus!
