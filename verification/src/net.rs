//! IPv4 networks in CIDR form, with the containment test used to assign
//! addresses when a peer is turned into a standalone interface.

use vstd::prelude::*;

use vstd::string::StringExecFns;

use crate::text::{dec_str, push_char, render_u64};

verus! {

/// An IPv4 network in CIDR notation: a 32-bit address together with a prefix
/// length. The address keeps the host bits exactly as given; masking happens
/// only inside the containment test, as the notation's standard semantics ask.
#[derive(Clone, Copy, PartialEq, Eq, Structural, Debug)]
pub struct Ipv4Net {
    /// The address, as a big-endian 32-bit value (`a.b.c.d` is
    /// `a*2^24 + b*2^16 + c*2^8 + d`).
    pub addr: u32,
    /// The prefix length, at most 32.
    pub prefix: u8,
}

impl Ipv4Net {
    /// A network is well formed when its prefix length is at most 32.
    pub open spec fn wf(self) -> bool {
        self.prefix <= 32
    }

    /// The network mask: the top `prefix` bits set.
    pub open spec fn mask_spec(self) -> u32 {
        if self.prefix == 0 {
            0u32
        } else {
            (0xffff_ffffu32 << ((32 - self.prefix) as u32)) as u32
        }
    }

    /// The lowest address of the network's range.
    pub open spec fn network_spec(self) -> u32 {
        self.addr & self.mask_spec()
    }

    /// The highest address of the network's range.
    pub open spec fn broadcast_spec(self) -> u32 {
        self.addr | !self.mask_spec()
    }

    /// Standard CIDR containment: `self` contains `other` when every address
    /// of `other`'s range lies in `self`'s range.
    pub open spec fn contains_spec(self, other: Ipv4Net) -> bool {
        self.network_spec() <= other.network_spec()
            && other.broadcast_spec() <= self.broadcast_spec()
    }

    /// Builds the network `a.b.c.d/prefix`; rejects a prefix length over 32.
    pub fn new(a: u8, b: u8, c: u8, d: u8, prefix: u8) -> (r: Option<Ipv4Net>)
        ensures
            match r {
                Some(n) => prefix <= 32 && n == (Ipv4Net {
                    addr: addr_from_octets(a, b, c, d),
                    prefix,
                }) && n.wf(),
                None => prefix > 32,
            },
    {
        if prefix <= 32 {
            let addr: u32 = ((a as u32) << 24u32) | ((b as u32) << 16u32) | ((c as u32) << 8u32)
                | (d as u32);
            Some(Ipv4Net { addr, prefix })
        } else {
            None
        }
    }

    /// The network mask as a value.
    pub fn mask(&self) -> (r: u32)
        requires
            self.wf(),
        ensures
            r == self.mask_spec(),
    {
        if self.prefix == 0 {
            0
        } else {
            0xffff_ffffu32 << ((32 - self.prefix) as u32)
        }
    }

    /// Whether `self` contains the whole of `other`, under standard CIDR
    /// containment semantics.
    pub fn contains(&self, other: &Ipv4Net) -> (r: bool)
        requires
            self.wf(),
            other.wf(),
        ensures
            r == self.contains_spec(*other),
    {
        let self_mask = self.mask();
        let other_mask = other.mask();
        let self_network = self.addr & self_mask;
        let other_network = other.addr & other_mask;
        let self_broadcast = self.addr | !self_mask;
        let other_broadcast = other.addr | !other_mask;
        self_network <= other_network && other_broadcast <= self_broadcast
    }
}

/// Whether address `a` lies in the network's range.
pub open spec fn in_range(n: Ipv4Net, a: u32) -> bool {
    n.network_spec() <= a && a <= n.broadcast_spec()
}

/// Law: the containment test means standard range containment — `outer`
/// contains `inner` exactly when every address of `inner`'s range lies in
/// `outer`'s range.
pub proof fn lemma_contains_is_range_subset(outer: Ipv4Net, inner: Ipv4Net)
    ensures
        outer.contains_spec(inner) <==> (forall|a: u32|
            in_range(inner, a) ==> in_range(outer, a)),
{
    let ai = inner.addr;
    let mi = inner.mask_spec();
    let ao = outer.addr;
    let mo = outer.mask_spec();
    assert((ai & mi) <= (ai | !mi)) by (bit_vector);
    assert((ao & mo) <= (ao | !mo)) by (bit_vector);
    if outer.contains_spec(inner) {
        assert forall|a: u32| in_range(inner, a) implies in_range(outer, a) by {}
    }
    if forall|a: u32| in_range(inner, a) ==> in_range(outer, a) {
        assert(in_range(inner, inner.network_spec()));
        assert(in_range(inner, inner.broadcast_spec()));
        assert(in_range(outer, inner.network_spec()));
        assert(in_range(outer, inner.broadcast_spec()));
    }
}

/// The CIDR text of a network: the four address octets in decimal joined
/// with dots, a slash, and the prefix length in decimal.
pub open spec fn render_ipv4net(n: Ipv4Net) -> Seq<char> {
    dec_str((n.addr >> 24u32) as nat) + seq!['.'] + dec_str(((n.addr >> 16u32) & 0xffu32) as nat)
        + seq!['.'] + dec_str(((n.addr >> 8u32) & 0xffu32) as nat) + seq!['.'] + dec_str(
        (n.addr & 0xffu32) as nat,
    ) + seq!['/'] + dec_str(n.prefix as nat)
}

impl Ipv4Net {
    /// The CIDR text of the network.
    pub fn render(&self) -> (s: String)
        ensures
            s@ == render_ipv4net(*self),
    {
        let mut s = render_u64((self.addr >> 24u32) as u64);
        push_char(&mut s, '.');
        s.append(render_u64(((self.addr >> 16u32) & 0xffu32) as u64).as_str());
        push_char(&mut s, '.');
        s.append(render_u64(((self.addr >> 8u32) & 0xffu32) as u64).as_str());
        push_char(&mut s, '.');
        s.append(render_u64((self.addr & 0xffu32) as u64).as_str());
        push_char(&mut s, '/');
        s.append(render_u64(self.prefix as u64).as_str());
        proof {
            assert(s@ =~= render_ipv4net(*self));
        }
        s
    }
}

/// The 32-bit address value with octets `a`, `b`, `c`, `d`.
pub open spec fn addr_from_octets(a: u8, b: u8, c: u8, d: u8) -> u32 {
    ((a as u32) << 24u32) | ((b as u32) << 16u32) | ((c as u32) << 8u32) | (d as u32)
}

} // verus!
