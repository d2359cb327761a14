//! The peer record: how a remote node is described — its reachability, the
//! networks it is authorized for, its key — and the conversion from a peer
//! holding a private key to the standalone interface that peer would use.

use vstd::prelude::*;
use vstd::string::StringExecFns;

use crate::amnezia::AmneziaSettings;
use crate::b64::b64_encode_spec;
use crate::error::{WireguardError, WireguardResult};
use crate::export::ExportConfig;
use crate::interface::{to_peer_spec, Interface, InterfaceV};
use crate::keys::{Key, KeyView, PresharedKey, PublicKey};
use crate::net::{render_ipv4net, Ipv4Net};
use crate::text::{clone_opt_string, clone_string_vec, join_comma, join_comma_strings,
    lemma_lines_push, lines_text, push_char};

verus! {

/// A remote peer: optional endpoint, the ordered list of networks it may
/// originate or receive, its key, an optional preshared key, an optional
/// keepalive interval, and optional obfuscation values.
#[derive(Debug)]
pub struct Peer {
    /// The peer's reachability, as a `host:port` text.
    pub endpoint: Option<String>,
    /// The networks the peer is authorized for; order is significant.
    pub allowed_ips: Vec<Ipv4Net>,
    /// The peer's key: private when this side may derive the peer's own
    /// interface, else only the public identity.
    pub key: Key,
    /// An optional symmetric secret layered over the key agreement.
    pub preshared_key: Option<PresharedKey>,
    /// An optional persistent-keepalive interval, in seconds.
    pub persistent_keepalive: Option<u16>,
    /// Optional obfuscation values.
    pub amnezia_settings: Option<AmneziaSettings>,
}

/// The mathematical value of a `Peer`.
#[verifier::ext_equal]
pub struct PeerV {
    pub endpoint: Option<Seq<char>>,
    pub allowed_ips: Seq<Ipv4Net>,
    pub key: KeyView,
    pub preshared_key: Option<Seq<u8>>,
    pub persistent_keepalive: Option<u16>,
    pub amnezia_settings: Option<AmneziaSettings>,
}

impl PeerV {
    /// Well-formed: the key is 32 bytes, a present preshared key is 32
    /// bytes, and every allowed network has a valid prefix.
    pub open spec fn wf(self) -> bool {
        &&& self.key.wf()
        &&& match self.preshared_key {
            Some(b) => b.len() == 32,
            None => true,
        }
        &&& forall|i: int| 0 <= i < self.allowed_ips.len() ==> self.allowed_ips[i].wf()
    }
}

impl View for Peer {
    type V = PeerV;

    open spec fn view(&self) -> PeerV {
        PeerV {
            endpoint: self.endpoint.deep_view(),
            allowed_ips: self.allowed_ips@,
            key: self.key@,
            preshared_key: match self.preshared_key {
                Some(k) => Some(k@),
                None => None,
            },
            persistent_keepalive: self.persistent_keepalive,
            amnezia_settings: self.amnezia_settings,
        }
    }
}

impl DeepView for Peer {
    type V = PeerV;

    open spec fn deep_view(&self) -> PeerV {
        self@
    }
}

/// The index of the first entry of `ips` that `outer` contains, if any.
pub open spec fn first_contained(ips: Seq<Ipv4Net>, outer: Ipv4Net) -> Option<int>
    decreases ips.len(),
{
    if ips.len() == 0 {
        None
    } else if outer.contains_spec(ips[0]) {
        Some(0int)
    } else {
        match first_contained(ips.subrange(1, ips.len() as int), outer) {
            Some(i) => Some(i + 1),
            None => None,
        }
    }
}

/// A hit at `i` with no hit before it is the first hit.
proof fn lemma_first_contained_found(ips: Seq<Ipv4Net>, outer: Ipv4Net, i: int)
    requires
        0 <= i < ips.len(),
        outer.contains_spec(ips[i]),
        forall|j: int| 0 <= j < i ==> !outer.contains_spec(ips[j]),
    ensures
        first_contained(ips, outer) == Some(i),
    decreases ips.len(),
{
    if i > 0 {
        lemma_first_contained_found(ips.subrange(1, ips.len() as int), outer, i - 1);
    }
}

/// With no hit at all there is no first hit.
proof fn lemma_first_contained_none(ips: Seq<Ipv4Net>, outer: Ipv4Net)
    requires
        forall|j: int| 0 <= j < ips.len() ==> !outer.contains_spec(ips[j]),
    ensures
        first_contained(ips, outer) is None,
    decreases ips.len(),
{
    if ips.len() > 0 {
        lemma_first_contained_none(ips.subrange(1, ips.len() as int), outer);
    }
}

/// The index of the first entry of `ips` that `outer` contains.
fn find_first_contained(outer: &Ipv4Net, ips: &Vec<Ipv4Net>) -> (r: Option<usize>)
    requires
        outer.wf(),
        forall|j: int| 0 <= j < ips@.len() ==> ips@[j].wf(),
    ensures
        match r {
            Some(i) => i < ips@.len() && first_contained(ips@, *outer) == Some(i as int),
            None => first_contained(ips@, *outer) is None,
        },
{
    let mut i: usize = 0;
    while i < ips.len()
        invariant
            i <= ips@.len(),
            outer.wf(),
            forall|j: int| 0 <= j < ips@.len() ==> ips@[j].wf(),
            forall|j: int| 0 <= j < i ==> !outer.contains_spec(ips@[j]),
        decreases ips@.len() - i,
    {
        if outer.contains(&ips[i]) {
            proof {
                lemma_first_contained_found(ips@, *outer, i as int);
            }
            return Some(i);
        }
        i = i + 1;
    }
    proof {
        lemma_first_contained_none(ips@, *outer);
    }
    None
}

/// The interface a peer derives: the first allowed network that the
/// reference contains becomes its address, the private key is the peer's
/// own, DNS comes from the reference, obfuscation values from the peer, and
/// its single peer is the reference interface seen from outside.
pub open spec fn to_interface_spec(p: PeerV, iv: InterfaceV, sk: Seq<u8>, idx: int) -> InterfaceV {
    InterfaceV {
        address: p.allowed_ips[idx],
        listen_port: None,
        private_key: sk,
        dns: iv.dns,
        endpoint: None,
        amnezia_settings: p.amnezia_settings,
        peers: seq![to_peer_spec(iv)],
    }
}

impl Peer {
    /// Well-formed: see `PeerV::wf`.
    pub open spec fn wf(self) -> bool {
        self@.wf()
    }

    /// Builds the standalone interface this peer would use, given the
    /// reference interface it connects to. Fails with
    /// `NoPrivateKeyProvided` when the peer holds only a public key, and
    /// with `NoAssignedIP` when no allowed network lies within the
    /// reference's network; otherwise the first contained entry, in list
    /// order, becomes the new address.
    pub fn to_interface(&self, interface: &Interface) -> (r: WireguardResult<Interface>)
        requires
            self.wf(),
            interface.wf(),
        ensures
            match r {
                Ok(out) => {
                    &&& self@.key matches KeyView::Private(sk)
                    &&& first_contained(self@.allowed_ips, interface@.address) matches Some(idx)
                    &&& out@ == to_interface_spec(self@, interface@, sk, idx)
                    &&& out.wf()
                },
                Err(e) => match e {
                    WireguardError::NoPrivateKeyProvided => self@.key matches KeyView::Public(_),
                    WireguardError::NoAssignedIP => self@.key matches KeyView::Private(_)
                        && first_contained(self@.allowed_ips, interface@.address) is None,
                    _ => false,
                },
            },
    {
        let private_key = match &self.key {
            Key::Private(k) => k.clone(),
            Key::Public(_) => {
                return Err(WireguardError::NoPrivateKeyProvided);
            },
        };
        let idx = match find_first_contained(&interface.address, &self.allowed_ips) {
            Some(i) => i,
            None => {
                return Err(WireguardError::NoAssignedIP);
            },
        };
        let mut peers: Vec<Peer> = Vec::new();
        peers.push(interface.to_peer());
        let out = Interface {
            address: self.allowed_ips[idx],
            listen_port: None,
            private_key,
            dns: clone_string_vec(&interface.dns),
            endpoint: None,
            amnezia_settings: self.amnezia_settings,
            peers,
        };
        proof {
            assert(out@.peers =~= seq![to_peer_spec(interface@)]);
            assert(out@ =~= to_interface_spec(
                self@,
                interface@,
                private_key@,
                idx as int,
            ));
        }
        Ok(out)
    }
}

impl Clone for Peer {
    /// Cloning keeps the peer's value.
    fn clone(&self) -> (r: Self)
        ensures
            r@ == self@,
    {
        let r = Peer {
            endpoint: clone_opt_string(&self.endpoint),
            allowed_ips: vstd::slice::slice_to_vec(self.allowed_ips.as_slice()),
            key: self.key.clone(),
            preshared_key: match &self.preshared_key {
                Some(k) => Some(k.clone()),
                None => None,
            },
            persistent_keepalive: self.persistent_keepalive,
            amnezia_settings: self.amnezia_settings,
        };
        proof {
            assert(r@ =~= self@);
        }
        r
    }
}

/// The rendered lines of a peer section: the header, the endpoint when
/// present, the allowed networks joined with commas, and the public key —
/// always the public form, derived on the fly from a private key.
pub open spec fn peer_lines(p: PeerV) -> Seq<Seq<char>> {
    seq!["[Peer]"@] + (match p.endpoint {
        Some(e) => seq!["Endpoint = "@ + e],
        None => Seq::empty(),
    }) + seq![
        "AllowedIPs = "@ + join_comma(p.allowed_ips.map_values(|n: Ipv4Net| render_ipv4net(n))),
        "PublicKey = "@ + b64_encode_spec(p.key.public_bytes()),
    ]
}

/// The peer section's text.
pub open spec fn render_peer(p: PeerV) -> Seq<char> {
    lines_text(peer_lines(p))
}

/// The CIDR texts of the networks, in order.
fn render_nets(ips: &Vec<Ipv4Net>) -> (r: Vec<String>)
    ensures
        r.deep_view() == ips@.map_values(|n: Ipv4Net| render_ipv4net(n)),
{
    let mut r: Vec<String> = Vec::new();
    let mut i: usize = 0;
    while i < ips.len()
        invariant
            i <= ips@.len(),
            r@.len() == i,
            forall|j: int| 0 <= j < i ==> r@[j]@ == render_ipv4net(ips@[j]),
        decreases ips@.len() - i,
    {
        r.push(ips[i].render());
        i = i + 1;
    }
    proof {
        assert(r.deep_view() =~= ips@.map_values(|n: Ipv4Net| render_ipv4net(n)));
    }
    r
}

impl ExportConfig for Peer {
    /// Rendering needs a well-formed key: a held private key must be 32
    /// bytes so the public form can be derived for display.
    open spec fn config_wf(&self) -> bool {
        self@.key.wf()
    }

    /// The peer section.
    open spec fn config_spec(&self) -> Seq<char> {
        render_peer(self@)
    }

    /// Renders the peer section. Raw private key material is never written:
    /// the `PublicKey` line always holds the public form.
    fn config(&self) -> (r: String) {
        let ghost mut ls: Seq<Seq<char>> = Seq::empty();
        let mut out = String::new();
        out.append("[Peer]");
        push_char(&mut out, '\n');
        proof {
            lemma_lines_push(ls, "[Peer]"@);
            ls = ls.push("[Peer]"@);
            assert(out@ =~= lines_text(ls));
        }
        if let Some(e) = &self.endpoint {
            out.append("Endpoint = ");
            out.append(e.as_str());
            push_char(&mut out, '\n');
            proof {
                let line = "Endpoint = "@ + e@;
                lemma_lines_push(ls, line);
                ls = ls.push(line);
                assert(out@ =~= lines_text(ls));
            }
        }
        out.append("AllowedIPs = ");
        out.append(join_comma_strings(&render_nets(&self.allowed_ips)).as_str());
        push_char(&mut out, '\n');
        proof {
            let line = "AllowedIPs = "@ + join_comma(
                self@.allowed_ips.map_values(|n: Ipv4Net| render_ipv4net(n)),
            );
            lemma_lines_push(ls, line);
            ls = ls.push(line);
            assert(out@ =~= lines_text(ls));
        }
        out.append("PublicKey = ");
        let pk_text = match &self.key {
            Key::Private(k) => PublicKey::from(k).to_base64(),
            Key::Public(p) => p.to_base64(),
        };
        out.append(pk_text.as_str());
        push_char(&mut out, '\n');
        proof {
            let line = "PublicKey = "@ + b64_encode_spec(self@.key.public_bytes());
            lemma_lines_push(ls, line);
            ls = ls.push(line);
            assert(out@ =~= lines_text(ls));
            assert(ls =~= peer_lines(self@));
        }
        out
    }
}

} // verus!
