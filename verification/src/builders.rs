//! Fluent builders: they collect optional fields and apply the defaults — a
//! fresh random key, empty lists — at a single construction point.

use vstd::prelude::*;

use crate::amnezia::AmneziaSettings;
use crate::interface::{Interface, InterfaceV};
use crate::keys::{Key, KeyView, PrivateKey, PublicKey};
use crate::net::Ipv4Net;
use crate::peer::{Peer, PeerV};

verus! {

/// Collects the fields of an `Interface` before construction.
pub struct InterfaceBuilder {
    address: Option<Ipv4Net>,
    listen_port: Option<u16>,
    private_key: Option<PrivateKey>,
    dns: Vec<String>,
    endpoint: Option<String>,
    amnezia_settings: Option<AmneziaSettings>,
    peers: Vec<Peer>,
}

/// The mathematical value of an `InterfaceBuilder`.
#[verifier::ext_equal]
pub struct InterfaceBuilderV {
    pub address: Option<Ipv4Net>,
    pub listen_port: Option<u16>,
    pub private_key: Option<Seq<u8>>,
    pub dns: Seq<Seq<char>>,
    pub endpoint: Option<Seq<char>>,
    pub amnezia_settings: Option<AmneziaSettings>,
    pub peers: Seq<PeerV>,
}

impl View for InterfaceBuilder {
    type V = InterfaceBuilderV;

    closed spec fn view(&self) -> InterfaceBuilderV {
        InterfaceBuilderV {
            address: self.address,
            listen_port: self.listen_port,
            private_key: match self.private_key {
                Some(k) => Some(k@),
                None => None,
            },
            dns: self.dns.deep_view(),
            endpoint: self.endpoint.deep_view(),
            amnezia_settings: self.amnezia_settings,
            peers: self.peers.deep_view(),
        }
    }
}

/// The address used when none was set: the all-covering network `0.0.0.0/0`.
pub open spec fn default_address() -> Ipv4Net {
    Ipv4Net { addr: 0, prefix: 0 }
}

impl InterfaceBuilder {
    /// An empty builder: no fields set, empty lists.
    pub fn new() -> (r: InterfaceBuilder)
        ensures
            r@ == (InterfaceBuilderV {
                address: None,
                listen_port: None,
                private_key: None,
                dns: Seq::empty(),
                endpoint: None,
                amnezia_settings: None,
                peers: Seq::empty(),
            }),
    {
        let r = InterfaceBuilder {
            address: None,
            listen_port: None,
            private_key: None,
            dns: Vec::new(),
            endpoint: None,
            amnezia_settings: None,
            peers: Vec::new(),
        };
        proof {
            assert(r@ =~= (InterfaceBuilderV {
                address: None,
                listen_port: None,
                private_key: None,
                dns: Seq::empty(),
                endpoint: None,
                amnezia_settings: None,
                peers: Seq::empty(),
            }));
        }
        r
    }

    /// Sets the address.
    pub fn address(self, address: Ipv4Net) -> (r: Self)
        ensures
            r@ == (InterfaceBuilderV { address: Some(address), ..self@ }),
    {
        let ghost before = self@;
        let r = InterfaceBuilder { address: Some(address), ..self };
        proof {
            assert(r@ =~= (InterfaceBuilderV { address: Some(address), ..before }));
        }
        r
    }

    /// Sets the listen port.
    pub fn listen_port(self, listen_port: u16) -> (r: Self)
        ensures
            r@ == (InterfaceBuilderV { listen_port: Some(listen_port), ..self@ }),
    {
        let ghost before = self@;
        let r = InterfaceBuilder { listen_port: Some(listen_port), ..self };
        proof {
            assert(r@ =~= (InterfaceBuilderV { listen_port: Some(listen_port), ..before }));
        }
        r
    }

    /// Sets the private key.
    pub fn private_key(self, private_key: PrivateKey) -> (r: Self)
        ensures
            r@ == (InterfaceBuilderV { private_key: Some(private_key@), ..self@ }),
    {
        let ghost before = self@;
        let ghost kv = private_key@;
        let r = InterfaceBuilder { private_key: Some(private_key), ..self };
        proof {
            assert(r@ =~= (InterfaceBuilderV { private_key: Some(kv), ..before }));
        }
        r
    }

    /// Replaces the DNS server list.
    pub fn set_dns(self, dns: Vec<String>) -> (r: Self)
        ensures
            r@ == (InterfaceBuilderV { dns: dns.deep_view(), ..self@ }),
    {
        let ghost before = self@;
        let ghost dv = dns.deep_view();
        let r = InterfaceBuilder { dns, ..self };
        proof {
            assert(r@ =~= (InterfaceBuilderV { dns: dv, ..before }));
        }
        r
    }

    /// Appends one DNS server.
    pub fn add_dns(self, dns: String) -> (r: Self)
        ensures
            r@ == (InterfaceBuilderV { dns: self@.dns.push(dns@), ..self@ }),
    {
        let ghost before = self@;
        let ghost dv = dns@;
        let InterfaceBuilder {
            address,
            listen_port,
            private_key,
            dns: mut dns_list,
            endpoint,
            amnezia_settings,
            peers,
        } = self;
        dns_list.push(dns);
        let r = InterfaceBuilder {
            address,
            listen_port,
            private_key,
            dns: dns_list,
            endpoint,
            amnezia_settings,
            peers,
        };
        proof {
            assert(r.dns.deep_view() =~= before.dns.push(dv));
            assert(r@ =~= (InterfaceBuilderV { dns: before.dns.push(dv), ..before }));
        }
        r
    }

    /// Sets the name label.
    pub fn endpoint(self, endpoint: String) -> (r: Self)
        ensures
            r@ == (InterfaceBuilderV { endpoint: Some(endpoint@), ..self@ }),
    {
        let ghost before = self@;
        let ghost ev = endpoint@;
        let r = InterfaceBuilder { endpoint: Some(endpoint), ..self };
        proof {
            assert(r@ =~= (InterfaceBuilderV { endpoint: Some(ev), ..before }));
        }
        r
    }

    /// Replaces the peer list.
    pub fn set_peers(self, peers: Vec<Peer>) -> (r: Self)
        ensures
            r@ == (InterfaceBuilderV { peers: peers.deep_view(), ..self@ }),
    {
        let ghost before = self@;
        let ghost pv = peers.deep_view();
        let r = InterfaceBuilder { peers, ..self };
        proof {
            assert(r@ =~= (InterfaceBuilderV { peers: pv, ..before }));
        }
        r
    }

    /// Appends one peer.
    pub fn add_peer(self, peer: Peer) -> (r: Self)
        ensures
            r@ == (InterfaceBuilderV { peers: self@.peers.push(peer@), ..self@ }),
    {
        let ghost before = self@;
        let ghost pv = peer@;
        let InterfaceBuilder {
            address,
            listen_port,
            private_key,
            dns,
            endpoint,
            amnezia_settings,
            peers: mut peer_list,
        } = self;
        peer_list.push(peer);
        let r = InterfaceBuilder {
            address,
            listen_port,
            private_key,
            dns,
            endpoint,
            amnezia_settings,
            peers: peer_list,
        };
        proof {
            assert(r.peers.deep_view() =~= before.peers.push(pv));
            assert(r@ =~= (InterfaceBuilderV { peers: before.peers.push(pv), ..before }));
        }
        r
    }

    /// Sets the obfuscation values.
    pub fn amnezia_settings(self, amnezia_settings: AmneziaSettings) -> (r: Self)
        ensures
            r@ == (InterfaceBuilderV { amnezia_settings: Some(amnezia_settings), ..self@ }),
    {
        let ghost before = self@;
        let r = InterfaceBuilder { amnezia_settings: Some(amnezia_settings), ..self };
        proof {
            assert(r@ =~= (InterfaceBuilderV {
                amnezia_settings: Some(amnezia_settings),
                ..before
            }));
        }
        r
    }

    /// Builds the interface: the collected fields, the default address when
    /// none was set, and a fresh random private key when none was given.
    pub fn build(self) -> (r: Interface)
        ensures
            r@.address == match self@.address {
                Some(a) => a,
                None => default_address(),
            },
            r@.listen_port == self@.listen_port,
            match self@.private_key {
                Some(k) => r@.private_key == k,
                None => r@.private_key.len() == 32,
            },
            r@.dns == self@.dns,
            r@.endpoint == self@.endpoint,
            r@.amnezia_settings == self@.amnezia_settings,
            r@.peers == self@.peers,
            (match self@.address {
                Some(a) => a.wf(),
                None => true,
            }) && (match self@.private_key {
                Some(k) => k.len() == 32,
                None => true,
            }) && (forall|i: int| 0 <= i < self@.peers.len() ==> self@.peers[i].wf()) ==> r.wf(),
    {
        let ghost before = self@;
        let address = match self.address {
            Some(a) => a,
            None => Ipv4Net { addr: 0, prefix: 0 },
        };
        let private_key = match self.private_key {
            Some(k) => k,
            None => PrivateKey::random(),
        };
        let r = Interface {
            address,
            listen_port: self.listen_port,
            private_key,
            dns: self.dns,
            endpoint: self.endpoint,
            amnezia_settings: self.amnezia_settings,
            peers: self.peers,
        };
        proof {
            assert(r@.peers == before.peers);
            if (match before.address {
                Some(a) => a.wf(),
                None => true,
            }) && (match before.private_key {
                Some(k) => k.len() == 32,
                None => true,
            }) && (forall|i: int| 0 <= i < before.peers.len() ==> before.peers[i].wf()) {
                assert forall|i: int| 0 <= i < r@.peers.len() implies r@.peers[i].wf() by {
                    assert(r@.peers[i] == before.peers[i]);
                }
                assert(r@.wf());
            }
        }
        r
    }
}

/// Collects the fields of a `Peer` before construction.
pub struct PeerBuilder {
    endpoint: Option<String>,
    allowed_ips: Vec<Ipv4Net>,
    key: Option<Key>,
    amnezia_settings: Option<AmneziaSettings>,
}

/// The mathematical value of a `PeerBuilder`.
#[verifier::ext_equal]
pub struct PeerBuilderV {
    pub endpoint: Option<Seq<char>>,
    pub allowed_ips: Seq<Ipv4Net>,
    pub key: Option<KeyView>,
    pub amnezia_settings: Option<AmneziaSettings>,
}

impl View for PeerBuilder {
    type V = PeerBuilderV;

    closed spec fn view(&self) -> PeerBuilderV {
        PeerBuilderV {
            endpoint: self.endpoint.deep_view(),
            allowed_ips: self.allowed_ips@,
            key: match self.key {
                Some(k) => Some(k@),
                None => None,
            },
            amnezia_settings: self.amnezia_settings,
        }
    }
}

impl PeerBuilder {
    /// An empty builder: no fields set, an empty allowed-IP list.
    pub fn new() -> (r: PeerBuilder)
        ensures
            r@ == (PeerBuilderV {
                endpoint: None,
                allowed_ips: Seq::empty(),
                key: None,
                amnezia_settings: None,
            }),
    {
        let r = PeerBuilder {
            endpoint: None,
            allowed_ips: Vec::new(),
            key: None,
            amnezia_settings: None,
        };
        proof {
            assert(r@ =~= (PeerBuilderV {
                endpoint: None,
                allowed_ips: Seq::empty(),
                key: None,
                amnezia_settings: None,
            }));
        }
        r
    }

    /// Sets the endpoint.
    pub fn endpoint(self, endpoint: String) -> (r: PeerBuilder)
        ensures
            r@ == (PeerBuilderV { endpoint: Some(endpoint@), ..self@ }),
    {
        let ghost before = self@;
        let ghost ev = endpoint@;
        let r = PeerBuilder { endpoint: Some(endpoint), ..self };
        proof {
            assert(r@ =~= (PeerBuilderV { endpoint: Some(ev), ..before }));
        }
        r
    }

    /// Replaces the allowed-IP list.
    pub fn set_allowed_ips(self, ip: Vec<Ipv4Net>) -> (r: PeerBuilder)
        ensures
            r@ == (PeerBuilderV { allowed_ips: ip@, ..self@ }),
    {
        let ghost before = self@;
        let ghost iv = ip@;
        let r = PeerBuilder { allowed_ips: ip, ..self };
        proof {
            assert(r@ =~= (PeerBuilderV { allowed_ips: iv, ..before }));
        }
        r
    }

    /// Appends one allowed network.
    pub fn add_allowed_ip(self, ip: Ipv4Net) -> (r: PeerBuilder)
        ensures
            r@ == (PeerBuilderV { allowed_ips: self@.allowed_ips.push(ip), ..self@ }),
    {
        let ghost before = self@;
        let PeerBuilder { endpoint, allowed_ips: mut ip_list, key, amnezia_settings } = self;
        ip_list.push(ip);
        let r = PeerBuilder { endpoint, allowed_ips: ip_list, key, amnezia_settings };
        proof {
            assert(r@ =~= (PeerBuilderV { allowed_ips: before.allowed_ips.push(ip), ..before }));
        }
        r
    }

    /// Sets a private key; the built peer can then derive its own
    /// interface.
    pub fn private_key(self, private_key: PrivateKey) -> (r: PeerBuilder)
        ensures
            r@ == (PeerBuilderV { key: Some(KeyView::Private(private_key@)), ..self@ }),
    {
        let ghost before = self@;
        let ghost kv = private_key@;
        let r = PeerBuilder { key: Some(Key::Private(private_key)), ..self };
        proof {
            assert(r@ =~= (PeerBuilderV { key: Some(KeyView::Private(kv)), ..before }));
        }
        r
    }

    /// Sets a public key: only the peer's identity is known.
    pub fn public_key(self, public_key: PublicKey) -> (r: PeerBuilder)
        ensures
            r@ == (PeerBuilderV { key: Some(KeyView::Public(public_key@)), ..self@ }),
    {
        let ghost before = self@;
        let ghost kv = public_key@;
        let r = PeerBuilder { key: Some(Key::Public(public_key)), ..self };
        proof {
            assert(r@ =~= (PeerBuilderV { key: Some(KeyView::Public(kv)), ..before }));
        }
        r
    }

    /// Sets the obfuscation values.
    pub fn set_amnezia_settings(self, amnezia_settings: AmneziaSettings) -> (r: PeerBuilder)
        ensures
            r@ == (PeerBuilderV { amnezia_settings: Some(amnezia_settings), ..self@ }),
    {
        let ghost before = self@;
        let r = PeerBuilder { amnezia_settings: Some(amnezia_settings), ..self };
        proof {
            assert(r@ =~= (PeerBuilderV {
                amnezia_settings: Some(amnezia_settings),
                ..before
            }));
        }
        r
    }

    /// Builds the peer: the collected fields, a fresh random private key
    /// when none was given, no preshared key and no keepalive.
    pub fn build(self) -> (r: Peer)
        ensures
            r@.endpoint == self@.endpoint,
            r@.allowed_ips == self@.allowed_ips,
            match self@.key {
                Some(kv) => r@.key == kv,
                None => r@.key matches KeyView::Private(b) && b.len() == 32,
            },
            r@.preshared_key is None,
            r@.persistent_keepalive is None,
            r@.amnezia_settings == self@.amnezia_settings,
            (match self@.key {
                Some(kv) => kv.wf(),
                None => true,
            }) && (forall|i: int| 0 <= i < self@.allowed_ips.len() ==> self@.allowed_ips[i].wf())
                ==> r.wf(),
    {
        let key = match self.key {
            Some(k) => k,
            None => Key::Private(PrivateKey::random()),
        };
        Peer {
            endpoint: self.endpoint,
            allowed_ips: self.allowed_ips,
            key,
            preshared_key: None,
            persistent_keepalive: None,
            amnezia_settings: self.amnezia_settings,
        }
    }
}

} // verus!
