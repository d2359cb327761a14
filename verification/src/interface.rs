//! The interface record: a node's own view — address, key, DNS, peers — the
//! conversion to the peer record a remote node needs, and the rendering of
//! the full config.

use vstd::prelude::*;
use vstd::string::StringExecFns;

use crate::amnezia::{render_amnezia, AmneziaSettings};
use crate::b64::b64_encode_spec;
use crate::export::ExportConfig;
use crate::keys::{Key, KeyView, PrivateKey};
use crate::net::{render_ipv4net, Ipv4Net};
use crate::peer::{render_peer, Peer, PeerV};
use crate::text::{clone_opt_string, clone_string_vec, dec_str, join_comma, join_comma_strings,
    lemma_lines_push, lines_text, push_char, render_u64};

verus! {

/// A node's own interface: its tunnel network, optional listen port, private
/// key, DNS servers, an optional name label, optional obfuscation values,
/// and the peers it trusts.
#[derive(Debug)]
pub struct Interface {
    /// The node's own tunnel network, address and mask.
    pub address: Ipv4Net,
    /// The UDP port the node listens on, when fixed.
    pub listen_port: Option<u16>,
    /// The node's private key.
    pub private_key: PrivateKey,
    /// DNS server texts, rendered in order.
    pub dns: Vec<String>,
    /// A human-readable label; rendered only as a comment.
    pub endpoint: Option<String>,
    /// Optional obfuscation values.
    pub amnezia_settings: Option<AmneziaSettings>,
    /// The peers this interface trusts; order matters only for rendering.
    pub peers: Vec<Peer>,
}

/// The mathematical value of an `Interface`.
#[verifier::ext_equal]
pub struct InterfaceV {
    pub address: Ipv4Net,
    pub listen_port: Option<u16>,
    pub private_key: Seq<u8>,
    pub dns: Seq<Seq<char>>,
    pub endpoint: Option<Seq<char>>,
    pub amnezia_settings: Option<AmneziaSettings>,
    pub peers: Seq<PeerV>,
}

impl InterfaceV {
    /// Well-formed: a valid prefix, a 32-byte private key, and well-formed
    /// peers.
    pub open spec fn wf(self) -> bool {
        &&& self.address.wf()
        &&& self.private_key.len() == 32
        &&& forall|i: int| 0 <= i < self.peers.len() ==> self.peers[i].wf()
    }
}

impl View for Interface {
    type V = InterfaceV;

    open spec fn view(&self) -> InterfaceV {
        InterfaceV {
            address: self.address,
            listen_port: self.listen_port,
            private_key: self.private_key@,
            dns: self.dns.deep_view(),
            endpoint: self.endpoint.deep_view(),
            amnezia_settings: self.amnezia_settings,
            peers: self.peers.deep_view(),
        }
    }
}

impl DeepView for Interface {
    type V = InterfaceV;

    open spec fn deep_view(&self) -> InterfaceV {
        self@
    }
}

/// The peer record a remote node uses to reach an interface: the whole
/// declared network as the single allowed entry, the endpoint label copied,
/// the private key carried in its private form, preshared key and keepalive
/// reset, obfuscation values copied.
pub open spec fn to_peer_spec(iv: InterfaceV) -> PeerV {
    PeerV {
        endpoint: iv.endpoint,
        allowed_ips: seq![iv.address],
        key: KeyView::Private(iv.private_key),
        preshared_key: None,
        persistent_keepalive: None,
        amnezia_settings: iv.amnezia_settings,
    }
}

impl Interface {
    /// Well-formed: see `InterfaceV::wf`.
    pub open spec fn wf(self) -> bool {
        self@.wf()
    }

    /// Builds the peer record a remote node would use to reach this
    /// interface. Cannot fail.
    pub fn to_peer(&self) -> (r: Peer)
        ensures
            r@ == to_peer_spec(self@),
            self.wf() ==> r.wf(),
    {
        let mut allowed_ips: Vec<Ipv4Net> = Vec::new();
        allowed_ips.push(self.address);
        let r = Peer {
            endpoint: clone_opt_string(&self.endpoint),
            allowed_ips,
            key: Key::Private(self.private_key.clone()),
            preshared_key: None,
            persistent_keepalive: None,
            amnezia_settings: self.amnezia_settings,
        };
        proof {
            assert(r@.allowed_ips =~= seq![self@.address]);
            assert(r@ =~= to_peer_spec(self@));
        }
        r
    }
}

impl Clone for Interface {
    /// Cloning keeps the interface's value, its peers deep-copied.
    fn clone(&self) -> (r: Self)
        ensures
            r@ == self@,
    {
        let mut peers: Vec<Peer> = Vec::new();
        let mut i: usize = 0;
        while i < self.peers.len()
            invariant
                i <= self.peers@.len(),
                peers@.len() == i,
                forall|j: int| 0 <= j < i ==> peers@[j]@ == self.peers@[j]@,
            decreases self.peers@.len() - i,
        {
            peers.push(self.peers[i].clone());
            i = i + 1;
        }
        let r = Interface {
            address: self.address,
            listen_port: self.listen_port,
            private_key: self.private_key.clone(),
            dns: clone_string_vec(&self.dns),
            endpoint: clone_opt_string(&self.endpoint),
            amnezia_settings: self.amnezia_settings,
            peers,
        };
        proof {
            assert(r@.peers =~= self@.peers);
            assert(r@ =~= self@);
        }
        r
    }
}

/// The rendered lines of the interface section, in fixed order, each
/// omitted when its value is absent or empty: the header, the name comment,
/// the address, the listen port, the private key, and the DNS list.
pub open spec fn interface_section_lines(iv: InterfaceV) -> Seq<Seq<char>> {
    seq!["[Interface]"@] + (match iv.endpoint {
        Some(e) => seq!["# Name = "@ + e],
        None => Seq::empty(),
    }) + seq!["Address = "@ + render_ipv4net(iv.address)] + (match iv.listen_port {
        Some(p) => seq!["ListenPort = "@ + dec_str(p as nat)],
        None => Seq::empty(),
    }) + seq!["PrivateKey = "@ + b64_encode_spec(iv.private_key)] + (if iv.dns.len() == 0 {
        Seq::<Seq<char>>::empty()
    } else {
        seq!["DNS = "@ + join_comma(iv.dns)]
    })
}

/// The interface section's text.
pub open spec fn interface_section(iv: InterfaceV) -> Seq<char> {
    lines_text(interface_section_lines(iv))
}

/// The obfuscation block: a blank line, the parameter lines, a trailing
/// blank line; empty when the values are absent.
pub open spec fn amnezia_block(o: Option<AmneziaSettings>) -> Seq<char> {
    match o {
        Some(a) => seq!['\n'] + render_amnezia(a) + seq!['\n'],
        None => Seq::empty(),
    }
}

/// The peer blocks, in order: each preceded by a blank line and followed by
/// a trailing blank line.
pub open spec fn peer_blocks(ps: Seq<PeerV>) -> Seq<char>
    decreases ps.len(),
{
    if ps.len() == 0 {
        Seq::empty()
    } else {
        peer_blocks(ps.drop_last()) + seq!['\n'] + render_peer(ps.last()) + seq!['\n']
    }
}

/// The full config text of an interface.
pub open spec fn render_interface(iv: InterfaceV) -> Seq<char> {
    interface_section(iv) + amnezia_block(iv.amnezia_settings) + peer_blocks(iv.peers)
}

impl ExportConfig for Interface {
    /// Rendering needs well-formed peer keys, so each peer's public form
    /// can be derived for display.
    open spec fn config_wf(&self) -> bool {
        forall|i: int| 0 <= i < self@.peers.len() ==> (#[trigger] self@.peers[i]).key.wf()
    }

    /// The full config: the interface section, the obfuscation block when
    /// present, and one block per peer.
    open spec fn config_spec(&self) -> Seq<char> {
        render_interface(self@)
    }

    /// Renders the full config.
    #[verifier::rlimit(50)]
    fn config(&self) -> (r: String) {
        let ghost mut ls: Seq<Seq<char>> = Seq::empty();
        let mut out = String::new();
        out.append("[Interface]");
        push_char(&mut out, '\n');
        proof {
            lemma_lines_push(ls, "[Interface]"@);
            ls = ls.push("[Interface]"@);
            assert(out@ =~= lines_text(ls));
        }
        if let Some(e) = &self.endpoint {
            out.append("# Name = ");
            out.append(e.as_str());
            push_char(&mut out, '\n');
            proof {
                let line = "# Name = "@ + e@;
                lemma_lines_push(ls, line);
                ls = ls.push(line);
                assert(out@ =~= lines_text(ls));
            }
        }
        out.append("Address = ");
        out.append(self.address.render().as_str());
        push_char(&mut out, '\n');
        proof {
            let line = "Address = "@ + render_ipv4net(self@.address);
            lemma_lines_push(ls, line);
            ls = ls.push(line);
            assert(out@ =~= lines_text(ls));
        }
        if let Some(p) = self.listen_port {
            out.append("ListenPort = ");
            out.append(render_u64(p as u64).as_str());
            push_char(&mut out, '\n');
            proof {
                let line = "ListenPort = "@ + dec_str(p as nat);
                lemma_lines_push(ls, line);
                ls = ls.push(line);
                assert(out@ =~= lines_text(ls));
            }
        }
        out.append("PrivateKey = ");
        out.append(self.private_key.to_base64().as_str());
        push_char(&mut out, '\n');
        proof {
            let line = "PrivateKey = "@ + b64_encode_spec(self@.private_key);
            lemma_lines_push(ls, line);
            ls = ls.push(line);
            assert(out@ =~= lines_text(ls));
        }
        if self.dns.len() > 0 {
            out.append("DNS = ");
            out.append(join_comma_strings(&self.dns).as_str());
            push_char(&mut out, '\n');
            proof {
                let line = "DNS = "@ + join_comma(self@.dns);
                lemma_lines_push(ls, line);
                ls = ls.push(line);
                assert(out@ =~= lines_text(ls));
            }
        }
        proof {
            assert(ls =~= interface_section_lines(self@));
        }
        if let Some(a) = &self.amnezia_settings {
            push_char(&mut out, '\n');
            out.append(a.config().as_str());
            push_char(&mut out, '\n');
        }
        let ghost head = interface_section(self@) + amnezia_block(self@.amnezia_settings);
        proof {
            assert(out@ =~= head);
            assert(self@.peers.take(0int) =~= Seq::<PeerV>::empty());
        }
        let mut i: usize = 0;
        while i < self.peers.len()
            invariant
                i <= self.peers@.len(),
                self@.peers.len() == self.peers@.len(),
                forall|j: int| 0 <= j < self@.peers.len() ==> (#[trigger] self@.peers[j]).key.wf(),
                forall|j: int| 0 <= j < self.peers@.len() ==> (#[trigger] self.peers@[j])@
                    == self@.peers[j],
                out@ == head + peer_blocks(self@.peers.take(i as int)),
            decreases self.peers@.len() - i,
        {
            push_char(&mut out, '\n');
            let block = self.peers[i].config();
            out.append(block.as_str());
            push_char(&mut out, '\n');
            proof {
                let prev = self@.peers.take(i as int);
                let cur = self@.peers.take(i + 1 as int);
                assert(cur.drop_last() =~= prev);
                assert(cur.last() == self@.peers[i as int]);
                assert(out@ =~= head + peer_blocks(cur));
            }
            i = i + 1;
        }
        proof {
            assert(self@.peers.take(self.peers@.len() as int) =~= self@.peers);
            assert(out@ =~= render_interface(self@));
        }
        out
    }
}

/// Law: an interface with no name label, no listen port and no DNS servers
/// renders exactly three lines before any obfuscation or peer block — the
/// header, the address line, and the private-key line.
pub proof fn lemma_three_line_section(iv: InterfaceV)
    requires
        iv.endpoint is None,
        iv.listen_port is None,
        iv.dns.len() == 0,
    ensures
        interface_section_lines(iv).len() == 3,
        interface_section_lines(iv) == seq![
            "[Interface]"@,
            "Address = "@ + render_ipv4net(iv.address),
            "PrivateKey = "@ + b64_encode_spec(iv.private_key),
        ],
{
    assert(interface_section_lines(iv) =~= seq![
        "[Interface]"@,
        "Address = "@ + render_ipv4net(iv.address),
        "PrivateKey = "@ + b64_encode_spec(iv.private_key),
    ]);
}

/// Law: rendering is deterministic — two renderings of one interface value
/// are character-for-character identical.
pub proof fn lemma_render_deterministic(i: &Interface, s1: String, s2: String)
    requires
        call_ensures(<Interface as ExportConfig>::config, (i,), s1),
        call_ensures(<Interface as ExportConfig>::config, (i,), s2),
    ensures
        s1@ == s2@,
{
}

} // verus!
