use wireguard_conf::{
    InterfaceBuilder, Ipv4Net, Key, PeerBuilder, PrivateKey, PublicKey,
};

fn net(a: u8, b: u8, c: u8, d: u8, prefix: u8) -> Ipv4Net {
    Ipv4Net::new(a, b, c, d, prefix).unwrap()
}

#[test]
fn interface_builder() {
    let address = net(10, 3, 2, 1, 24);

    let interface = InterfaceBuilder::new()
        .address(address)
        .listen_port(55870)
        .set_dns(vec!["8.8.8.8".to_string(), "8.8.4.4".to_string()])
        .add_dns("1.1.1.1".to_string())
        .add_peer(
            PeerBuilder::new()
                .set_allowed_ips(vec![net(0, 0, 0, 0, 0)])
                .add_allowed_ip(net(10, 3, 2, 2, 24))
                .public_key(PublicKey::from(&PrivateKey::random()))
                .build(),
        )
        .build();

    assert_eq!(interface.address, address);
    assert_eq!(interface.listen_port, Some(55870));
    assert_eq!(interface.dns.len(), 3);
    assert_eq!(interface.peers.len(), 1);
}

#[test]
fn peer_builder() {
    let allowed_ip = net(10, 3, 2, 1, 32);
    let endpoint = "peer.example.com".to_string();

    let peer = PeerBuilder::new()
        .set_allowed_ips(vec![allowed_ip])
        .endpoint(endpoint.clone())
        .build();

    assert_eq!(peer.allowed_ips, vec![allowed_ip]);
    assert_eq!(peer.endpoint, Some(endpoint));
}

#[test]
fn builder_defaults() {
    let interface = InterfaceBuilder::new().build();
    assert_eq!(interface.address, net(0, 0, 0, 0, 0));
    assert_eq!(interface.listen_port, None);
    assert!(interface.dns.is_empty());
    assert_eq!(interface.endpoint, None);
    assert!(interface.amnezia_settings.is_none());
    assert!(interface.peers.is_empty());

    // a peer built without a key gets a fresh private key
    let peer = PeerBuilder::new().build();
    assert!(matches!(peer.key, Key::Private(_)));
    assert!(peer.preshared_key.is_none());
    assert!(peer.persistent_keepalive.is_none());
}
