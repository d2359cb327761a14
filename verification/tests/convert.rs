use wireguard_conf::{
    AmneziaSettings, InterfaceBuilder, Ipv4Net, Key, PeerBuilder, PrivateKey, PublicKey,
    WireguardError,
};

fn net(a: u8, b: u8, c: u8, d: u8, prefix: u8) -> Ipv4Net {
    Ipv4Net::new(a, b, c, d, prefix).unwrap()
}

#[test]
fn interface_to_peer() {
    let address = net(10, 3, 2, 1, 24);
    let endpoint = "server.example.com".to_string();
    let interface = InterfaceBuilder::new()
        .address(address)
        .listen_port(55870)
        .set_dns(vec!["8.8.8.8".to_string(), "8.8.4.4".to_string()])
        .add_dns("1.1.1.1".to_string())
        .endpoint(endpoint.clone())
        .build();

    let result_peer = interface.to_peer();
    let expected_peer = PeerBuilder::new()
        .add_allowed_ip(net(10, 3, 2, 1, 24))
        .endpoint(endpoint.clone())
        .private_key(interface.private_key.clone())
        .build();

    assert_eq!(result_peer.endpoint, expected_peer.endpoint);
    assert_eq!(result_peer.allowed_ips, expected_peer.allowed_ips);
    assert_eq!(result_peer.key, expected_peer.key)
}

#[test]
fn to_peer_carries_whole_network() {
    // the whole declared network becomes the single allowed entry,
    // and the key is the private variant wrapping the interface's key
    let key = PrivateKey::random();
    let interface = InterfaceBuilder::new()
        .address(net(10, 0, 0, 1, 24))
        .private_key(key.clone())
        .build();

    let peer = interface.to_peer();
    assert_eq!(peer.allowed_ips, vec![net(10, 0, 0, 1, 24)]);
    assert_eq!(peer.key, Key::Private(key));
    assert!(peer.preshared_key.is_none());
    assert!(peer.persistent_keepalive.is_none());
}

#[test]
fn to_interface_picks_first_contained_entry() {
    let reference = InterfaceBuilder::new()
        .address(net(10, 0, 0, 1, 24))
        .set_dns(vec!["8.8.8.8".to_string()])
        .endpoint("vpn.example.com".to_string())
        .build();

    // 0.0.0.0/0 covers more than the reference network, so it is not
    // contained in it; the first entry that is contained wins
    let peer = PeerBuilder::new()
        .add_allowed_ip(net(0, 0, 0, 0, 0))
        .add_allowed_ip(net(10, 0, 0, 2, 24))
        .private_key(PrivateKey::random())
        .build();

    let derived = peer.to_interface(&reference).unwrap();
    assert_eq!(derived.address, net(10, 0, 0, 2, 24));

    // with two contained entries, list order decides
    let peer = PeerBuilder::new()
        .add_allowed_ip(net(10, 0, 0, 3, 32))
        .add_allowed_ip(net(10, 0, 0, 2, 24))
        .private_key(PrivateKey::random())
        .build();

    let derived = peer.to_interface(&reference).unwrap();
    assert_eq!(derived.address, net(10, 0, 0, 3, 32));
}

#[test]
fn to_interface_fields() {
    let settings = AmneziaSettings::random();
    let client_key = PrivateKey::random();
    let reference = InterfaceBuilder::new()
        .address(net(10, 0, 0, 1, 24))
        .listen_port(51820)
        .set_dns(vec!["8.8.8.8".to_string(), "1.1.1.1".to_string()])
        .endpoint("vpn.example.com".to_string())
        .build();

    let peer = PeerBuilder::new()
        .add_allowed_ip(net(10, 0, 0, 2, 32))
        .private_key(client_key.clone())
        .set_amnezia_settings(settings)
        .build();

    let derived = peer.to_interface(&reference).unwrap();
    assert_eq!(derived.address, net(10, 0, 0, 2, 32));
    assert_eq!(derived.listen_port, None);
    assert_eq!(derived.private_key, client_key);
    assert_eq!(derived.dns, reference.dns);
    assert_eq!(derived.endpoint, None);
    assert_eq!(
        derived.amnezia_settings.map(|s| (s.jc, s.h1)),
        Some((settings.jc, settings.h1))
    );

    // the derived interface's only peer is the reference, seen from outside
    assert_eq!(derived.peers.len(), 1);
    let expected = reference.to_peer();
    assert_eq!(derived.peers[0].endpoint, expected.endpoint);
    assert_eq!(derived.peers[0].allowed_ips, expected.allowed_ips);
    assert_eq!(derived.peers[0].key, expected.key);
}

#[test]
fn to_interface_failures() {
    let reference = InterfaceBuilder::new().address(net(10, 0, 0, 1, 24)).build();

    // a peer holding only a public key cannot derive an interface
    let peer = PeerBuilder::new()
        .add_allowed_ip(net(10, 0, 0, 2, 32))
        .public_key(PublicKey::from(&PrivateKey::random()))
        .build();
    assert!(matches!(
        peer.to_interface(&reference),
        Err(WireguardError::NoPrivateKeyProvided)
    ));

    // no allowed entry inside the reference network
    let peer = PeerBuilder::new()
        .add_allowed_ip(net(192, 168, 1, 0, 24))
        .private_key(PrivateKey::random())
        .build();
    assert!(matches!(
        peer.to_interface(&reference),
        Err(WireguardError::NoAssignedIP)
    ));

    // an empty allowed list has no entry to assign
    let peer = PeerBuilder::new().private_key(PrivateKey::random()).build();
    assert!(matches!(
        peer.to_interface(&reference),
        Err(WireguardError::NoAssignedIP)
    ));
}
