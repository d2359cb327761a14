use wireguard_conf::{
    ExportConfig, Interface, InterfaceBuilder, Ipv4Net, Peer, PeerBuilder, PrivateKey,
};

fn net(a: u8, b: u8, c: u8, d: u8, prefix: u8) -> Ipv4Net {
    Ipv4Net::new(a, b, c, d, prefix).unwrap()
}

fn get_example_data() -> (Interface, Peer) {
    let address = net(10, 0, 0, 1, 24);

    let peer = PeerBuilder::new()
        .add_allowed_ip(net(10, 0, 0, 2, 32))
        .private_key(PrivateKey::random())
        .build();
    let interface = InterfaceBuilder::new()
        .address(address)
        .listen_port(55870)
        .set_dns(vec!["8.8.8.8".to_string(), "8.8.4.4".to_string()])
        .endpoint("vpn.example.com".to_string())
        .add_peer(peer.clone())
        .build();

    (interface, peer)
}

#[test]
pub fn export_interface() {
    let (interface, _peer) = get_example_data();

    println!("{}", interface.config());
}

#[test]
pub fn export_client_interface() {
    let (server_interface, peer) = get_example_data();

    let mut client_interface = peer.to_interface(&server_interface).unwrap();
    client_interface.peers[0].allowed_ips.push(net(0, 0, 0, 0, 0));

    let config = client_interface.config();
    let lines: Vec<&str> = config.split("\n").collect();

    println!("{}", client_interface.config());

    assert!(lines[0] == "[Interface]");
    assert!(lines[1].starts_with("Address = "));
    assert!(lines[2].starts_with("PrivateKey = "));
    assert!(lines[3].starts_with("DNS = "));
}

#[test]
fn export_exact_text() {
    // a fixed private key, so the whole rendering is known in advance
    let server_key =
        PrivateKey::try_from("dwdtCnMYpX08FsFyUbJmRd9ML4frwJkqsXf7pR25LCo=".to_string()).unwrap();
    let peer = PeerBuilder::new()
        .endpoint("client.example.com:51820".to_string())
        .add_allowed_ip(net(10, 0, 0, 2, 32))
        .private_key(server_key.clone())
        .build();
    let interface = InterfaceBuilder::new()
        .address(net(10, 0, 0, 1, 24))
        .listen_port(51820)
        .private_key(server_key)
        .set_dns(vec!["8.8.8.8".to_string(), "8.8.4.4".to_string()])
        .endpoint("vpn.example.com".to_string())
        .add_peer(peer)
        .build();

    let expected = "[Interface]\n# Name = vpn.example.com\nAddress = 10.0.0.1/24\nListenPort = 51820\nPrivateKey = dwdtCnMYpX08FsFyUbJmRd9ML4frwJkqsXf7pR25LCo=\nDNS = 8.8.8.8,8.8.4.4\n\n[Peer]\nEndpoint = client.example.com:51820\nAllowedIPs = 10.0.0.2/32\nPublicKey = hSDwCYkwp1R0i33ctD73Wg2/Og0mOBr066SpjqqbTmo=\n\n";
    assert_eq!(interface.config(), expected);
}

#[test]
fn export_omits_absent_lines() {
    // no name label, no listen port, no DNS: exactly three lines remain
    let key = PrivateKey::try_from("AAECAwQFBgcICQoLDA0ODxAREhMUFRYXGBkaGxwdHh8=".to_string())
        .unwrap();
    let interface = InterfaceBuilder::new()
        .address(net(10, 0, 0, 1, 24))
        .private_key(key)
        .build();

    assert_eq!(
        interface.config(),
        "[Interface]\nAddress = 10.0.0.1/24\nPrivateKey = AAECAwQFBgcICQoLDA0ODxAREhMUFRYXGBkaGxwdHh8=\n"
    );
}

#[test]
fn export_is_deterministic() {
    let (interface, peer) = get_example_data();
    assert_eq!(interface.config(), interface.config());
    assert_eq!(peer.config(), peer.config());
}

#[test]
fn export_amnezia_block() {
    let settings = wireguard_conf::AmneziaSettings::new(4, 50, 70, 20, 30, 11, 12, 13, 14)
        .unwrap();
    let key = PrivateKey::try_from("AAAAAAAAAAAAAAAAAAAAAAAAAAAAAAAAAAAAAAAAAAA=".to_string())
        .unwrap();
    let interface = InterfaceBuilder::new()
        .address(net(10, 0, 0, 1, 24))
        .private_key(key)
        .amnezia_settings(settings)
        .build();

    assert_eq!(
        interface.config(),
        "[Interface]\nAddress = 10.0.0.1/24\nPrivateKey = AAAAAAAAAAAAAAAAAAAAAAAAAAAAAAAAAAAAAAAAAAA=\n\nJc = 4\nJmin = 50\nJmax = 70\nS1 = 20\nS2 = 30\nH1 = 11\nH2 = 12\nH3 = 13\nH4 = 14\n\n"
    );
}

#[test]
fn export_peer_with_public_key_only() {
    let key = PrivateKey::try_from("dwdtCnMYpX08FsFyUbJmRd9ML4frwJkqsXf7pR25LCo=".to_string())
        .unwrap();
    let public = wireguard_conf::PublicKey::from(&key);
    let peer = PeerBuilder::new()
        .add_allowed_ip(net(10, 0, 0, 2, 32))
        .public_key(public)
        .build();

    assert_eq!(
        peer.config(),
        "[Peer]\nAllowedIPs = 10.0.0.2/32\nPublicKey = hSDwCYkwp1R0i33ctD73Wg2/Og0mOBr066SpjqqbTmo=\n"
    );
}
