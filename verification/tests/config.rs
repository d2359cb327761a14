use wireguard_conf::{InterfaceBuilder, Ipv4Net, PeerBuilder, PrivateKey};

#[test]
fn export_interface_config() {
    let server_key = PrivateKey::random();
    let client_key = PrivateKey::random();

    let _server_interface = InterfaceBuilder::new()
        .address(Ipv4Net::new(10, 0, 0, 1, 24).unwrap())
        .private_key(server_key)
        .add_peer(
            PeerBuilder::new()
                .add_allowed_ip(Ipv4Net::new(10, 0, 0, 2, 24).unwrap())
                .private_key(client_key)
                .build(),
        )
        .build();
}
