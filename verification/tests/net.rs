use wireguard_conf::Ipv4Net;

fn net(a: u8, b: u8, c: u8, d: u8, prefix: u8) -> Ipv4Net {
    Ipv4Net::new(a, b, c, d, prefix).unwrap()
}

#[test]
fn new_checks_prefix() {
    assert!(Ipv4Net::new(10, 0, 0, 1, 32).is_some());
    assert!(Ipv4Net::new(10, 0, 0, 1, 0).is_some());
    assert!(Ipv4Net::new(10, 0, 0, 1, 33).is_none());
}

#[test]
fn containment() {
    let all = net(0, 0, 0, 0, 0);
    let lan = net(10, 0, 0, 1, 24);
    let host = net(10, 0, 0, 7, 32);
    let other = net(10, 0, 1, 0, 24);

    // the whole address space contains every network
    assert!(all.contains(&lan));
    assert!(all.contains(&host));
    assert!(all.contains(&all));

    // a network contains itself and its hosts, masked by its own prefix
    assert!(lan.contains(&lan));
    assert!(lan.contains(&host));
    assert!(lan.contains(&net(10, 0, 0, 2, 24)));

    // but not wider ranges or sibling networks
    assert!(!lan.contains(&all));
    assert!(!lan.contains(&other));
    assert!(!host.contains(&lan));
}

#[test]
fn render_cidr_text() {
    assert_eq!(net(10, 3, 2, 1, 24).render(), "10.3.2.1/24");
    assert_eq!(net(0, 0, 0, 0, 0).render(), "0.0.0.0/0");
    assert_eq!(net(255, 255, 255, 255, 32).render(), "255.255.255.255/32");
    assert_eq!(net(192, 168, 100, 200, 30).render(), "192.168.100.200/30");
}
