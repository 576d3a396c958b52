use muuuxy::address::{has_forbidden, IpAddress};

#[test]
fn loopback_v4_is_forbidden() {
    assert!(IpAddress::V4(127, 0, 0, 1).is_forbidden());
    assert!(IpAddress::V4(127, 255, 255, 254).is_forbidden());
    assert!(!IpAddress::V4(126, 0, 0, 1).is_forbidden());
    assert!(!IpAddress::V4(128, 0, 0, 1).is_forbidden());
}

#[test]
fn private_v4_is_forbidden() {
    assert!(IpAddress::V4(10, 0, 0, 1).is_forbidden());
    assert!(IpAddress::V4(10, 255, 255, 255).is_forbidden());
    assert!(IpAddress::V4(172, 16, 0, 1).is_forbidden());
    assert!(IpAddress::V4(172, 31, 255, 255).is_forbidden());
    assert!(IpAddress::V4(192, 168, 1, 1).is_forbidden());
}

#[test]
fn private_v4_range_edges() {
    assert!(!IpAddress::V4(172, 15, 255, 255).is_forbidden());
    assert!(!IpAddress::V4(172, 32, 0, 0).is_forbidden());
    assert!(!IpAddress::V4(192, 167, 0, 1).is_forbidden());
    assert!(!IpAddress::V4(192, 169, 0, 1).is_forbidden());
    assert!(!IpAddress::V4(11, 0, 0, 1).is_forbidden());
    assert!(!IpAddress::V4(9, 255, 255, 255).is_forbidden());
}

#[test]
fn link_local_v4_is_forbidden() {
    assert!(IpAddress::V4(169, 254, 0, 1).is_forbidden());
    assert!(IpAddress::V4(169, 254, 169, 254).is_forbidden());
    assert!(!IpAddress::V4(169, 253, 0, 1).is_forbidden());
    assert!(!IpAddress::V4(169, 255, 0, 1).is_forbidden());
}

#[test]
fn multicast_v4_is_forbidden() {
    assert!(IpAddress::V4(224, 0, 0, 1).is_forbidden());
    assert!(IpAddress::V4(239, 255, 255, 255).is_forbidden());
    assert!(!IpAddress::V4(223, 255, 255, 255).is_forbidden());
    assert!(!IpAddress::V4(240, 0, 0, 1).is_forbidden());
}

#[test]
fn broadcast_and_unspecified_v4_are_forbidden() {
    assert!(IpAddress::V4(255, 255, 255, 255).is_forbidden());
    assert!(IpAddress::V4(0, 0, 0, 0).is_forbidden());
    assert!(!IpAddress::V4(255, 255, 255, 254).is_forbidden());
    assert!(!IpAddress::V4(0, 0, 0, 1).is_forbidden());
}

#[test]
fn public_v4_is_routable() {
    assert!(!IpAddress::V4(8, 8, 8, 8).is_forbidden());
    assert!(!IpAddress::V4(93, 184, 216, 34).is_forbidden());
    assert!(!IpAddress::V4(1, 1, 1, 1).is_forbidden());
}

#[test]
fn v6_loopback_multicast_unspecified_are_forbidden() {
    assert!(IpAddress::V6(0, 0, 0, 0, 0, 0, 0, 1).is_forbidden());
    assert!(IpAddress::V6(0, 0, 0, 0, 0, 0, 0, 0).is_forbidden());
    assert!(IpAddress::V6(0xff02, 0, 0, 0, 0, 0, 0, 1).is_forbidden());
    assert!(IpAddress::V6(0xff00, 0, 0, 0, 0, 0, 0, 0).is_forbidden());
    assert!(IpAddress::V6(0xffff, 1, 2, 3, 4, 5, 6, 7).is_forbidden());
}

#[test]
fn other_v6_is_routable() {
    assert!(!IpAddress::V6(0x2001, 0xdb8, 0, 0, 0, 0, 0, 1).is_forbidden());
    assert!(!IpAddress::V6(0, 0, 0, 0, 0, 0, 0, 2).is_forbidden());
    assert!(!IpAddress::V6(0, 0, 0, 0, 0, 0, 1, 1).is_forbidden());
    assert!(!IpAddress::V6(0xfeff, 0, 0, 0, 0, 0, 0, 1).is_forbidden());
    assert!(!IpAddress::V6(0xfe80, 0, 0, 0, 0, 0, 0, 1).is_forbidden());
}

#[test]
fn one_forbidden_address_refuses_the_list() {
    let mixed = vec![
        IpAddress::V4(93, 184, 216, 34),
        IpAddress::V4(10, 0, 0, 7),
        IpAddress::V4(8, 8, 8, 8),
    ];
    assert!(has_forbidden(&mixed));
    let last = vec![IpAddress::V4(8, 8, 8, 8), IpAddress::V6(0, 0, 0, 0, 0, 0, 0, 1)];
    assert!(has_forbidden(&last));
}

#[test]
fn routable_addresses_pass_the_guard() {
    let public = vec![
        IpAddress::V4(93, 184, 216, 34),
        IpAddress::V6(0x2606, 0x2800, 0x220, 1, 0x248, 0x1893, 0x25c8, 0x1946),
    ];
    assert!(!has_forbidden(&public));
    assert!(!has_forbidden(&Vec::new()));
}
