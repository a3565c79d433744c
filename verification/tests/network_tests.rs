use greenlight::network::{Interface, InterfaceState, LinkAttr, OperState};

fn up_link() -> Vec<LinkAttr> {
    vec![
        LinkAttr::Other,
        LinkAttr::OperState(OperState::Up),
        LinkAttr::Mtu(1500),
        LinkAttr::Promiscuity(0),
    ]
}

#[test]
fn test_absent_expectation_passes_when_link_missing() {
    let iface = Interface {
        name: "br0".to_string(),
        state: Some(InterfaceState::Absent),
        mtu: None,
        promisc: None,
    };
    assert!(iface.validate(&None));
}

#[test]
fn test_absent_expectation_fails_when_link_exists() {
    // Whatever other fields the expectation carries, an existing link never
    // satisfies `Absent`.
    let iface = Interface {
        name: "br0".to_string(),
        state: Some(InterfaceState::Absent),
        mtu: Some(1500),
        promisc: Some(false),
    };
    assert!(!iface.validate(&Some(up_link())));
    assert!(!iface.validate(&Some(vec![])));
}

#[test]
fn test_missing_link_fails_other_expectations() {
    let iface = Interface {
        name: "eth0".to_string(),
        state: Some(InterfaceState::Up),
        mtu: None,
        promisc: None,
    };
    assert!(!iface.validate(&None));
    let bare = Interface {
        name: "eth0".to_string(),
        state: None,
        mtu: None,
        promisc: None,
    };
    assert!(!bare.validate(&None));
}

#[test]
fn test_up_state_matches_up_link() {
    let iface = Interface {
        name: "eth0".to_string(),
        state: Some(InterfaceState::Up),
        mtu: None,
        promisc: None,
    };
    assert!(iface.validate(&Some(up_link())));
    assert!(!iface.validate(&Some(vec![LinkAttr::OperState(OperState::Down)])));
    assert!(!iface.validate(&Some(vec![LinkAttr::Mtu(1500)])));
}

#[test]
fn test_down_state_accepts_dormant_and_lower_layer_down() {
    let iface = Interface {
        name: "eth1".to_string(),
        state: Some(InterfaceState::Down),
        mtu: None,
        promisc: None,
    };
    assert!(iface.validate(&Some(vec![LinkAttr::OperState(OperState::Down)])));
    assert!(iface.validate(&Some(vec![LinkAttr::OperState(OperState::Dormant)])));
    assert!(iface.validate(&Some(vec![LinkAttr::OperState(OperState::LowerLayerDown)])));
    assert!(!iface.validate(&Some(vec![LinkAttr::OperState(OperState::Up)])));
    assert!(!iface.validate(&Some(vec![LinkAttr::OperState(OperState::Unknown)])));
}

#[test]
fn test_mtu_expectation() {
    let iface = Interface {
        name: "eth0".to_string(),
        state: None,
        mtu: Some(1500),
        promisc: None,
    };
    assert!(iface.validate(&Some(up_link())));
    assert!(!iface.validate(&Some(vec![LinkAttr::Mtu(9000)])));
    // An expected MTU with no MTU attribute on the link fails.
    assert!(!iface.validate(&Some(vec![LinkAttr::OperState(OperState::Up)])));
}

#[test]
fn test_promiscuity_expectation() {
    let promisc_on = Interface {
        name: "eth0".to_string(),
        state: None,
        mtu: None,
        promisc: Some(true),
    };
    let promisc_off = Interface {
        name: "eth0".to_string(),
        state: None,
        mtu: None,
        promisc: Some(false),
    };
    assert!(promisc_on.validate(&Some(vec![LinkAttr::Promiscuity(2)])));
    assert!(!promisc_on.validate(&Some(vec![LinkAttr::Promiscuity(0)])));
    assert!(promisc_off.validate(&Some(vec![LinkAttr::Promiscuity(0)])));
    assert!(!promisc_off.validate(&Some(vec![LinkAttr::Promiscuity(1)])));
    // An expected flag with no promiscuity attribute on the link fails.
    assert!(!promisc_off.validate(&Some(vec![LinkAttr::Mtu(1500)])));
}

#[test]
fn test_first_attribute_of_a_kind_wins() {
    let iface = Interface {
        name: "eth0".to_string(),
        state: Some(InterfaceState::Up),
        mtu: Some(1500),
        promisc: None,
    };
    let attrs = vec![
        LinkAttr::OperState(OperState::Up),
        LinkAttr::Mtu(1500),
        LinkAttr::OperState(OperState::Down),
        LinkAttr::Mtu(9000),
    ];
    assert!(iface.validate(&Some(attrs)));
}

#[test]
fn test_expectation_with_no_fields_passes_on_existing_link() {
    let iface = Interface {
        name: "eth0".to_string(),
        state: None,
        mtu: None,
        promisc: None,
    };
    assert!(iface.validate(&Some(vec![])));
}
