use libhca::build_ports;
use libhca::build_verbs_snapshot;
use libhca::HcaError;
use libhca::IbPortLinkType;
use libhca::IbPortPhysState;
use libhca::IbPortState;
use libhca::RawPortAttr;
use libhca::RawVerbsDevice;

fn raw(link_layer: u8, state: u32, phys_state: u8) -> RawPortAttr {
    RawPortAttr { lid: 0, link_layer, state, phys_state }
}

#[test]
fn link_type_translation() {
    assert_eq!(IbPortLinkType::try_from(1).unwrap(), IbPortLinkType::Infiniband);
    assert_eq!(IbPortLinkType::try_from(2).unwrap(), IbPortLinkType::Ethernet);
    assert_eq!(IbPortLinkType::try_from(0).unwrap_err(), HcaError::UnrecognizedCode);
    assert_eq!(IbPortLinkType::try_from(3).unwrap_err(), HcaError::UnrecognizedCode);
}

#[test]
fn port_state_translation() {
    assert_eq!(IbPortState::try_from(1).unwrap(), IbPortState::Down);
    assert_eq!(IbPortState::try_from(2).unwrap(), IbPortState::Initializing);
    assert_eq!(IbPortState::try_from(4).unwrap(), IbPortState::Active);
    assert_eq!(IbPortState::try_from(0).unwrap_err(), HcaError::UnrecognizedCode);
    assert_eq!(IbPortState::try_from(3).unwrap_err(), HcaError::UnrecognizedCode);
    assert_eq!(IbPortState::try_from(5).unwrap_err(), HcaError::UnrecognizedCode);
}

#[test]
fn phys_state_translation() {
    assert_eq!(IbPortPhysState::try_from(2).unwrap(), IbPortPhysState::Polling);
    assert_eq!(IbPortPhysState::try_from(3).unwrap(), IbPortPhysState::Disabled);
    assert_eq!(IbPortPhysState::try_from(5).unwrap(), IbPortPhysState::LinkUp);
    assert_eq!(IbPortPhysState::try_from(1).unwrap_err(), HcaError::UnrecognizedCode);
}

#[test]
fn labels() {
    assert_eq!(IbPortLinkType::Ethernet.label(), "Eth");
    assert_eq!(IbPortLinkType::Infiniband.label(), "IB");
    assert_eq!(IbPortState::Initializing.label(), "Initializing");
    assert_eq!(IbPortState::Active.label(), "Active");
    assert_eq!(IbPortState::Down.label(), "Down");
    assert_eq!(IbPortPhysState::Polling.label(), "Polling");
    assert_eq!(IbPortPhysState::LinkUp.label(), "LinkUp");
    assert_eq!(IbPortPhysState::Disabled.label(), "Disabled");
}

#[test]
fn build_ports_assigns_dense_numbers() {
    let raws = vec![
        RawPortAttr { lid: 3, link_layer: 1, state: 4, phys_state: 5 },
        RawPortAttr { lid: 0, link_layer: 2, state: 1, phys_state: 2 },
    ];
    let ports = build_ports(0xabcd, &raws).unwrap();
    assert_eq!(ports.len(), 2);
    assert_eq!(ports[0].port_num, 1);
    assert_eq!(ports[0].guid, 0xabcd);
    assert_eq!(ports[0].lid, 3);
    assert_eq!(ports[0].link_type, IbPortLinkType::Infiniband);
    assert_eq!(ports[0].state, IbPortState::Active);
    assert_eq!(ports[0].phys_state, IbPortPhysState::LinkUp);
    assert_eq!(ports[1].port_num, 2);
    assert_eq!(ports[1].lid, 0);
    assert_eq!(ports[1].link_type, IbPortLinkType::Ethernet);
    assert_eq!(ports[1].state, IbPortState::Down);
    assert_eq!(ports[1].phys_state, IbPortPhysState::Polling);
}

#[test]
fn build_ports_empty() {
    let ports = build_ports(1, &vec![]).unwrap();
    assert!(ports.is_empty());
}

#[test]
fn unmapped_state_code_fails_the_scan() {
    let raws = vec![raw(1, 99, 5)];
    assert_eq!(build_ports(1, &raws).unwrap_err(), HcaError::UnrecognizedCode);
    let devs = vec![RawVerbsDevice { name: "mlx5_0".to_string(), node_guid: 1, ports: raws }];
    assert_eq!(build_verbs_snapshot(&devs).unwrap_err(), HcaError::UnrecognizedCode);
}

#[test]
fn unmapped_link_layer_fails_the_scan() {
    let raws = vec![raw(7, 4, 5)];
    assert_eq!(build_ports(1, &raws).unwrap_err(), HcaError::UnrecognizedCode);
}

#[test]
fn snapshot_lookup() {
    let devs = vec![
        RawVerbsDevice { name: "mlx5_0".to_string(), node_guid: 10, ports: vec![raw(1, 4, 5)] },
        RawVerbsDevice { name: "mlx5_1".to_string(), node_guid: 11, ports: vec![] },
    ];
    let snapshot = build_verbs_snapshot(&devs).unwrap();
    let ports = snapshot.ports_for(&"mlx5_0".to_string());
    assert_eq!(ports.len(), 1);
    assert_eq!(ports[0].guid, 10);
    assert!(snapshot.ports_for(&"mlx5_1".to_string()).is_empty());
    assert!(snapshot.ports_for(&"mlx5_9".to_string()).is_empty());
}
