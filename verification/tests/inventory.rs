use libhca::build_inventory;
use libhca::inventory_eq;
use libhca::HcaError;
use libhca::IbPort;
use libhca::IbPortLinkType;
use libhca::IbPortPhysState;
use libhca::IbPortState;
use libhca::RawDeviceRecord;
use libhca::RawParentRecord;
use libhca::RawPortAttr;
use libhca::RawVerbsDevice;
use libhca::VerbsSnapshot;

fn sample_parent() -> RawParentRecord {
    RawParentRecord {
        pci_id: Some("15b3:1017".to_string()),
        pci_subsys_id: Some("15b3:0016".to_string()),
        model_name: Some("MT27800 Family [ConnectX-5]".to_string()),
        vendor_name: Some("Mellanox Technologies".to_string()),
        vendor: Some("0x15b3".to_string()),
        pci_slot_name: Some("0000:3b:00.0".to_string()),
    }
}

fn sample_record(name: &str) -> RawDeviceRecord {
    RawDeviceRecord {
        name: Some(name.to_string()),
        node_guid: Some("b859:9f03:00ca:e20c".to_string()),
        node_desc: Some("node desc".to_string()),
        sys_image_guid: Some("b859:9f03:00ca:e20c".to_string()),
        fw_ver: Some("16.28.1002".to_string()),
        board_id: Some("MT_0000000008".to_string()),
        parent: Some(sample_parent()),
    }
}

fn sample_snapshot() -> VerbsSnapshot {
    let dev = RawVerbsDevice {
        name: "mlx5_0".to_string(),
        node_guid: 0x_b859_9f03_00ca_e20c,
        ports: vec![RawPortAttr { lid: 3, link_layer: 1, state: 4, phys_state: 5 }],
    };
    libhca::build_verbs_snapshot(&vec![dev]).unwrap()
}

#[test]
fn empty_metadata_yields_empty_inventory() {
    let inv = build_inventory(&vec![], &sample_snapshot()).unwrap();
    assert!(inv.is_empty());
}

#[test]
fn empty_everything_yields_empty_inventory() {
    let inv = build_inventory(&vec![], &VerbsSnapshot::new()).unwrap();
    assert!(inv.is_empty());
}

#[test]
fn single_device_scenario() {
    let records = vec![sample_record("mlx5_0")];
    let inv = build_inventory(&records, &sample_snapshot()).unwrap();
    assert_eq!(inv.len(), 1);
    let pci = &inv[0];
    assert_eq!(pci.id, "15b3:1017");
    assert_eq!(pci.subsys_id, "15b3:0016");
    assert_eq!(pci.model_name, "MT27800 Family [ConnectX-5]");
    assert_eq!(pci.vendor_name, "Mellanox Technologies");
    assert_eq!(pci.vendor, "0x15b3");
    assert_eq!(pci.ib_devices.len(), 1);
    let dev = &pci.ib_devices[0];
    assert_eq!(dev.name, "mlx5_0");
    assert_eq!(dev.slot_name, "0000:3b:00.0");
    assert_eq!(dev.node_guid, "b859:9f03:00ca:e20c");
    assert_eq!(dev.fw_ver, "16.28.1002");
    assert_eq!(dev.board_id, "MT_0000000008");
    assert_eq!(dev.ib_ports.len(), 1);
    let port = &dev.ib_ports[0];
    assert_eq!(port.port_num, 1);
    assert_eq!(port.lid, 3);
    assert_eq!(port.guid, 0x_b859_9f03_00ca_e20c);
    assert_eq!(port.link_type, IbPortLinkType::Infiniband);
    assert_eq!(port.state, IbPortState::Active);
    assert_eq!(port.phys_state, IbPortPhysState::LinkUp);
}

#[test]
fn shared_parent_dedups_to_one_pci_device() {
    let first = sample_record("mlx5_0");
    let mut second = sample_record("mlx5_1");
    // Same PCI identifier, different descriptive fields: the first record
    // seen for an identifier fixes them.
    let mut dup_parent = sample_parent();
    dup_parent.model_name = Some("another model".to_string());
    second.parent = Some(dup_parent);
    let inv = build_inventory(&vec![first, second], &sample_snapshot()).unwrap();
    assert_eq!(inv.len(), 1);
    assert_eq!(inv[0].id, "15b3:1017");
    assert_eq!(inv[0].model_name, "MT27800 Family [ConnectX-5]");
    assert_eq!(inv[0].ib_devices.len(), 2);
    assert_eq!(inv[0].ib_devices[0].name, "mlx5_0");
    assert_eq!(inv[0].ib_devices[1].name, "mlx5_1");
}

#[test]
fn distinct_parents_stay_distinct() {
    let first = sample_record("mlx5_0");
    let mut second = sample_record("mlx5_1");
    let mut other_parent = sample_parent();
    other_parent.pci_id = Some("15b3:101b".to_string());
    second.parent = Some(other_parent);
    let inv = build_inventory(&vec![first, second], &VerbsSnapshot::new()).unwrap();
    assert_eq!(inv.len(), 2);
    assert_eq!(inv[0].id, "15b3:1017");
    assert_eq!(inv[1].id, "15b3:101b");
}

#[test]
fn device_without_verbs_entry_gets_empty_ports() {
    let records = vec![sample_record("mlx5_7")];
    let inv = build_inventory(&records, &sample_snapshot()).unwrap();
    assert_eq!(inv.len(), 1);
    assert_eq!(inv[0].ib_devices.len(), 1);
    assert_eq!(inv[0].ib_devices[0].name, "mlx5_7");
    assert!(inv[0].ib_devices[0].ib_ports.is_empty());
}

#[test]
fn parentless_record_is_skipped() {
    let mut rec = sample_record("mlx5_0");
    rec.parent = None;
    let inv = build_inventory(&vec![rec], &sample_snapshot()).unwrap();
    assert!(inv.is_empty());
}

#[test]
fn verbs_entry_without_metadata_is_unreferenced() {
    let inv = build_inventory(&vec![], &sample_snapshot()).unwrap();
    assert!(inv.is_empty());
}

#[test]
fn missing_property_fails_the_build() {
    let mut rec = sample_record("mlx5_0");
    let mut parent = sample_parent();
    parent.pci_id = None;
    rec.parent = Some(parent);
    let err = build_inventory(&vec![rec], &sample_snapshot()).unwrap_err();
    assert_eq!(err, HcaError::MissingProperty);
}

#[test]
fn missing_attribute_fails_the_build() {
    let mut rec = sample_record("mlx5_0");
    let mut parent = sample_parent();
    parent.vendor = None;
    rec.parent = Some(parent);
    let err = build_inventory(&vec![rec], &sample_snapshot()).unwrap_err();
    assert_eq!(err, HcaError::MissingAttribute);
}

#[test]
fn missing_own_name_fails_the_build() {
    let mut rec = sample_record("mlx5_0");
    rec.name = None;
    let err = build_inventory(&vec![rec], &sample_snapshot()).unwrap_err();
    assert_eq!(err, HcaError::MissingProperty);
}

#[test]
fn build_twice_yields_equal_inventories() {
    let records = vec![sample_record("mlx5_0"), sample_record("mlx5_1")];
    let snapshot = sample_snapshot();
    let inv1 = build_inventory(&records, &snapshot).unwrap();
    let inv2 = build_inventory(&records, &snapshot).unwrap();
    assert!(inventory_eq(&inv1, &inv2));
}

#[test]
fn inventory_eq_detects_differences() {
    let records = vec![sample_record("mlx5_0")];
    let inv1 = build_inventory(&records, &sample_snapshot()).unwrap();
    let mut inv2 = build_inventory(&records, &sample_snapshot()).unwrap();
    inv2[0].ib_devices[0].ib_ports[0] = IbPort {
        lid: 4,
        ..inv2[0].ib_devices[0].ib_ports[0]
    };
    assert!(!inventory_eq(&inv1, &inv2));
    let inv3 = build_inventory(&records, &VerbsSnapshot::new()).unwrap();
    assert!(!inventory_eq(&inv1, &inv3));
}

#[test]
fn error_labels() {
    assert_eq!(HcaError::UnrecognizedCode.label(), "unrecognized code");
    assert_eq!(HcaError::MissingProperty.label(), "missing property");
    assert_eq!(HcaError::MissingAttribute.label(), "missing attribute");
    assert_eq!(HcaError::HandleAllocationFailed.label(), "handle allocation failed");
    assert_eq!(HcaError::DeviceOpenFailed.label(), "device open failed");
    assert_eq!(HcaError::AttributeQueryFailed.label(), "attribute query failed");
}
