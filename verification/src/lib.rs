//! Discovery model for the InfiniBand/RDMA host channel adapters of a
//! machine.
//!
//! Three independent sources describe the same hardware: the PCI bus, the
//! kernel verbs subsystem, and the device-metadata database.  The unverified
//! glue around this library performs the foreign queries and hands their
//! results over as plain records; the library translates the raw attribute
//! codes, and correlates the records into a single hierarchy of
//! PCI function -> IB device -> port, with the correlation contracts proved.

mod correlate;
mod error;
mod handle;
mod model;
mod record;
mod verbs;

pub use correlate::build_inventory;
pub use correlate::correlate_from;
pub use correlate::correlate_step;
pub use correlate::devices_ports_follow_verbs;
pub use correlate::find_id;
pub use correlate::first_error;
pub use correlate::ib_device_eq;
pub use correlate::ids_unique;
pub use correlate::inventory_eq;
pub use correlate::lemma_build_deterministic;
pub use correlate::lemma_empty_metadata_empty_inventory;
pub use correlate::lemma_inventory_ids_unique;
pub use correlate::lemma_inventory_ports_from_verbs;
pub use correlate::lemma_inventory_ports_wf;
pub use correlate::lemma_missing_verbs_empty_ports;
pub use correlate::pci_device_eq;
pub use correlate::pci_views;
pub use correlate::ports_eq;
pub use correlate::push_device;
pub use correlate::rec_views;
pub use correlate::spec_ib_device;
pub use correlate::spec_inventory;
pub use correlate::spec_new_pci;
pub use error::HcaError;
pub use handle::DeviceAttrPtr;
pub use handle::DevicePtr;
pub use model::spec_link_type;
pub use model::spec_phys_state;
pub use model::spec_port_state;
pub use model::IbDevice;
pub use model::IbDeviceView;
pub use model::IbPort;
pub use model::IbPortLinkType;
pub use model::IbPortPhysState;
pub use model::IbPortState;
pub use model::PciDevice;
pub use model::PciDeviceView;
pub use record::record_error;
pub use record::view_opt_str;
pub use record::RawDeviceRecord;
pub use record::RawDeviceRecordView;
pub use record::RawParentRecord;
pub use record::RawParentRecordView;
pub use verbs::all_devs_ok;
pub use verbs::all_ports_ok;
pub use verbs::build_ports;
pub use verbs::build_verbs_snapshot;
pub use verbs::dev_views;
pub use verbs::entry_views;
pub use verbs::lemma_dense_ports_wf;
pub use verbs::lemma_lookup_absent;
pub use verbs::lemma_lookup_dense;
pub use verbs::lemma_spec_ports_dense;
pub use verbs::lemma_spec_snapshot_wf;
pub use verbs::ports_dense;
pub use verbs::raw_port_ok;
pub use verbs::snapshot_wf;
pub use verbs::spec_port;
pub use verbs::spec_ports;
pub use verbs::spec_snapshot;
pub use verbs::verbs_lookup;
pub use verbs::RawPortAttr;
pub use verbs::RawVerbsDevice;
pub use verbs::RawVerbsDeviceView;
pub use verbs::VerbsEntry;
pub use verbs::VerbsEntryView;
pub use verbs::VerbsSnapshot;
