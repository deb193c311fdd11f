use vstd::prelude::*;

use crate::error::HcaError;

verus! {

/// The view of an optional string field: the character sequence when the
/// source reported a value, `None` when the lookup found nothing.
pub open spec fn view_opt_str(o: Option<String>) -> Option<Seq<char>> {
    match o {
        Some(s) => Some(s@),
        None => None,
    }
}

/// The properties and sysfs attributes of the parent PCI function of one
/// metadata record, each as the device database reported it: `None` marks a
/// lookup that found nothing.
#[derive(Clone, Debug)]
pub struct RawParentRecord {
    /// `PCI_ID` property.
    pub pci_id: Option<String>,
    /// `PCI_SUBSYS_ID` property.
    pub pci_subsys_id: Option<String>,
    /// `ID_MODEL_FROM_DATABASE` property.
    pub model_name: Option<String>,
    /// `ID_VENDOR_FROM_DATABASE` property.
    pub vendor_name: Option<String>,
    /// `vendor` sysfs attribute.
    pub vendor: Option<String>,
    /// `PCI_SLOT_NAME` property.
    pub pci_slot_name: Option<String>,
}

/// The mathematical value of a [`RawParentRecord`].
#[verifier::ext_equal]
pub struct RawParentRecordView {
    pub pci_id: Option<Seq<char>>,
    pub pci_subsys_id: Option<Seq<char>>,
    pub model_name: Option<Seq<char>>,
    pub vendor_name: Option<Seq<char>>,
    pub vendor: Option<Seq<char>>,
    pub pci_slot_name: Option<Seq<char>>,
}

impl View for RawParentRecord {
    type V = RawParentRecordView;

    open spec fn view(&self) -> RawParentRecordView {
        RawParentRecordView {
            pci_id: view_opt_str(self.pci_id),
            pci_subsys_id: view_opt_str(self.pci_subsys_id),
            model_name: view_opt_str(self.model_name),
            vendor_name: view_opt_str(self.vendor_name),
            vendor: view_opt_str(self.vendor),
            pci_slot_name: view_opt_str(self.pci_slot_name),
        }
    }
}

/// One raw record of the device-metadata database for an infiniband-class
/// device: its own properties and sysfs attributes, and those of its parent
/// PCI function where the parent relation could be followed.
#[derive(Clone, Debug)]
pub struct RawDeviceRecord {
    /// `NAME` property.
    pub name: Option<String>,
    /// `node_guid` sysfs attribute.
    pub node_guid: Option<String>,
    /// `node_desc` sysfs attribute.
    pub node_desc: Option<String>,
    /// `sys_image_guid` sysfs attribute.
    pub sys_image_guid: Option<String>,
    /// `fw_ver` sysfs attribute.
    pub fw_ver: Option<String>,
    /// `board_id` sysfs attribute.
    pub board_id: Option<String>,
    /// The parent PCI function, when the device has a discoverable one.
    pub parent: Option<RawParentRecord>,
}

/// The mathematical value of a [`RawDeviceRecord`].
#[verifier::ext_equal]
pub struct RawDeviceRecordView {
    pub name: Option<Seq<char>>,
    pub node_guid: Option<Seq<char>>,
    pub node_desc: Option<Seq<char>>,
    pub sys_image_guid: Option<Seq<char>>,
    pub fw_ver: Option<Seq<char>>,
    pub board_id: Option<Seq<char>>,
    pub parent: Option<RawParentRecordView>,
}

impl View for RawDeviceRecord {
    type V = RawDeviceRecordView;

    open spec fn view(&self) -> RawDeviceRecordView {
        RawDeviceRecordView {
            name: view_opt_str(self.name),
            node_guid: view_opt_str(self.node_guid),
            node_desc: view_opt_str(self.node_desc),
            sys_image_guid: view_opt_str(self.sys_image_guid),
            fw_ver: view_opt_str(self.fw_ver),
            board_id: view_opt_str(self.board_id),
            parent: match self.parent {
                Some(p) => Some(p@),
                None => None,
            },
        }
    }
}

/// Returns the stored string, or the given error where the lookup found
/// nothing.  The typed accessors below all funnel through here.
fn require_field(o: &Option<String>, missing: HcaError) -> (r: Result<String, HcaError>)
    ensures
        match r {
            Ok(s) => o matches Some(v) && s == v,
            Err(e) => o is None && e == missing,
        },
{
    match o {
        Some(s) => Ok(s.clone()),
        None => Err(missing),
    }
}

impl RawParentRecord {
    /// The `PCI_ID` property; absence is a missing property.
    pub fn req_pci_id(&self) -> (r: Result<String, HcaError>)
        ensures
            match r {
                Ok(s) => self.pci_id matches Some(v) && s == v,
                Err(e) => self.pci_id is None && e == HcaError::MissingProperty,
            },
    {
        require_field(&self.pci_id, HcaError::MissingProperty)
    }

    /// The `PCI_SUBSYS_ID` property; absence is a missing property.
    pub fn req_pci_subsys_id(&self) -> (r: Result<String, HcaError>)
        ensures
            match r {
                Ok(s) => self.pci_subsys_id matches Some(v) && s == v,
                Err(e) => self.pci_subsys_id is None && e == HcaError::MissingProperty,
            },
    {
        require_field(&self.pci_subsys_id, HcaError::MissingProperty)
    }

    /// The `ID_MODEL_FROM_DATABASE` property; absence is a missing property.
    pub fn req_model_name(&self) -> (r: Result<String, HcaError>)
        ensures
            match r {
                Ok(s) => self.model_name matches Some(v) && s == v,
                Err(e) => self.model_name is None && e == HcaError::MissingProperty,
            },
    {
        require_field(&self.model_name, HcaError::MissingProperty)
    }

    /// The `ID_VENDOR_FROM_DATABASE` property; absence is a missing property.
    pub fn req_vendor_name(&self) -> (r: Result<String, HcaError>)
        ensures
            match r {
                Ok(s) => self.vendor_name matches Some(v) && s == v,
                Err(e) => self.vendor_name is None && e == HcaError::MissingProperty,
            },
    {
        require_field(&self.vendor_name, HcaError::MissingProperty)
    }

    /// The `vendor` sysfs attribute; absence is a missing attribute.
    pub fn req_vendor(&self) -> (r: Result<String, HcaError>)
        ensures
            match r {
                Ok(s) => self.vendor matches Some(v) && s == v,
                Err(e) => self.vendor is None && e == HcaError::MissingAttribute,
            },
    {
        require_field(&self.vendor, HcaError::MissingAttribute)
    }

    /// The `PCI_SLOT_NAME` property; absence is a missing property.
    pub fn req_pci_slot_name(&self) -> (r: Result<String, HcaError>)
        ensures
            match r {
                Ok(s) => self.pci_slot_name matches Some(v) && s == v,
                Err(e) => self.pci_slot_name is None && e == HcaError::MissingProperty,
            },
    {
        require_field(&self.pci_slot_name, HcaError::MissingProperty)
    }
}

impl RawDeviceRecord {
    /// The `NAME` property; absence is a missing property.
    pub fn req_name(&self) -> (r: Result<String, HcaError>)
        ensures
            match r {
                Ok(s) => self.name matches Some(v) && s == v,
                Err(e) => self.name is None && e == HcaError::MissingProperty,
            },
    {
        require_field(&self.name, HcaError::MissingProperty)
    }

    /// The `node_guid` sysfs attribute; absence is a missing attribute.
    pub fn req_node_guid(&self) -> (r: Result<String, HcaError>)
        ensures
            match r {
                Ok(s) => self.node_guid matches Some(v) && s == v,
                Err(e) => self.node_guid is None && e == HcaError::MissingAttribute,
            },
    {
        require_field(&self.node_guid, HcaError::MissingAttribute)
    }

    /// The `node_desc` sysfs attribute; absence is a missing attribute.
    pub fn req_node_desc(&self) -> (r: Result<String, HcaError>)
        ensures
            match r {
                Ok(s) => self.node_desc matches Some(v) && s == v,
                Err(e) => self.node_desc is None && e == HcaError::MissingAttribute,
            },
    {
        require_field(&self.node_desc, HcaError::MissingAttribute)
    }

    /// The `sys_image_guid` sysfs attribute; absence is a missing attribute.
    pub fn req_sys_image_guid(&self) -> (r: Result<String, HcaError>)
        ensures
            match r {
                Ok(s) => self.sys_image_guid matches Some(v) && s == v,
                Err(e) => self.sys_image_guid is None && e == HcaError::MissingAttribute,
            },
    {
        require_field(&self.sys_image_guid, HcaError::MissingAttribute)
    }

    /// The `fw_ver` sysfs attribute; absence is a missing attribute.
    pub fn req_fw_ver(&self) -> (r: Result<String, HcaError>)
        ensures
            match r {
                Ok(s) => self.fw_ver matches Some(v) && s == v,
                Err(e) => self.fw_ver is None && e == HcaError::MissingAttribute,
            },
    {
        require_field(&self.fw_ver, HcaError::MissingAttribute)
    }

    /// The `board_id` sysfs attribute; absence is a missing attribute.
    pub fn req_board_id(&self) -> (r: Result<String, HcaError>)
        ensures
            match r {
                Ok(s) => self.board_id matches Some(v) && s == v,
                Err(e) => self.board_id is None && e == HcaError::MissingAttribute,
            },
    {
        require_field(&self.board_id, HcaError::MissingAttribute)
    }
}

/// The error a single metadata record raises while the correlator reads it,
/// or `None` where the record is either complete or skipped.
///
/// A record without a parent demands nothing: it is filtered out before any
/// field of it is consulted.  A record with a parent must carry every field
/// the model needs; the fields are checked in the order the correlator
/// reads them, parent identity first.
pub open spec fn record_error(r: RawDeviceRecordView) -> Option<HcaError> {
    match r.parent {
        None => None,
        Some(p) => if p.pci_id is None {
            Some(HcaError::MissingProperty)
        } else if p.pci_subsys_id is None {
            Some(HcaError::MissingProperty)
        } else if p.model_name is None {
            Some(HcaError::MissingProperty)
        } else if p.vendor_name is None {
            Some(HcaError::MissingProperty)
        } else if p.vendor is None {
            Some(HcaError::MissingAttribute)
        } else if p.pci_slot_name is None {
            Some(HcaError::MissingProperty)
        } else if r.name is None {
            Some(HcaError::MissingProperty)
        } else if r.node_guid is None {
            Some(HcaError::MissingAttribute)
        } else if r.node_desc is None {
            Some(HcaError::MissingAttribute)
        } else if r.sys_image_guid is None {
            Some(HcaError::MissingAttribute)
        } else if r.fw_ver is None {
            Some(HcaError::MissingAttribute)
        } else if r.board_id is None {
            Some(HcaError::MissingAttribute)
        } else {
            None
        },
    }
}

} // verus!
