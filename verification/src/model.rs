use vstd::prelude::*;

use crate::error::HcaError;

verus! {

/// The link layer a port runs, as the verbs subsystem reports it.
#[derive(Clone, Copy, PartialEq, Eq, Structural, Debug)]
pub enum IbPortLinkType {
    Ethernet,
    Infiniband,
}

/// Translation of the raw verbs `link_layer` code: `1` is Infiniband,
/// `2` is Ethernet, anything else is unmapped.
pub open spec fn spec_link_type(v: u8) -> Option<IbPortLinkType> {
    if v == 1 {
        Some(IbPortLinkType::Infiniband)
    } else if v == 2 {
        Some(IbPortLinkType::Ethernet)
    } else {
        None
    }
}

impl IbPortLinkType {
    /// Translate a raw `link_layer` code; an unmapped code is an error,
    /// never a guessed default.
    pub fn try_from(v: u8) -> (r: Result<Self, HcaError>)
        ensures
            match r {
                Ok(t) => spec_link_type(v) == Some(t),
                Err(e) => spec_link_type(v) is None && e == HcaError::UnrecognizedCode,
            },
    {
        match v {
            1 => Ok(Self::Infiniband),
            2 => Ok(Self::Ethernet),
            _ => Err(HcaError::UnrecognizedCode),
        }
    }

    /// The short label shown for this link type.
    pub open spec fn spec_label(&self) -> Seq<char> {
        match self {
            Self::Ethernet => "Eth"@,
            Self::Infiniband => "IB"@,
        }
    }

    /// A short display label.
    pub fn label(&self) -> (r: String)
        ensures
            r@ == self.spec_label(),
    {
        match self {
            Self::Ethernet => "Eth".to_owned(),
            Self::Infiniband => "IB".to_owned(),
        }
    }
}

/// The logical state of a port, as the verbs subsystem reports it.
#[derive(Clone, Copy, PartialEq, Eq, Structural, Debug)]
pub enum IbPortState {
    Initializing,
    Active,
    Down,
}

/// Translation of the raw verbs port `state` code: `1` is down, `2` is
/// initializing, `4` is active; every other code is unmapped.
pub open spec fn spec_port_state(v: u32) -> Option<IbPortState> {
    if v == 1 {
        Some(IbPortState::Down)
    } else if v == 2 {
        Some(IbPortState::Initializing)
    } else if v == 4 {
        Some(IbPortState::Active)
    } else {
        None
    }
}

impl IbPortState {
    /// Translate a raw port `state` code; an unmapped code is an error,
    /// never a guessed default.
    pub fn try_from(v: u32) -> (r: Result<Self, HcaError>)
        ensures
            match r {
                Ok(t) => spec_port_state(v) == Some(t),
                Err(e) => spec_port_state(v) is None && e == HcaError::UnrecognizedCode,
            },
    {
        match v {
            1 => Ok(Self::Down),
            2 => Ok(Self::Initializing),
            4 => Ok(Self::Active),
            _ => Err(HcaError::UnrecognizedCode),
        }
    }

    /// The label shown for this state.
    pub open spec fn spec_label(&self) -> Seq<char> {
        match self {
            Self::Initializing => "Initializing"@,
            Self::Active => "Active"@,
            Self::Down => "Down"@,
        }
    }

    /// A short display label.
    pub fn label(&self) -> (r: String)
        ensures
            r@ == self.spec_label(),
    {
        match self {
            Self::Initializing => "Initializing".to_owned(),
            Self::Active => "Active".to_owned(),
            Self::Down => "Down".to_owned(),
        }
    }
}

/// The physical state of a port, as the verbs subsystem reports it.
#[derive(Clone, Copy, PartialEq, Eq, Structural, Debug)]
pub enum IbPortPhysState {
    Polling,
    LinkUp,
    Disabled,
}

/// Translation of the raw verbs `phys_state` code: `2` is polling, `3` is
/// disabled, `5` is link-up; every other code is unmapped.
pub open spec fn spec_phys_state(v: u8) -> Option<IbPortPhysState> {
    if v == 2 {
        Some(IbPortPhysState::Polling)
    } else if v == 3 {
        Some(IbPortPhysState::Disabled)
    } else if v == 5 {
        Some(IbPortPhysState::LinkUp)
    } else {
        None
    }
}

impl IbPortPhysState {
    /// Translate a raw `phys_state` code; an unmapped code is an error,
    /// never a guessed default.
    pub fn try_from(v: u8) -> (r: Result<Self, HcaError>)
        ensures
            match r {
                Ok(t) => spec_phys_state(v) == Some(t),
                Err(e) => spec_phys_state(v) is None && e == HcaError::UnrecognizedCode,
            },
    {
        match v {
            2 => Ok(Self::Polling),
            3 => Ok(Self::Disabled),
            5 => Ok(Self::LinkUp),
            _ => Err(HcaError::UnrecognizedCode),
        }
    }

    /// The label shown for this physical state.
    pub open spec fn spec_label(&self) -> Seq<char> {
        match self {
            Self::Polling => "Polling"@,
            Self::LinkUp => "LinkUp"@,
            Self::Disabled => "Disabled"@,
        }
    }

    /// A short display label.
    pub fn label(&self) -> (r: String)
        ensures
            r@ == self.spec_label(),
    {
        match self {
            Self::Polling => "Polling".to_owned(),
            Self::LinkUp => "LinkUp".to_owned(),
            Self::Disabled => "Disabled".to_owned(),
        }
    }
}

/// One physical port on an IB device.  All fields are plain values copied
/// out of the raw port-attribute block at query time.
#[derive(Clone, Copy, PartialEq, Eq, Structural, Debug)]
pub struct IbPort {
    /// 1-based port number, dense per device.
    pub port_num: u8,
    /// The owning device's node GUID at query time.
    pub guid: u64,
    /// 16-bit local identifier; 0 when the port is inactive.
    pub lid: u16,
    pub link_type: IbPortLinkType,
    pub state: IbPortState,
    pub phys_state: IbPortPhysState,
}

/// One RDMA-capable device, with the metadata strings the device database
/// reports for it and the ports the verbs subsystem reports for it.
#[derive(Clone, Debug)]
pub struct IbDevice {
    /// Kernel device name, e.g. `mlx5_0`; the join key against verbs data.
    pub name: String,
    /// The parent PCI function's slot string.
    pub slot_name: String,
    pub node_guid: String,
    pub node_desc: String,
    pub sys_image_guid: String,
    pub fw_ver: String,
    pub board_id: String,
    /// Ports in ascending `port_num` order.
    pub ib_ports: Vec<IbPort>,
}

/// The mathematical value of an [`IbDevice`]: each string as its character
/// sequence, the ports as a sequence of plain port values.
#[verifier::ext_equal]
pub struct IbDeviceView {
    pub name: Seq<char>,
    pub slot_name: Seq<char>,
    pub node_guid: Seq<char>,
    pub node_desc: Seq<char>,
    pub sys_image_guid: Seq<char>,
    pub fw_ver: Seq<char>,
    pub board_id: Seq<char>,
    pub ib_ports: Seq<IbPort>,
}

impl View for IbDevice {
    type V = IbDeviceView;

    open spec fn view(&self) -> IbDeviceView {
        IbDeviceView {
            name: self.name@,
            slot_name: self.slot_name@,
            node_guid: self.node_guid@,
            node_desc: self.node_desc@,
            sys_image_guid: self.sys_image_guid@,
            fw_ver: self.fw_ver@,
            board_id: self.board_id@,
            ib_ports: self.ib_ports@,
        }
    }
}

/// One physical PCI function, owning the IB devices enumerated beneath it.
#[derive(Clone, Debug)]
pub struct PciDevice {
    /// `vendor:device` identifier string; unique within one snapshot and
    /// the key under which parent records are deduplicated.
    pub id: String,
    pub subsys_id: String,
    pub model_name: String,
    pub vendor_name: String,
    /// Raw vendor code string from sysfs.
    pub vendor: String,
    /// Owned IB devices, in encounter order.
    pub ib_devices: Vec<IbDevice>,
}

/// The mathematical value of a [`PciDevice`].
#[verifier::ext_equal]
pub struct PciDeviceView {
    pub id: Seq<char>,
    pub subsys_id: Seq<char>,
    pub model_name: Seq<char>,
    pub vendor_name: Seq<char>,
    pub vendor: Seq<char>,
    pub ib_devices: Seq<IbDeviceView>,
}

impl View for PciDevice {
    type V = PciDeviceView;

    open spec fn view(&self) -> PciDeviceView {
        PciDeviceView {
            id: self.id@,
            subsys_id: self.subsys_id@,
            model_name: self.model_name@,
            vendor_name: self.vendor_name@,
            vendor: self.vendor@,
            ib_devices: self.ib_devices@.map_values(|d: IbDevice| d@),
        }
    }
}

} // verus!
