use vstd::prelude::*;

use crate::error::HcaError;
use crate::model::spec_link_type;
use crate::model::spec_phys_state;
use crate::model::spec_port_state;
use crate::model::IbPort;
use crate::model::IbPortLinkType;
use crate::model::IbPortPhysState;
use crate::model::IbPortState;

verus! {

/// The raw numeric fields copied out of one verbs port-attribute block.
#[derive(Clone, Copy, PartialEq, Eq, Structural, Debug)]
pub struct RawPortAttr {
    /// 16-bit local identifier.
    pub lid: u16,
    /// Raw `link_layer` code.
    pub link_layer: u8,
    /// Raw port `state` code.
    pub state: u32,
    /// Raw `phys_state` code.
    pub phys_state: u8,
}

/// One verbs-capable device as the raw queries describe it: its kernel
/// name, its node GUID from the device-attribute block, and one raw
/// port-attribute block per port, in ascending port order.
#[derive(Clone, Debug)]
pub struct RawVerbsDevice {
    pub name: String,
    pub node_guid: u64,
    pub ports: Vec<RawPortAttr>,
}

/// The mathematical value of a [`RawVerbsDevice`].
#[verifier::ext_equal]
pub struct RawVerbsDeviceView {
    pub name: Seq<char>,
    pub node_guid: u64,
    pub ports: Seq<RawPortAttr>,
}

impl View for RawVerbsDevice {
    type V = RawVerbsDeviceView;

    open spec fn view(&self) -> RawVerbsDeviceView {
        RawVerbsDeviceView { name: self.name@, node_guid: self.node_guid, ports: self.ports@ }
    }
}

/// One entry of the verbs scan result: a device name and its translated
/// ports.
#[derive(Clone, Debug)]
pub struct VerbsEntry {
    pub name: String,
    pub ports: Vec<IbPort>,
}

/// The mathematical value of a [`VerbsEntry`].
#[verifier::ext_equal]
pub struct VerbsEntryView {
    pub name: Seq<char>,
    pub ports: Seq<IbPort>,
}

impl View for VerbsEntry {
    type V = VerbsEntryView;

    open spec fn view(&self) -> VerbsEntryView {
        VerbsEntryView { name: self.name@, ports: self.ports@ }
    }
}

/// The verbs scan result: device names mapped to their translated ports.
/// The kernel reports each device name once, so the entry names are
/// distinct in every snapshot a scan produces; a lookup takes the first
/// entry with the wanted name.
#[derive(Clone, Debug)]
pub struct VerbsSnapshot {
    pub entries: Vec<VerbsEntry>,
}

impl View for VerbsSnapshot {
    type V = Seq<VerbsEntryView>;

    open spec fn view(&self) -> Seq<VerbsEntryView> {
        self.entries@.map_values(|e: VerbsEntry| e@)
    }
}

/// The views of a sequence of raw device descriptions.
pub open spec fn dev_views(devs: Seq<RawVerbsDevice>) -> Seq<RawVerbsDeviceView> {
    devs.map_values(|d: RawVerbsDevice| d@)
}

/// The views of a sequence of snapshot entries.
pub open spec fn entry_views(entries: Seq<VerbsEntry>) -> Seq<VerbsEntryView> {
    entries.map_values(|e: VerbsEntry| e@)
}

/// Whether all three raw codes of one port-attribute block have a known
/// translation.
pub open spec fn raw_port_ok(raw: RawPortAttr) -> bool {
    &&& spec_link_type(raw.link_layer) is Some
    &&& spec_port_state(raw.state) is Some
    &&& spec_phys_state(raw.phys_state) is Some
}

/// The translated port for one raw attribute block, for a device whose
/// node GUID is `node_guid` and for the 1-based port number `num`.
pub open spec fn spec_port(node_guid: u64, num: u8, raw: RawPortAttr) -> IbPort
    recommends
        raw_port_ok(raw),
{
    IbPort {
        port_num: num,
        guid: node_guid,
        lid: raw.lid,
        link_type: spec_link_type(raw.link_layer)->0,
        state: spec_port_state(raw.state)->0,
        phys_state: spec_phys_state(raw.phys_state)->0,
    }
}

/// The translated port list of a device: the block at index `i` describes
/// port number `i + 1`.
pub open spec fn spec_ports(node_guid: u64, raws: Seq<RawPortAttr>) -> Seq<IbPort> {
    Seq::new(raws.len(), |i: int| spec_port(node_guid, (i + 1) as u8, raws[i]))
}

/// Whether every port-attribute block of a device translates.
pub open spec fn all_ports_ok(raws: Seq<RawPortAttr>) -> bool {
    forall|i: int| 0 <= i < raws.len() ==> raw_port_ok(#[trigger] raws[i])
}

/// Translate the raw port-attribute blocks of one device into its port
/// list.  Port numbers are assigned densely from 1 in block order; every
/// unmapped raw code fails the whole device, nothing is defaulted.
pub fn build_ports(node_guid: u64, raws: &Vec<RawPortAttr>) -> (r: Result<Vec<IbPort>, HcaError>)
    requires
        raws@.len() <= 255,
    ensures
        match r {
            Ok(ports) => all_ports_ok(raws@) && ports@ == spec_ports(node_guid, raws@),
            Err(e) => !all_ports_ok(raws@) && e == HcaError::UnrecognizedCode,
        },
{
    let mut ports: Vec<IbPort> = Vec::new();
    let mut i: usize = 0;
    while i < raws.len()
        invariant
            i <= raws@.len() <= 255,
            forall|j: int| 0 <= j < i ==> raw_port_ok(#[trigger] raws@[j]),
            ports@ == spec_ports(node_guid, raws@.take(i as int)),
        decreases raws@.len() - i,
    {
        let raw = raws[i];
        let link_type = match IbPortLinkType::try_from(raw.link_layer) {
            Ok(t) => t,
            Err(e) => {
                assert(!raw_port_ok(raws@[i as int]));
                return Err(e);
            },
        };
        let state = match IbPortState::try_from(raw.state) {
            Ok(t) => t,
            Err(e) => {
                assert(!raw_port_ok(raws@[i as int]));
                return Err(e);
            },
        };
        let phys_state = match IbPortPhysState::try_from(raw.phys_state) {
            Ok(t) => t,
            Err(e) => {
                assert(!raw_port_ok(raws@[i as int]));
                return Err(e);
            },
        };
        let port = IbPort {
            port_num: (i + 1) as u8,
            guid: node_guid,
            lid: raw.lid,
            link_type,
            state,
            phys_state,
        };
        ports.push(port);
        assert(ports@ =~= spec_ports(node_guid, raws@.take(i + 1 as int)));
        i = i + 1;
    }
    assert(raws@.take(raws@.len() as int) =~= raws@);
    Ok(ports)
}

/// The snapshot that a list of raw device descriptions translates to,
/// device by device.
pub open spec fn spec_snapshot(devs: Seq<RawVerbsDeviceView>) -> Seq<VerbsEntryView> {
    devs.map_values(
        |d: RawVerbsDeviceView| VerbsEntryView { name: d.name, ports: spec_ports(d.node_guid, d.ports) },
    )
}

/// Whether every device's port blocks all translate.
pub open spec fn all_devs_ok(devs: Seq<RawVerbsDeviceView>) -> bool {
    forall|i: int| 0 <= i < devs.len() ==> all_ports_ok((#[trigger] devs[i]).ports)
}

/// Translate the raw verbs scan into a snapshot.  Devices keep their scan
/// order; one unmapped code anywhere fails the whole scan.
pub fn build_verbs_snapshot(devs: &Vec<RawVerbsDevice>) -> (r: Result<VerbsSnapshot, HcaError>)
    requires
        forall|i: int| 0 <= i < devs@.len() ==> (#[trigger] devs@[i]).ports.len() <= 255,
    ensures
        match r {
            Ok(s) => all_devs_ok(dev_views(devs@)) && s@ == spec_snapshot(dev_views(devs@)),
            Err(e) => !all_devs_ok(dev_views(devs@)) && e == HcaError::UnrecognizedCode,
        },
{
    let ghost dv = dev_views(devs@);
    let mut entries: Vec<VerbsEntry> = Vec::new();
    let mut i: usize = 0;
    while i < devs.len()
        invariant
            i <= devs@.len(),
            dv == dev_views(devs@),
            forall|i0: int| 0 <= i0 < devs@.len() ==> (#[trigger] devs@[i0]).ports.len() <= 255,
            forall|j: int| 0 <= j < i ==> all_ports_ok((#[trigger] dv[j]).ports),
            entry_views(entries@) == spec_snapshot(dv.take(i as int)),
        decreases devs@.len() - i,
    {
        let dev = &devs[i];
        let ports = match build_ports(dev.node_guid, &dev.ports) {
            Ok(p) => p,
            Err(e) => {
                assert(!all_ports_ok(dv[i as int].ports));
                return Err(e);
            },
        };
        let entry = VerbsEntry { name: dev.name.clone(), ports };
        let ghost pushed = entry;
        let ghost entries_pre = entries@;
        entries.push(entry);
        proof {
            let evs = entry_views(entries@);
            let svs = spec_snapshot(dv.take(i + 1 as int));
            assert(entry_views(entries_pre).len() == entries_pre.len());
            assert(spec_snapshot(dv.take(i as int)).len() == i);
            assert(entries_pre.len() == i);
            assert(entries@ == entries_pre.push(pushed));
            assert(dv[i as int] == devs@[i as int]@);
            assert forall|k: int| 0 <= k < evs.len() implies evs[k] == svs[k] by {
                if k < i {
                    assert(entry_views(entries_pre)[k] == spec_snapshot(dv.take(i as int))[k]);
                    assert(dv.take(i as int)[k] == dv.take(i + 1 as int)[k]);
                } else {
                    assert(entries@[k] == pushed);
                }
            }
            assert(evs =~= svs);
        }
        i = i + 1;
    }
    assert(dv.take(dv.len() as int) =~= dv);
    let r = VerbsSnapshot { entries };
    proof {
        assert(r@ =~= spec_snapshot(dv));
    }
    Ok(r)
}

/// The ports recorded for `name`: those of the first entry carrying the
/// name, or the empty sequence where no entry does.
pub open spec fn verbs_lookup(entries: Seq<VerbsEntryView>, name: Seq<char>) -> Seq<IbPort>
    decreases entries.len(),
{
    if entries.len() == 0 {
        Seq::empty()
    } else if entries[0].name == name {
        entries[0].ports
    } else {
        verbs_lookup(entries.skip(1), name)
    }
}

/// A lookup passes over every leading entry whose name differs.
proof fn lemma_lookup_skip_prefix(entries: Seq<VerbsEntryView>, name: Seq<char>, k: int)
    requires
        0 <= k <= entries.len(),
        forall|j: int| 0 <= j < k ==> (#[trigger] entries[j]).name != name,
    ensures
        verbs_lookup(entries, name) == verbs_lookup(entries.skip(k), name),
    decreases k,
{
    if k == 0 {
        assert(entries.skip(0) =~= entries);
    } else {
        assert(entries[0].name != name);
        lemma_lookup_skip_prefix(entries.skip(1), name, k - 1);
        assert(entries.skip(1).skip(k - 1) =~= entries.skip(k));
    }
}

/// If no entry of the snapshot carries the name, the lookup is empty.
pub proof fn lemma_lookup_absent(entries: Seq<VerbsEntryView>, name: Seq<char>)
    requires
        forall|j: int| 0 <= j < entries.len() ==> (#[trigger] entries[j]).name != name,
    ensures
        verbs_lookup(entries, name) == Seq::<IbPort>::empty(),
{
    lemma_lookup_skip_prefix(entries, name, entries.len() as int);
    assert(entries.skip(entries.len() as int) =~= Seq::<VerbsEntryView>::empty());
}

impl VerbsSnapshot {
    /// An empty snapshot, as a scan that finds no verbs device yields it.
    pub fn new() -> (r: Self)
        ensures
            r@ == Seq::<VerbsEntryView>::empty(),
    {
        let r = VerbsSnapshot { entries: Vec::new() };
        proof {
            assert(r@ =~= Seq::<VerbsEntryView>::empty());
        }
        r
    }

    /// The ports recorded for `name`, copied out; empty where the snapshot
    /// has no entry for the name.
    pub fn ports_for(&self, name: &String) -> (r: Vec<IbPort>)
        ensures
            r@ == verbs_lookup(self@, name@),
    {
        let mut j: usize = 0;
        while j < self.entries.len()
            invariant
                j <= self.entries@.len(),
                forall|k: int| 0 <= k < j ==> (#[trigger] self@[k]).name != name@,
            decreases self.entries@.len() - j,
        {
            if self.entries[j].name == *name {
                assert(self@[j as int].name == name@);
                proof {
                    lemma_lookup_skip_prefix(self@, name@, j as int);
                    assert(self@.skip(j as int)[0] == self@[j as int]);
                }
                let mut out: Vec<IbPort> = Vec::new();
                let mut p: usize = 0;
                while p < self.entries[j].ports.len()
                    invariant
                        j < self.entries@.len(),
                        p <= self.entries@[j as int].ports@.len(),
                        out@ == self.entries@[j as int].ports@.take(p as int),
                    decreases self.entries@[j as int].ports@.len() - p,
                {
                    let port = self.entries[j].ports[p];
                    out.push(port);
                    assert(out@ =~= self.entries@[j as int].ports@.take(p + 1 as int));
                    p = p + 1;
                }
                proof {
                    let ports = self.entries@[j as int].ports@;
                    assert(ports.take(ports.len() as int) =~= ports);
                }
                return out;
            }
            assert(self@[j as int].name != name@);
            j = j + 1;
        }
        proof {
            lemma_lookup_absent(self@, name@);
        }
        Vec::new()
    }
}

/// A dense port list: the port at index `i` is port number `i + 1`.
pub open spec fn ports_dense(ports: Seq<IbPort>) -> bool {
    forall|i: int| 0 <= i < ports.len() ==> (#[trigger] ports[i]).port_num == i + 1
}

/// A well-formed snapshot: every entry's port list is dense.
pub open spec fn snapshot_wf(entries: Seq<VerbsEntryView>) -> bool {
    forall|i: int| 0 <= i < entries.len() ==> ports_dense((#[trigger] entries[i]).ports)
}

/// In a dense port list every port number is unique and lies within
/// `1..=count`, the count being the number of ports the device reported.
pub proof fn lemma_dense_ports_wf(ports: Seq<IbPort>)
    requires
        ports_dense(ports),
    ensures
        forall|i: int, j: int|
            0 <= i < j < ports.len() ==> (#[trigger] ports[i]).port_num != (
            #[trigger] ports[j]).port_num,
        forall|i: int| 0 <= i < ports.len() ==> 1 <= (#[trigger] ports[i]).port_num <= ports.len(),
{
}

/// A translated port list is dense.
pub proof fn lemma_spec_ports_dense(node_guid: u64, raws: Seq<RawPortAttr>)
    requires
        raws.len() <= 255,
    ensures
        ports_dense(spec_ports(node_guid, raws)),
{
}

/// In a well-formed snapshot every lookup yields a dense port list: the
/// empty one, or one of an entry, which is dense.
pub proof fn lemma_lookup_dense(entries: Seq<VerbsEntryView>, name: Seq<char>)
    requires
        snapshot_wf(entries),
    ensures
        ports_dense(verbs_lookup(entries, name)),
    decreases entries.len(),
{
    if entries.len() == 0 {
    } else if entries[0].name == name {
        assert(ports_dense(entries[0].ports));
    } else {
        assert forall|i: int| 0 <= i < entries.skip(1).len() implies ports_dense(
            (#[trigger] entries.skip(1)[i]).ports,
        ) by {
            assert(entries.skip(1)[i] == entries[i + 1]);
        }
        lemma_lookup_dense(entries.skip(1), name);
    }
}

/// Every snapshot a translation yields is well formed: each device's ports
/// are dense, hence carry unique port numbers within `1..=count`.
pub proof fn lemma_spec_snapshot_wf(devs: Seq<RawVerbsDeviceView>)
    requires
        forall|i: int| 0 <= i < devs.len() ==> (#[trigger] devs[i]).ports.len() <= 255,
    ensures
        snapshot_wf(spec_snapshot(devs)),
{
    assert forall|i: int| 0 <= i < spec_snapshot(devs).len() implies ports_dense(
        (#[trigger] spec_snapshot(devs)[i]).ports,
    ) by {
        lemma_spec_ports_dense(devs[i].node_guid, devs[i].ports);
    }
}

} // verus!
