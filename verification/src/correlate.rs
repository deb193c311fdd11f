use vstd::prelude::*;

use crate::error::HcaError;
use crate::model::IbDevice;
use crate::model::IbPort;
use crate::model::IbDeviceView;
use crate::model::PciDevice;
use crate::model::PciDeviceView;
use crate::record::record_error;
use crate::record::RawDeviceRecord;
use crate::record::RawDeviceRecordView;
use crate::record::RawParentRecordView;
use crate::verbs::ports_dense;
use crate::verbs::snapshot_wf;
use crate::verbs::verbs_lookup;
use crate::verbs::VerbsEntryView;
use crate::verbs::VerbsSnapshot;

verus! {

/// The views of a sequence of PCI devices.
pub open spec fn pci_views(s: Seq<PciDevice>) -> Seq<PciDeviceView> {
    s.map_values(|d: PciDevice| d@)
}

/// The views of a sequence of metadata records.
pub open spec fn rec_views(s: Seq<RawDeviceRecord>) -> Seq<RawDeviceRecordView> {
    s.map_values(|r: RawDeviceRecord| r@)
}

/// The first error the correlator meets while reading the records in
/// order, or `None` where every record is complete or skipped.
pub open spec fn first_error(rs: Seq<RawDeviceRecordView>) -> Option<HcaError>
    decreases rs.len(),
{
    if rs.len() == 0 {
        None
    } else if record_error(rs[0]) is Some {
        record_error(rs[0])
    } else {
        first_error(rs.skip(1))
    }
}

/// The first index of `s` holding a device with identifier `id`, or `-1`
/// where none does.
pub open spec fn find_id(s: Seq<PciDeviceView>, id: Seq<char>) -> int
    decreases s.len(),
{
    if s.len() == 0 {
        -1
    } else if s[0].id == id {
        0
    } else if find_id(s.skip(1), id) == -1 {
        -1
    } else {
        find_id(s.skip(1), id) + 1
    }
}

/// What [`find_id`] finds: `-1` means no entry carries the identifier;
/// otherwise it is the first index carrying it.
proof fn lemma_find_id(s: Seq<PciDeviceView>, id: Seq<char>)
    ensures
        find_id(s, id) == -1 ==> forall|i: int|
            0 <= i < s.len() ==> (#[trigger] s[i]).id != id,
        find_id(s, id) != -1 ==> 0 <= find_id(s, id) < s.len() && s[find_id(s, id)].id == id
            && forall|j: int| 0 <= j < find_id(s, id) ==> (#[trigger] s[j]).id != id,
    decreases s.len(),
{
    if s.len() == 0 {
    } else if s[0].id == id {
    } else {
        lemma_find_id(s.skip(1), id);
        let sub = find_id(s.skip(1), id);
        if sub == -1 {
            assert forall|i: int| 0 <= i < s.len() implies (#[trigger] s[i]).id != id by {
                if i > 0 {
                    assert(s.skip(1)[i - 1] == s[i]);
                }
            }
        } else {
            assert(s.skip(1)[sub] == s[sub + 1]);
            assert forall|j: int| 0 <= j < sub + 1 implies (#[trigger] s[j]).id != id by {
                if j > 0 {
                    assert(s.skip(1)[j - 1] == s[j]);
                }
            }
        }
    }
}

/// The IB device one complete record describes: its own metadata strings,
/// the slot name of its parent, and the ports the verbs snapshot records
/// under its name (none where the snapshot has no entry for it).
pub open spec fn spec_ib_device(r: RawDeviceRecordView, verbs: Seq<VerbsEntryView>) -> IbDeviceView
    recommends
        r.parent is Some,
        record_error(r) is None,
{
    IbDeviceView {
        name: r.name->0,
        slot_name: r.parent->0.pci_slot_name->0,
        node_guid: r.node_guid->0,
        node_desc: r.node_desc->0,
        sys_image_guid: r.sys_image_guid->0,
        fw_ver: r.fw_ver->0,
        board_id: r.board_id->0,
        ib_ports: verbs_lookup(verbs, r.name->0),
    }
}

/// The PCI device a parent record seeds, holding its first IB device.
pub open spec fn spec_new_pci(p: RawParentRecordView, ib: IbDeviceView) -> PciDeviceView
    recommends
        p.pci_id is Some,
{
    PciDeviceView {
        id: p.pci_id->0,
        subsys_id: p.pci_subsys_id->0,
        model_name: p.model_name->0,
        vendor_name: p.vendor_name->0,
        vendor: p.vendor->0,
        ib_devices: seq![ib],
    }
}

/// A PCI device with one more IB device appended.
pub open spec fn push_device(d: PciDeviceView, ib: IbDeviceView) -> PciDeviceView {
    PciDeviceView { ib_devices: d.ib_devices.push(ib), ..d }
}

/// One correlation step: a record without a parent is skipped; otherwise
/// its IB device joins the PCI device already seeded under the parent's
/// identifier, or seeds a new one at the end.  The first record seen for
/// an identifier fixes the descriptive fields; later duplicates are not
/// merged.
pub open spec fn correlate_step(
    acc: Seq<PciDeviceView>,
    r: RawDeviceRecordView,
    verbs: Seq<VerbsEntryView>,
) -> Seq<PciDeviceView>
    recommends
        record_error(r) is None,
{
    match r.parent {
        None => acc,
        Some(p) => {
            let ib = spec_ib_device(r, verbs);
            let i = find_id(acc, p.pci_id->0);
            if i >= 0 {
                acc.update(i, push_device(acc[i], ib))
            } else {
                acc.push(spec_new_pci(p, ib))
            }
        },
    }
}

/// The inventory that processing `rs` in order extends `acc` to.
pub open spec fn correlate_from(
    rs: Seq<RawDeviceRecordView>,
    verbs: Seq<VerbsEntryView>,
    acc: Seq<PciDeviceView>,
) -> Seq<PciDeviceView>
    decreases rs.len(),
{
    if rs.len() == 0 {
        acc
    } else {
        correlate_from(rs.skip(1), verbs, correlate_step(acc, rs[0], verbs))
    }
}

/// The inventory a snapshot's records and verbs data correlate to.
pub open spec fn spec_inventory(
    rs: Seq<RawDeviceRecordView>,
    verbs: Seq<VerbsEntryView>,
) -> Seq<PciDeviceView> {
    correlate_from(rs, verbs, Seq::empty())
}

/// The dedup invariant: no two entries carry the same PCI identifier.
pub open spec fn ids_unique(s: Seq<PciDeviceView>) -> bool {
    forall|i: int, j: int|
        0 <= i < j < s.len() ==> (#[trigger] s[i]).id != (#[trigger] s[j]).id
}

/// Every error the correlator reads past every leading clean record.
proof fn lemma_first_error_skip_prefix(rs: Seq<RawDeviceRecordView>, k: int)
    requires
        0 <= k <= rs.len(),
        forall|j: int| 0 <= j < k ==> record_error(#[trigger] rs[j]) is None,
    ensures
        first_error(rs) == first_error(rs.skip(k)),
    decreases k,
{
    if k == 0 {
        assert(rs.skip(0) =~= rs);
    } else {
        assert(record_error(rs[0]) is None);
        lemma_first_error_skip_prefix(rs.skip(1), k - 1);
        assert(rs.skip(1).skip(k - 1) =~= rs.skip(k));
    }
}

/// One correlation step keeps the identifiers unique: a record either
/// joins the entry already carrying its identifier, or seeds a new entry
/// under an identifier no other entry carries.
proof fn lemma_step_unique(
    acc: Seq<PciDeviceView>,
    r: RawDeviceRecordView,
    verbs: Seq<VerbsEntryView>,
)
    requires
        ids_unique(acc),
    ensures
        ids_unique(correlate_step(acc, r, verbs)),
{
    match r.parent {
        None => {},
        Some(p) => {
            lemma_find_id(acc, p.pci_id->0);
            let i = find_id(acc, p.pci_id->0);
            let s2 = correlate_step(acc, r, verbs);
            if i >= 0 {
                assert forall|x: int, y: int| 0 <= x < y < s2.len() implies (#[trigger] s2[x]).id
                    != (#[trigger] s2[y]).id by {
                    assert(s2[x].id == acc[x].id);
                    assert(s2[y].id == acc[y].id);
                }
            } else {
                assert forall|x: int, y: int| 0 <= x < y < s2.len() implies (#[trigger] s2[x]).id
                    != (#[trigger] s2[y]).id by {
                    if y == acc.len() {
                        assert(s2[x].id == acc[x].id);
                        assert(s2[y].id == p.pci_id->0);
                    }
                }
            }
        },
    }
}

proof fn lemma_correlate_from_unique(
    rs: Seq<RawDeviceRecordView>,
    verbs: Seq<VerbsEntryView>,
    acc: Seq<PciDeviceView>,
)
    requires
        ids_unique(acc),
    ensures
        ids_unique(correlate_from(rs, verbs, acc)),
    decreases rs.len(),
{
    if rs.len() != 0 {
        lemma_step_unique(acc, rs[0], verbs);
        lemma_correlate_from_unique(rs.skip(1), verbs, correlate_step(acc, rs[0], verbs));
    }
}

/// The dedup invariant holds of every inventory the correlation yields:
/// each PCI identifier appears at most once.
pub proof fn lemma_inventory_ids_unique(rs: Seq<RawDeviceRecordView>, verbs: Seq<VerbsEntryView>)
    ensures
        ids_unique(spec_inventory(rs, verbs)),
{
    lemma_correlate_from_unique(rs, verbs, Seq::empty());
}

/// An error at the first unclean record is the error of the whole run.
proof fn lemma_error_at(rs: Seq<RawDeviceRecordView>, k: int, e: HcaError)
    requires
        0 <= k < rs.len(),
        forall|j: int| 0 <= j < k ==> record_error(#[trigger] rs[j]) is None,
        record_error(rs[k]) == Some(e),
    ensures
        first_error(rs) == Some(e),
{
    lemma_first_error_skip_prefix(rs, k);
    assert(rs.skip(k)[0] == rs[k]);
}

/// The first index of `out` holding the identifier, as [`find_id`] gives
/// it over the views.
fn find_by_id(out: &Vec<PciDevice>, id: &String) -> (r: Option<usize>)
    ensures
        match r {
            Some(i) => i < out@.len() && find_id(pci_views(out@), id@) == i,
            None => find_id(pci_views(out@), id@) == -1,
        },
{
    let mut j: usize = 0;
    while j < out.len()
        invariant
            j <= out@.len(),
            forall|x: int| 0 <= x < j ==> (#[trigger] pci_views(out@)[x]).id != id@,
        decreases out@.len() - j,
    {
        if out[j].id == *id {
            proof {
                assert(pci_views(out@)[j as int].id == id@);
                lemma_find_id(pci_views(out@), id@);
            }
            return Some(j);
        }
        assert(pci_views(out@)[j as int].id != id@);
        j = j + 1;
    }
    proof {
        lemma_find_id(pci_views(out@), id@);
    }
    None
}

/// Correlate the metadata records with the verbs snapshot into the HCA
/// inventory.
///
/// Records without a parent PCI function are filtered out: they describe
/// devices with no discoverable physical backing.  Every record with a
/// parent must carry all its required fields; the first missing one fails
/// the whole build (no partial inventory), with `MissingProperty` or
/// `MissingAttribute` according to the field's kind.  PCI devices are
/// deduplicated by identifier, first writer wins; devices and ports keep
/// encounter order.  A device the verbs snapshot does not name gets an
/// empty port list, and an empty record list yields an empty inventory —
/// neither is an error.
pub fn build_inventory(records: &Vec<RawDeviceRecord>, verbs: &VerbsSnapshot) -> (r: Result<
    Vec<PciDevice>,
    HcaError,
>)
    ensures
        match r {
            Ok(inv) => first_error(rec_views(records@)) is None && pci_views(inv@)
                == spec_inventory(rec_views(records@), verbs@) && ids_unique(pci_views(inv@)),
            Err(e) => first_error(rec_views(records@)) == Some(e),
        },
{
    let ghost rv = rec_views(records@);
    let ghost vv = verbs@;
    let mut out: Vec<PciDevice> = Vec::new();
    proof {
        assert(rv.skip(0) =~= rv);
        assert(pci_views(out@) =~= Seq::<PciDeviceView>::empty());
    }
    let mut k: usize = 0;
    while k < records.len()
        invariant
            k <= records@.len(),
            rv == rec_views(records@),
            vv == verbs@,
            forall|j: int| 0 <= j < k ==> record_error(#[trigger] rv[j]) is None,
            correlate_from(rv.skip(k as int), vv, pci_views(out@)) == spec_inventory(rv, vv),
        decreases records@.len() - k,
    {
        let ghost acc = pci_views(out@);
        let rec = &records[k];
        proof {
            assert(rv[k as int] == records@[k as int]@);
            assert(rv.skip(k as int)[0] == rv[k as int]);
            assert(rv.skip(k as int).skip(1) =~= rv.skip(k + 1 as int));
        }
        match &rec.parent {
            None => {
                proof {
                    assert(rv[k as int].parent is None);
                    assert(correlate_step(acc, rv[k as int], vv) == acc);
                }
            },
            Some(parent) => {
                let id = match parent.req_pci_id() {
                    Ok(v) => v,
                    Err(e) => {
                        proof {
                            lemma_error_at(rv, k as int, e);
                        }
                        return Err(e);
                    },
                };
                let subsys_id = match parent.req_pci_subsys_id() {
                    Ok(v) => v,
                    Err(e) => {
                        proof {
                            lemma_error_at(rv, k as int, e);
                        }
                        return Err(e);
                    },
                };
                let model_name = match parent.req_model_name() {
                    Ok(v) => v,
                    Err(e) => {
                        proof {
                            lemma_error_at(rv, k as int, e);
                        }
                        return Err(e);
                    },
                };
                let vendor_name = match parent.req_vendor_name() {
                    Ok(v) => v,
                    Err(e) => {
                        proof {
                            lemma_error_at(rv, k as int, e);
                        }
                        return Err(e);
                    },
                };
                let vendor = match parent.req_vendor() {
                    Ok(v) => v,
                    Err(e) => {
                        proof {
                            lemma_error_at(rv, k as int, e);
                        }
                        return Err(e);
                    },
                };
                let slot_name = match parent.req_pci_slot_name() {
                    Ok(v) => v,
                    Err(e) => {
                        proof {
                            lemma_error_at(rv, k as int, e);
                        }
                        return Err(e);
                    },
                };
                let name = match rec.req_name() {
                    Ok(v) => v,
                    Err(e) => {
                        proof {
                            lemma_error_at(rv, k as int, e);
                        }
                        return Err(e);
                    },
                };
                let node_guid = match rec.req_node_guid() {
                    Ok(v) => v,
                    Err(e) => {
                        proof {
                            lemma_error_at(rv, k as int, e);
                        }
                        return Err(e);
                    },
                };
                let node_desc = match rec.req_node_desc() {
                    Ok(v) => v,
                    Err(e) => {
                        proof {
                            lemma_error_at(rv, k as int, e);
                        }
                        return Err(e);
                    },
                };
                let sys_image_guid = match rec.req_sys_image_guid() {
                    Ok(v) => v,
                    Err(e) => {
                        proof {
                            lemma_error_at(rv, k as int, e);
                        }
                        return Err(e);
                    },
                };
                let fw_ver = match rec.req_fw_ver() {
                    Ok(v) => v,
                    Err(e) => {
                        proof {
                            lemma_error_at(rv, k as int, e);
                        }
                        return Err(e);
                    },
                };
                let board_id = match rec.req_board_id() {
                    Ok(v) => v,
                    Err(e) => {
                        proof {
                            lemma_error_at(rv, k as int, e);
                        }
                        return Err(e);
                    },
                };
                let ports = verbs.ports_for(&name);
                let ib = IbDevice {
                    name,
                    slot_name,
                    node_guid,
                    node_desc,
                    sys_image_guid,
                    fw_ver,
                    board_id,
                    ib_ports: ports,
                };
                let ghost ibv = ib@;
                proof {
                    assert(record_error(rv[k as int]) is None);
                    assert(ibv =~= spec_ib_device(rv[k as int], vv));
                }
                match find_by_id(&out, &id) {
                    Some(i) => {
                        let ghost out_old = out@;
                        let mut d = out.remove(i);
                        d.ib_devices.push(ib);
                        let ghost d_new = d;
                        out.insert(i, d);
                        proof {
                            assert(out@ =~= out_old.update(i as int, d_new));
                            assert(d_new@.ib_devices =~= acc[i as int].ib_devices.push(ibv));
                            assert(d_new@ =~= push_device(acc[i as int], ibv));
                            assert(pci_views(out@) =~= acc.update(
                                i as int,
                                push_device(acc[i as int], ibv),
                            ));
                            assert(pci_views(out@) == correlate_step(acc, rv[k as int], vv));
                        }
                    },
                    None => {
                        let mut devs: Vec<IbDevice> = Vec::new();
                        devs.push(ib);
                        let d = PciDevice {
                            id,
                            subsys_id,
                            model_name,
                            vendor_name,
                            vendor,
                            ib_devices: devs,
                        };
                        let ghost dv = d@;
                        out.push(d);
                        proof {
                            assert(dv.ib_devices =~= seq![ibv]);
                            assert(dv =~= spec_new_pci(rv[k as int].parent->0, ibv));
                            assert(pci_views(out@) =~= acc.push(
                                spec_new_pci(rv[k as int].parent->0, ibv),
                            ));
                            assert(pci_views(out@) == correlate_step(acc, rv[k as int], vv));
                        }
                    },
                }
            },
        }
        proof {
            assert(correlate_from(rv.skip(k as int), vv, acc) == correlate_from(
                rv.skip(k + 1 as int),
                vv,
                correlate_step(acc, rv[k as int], vv),
            ));
        }
        k = k + 1;
    }
    proof {
        assert(rv.skip(rv.len() as int) =~= Seq::<RawDeviceRecordView>::empty());
        assert(correlate_from(
            Seq::<RawDeviceRecordView>::empty(),
            vv,
            pci_views(out@),
        ) == pci_views(out@));
        lemma_first_error_skip_prefix(rv, rv.len() as int);
        lemma_inventory_ids_unique(rv, vv);
    }
    Ok(out)
}

/// Every IB device of every entry carries exactly the ports the verbs
/// snapshot records under its name.
pub open spec fn devices_ports_follow_verbs(
    s: Seq<PciDeviceView>,
    verbs: Seq<VerbsEntryView>,
) -> bool {
    forall|i: int, j: int|
        0 <= i < s.len() && 0 <= j < s[i].ib_devices.len() ==> (#[trigger] s[i].ib_devices[j]).ib_ports
            == verbs_lookup(verbs, s[i].ib_devices[j].name)
}

proof fn lemma_step_ports(
    acc: Seq<PciDeviceView>,
    r: RawDeviceRecordView,
    verbs: Seq<VerbsEntryView>,
)
    requires
        devices_ports_follow_verbs(acc, verbs),
    ensures
        devices_ports_follow_verbs(correlate_step(acc, r, verbs), verbs),
{
    match r.parent {
        None => {},
        Some(p) => {
            let ib = spec_ib_device(r, verbs);
            assert(ib.ib_ports == verbs_lookup(verbs, ib.name));
            lemma_find_id(acc, p.pci_id->0);
            let i = find_id(acc, p.pci_id->0);
            let s2 = correlate_step(acc, r, verbs);
            if i >= 0 {
                assert forall|x: int, j: int|
                    0 <= x < s2.len() && 0 <= j < s2[x].ib_devices.len() implies (
                #[trigger] s2[x].ib_devices[j]).ib_ports == verbs_lookup(
                    verbs,
                    s2[x].ib_devices[j].name,
                ) by {
                    if x == i {
                        assert(s2[x].ib_devices == acc[x].ib_devices.push(ib));
                        if j < acc[x].ib_devices.len() {
                            assert(s2[x].ib_devices[j] == acc[x].ib_devices[j]);
                        } else {
                            assert(s2[x].ib_devices[j] == ib);
                        }
                    } else {
                        assert(s2[x] == acc[x]);
                    }
                }
            } else {
                assert forall|x: int, j: int|
                    0 <= x < s2.len() && 0 <= j < s2[x].ib_devices.len() implies (
                #[trigger] s2[x].ib_devices[j]).ib_ports == verbs_lookup(
                    verbs,
                    s2[x].ib_devices[j].name,
                ) by {
                    if x == acc.len() {
                        assert(s2[x].ib_devices == seq![ib]);
                        assert(s2[x].ib_devices[j] == ib);
                    } else {
                        assert(s2[x] == acc[x]);
                    }
                }
            }
        },
    }
}

proof fn lemma_correlate_from_ports(
    rs: Seq<RawDeviceRecordView>,
    verbs: Seq<VerbsEntryView>,
    acc: Seq<PciDeviceView>,
)
    requires
        devices_ports_follow_verbs(acc, verbs),
    ensures
        devices_ports_follow_verbs(correlate_from(rs, verbs, acc), verbs),
    decreases rs.len(),
{
    if rs.len() != 0 {
        lemma_step_ports(acc, rs[0], verbs);
        lemma_correlate_from_ports(rs.skip(1), verbs, correlate_step(acc, rs[0], verbs));
    }
}

/// In every inventory the correlation yields, each IB device carries
/// exactly the ports the verbs snapshot records under its name.
pub proof fn lemma_inventory_ports_from_verbs(
    rs: Seq<RawDeviceRecordView>,
    verbs: Seq<VerbsEntryView>,
)
    ensures
        devices_ports_follow_verbs(spec_inventory(rs, verbs), verbs),
{
    lemma_correlate_from_ports(rs, verbs, Seq::empty());
}

/// A device the verbs snapshot does not name still appears in the
/// inventory, with an empty port list.  (That the build still succeeds is
/// already in [`build_inventory`]'s contract: its error cases depend on
/// the records alone, never on the verbs snapshot.)
pub proof fn lemma_missing_verbs_empty_ports(
    rs: Seq<RawDeviceRecordView>,
    verbs: Seq<VerbsEntryView>,
    name: Seq<char>,
)
    requires
        forall|j: int| 0 <= j < verbs.len() ==> (#[trigger] verbs[j]).name != name,
    ensures
        forall|i: int, j: int|
            0 <= i < spec_inventory(rs, verbs).len() && 0 <= j < spec_inventory(
                rs,
                verbs,
            )[i].ib_devices.len() && (#[trigger] spec_inventory(rs, verbs)[i].ib_devices[j]).name
                == name ==> spec_inventory(rs, verbs)[i].ib_devices[j].ib_ports == Seq::<
                IbPort,
            >::empty(),
{
    lemma_inventory_ports_from_verbs(rs, verbs);
    crate::verbs::lemma_lookup_absent(verbs, name);
    let inv = spec_inventory(rs, verbs);
    assert forall|i: int, j: int|
        0 <= i < inv.len() && 0 <= j < inv[i].ib_devices.len() && (
    #[trigger] inv[i].ib_devices[j]).name == name implies inv[i].ib_devices[j].ib_ports == Seq::<
        IbPort,
    >::empty() by {
        assert(inv[i].ib_devices[j].ib_ports == verbs_lookup(verbs, name));
    }
}

/// In a well-formed verbs snapshot, every IB device of every inventory
/// entry has a dense port list: the port at index `j` is port number
/// `j + 1`, so port numbers are unique and lie within `1..=count`.
pub proof fn lemma_inventory_ports_wf(rs: Seq<RawDeviceRecordView>, verbs: Seq<VerbsEntryView>)
    requires
        snapshot_wf(verbs),
    ensures
        forall|i: int, j: int|
            0 <= i < spec_inventory(rs, verbs).len() && 0 <= j < spec_inventory(
                rs,
                verbs,
            )[i].ib_devices.len() ==> ports_dense(
                (#[trigger] spec_inventory(rs, verbs)[i].ib_devices[j]).ib_ports,
            ),
{
    lemma_inventory_ports_from_verbs(rs, verbs);
    let inv = spec_inventory(rs, verbs);
    assert forall|i: int, j: int|
        0 <= i < inv.len() && 0 <= j < inv[i].ib_devices.len() implies ports_dense(
        (#[trigger] inv[i].ib_devices[j]).ib_ports,
    ) by {
        crate::verbs::lemma_lookup_dense(verbs, inv[i].ib_devices[j].name);
    }
}

/// Zero metadata records correlate to the empty inventory, not an error,
/// whatever the verbs snapshot holds.
pub proof fn lemma_empty_metadata_empty_inventory(verbs: Seq<VerbsEntryView>)
    ensures
        first_error(Seq::<RawDeviceRecordView>::empty()) is None,
        spec_inventory(Seq::<RawDeviceRecordView>::empty(), verbs) == Seq::<PciDeviceView>::empty(),
{
}

/// Building twice against an unchanged host state yields the same
/// inventory: the outcome is a function of the two scan results alone.
pub proof fn lemma_build_deterministic(
    rs: Seq<RawDeviceRecordView>,
    verbs: Seq<VerbsEntryView>,
    inv1: Seq<PciDeviceView>,
    inv2: Seq<PciDeviceView>,
)
    requires
        inv1 == spec_inventory(rs, verbs),
        inv2 == spec_inventory(rs, verbs),
    ensures
        inv1 == inv2,
{
}

/// Whether two port lists hold the same ports in the same order.
pub fn ports_eq(a: &Vec<IbPort>, b: &Vec<IbPort>) -> (r: bool)
    ensures
        r <==> a@ == b@,
{
    if a.len() != b.len() {
        return false;
    }
    let mut i: usize = 0;
    while i < a.len()
        invariant
            i <= a@.len(),
            a@.len() == b@.len(),
            forall|j: int| 0 <= j < i ==> a@[j] == b@[j],
        decreases a@.len() - i,
    {
        let pa = a[i];
        let pb = b[i];
        if !(pa == pb) {
            assert(a@[i as int] != b@[i as int]);
            return false;
        }
        i = i + 1;
    }
    proof {
        assert(a@ =~= b@);
    }
    true
}

/// Whether two IB devices hold the same values, ports included.
pub fn ib_device_eq(a: &IbDevice, b: &IbDevice) -> (r: bool)
    ensures
        r <==> a@ == b@,
{
    if !(a.name == b.name) {
        return false;
    }
    if !(a.slot_name == b.slot_name) {
        return false;
    }
    if !(a.node_guid == b.node_guid) {
        return false;
    }
    if !(a.node_desc == b.node_desc) {
        return false;
    }
    if !(a.sys_image_guid == b.sys_image_guid) {
        return false;
    }
    if !(a.fw_ver == b.fw_ver) {
        return false;
    }
    if !(a.board_id == b.board_id) {
        return false;
    }
    if !ports_eq(&a.ib_ports, &b.ib_ports) {
        return false;
    }
    proof {
        assert(a@ =~= b@);
    }
    true
}

/// Whether two PCI devices hold the same values, IB devices included.
pub fn pci_device_eq(a: &PciDevice, b: &PciDevice) -> (r: bool)
    ensures
        r <==> a@ == b@,
{
    if !(a.id == b.id) {
        return false;
    }
    if !(a.subsys_id == b.subsys_id) {
        return false;
    }
    if !(a.model_name == b.model_name) {
        return false;
    }
    if !(a.vendor_name == b.vendor_name) {
        return false;
    }
    if !(a.vendor == b.vendor) {
        return false;
    }
    if a.ib_devices.len() != b.ib_devices.len() {
        proof {
            assert(a@.ib_devices.len() != b@.ib_devices.len());
        }
        return false;
    }
    let mut j: usize = 0;
    while j < a.ib_devices.len()
        invariant
            j <= a.ib_devices@.len(),
            a.ib_devices@.len() == b.ib_devices@.len(),
            forall|x: int| 0 <= x < j ==> a@.ib_devices[x] == b@.ib_devices[x],
        decreases a.ib_devices@.len() - j,
    {
        if !ib_device_eq(&a.ib_devices[j], &b.ib_devices[j]) {
            proof {
                assert(a@.ib_devices[j as int] == a.ib_devices@[j as int]@);
                assert(b@.ib_devices[j as int] == b.ib_devices@[j as int]@);
            }
            return false;
        }
        proof {
            assert(a@.ib_devices[j as int] == a.ib_devices@[j as int]@);
            assert(b@.ib_devices[j as int] == b.ib_devices@[j as int]@);
        }
        j = j + 1;
    }
    proof {
        assert(a@.ib_devices =~= b@.ib_devices);
        assert(a@ =~= b@);
    }
    true
}

/// Whether two inventories hold the same entries in the same order, the
/// whole hierarchy compared by value.
pub fn inventory_eq(a: &Vec<PciDevice>, b: &Vec<PciDevice>) -> (r: bool)
    ensures
        r <==> pci_views(a@) == pci_views(b@),
{
    if a.len() != b.len() {
        proof {
            assert(pci_views(a@).len() != pci_views(b@).len());
        }
        return false;
    }
    let mut i: usize = 0;
    while i < a.len()
        invariant
            i <= a@.len(),
            a@.len() == b@.len(),
            forall|x: int| 0 <= x < i ==> pci_views(a@)[x] == pci_views(b@)[x],
        decreases a@.len() - i,
    {
        if !pci_device_eq(&a[i], &b[i]) {
            proof {
                assert(pci_views(a@)[i as int] == a@[i as int]@);
                assert(pci_views(b@)[i as int] == b@[i as int]@);
            }
            return false;
        }
        proof {
            assert(pci_views(a@)[i as int] == a@[i as int]@);
            assert(pci_views(b@)[i as int] == b@[i as int]@);
        }
        i = i + 1;
    }
    proof {
        assert(pci_views(a@) =~= pci_views(b@));
    }
    true
}

} // verus!
