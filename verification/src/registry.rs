//! Enumeration decisions for the registry-tree platform: the service
//! registry is queried for serial services, each entry's callout device
//! names the port, and the nearest USB-device ancestor (when one exists)
//! supplies the descriptor.
//!
//! The platform glue performs the registry queries and property reads and
//! hands their plain results to this module, which holds the decisions:
//! when a failed query aborts the pass, which ancestor matches, which
//! scanned interface belongs to a device, and what record each service
//! entry yields.

use vstd::prelude::*;

use crate::ListPortInfo;
use crate::ListPortInfoV;
use crate::ListPortType;
use crate::ListPortTypeV;
use crate::ListPorts;
use crate::UsbPortInfo;
use crate::UsbPortInfoV;
use crate::description_of;
use crate::hwid_of;
use crate::location::location_string_of;
use crate::location::location_to_string;

verus! {

/// An unrecoverable failure while setting up the registry query: the
/// matching set could not even be built, or the matching-services query
/// itself failed with the given status.  Such a failure aborts the pass;
/// it is never folded into an empty result.
#[derive(Debug, PartialEq, Eq, Structural)]
pub enum SetupError {
    NullMatchingSet,
    QueryFailed(i32),
}

/// The outcome the two setup steps denote: an absent matching set fails
/// first, a non-zero query status fails next, and only a zero status with
/// a present matching set proceeds.
pub open spec fn setup_outcome_of(matching_set_null: bool, query_status: i32) -> Result<
    (),
    SetupError,
> {
    if matching_set_null {
        Err(SetupError::NullMatchingSet)
    } else if query_status != 0 {
        Err(SetupError::QueryFailed(query_status))
    } else {
        Ok(())
    }
}

/// Decides whether the registry query setup succeeded.  `matching_set_null`
/// says whether building the matching set yielded nothing; `query_status`
/// is the status the matching-services query returned, zero on success.
pub fn setup_outcome(matching_set_null: bool, query_status: i32) -> (r: Result<(), SetupError>)
    ensures
        r == setup_outcome_of(matching_set_null, query_status),
{
    if matching_set_null {
        Err(SetupError::NullMatchingSet)
    } else if query_status != 0 {
        Err(SetupError::QueryFailed(query_status))
    } else {
        Ok(())
    }
}

/// Finds the first ancestor in a gathered chain whose registry class is
/// the class looked for: the walk stops at the first match, or at the end
/// of the chain when no ancestor matches.
pub fn find_ancestor_by_class(classes: &Vec<String>, target: &str) -> (r: Option<usize>)
    ensures
        match r {
            Some(i) => i < classes@.len() && classes.deep_view()[i as int] == target@ && (forall|
                j: int,
            |
                0 <= j < i ==> classes.deep_view()[j] != target@),
            None => forall|j: int| 0 <= j < classes@.len() ==> classes.deep_view()[j] != target@,
        },
{
    let n = classes.len();
    let mut i: usize = 0;
    while i < n
        invariant
            0 <= i <= n,
            n == classes@.len(),
            forall|j: int| 0 <= j < i ==> classes.deep_view()[j] != target@,
        decreases n - i,
    {
        if crate::text::str_eq(classes[i].as_str(), target) {
            return Some(i);
        }
        i += 1;
    }
    None
}

/// The raw properties read from a USB device registry entry: the two
/// identifiers, the optional texts, the packed bus-location identifier,
/// and the interface name where the secondary scan resolved one.
pub struct UsbDeviceProps {
    pub vid: u16,
    pub pid: u16,
    pub serial_number: Option<String>,
    pub manufacturer: Option<String>,
    pub product: Option<String>,
    pub location_id: u32,
    pub interface: Option<String>,
}

/// The mathematical value of a [`UsbDeviceProps`].
#[verifier::ext_equal]
pub ghost struct UsbDevicePropsV {
    pub vid: u16,
    pub pid: u16,
    pub serial_number: Option<Seq<char>>,
    pub manufacturer: Option<Seq<char>>,
    pub product: Option<Seq<char>>,
    pub location_id: u32,
    pub interface: Option<Seq<char>>,
}

impl DeepView for UsbDeviceProps {
    type V = UsbDevicePropsV;

    open spec fn deep_view(&self) -> UsbDevicePropsV {
        UsbDevicePropsV {
            vid: self.vid,
            pid: self.pid,
            serial_number: self.serial_number.deep_view(),
            manufacturer: self.manufacturer.deep_view(),
            product: self.product.deep_view(),
            location_id: self.location_id,
            interface: self.interface.deep_view(),
        }
    }
}

/// One result of the serial-service registry query: the callout device
/// path where the entry exposes one, and the properties of its owning USB
/// device where a USB ancestor exists.
pub struct ServiceEntry {
    pub callout_device: Option<String>,
    pub usb: Option<UsbDeviceProps>,
}

/// The mathematical value of a [`ServiceEntry`].
#[verifier::ext_equal]
pub ghost struct ServiceEntryV {
    pub callout_device: Option<Seq<char>>,
    pub usb: Option<UsbDevicePropsV>,
}

impl DeepView for ServiceEntry {
    type V = ServiceEntryV;

    open spec fn deep_view(&self) -> ServiceEntryV {
        ServiceEntryV { callout_device: self.callout_device.deep_view(), usb: self.usb.deep_view() }
    }
}

/// One candidate of the secondary interface scan: a serial service with a
/// callout device and a USB-interface ancestor, reduced to that ancestor's
/// interface name and packed location identifier.
pub struct InterfaceCandidate {
    pub interface_name: Option<String>,
    pub location_id: u32,
}

/// The mathematical value of an [`InterfaceCandidate`].
#[verifier::ext_equal]
pub ghost struct InterfaceCandidateV {
    pub interface_name: Option<Seq<char>>,
    pub location_id: u32,
}

impl DeepView for InterfaceCandidate {
    type V = InterfaceCandidateV;

    open spec fn deep_view(&self) -> InterfaceCandidateV {
        InterfaceCandidateV {
            interface_name: self.interface_name.deep_view(),
            location_id: self.location_id,
        }
    }
}

/// The interface name the scan yields for a device location: the name of
/// the first candidate whose location identifier matches, which may itself
/// be absent; no match yields nothing.
pub open spec fn interface_for(candidates: Seq<InterfaceCandidateV>, location_id: u32) -> Option<
    Seq<char>,
>
    decreases candidates.len(),
{
    if candidates.len() == 0 {
        None
    } else if candidates[0].location_id == location_id {
        candidates[0].interface_name
    } else {
        interface_for(candidates.drop_first(), location_id)
    }
}

/// Duplicates an optional text, keeping its value.
fn clone_opt_string(o: &Option<String>) -> (r: Option<String>)
    ensures
        r.deep_view() == o.deep_view(),
{
    match o {
        Some(s) => Some(s.clone()),
        None => None,
    }
}

/// Picks the interface name of the first scanned candidate whose packed
/// location identifier equals the device's.
pub fn find_interface_name(candidates: &Vec<InterfaceCandidate>, location_id: u32) -> (r: Option<
    String,
>)
    ensures
        r.deep_view() == interface_for(candidates.deep_view(), location_id),
{
    let ghost cv = candidates.deep_view();
    proof {
        assert(cv.skip(0) =~= cv);
    }
    let n = candidates.len();
    let mut i: usize = 0;
    while i < n
        invariant
            0 <= i <= n,
            n == cv.len(),
            cv == candidates.deep_view(),
            interface_for(cv, location_id) == interface_for(cv.skip(i as int), location_id),
        decreases n - i,
    {
        proof {
            assert(cv.skip(i as int)[0] == cv[i as int]);
            assert(cv.skip(i as int).drop_first() =~= cv.skip(i as int + 1));
        }
        let c = &candidates[i];
        if c.location_id == location_id {
            let r = clone_opt_string(&c.interface_name);
            proof {
                assert(cv[i as int].location_id == location_id);
                assert(interface_for(cv.skip(i as int), location_id) == cv[i as int]
                    .interface_name);
            }
            return r;
        }
        i += 1;
    }
    proof {
        assert(cv.skip(n as int) =~= Seq::<InterfaceCandidateV>::empty());
    }
    None
}

/// The descriptor a USB device's raw properties denote: the identifiers
/// and texts as read, and the packed location identifier decoded into its
/// dotted rendering.  The interface name resolved by the secondary scan is
/// retained in the stored descriptor.
pub open spec fn usb_props_info(u: UsbDevicePropsV) -> UsbPortInfoV {
    UsbPortInfoV {
        vid: u.vid,
        pid: u.pid,
        serial_number: u.serial_number,
        location: Some(location_string_of(u.location_id)),
        manufacturer: u.manufacturer,
        product: u.product,
        interface: u.interface,
    }
}

/// The record one service entry yields: a USB-backed port with its
/// descriptor and the description and hardware identifier derived from it,
/// or a native built-in port marked `n/a` when no USB ancestor exists.
/// The name is empty: this platform has no basename distinct from the
/// device path.
pub open spec fn service_record_of(device: Seq<char>, usb: Option<UsbDevicePropsV>) -> ListPortInfoV {
    match usb {
        Some(u) => {
            let info = usb_props_info(u);
            ListPortInfoV {
                device,
                name: Seq::<char>::empty(),
                description: description_of(info, Seq::<char>::empty()),
                hwid: hwid_of(info),
                port_type: ListPortTypeV::UsbPort(info),
            }
        },
        None => ListPortInfoV {
            device,
            name: Seq::<char>::empty(),
            description: "n/a"@,
            hwid: "n/a"@,
            port_type: ListPortTypeV::NativePort,
        },
    }
}

impl ListPortInfo {
    /// Assembles the record of one serial service from its callout-device
    /// path and the properties of its owning USB device, if one was found.
    pub fn new(dev_name: &str, usb: Option<UsbDeviceProps>) -> (r: ListPortInfo)
        ensures
            r.deep_view() == service_record_of(dev_name@, usb.deep_view()),
    {
        let ghost gusb = usb.deep_view();
        match usb {
            Some(u) => {
                let info = UsbPortInfo {
                    vid: u.vid,
                    pid: u.pid,
                    serial_number: u.serial_number,
                    location: location_to_string(u.location_id),
                    manufacturer: u.manufacturer,
                    product: u.product,
                    interface: u.interface,
                };
                proof {
                    assert(gusb matches Some(gu) ==> info.deep_view() == usb_props_info(gu));
                }
                let description = info.description("");
                let hwid = info.hwid();
                let r = ListPortInfo {
                    device: dev_name.to_owned(),
                    name: String::new(),
                    description,
                    hwid,
                    port_type: ListPortType::UsbPort(info),
                };
                proof {
                    reveal_strlit("");
                    assert(""@ =~= Seq::<char>::empty());
                    assert(r.deep_view() =~~= service_record_of(dev_name@, gusb));
                }
                r
            },
            None => {
                let r = ListPortInfo {
                    device: dev_name.to_owned(),
                    name: String::new(),
                    description: "n/a".to_owned(),
                    hwid: "n/a".to_owned(),
                    port_type: ListPortType::NativePort,
                };
                proof {
                    assert(r.deep_view() =~~= service_record_of(dev_name@, gusb));
                }
                r
            },
        }
    }
}

/// The records a sequence of service entries yields, in order: entries
/// without a callout device are skipped, every other entry yields one
/// record.
pub open spec fn ports_of(entries: Seq<ServiceEntryV>) -> Seq<ListPortInfoV>
    decreases entries.len(),
{
    if entries.len() == 0 {
        Seq::<ListPortInfoV>::empty()
    } else {
        let rest = ports_of(entries.drop_first());
        match entries[0].callout_device {
            Some(dev) => seq![service_record_of(dev, entries[0].usb)] + rest,
            None => rest,
        }
    }
}

/// Duplicates the raw properties of a USB device, keeping their values.
fn clone_usb_props(u: &UsbDeviceProps) -> (r: UsbDeviceProps)
    ensures
        r.deep_view() == u.deep_view(),
{
    UsbDeviceProps {
        vid: u.vid,
        pid: u.pid,
        serial_number: clone_opt_string(&u.serial_number),
        manufacturer: clone_opt_string(&u.manufacturer),
        product: clone_opt_string(&u.product),
        location_id: u.location_id,
        interface: clone_opt_string(&u.interface),
    }
}

impl ListPorts {
    /// Builds the port list of one enumeration pass from the gathered
    /// service entries: entries without a callout device are skipped, each
    /// remaining entry yields its record, in order.
    pub fn new(entries: &Vec<ServiceEntry>) -> (r: ListPorts)
        ensures
            r.deep_view() == ports_of(entries.deep_view()),
    {
        let ghost ev = entries.deep_view();
        let mut ports: Vec<ListPortInfo> = Vec::new();
        proof {
            assert(ev.skip(0) =~= ev);
            assert(ports.deep_view() =~= Seq::<ListPortInfoV>::empty());
            assert(ports.deep_view() + ports_of(ev) =~= ports_of(ev));
        }
        let n = entries.len();
        let mut i: usize = 0;
        while i < n
            invariant
                0 <= i <= n,
                n == ev.len(),
                ev == entries.deep_view(),
                ports_of(ev) == ports.deep_view() + ports_of(ev.skip(i as int)),
            decreases n - i,
        {
            proof {
                assert(ev.skip(i as int)[0] == ev[i as int]);
                assert(ev.skip(i as int).drop_first() =~= ev.skip(i as int + 1));
            }
            let e = &entries[i];
            proof {
                assert(e.deep_view() == ev[i as int]);
            }
            match &e.callout_device {
                Some(dev) => {
                    let usb = match &e.usb {
                        Some(u) => Some(clone_usb_props(u)),
                        None => None,
                    };
                    proof {
                        assert(usb.deep_view() == ev[i as int].usb);
                        assert(ev[i as int].callout_device == Some(dev@));
                    }
                    let rec = ListPortInfo::new(dev.as_str(), usb);
                    let ghost old_ports = ports.deep_view();
                    ports.push(rec);
                    proof {
                        assert(ports.deep_view() =~= old_ports.push(rec.deep_view()));
                        assert(ports_of(ev.skip(i as int)) == seq![
                            service_record_of(ev[i as int].callout_device->0, ev[i as int].usb),
                        ] + ports_of(ev.skip(i as int + 1)));
                        assert(ports.deep_view() + ports_of(ev.skip(i as int + 1)) =~= ports_of(
                            ev,
                        ));
                    }
                },
                None => {
                    proof {
                        assert(ev[i as int].callout_device is None);
                    }
                },
            }
            i += 1;
        }
        proof {
            assert(ev.skip(n as int) =~= Seq::<ServiceEntryV>::empty());
            assert(ports.deep_view() =~= ports_of(ev));
        }
        ListPorts::from_ports(ports)
    }
}

} // verus!
