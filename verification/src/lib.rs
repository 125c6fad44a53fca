//! Discovery and classification of serial communication ports.
//!
//! The library holds the platform-independent data model (port records and
//! USB descriptors) together with the classification, decoding and
//! formatting logic, all verified.  The thin platform glue that actually
//! reads the operating system's device tree hands this library plain
//! values and receives assembled records back.

pub mod classify;
pub mod registry;
pub mod location;
pub mod text;

use vstd::prelude::*;

use crate::text::hex4;
use crate::text::hex4_of;

verus! {

/// Attributes of the USB device that owns a port, as read from the
/// operating system.  Integer fields default to zero when unreadable;
/// text fields are absent when the system exposes no value.
#[derive(Debug, Clone)]
pub struct UsbPortInfo {
    pub vid: u16,
    pub pid: u16,
    pub serial_number: Option<String>,
    pub location: Option<String>,
    pub manufacturer: Option<String>,
    pub product: Option<String>,
    pub interface: Option<String>,
}

/// The mathematical value of a [`UsbPortInfo`]: the same fields with each
/// text replaced by its character sequence.
#[verifier::ext_equal]
pub ghost struct UsbPortInfoV {
    pub vid: u16,
    pub pid: u16,
    pub serial_number: Option<Seq<char>>,
    pub location: Option<Seq<char>>,
    pub manufacturer: Option<Seq<char>>,
    pub product: Option<Seq<char>>,
    pub interface: Option<Seq<char>>,
}

impl DeepView for UsbPortInfo {
    type V = UsbPortInfoV;

    open spec fn deep_view(&self) -> UsbPortInfoV {
        UsbPortInfoV {
            vid: self.vid,
            pid: self.pid,
            serial_number: self.serial_number.deep_view(),
            location: self.location.deep_view(),
            manufacturer: self.manufacturer.deep_view(),
            product: self.product.deep_view(),
            interface: self.interface.deep_view(),
        }
    }
}

/// The canonical hardware identifier of a USB-backed port:
/// `USB VID:PID=XXXX:XXXX`, the two numbers as four upper-case hexadecimal
/// digits each, followed by ` SER=<serial>` when a serial number is present
/// and ` LOCATION=<location>` when a bus location is present, in that order.
pub open spec fn hwid_of(u: UsbPortInfoV) -> Seq<char> {
    "USB VID:PID="@ + hex4_of(u.vid) + ":"@ + hex4_of(u.pid) + (match u.serial_number {
        Some(sn) => " SER="@ + sn,
        None => Seq::<char>::empty(),
    }) + (match u.location {
        Some(loc) => " LOCATION="@ + loc,
        None => Seq::<char>::empty(),
    })
}

/// The human-readable description of a USB-backed port:
/// `<interface> - <product>` when both are present, the product alone when
/// only it is present, and the given fallback name otherwise.
pub open spec fn description_of(u: UsbPortInfoV, name: Seq<char>) -> Seq<char> {
    match (u.interface, u.product) {
        (Some(i), Some(p)) => i + " - "@ + p,
        (None, Some(p)) => p,
        (_, None) => name,
    }
}

impl UsbPortInfo {
    /// Renders the canonical hardware identifier of this descriptor.
    pub fn hwid(&self) -> (r: String)
        ensures
            r@ == hwid_of(self.deep_view()),
    {
        let mut s = String::from_str("USB VID:PID=");
        let vid_hex = hex4(self.vid);
        s.append(vid_hex.as_str());
        s.append(":");
        let pid_hex = hex4(self.pid);
        s.append(pid_hex.as_str());
        match &self.serial_number {
            Some(sn) => {
                s.append(" SER=");
                s.append(sn.as_str());
            },
            None => {},
        }
        match &self.location {
            Some(loc) => {
                s.append(" LOCATION=");
                s.append(loc.as_str());
            },
            None => {},
        }
        proof {
            assert(s@ =~= hwid_of(self.deep_view()));
        }
        s
    }

    /// Renders the human-readable description of this descriptor, falling
    /// back to the given name when neither interface nor product is known.
    pub fn description(&self, name: &str) -> (r: String)
        ensures
            r@ == description_of(self.deep_view(), name@),
    {
        match (&self.interface, &self.product) {
            (Some(i), Some(p)) => {
                let mut s = i.clone();
                s.append(" - ");
                s.append(p.as_str());
                proof {
                    assert(s@ =~= description_of(self.deep_view(), name@));
                }
                s
            },
            (None, Some(p)) => p.clone(),
            (_, None) => String::from_str(name),
        }
    }
}

/// The kind of subsystem that backs a discovered port, with the USB
/// descriptor as payload where one exists.
#[derive(Debug)]
pub enum ListPortType {
    UsbPort(UsbPortInfo),
    PnpPort,
    AmbaPort,
    NativePort,
    Unknown,
}

/// The mathematical value of a [`ListPortType`].
#[verifier::ext_equal]
pub ghost enum ListPortTypeV {
    UsbPort(UsbPortInfoV),
    PnpPort,
    AmbaPort,
    NativePort,
    Unknown,
}

impl DeepView for ListPortType {
    type V = ListPortTypeV;

    open spec fn deep_view(&self) -> ListPortTypeV {
        match self {
            ListPortType::UsbPort(u) => ListPortTypeV::UsbPort(u.deep_view()),
            ListPortType::PnpPort => ListPortTypeV::PnpPort,
            ListPortType::AmbaPort => ListPortTypeV::AmbaPort,
            ListPortType::NativePort => ListPortTypeV::NativePort,
            ListPortType::Unknown => ListPortTypeV::Unknown,
        }
    }
}

/// One discovered port: its device node, short name, description, hardware
/// identifier and classification.
#[derive(Debug)]
pub struct ListPortInfo {
    pub device: String,
    pub name: String,
    pub description: String,
    pub hwid: String,
    pub port_type: ListPortType,
}

/// The mathematical value of a [`ListPortInfo`].
#[verifier::ext_equal]
pub ghost struct ListPortInfoV {
    pub device: Seq<char>,
    pub name: Seq<char>,
    pub description: Seq<char>,
    pub hwid: Seq<char>,
    pub port_type: ListPortTypeV,
}

impl DeepView for ListPortInfo {
    type V = ListPortInfoV;

    open spec fn deep_view(&self) -> ListPortInfoV {
        ListPortInfoV {
            device: self.device@,
            name: self.name@,
            description: self.description@,
            hwid: self.hwid@,
            port_type: self.port_type.deep_view(),
        }
    }
}

/// The result of one enumeration pass: the discovered ports, in the order
/// in which they were found.
pub struct ListPorts {
    ports: Vec<ListPortInfo>,
}

impl DeepView for ListPorts {
    type V = Seq<ListPortInfoV>;

    closed spec fn deep_view(&self) -> Seq<ListPortInfoV> {
        self.ports.deep_view()
    }
}

impl ListPorts {
    /// Borrows the discovered ports.
    pub fn iter(&self) -> (r: &Vec<ListPortInfo>)
        ensures
            r.deep_view() == self.deep_view(),
    {
        &self.ports
    }

    /// Wraps a gathered vector of records as the result of a pass.
    pub(crate) fn from_ports(ports: Vec<ListPortInfo>) -> (r: ListPorts)
        ensures
            r.deep_view() == ports.deep_view(),
    {
        ListPorts { ports }
    }

    /// Hands the discovered ports out by value.
    pub fn into_ports(self) -> (r: Vec<ListPortInfo>)
        ensures
            r.deep_view() == self.deep_view(),
    {
        self.ports
    }
}

/// Borrows the text of an optional value, with `None` rendered as the word
/// `None`.
pub fn option_string(opt_str: &Option<String>) -> (r: &str)
    ensures
        r@ == (match opt_str.deep_view() {
            Some(s) => s,
            None => "None"@,
        }),
{
    match opt_str {
        Some(s) => s.as_str(),
        None => "None",
    }
}

} // verus!
