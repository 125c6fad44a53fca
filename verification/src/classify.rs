//! Classification of a candidate device node on the attribute-tree
//! platform: the node's registration directory and its `subsystem` link
//! decide which subsystem owns the node, and for USB-backed nodes the
//! owning device's attribute files fill the descriptor.
//!
//! The platform glue resolves the links and reads the attribute files; it
//! hands the raw values to this module, which holds the decisions: where
//! the owning USB device lies, how attribute texts become descriptor
//! fields, and which record (if any) a node yields.

use vstd::prelude::*;

use crate::ListPortInfo;
use crate::ListPortInfoV;
use crate::ListPortType;
use crate::ListPortTypeV;
use crate::UsbPortInfo;
use crate::UsbPortInfoV;
use crate::description_of;
use crate::hwid_of;
use crate::text::basename_of;
use crate::text::basename_of_spec;
use crate::text::hex_u16_of;
use crate::text::parent_of;
use crate::text::parent_path;
use crate::text::parse_hex_u16;
use crate::text::str_eq;
use crate::text::trim;
use crate::text::trim_of;

verus! {

/// The descriptor of a USB device none of whose attributes could be read:
/// zero identifiers and no text.
pub open spec fn empty_usb_info() -> UsbPortInfoV {
    UsbPortInfoV {
        vid: 0,
        pid: 0,
        serial_number: None,
        location: None,
        manufacturer: None,
        product: None,
        interface: None,
    }
}

/// Where the owning USB device of a registered node lies: two directory
/// levels above the registration for a `usb-serial` node, one level above
/// for a `usb` node, and nowhere for any other subsystem.
pub open spec fn usb_device_path_of(registration: Seq<char>, subsystem: Seq<char>) -> Option<
    Seq<char>,
> {
    if subsystem == "usb-serial"@ {
        match parent_of(registration) {
            Some(q) => parent_of(q),
            None => None,
        }
    } else if subsystem == "usb"@ {
        parent_of(registration)
    } else {
        None
    }
}

/// Computes the path of the owning USB device from the registration path
/// and the resolved subsystem name.
pub fn usb_device_path(registration_path: &str, subsystem: &str) -> (r: Option<String>)
    ensures
        r.deep_view() == usb_device_path_of(registration_path@, subsystem@),
{
    if str_eq(subsystem, "usb-serial") {
        match parent_path(registration_path) {
            Some(q) => parent_path(q.as_str()),
            None => None,
        }
    } else if str_eq(subsystem, "usb") {
        parent_path(registration_path)
    } else {
        None
    }
}

/// The descriptor the attribute files of a USB device denote: the two
/// identifier files read as hexadecimal with zero for anything unreadable,
/// the text files trimmed of surrounding whitespace, and the bus location
/// taken verbatim.
pub open spec fn usb_info_of_attrs(
    vid_attr: Option<Seq<char>>,
    pid_attr: Option<Seq<char>>,
    serial_attr: Option<Seq<char>>,
    manufacturer_attr: Option<Seq<char>>,
    product_attr: Option<Seq<char>>,
    interface_attr: Option<Seq<char>>,
    location: Option<Seq<char>>,
) -> UsbPortInfoV {
    UsbPortInfoV {
        vid: match vid_attr {
            Some(s) => hex_u16_of(trim_of(s)),
            None => 0,
        },
        pid: match pid_attr {
            Some(s) => hex_u16_of(trim_of(s)),
            None => 0,
        },
        serial_number: match serial_attr {
            Some(s) => Some(trim_of(s)),
            None => None,
        },
        location,
        manufacturer: match manufacturer_attr {
            Some(s) => Some(trim_of(s)),
            None => None,
        },
        product: match product_attr {
            Some(s) => Some(trim_of(s)),
            None => None,
        },
        interface: match interface_attr {
            Some(s) => Some(trim_of(s)),
            None => None,
        },
    }
}

/// Builds a USB descriptor from the raw attribute-file contents of the
/// owning device.  An absent file yields an absent field, or zero for the
/// two identifiers; an absent value is never an error.
pub fn usb_info_from_attributes(
    vid_attr: Option<&str>,
    pid_attr: Option<&str>,
    serial_attr: Option<&str>,
    manufacturer_attr: Option<&str>,
    product_attr: Option<&str>,
    interface_attr: Option<&str>,
    location: Option<String>,
) -> (r: UsbPortInfo)
    ensures
        r.deep_view() == usb_info_of_attrs(
            vid_attr.deep_view(),
            pid_attr.deep_view(),
            serial_attr.deep_view(),
            manufacturer_attr.deep_view(),
            product_attr.deep_view(),
            interface_attr.deep_view(),
            location.deep_view(),
        ),
{
    UsbPortInfo {
        vid: match vid_attr {
            Some(s) => parse_hex_u16(trim(s).as_str()),
            None => 0,
        },
        pid: match pid_attr {
            Some(s) => parse_hex_u16(trim(s).as_str()),
            None => 0,
        },
        serial_number: match serial_attr {
            Some(s) => Some(trim(s)),
            None => None,
        },
        location,
        manufacturer: match manufacturer_attr {
            Some(s) => Some(trim(s)),
            None => None,
        },
        product: match product_attr {
            Some(s) => Some(trim(s)),
            None => None,
        },
        interface: match interface_attr {
            Some(s) => Some(trim(s)),
            None => None,
        },
    }
}

/// Whether a resolved subsystem name marks a USB-backed node.
pub open spec fn is_usb_subsystem(subsystem: Option<Seq<char>>) -> bool {
    subsystem == Some("usb"@) || subsystem == Some("usb-serial"@)
}

/// The record of a USB-backed node: the descriptor (an unreadable device
/// degrades to the empty descriptor), with description and hardware
/// identifier derived from it.
pub open spec fn usb_record_of(
    device: Seq<char>,
    name: Seq<char>,
    usb: Option<UsbPortInfoV>,
) -> ListPortInfoV {
    let u = match usb {
        Some(u) => u,
        None => empty_usb_info(),
    };
    ListPortInfoV {
        device,
        name,
        description: description_of(u, name),
        hwid: hwid_of(u),
        port_type: ListPortTypeV::UsbPort(u),
    }
}

/// The record of a node registered by the platform's plug-and-play
/// mechanism: its hardware identifier is the trimmed registration
/// identifier, or the empty text when that identifier is unreadable.
pub open spec fn pnp_record_of(
    device: Seq<char>,
    name: Seq<char>,
    pnp_id: Option<Seq<char>>,
) -> ListPortInfoV {
    ListPortInfoV {
        device,
        name,
        description: name,
        hwid: match pnp_id {
            Some(s) => trim_of(s),
            None => Seq::<char>::empty(),
        },
        port_type: ListPortTypeV::PnpPort,
    }
}

/// The record of a node on the on-chip bus subsystem: its hardware
/// identifier is the basename of the registration path.
pub open spec fn amba_record_of(
    device: Seq<char>,
    name: Seq<char>,
    registration_path: Option<Seq<char>>,
) -> ListPortInfoV {
    ListPortInfoV {
        device,
        name,
        description: name,
        hwid: match registration_path {
            Some(p) => match basename_of_spec(p) {
                Some(b) => b,
                None => Seq::<char>::empty(),
            },
            None => Seq::<char>::empty(),
        },
        port_type: ListPortTypeV::AmbaPort,
    }
}

/// The record of a node whose subsystem could not be classified: empty
/// description and identifier, still reported rather than dropped.
pub open spec fn unknown_record_of(device: Seq<char>, name: Seq<char>) -> ListPortInfoV {
    ListPortInfoV {
        device,
        name,
        description: Seq::<char>::empty(),
        hwid: Seq::<char>::empty(),
        port_type: ListPortTypeV::Unknown,
    }
}

/// The record a candidate node yields, if any.
///
/// A node whose path names no basename yields nothing, and so does a node
/// owned by the virtual `platform` subsystem.  Every other node yields a
/// record, `Unknown` in the worst case; an unresolvable registration is
/// never a failure.
pub open spec fn classify_spec(
    node_path: Seq<char>,
    registration_path: Option<Seq<char>>,
    subsystem: Option<Seq<char>>,
    usb: Option<UsbPortInfoV>,
    pnp_id: Option<Seq<char>>,
) -> Option<ListPortInfoV> {
    match basename_of_spec(node_path) {
        None => None,
        Some(name) => {
            if subsystem == Some("platform"@) {
                None
            } else if is_usb_subsystem(subsystem) {
                Some(usb_record_of(node_path, name, usb))
            } else if subsystem == Some("pnp"@) {
                Some(pnp_record_of(node_path, name, pnp_id))
            } else if subsystem == Some("amba"@) {
                Some(amba_record_of(node_path, name, registration_path))
            } else {
                Some(unknown_record_of(node_path, name))
            }
        },
    }
}

proof fn lemma_classify_spec_usb(
    node_path: Seq<char>,
    registration_path: Option<Seq<char>>,
    subsystem: Option<Seq<char>>,
    usb: Option<UsbPortInfoV>,
    pnp_id: Option<Seq<char>>,
    name: Seq<char>,
)
    requires
        basename_of_spec(node_path) == Some(name),
        subsystem != Some("platform"@),
        is_usb_subsystem(subsystem),
    ensures
        classify_spec(node_path, registration_path, subsystem, usb, pnp_id) == Some(
            usb_record_of(node_path, name, usb),
        ),
{
}

proof fn lemma_classify_spec_pnp(
    node_path: Seq<char>,
    registration_path: Option<Seq<char>>,
    subsystem: Option<Seq<char>>,
    usb: Option<UsbPortInfoV>,
    pnp_id: Option<Seq<char>>,
    name: Seq<char>,
)
    requires
        basename_of_spec(node_path) == Some(name),
        subsystem != Some("platform"@),
        !is_usb_subsystem(subsystem),
        subsystem == Some("pnp"@),
    ensures
        classify_spec(node_path, registration_path, subsystem, usb, pnp_id) == Some(
            pnp_record_of(node_path, name, pnp_id),
        ),
{
}

proof fn lemma_classify_spec_amba(
    node_path: Seq<char>,
    registration_path: Option<Seq<char>>,
    subsystem: Option<Seq<char>>,
    usb: Option<UsbPortInfoV>,
    pnp_id: Option<Seq<char>>,
    name: Seq<char>,
)
    requires
        basename_of_spec(node_path) == Some(name),
        subsystem != Some("platform"@),
        !is_usb_subsystem(subsystem),
        subsystem != Some("pnp"@),
        subsystem == Some("amba"@),
    ensures
        classify_spec(node_path, registration_path, subsystem, usb, pnp_id) == Some(
            amba_record_of(node_path, name, registration_path),
        ),
{
}

proof fn lemma_classify_spec_unknown(
    node_path: Seq<char>,
    registration_path: Option<Seq<char>>,
    subsystem: Option<Seq<char>>,
    usb: Option<UsbPortInfoV>,
    pnp_id: Option<Seq<char>>,
    name: Seq<char>,
)
    requires
        basename_of_spec(node_path) == Some(name),
        subsystem != Some("platform"@),
        !is_usb_subsystem(subsystem),
        subsystem != Some("pnp"@),
        subsystem != Some("amba"@),
    ensures
        classify_spec(node_path, registration_path, subsystem, usb, pnp_id) == Some(
            unknown_record_of(node_path, name),
        ),
{
}

fn usb_record(node_path: &str, name: String, usb: Option<UsbPortInfo>) -> (r: ListPortInfo)
    ensures
        r.deep_view() == usb_record_of(node_path@, name@, usb.deep_view()),
{
    let ghost gusb = usb.deep_view();
    let u = match usb {
        Some(u) => u,
        None => UsbPortInfo {
            vid: 0,
            pid: 0,
            serial_number: None,
            location: None,
            manufacturer: None,
            product: None,
            interface: None,
        },
    };
    proof {
        assert(u.deep_view() == (match gusb {
            Some(x) => x,
            None => empty_usb_info(),
        }));
    }
    let description = u.description(name.as_str());
    let hwid = u.hwid();
    let r = ListPortInfo {
        device: node_path.to_owned(),
        name,
        description,
        hwid,
        port_type: ListPortType::UsbPort(u),
    };
    proof {
        assert(r.deep_view() =~~= usb_record_of(node_path@, r.name@, gusb));
    }
    r
}

fn pnp_record(node_path: &str, name: String, pnp_id: Option<&str>) -> (r: ListPortInfo)
    ensures
        r.deep_view() == pnp_record_of(node_path@, name@, pnp_id.deep_view()),
{
    proof {
        assert(pnp_id matches Some(s) ==> pnp_id.deep_view() == Some(s@));
        assert(pnp_id is None ==> pnp_id.deep_view() is None);
    }
    let hwid = match pnp_id {
        Some(s) => trim(s),
        None => String::new(),
    };
    let description = name.clone();
    let r = ListPortInfo {
        device: node_path.to_owned(),
        name,
        description,
        hwid,
        port_type: ListPortType::PnpPort,
    };
    proof {
        assert(r.deep_view() =~~= pnp_record_of(node_path@, r.name@, pnp_id.deep_view()));
    }
    r
}

fn amba_record(node_path: &str, name: String, registration_path: Option<&str>) -> (r:
    ListPortInfo)
    ensures
        r.deep_view() == amba_record_of(node_path@, name@, registration_path.deep_view()),
{
    proof {
        assert(registration_path matches Some(p) ==> registration_path.deep_view() == Some(p@));
        assert(registration_path is None ==> registration_path.deep_view() is None);
    }
    let hwid = match registration_path {
        Some(p) => match basename_of(p) {
            Some(b) => b,
            None => String::new(),
        },
        None => String::new(),
    };
    let description = name.clone();
    let r = ListPortInfo {
        device: node_path.to_owned(),
        name,
        description,
        hwid,
        port_type: ListPortType::AmbaPort,
    };
    proof {
        assert(r.deep_view() =~~= amba_record_of(
            node_path@,
            r.name@,
            registration_path.deep_view(),
        ));
    }
    r
}

fn unknown_record(node_path: &str, name: String) -> (r: ListPortInfo)
    ensures
        r.deep_view() == unknown_record_of(node_path@, name@),
{
    let r = ListPortInfo {
        device: node_path.to_owned(),
        name,
        description: String::new(),
        hwid: String::new(),
        port_type: ListPortType::Unknown,
    };
    proof {
        assert(r.deep_view() =~~= unknown_record_of(node_path@, r.name@));
    }
    r
}

/// Classifies one candidate device node from its resolved registration
/// data: the canonical registration path, the basename of the `subsystem`
/// link target, the descriptor of the owning USB device where one was
/// read, and the content of the `id` attribute for registered platform
/// nodes.  An unresolvable registration degrades to an `Unknown` record,
/// never to a failure.
#[verifier::rlimit(100)]
pub fn classify_node(
    node_path: &str,
    registration_path: Option<&str>,
    subsystem: Option<&str>,
    usb: Option<UsbPortInfo>,
    pnp_id: Option<&str>,
) -> (r: Option<ListPortInfo>)
    ensures
        r.deep_view() == classify_spec(
            node_path@,
            registration_path.deep_view(),
            subsystem.deep_view(),
            usb.deep_view(),
            pnp_id.deep_view(),
        ),
{
    proof {
        reveal_strlit("");
        reveal_strlit("platform");
        reveal_strlit("usb");
        reveal_strlit("usb-serial");
        reveal_strlit("pnp");
        reveal_strlit("amba");
    }
    let name = match basename_of(node_path) {
        Some(n) => n,
        None => {
            return None;
        },
    };
    proof {
        assert(basename_of_spec(node_path@) == Some(name@));
    }
    let sub: &str = match subsystem {
        Some(s) => s,
        None => "",
    };
    proof {
        assert(subsystem matches Some(s2) ==> subsystem.deep_view() == Some(s2@) && sub@ == s2@);
        assert(subsystem is None ==> subsystem.deep_view() is None && sub@ == ""@);
    }
    if subsystem.is_some() && str_eq(sub, "platform") {
        return None;
    }
    let ghost gname = name@;
    let ghost gusb = usb.deep_view();
    let ghost spec_r = classify_spec(
        node_path@,
        registration_path.deep_view(),
        subsystem.deep_view(),
        gusb,
        pnp_id.deep_view(),
    );
    if str_eq(sub, "usb") || str_eq(sub, "usb-serial") {
        let rec = usb_record(node_path, name, usb);
        proof {
            assert(sub@ == "usb"@ || sub@ == "usb-serial"@);
            assert(""@.len() == 0);
            assert("usb"@.len() == 3);
            assert("usb-serial"@.len() == 10);
            assert(subsystem is Some);
            assert(subsystem.deep_view() == Some(sub@));
            assert(is_usb_subsystem(subsystem.deep_view()));
            lemma_classify_spec_usb(
                node_path@,
                registration_path.deep_view(),
                subsystem.deep_view(),
                gusb,
                pnp_id.deep_view(),
                gname,
            );
            assert(spec_r == Some(usb_record_of(node_path@, gname, gusb)));
            assert(Some(rec).deep_view() == Some(rec.deep_view()));
        }
        Some(rec)
    } else if str_eq(sub, "pnp") {
        let rec = pnp_record(node_path, name, pnp_id);
        proof {
            assert(sub@ == "pnp"@);
            assert(""@.len() == 0);
            assert("pnp"@.len() == 3);
            assert(subsystem is Some);
            assert(subsystem.deep_view() == Some(sub@));
            assert("pnp"@[0] == 'p' && "usb"@[0] == 'u' && "usb-serial"@[0] == 'u');
            assert(!is_usb_subsystem(subsystem.deep_view()));
            lemma_classify_spec_pnp(
                node_path@,
                registration_path.deep_view(),
                subsystem.deep_view(),
                gusb,
                pnp_id.deep_view(),
                gname,
            );
            assert(spec_r == Some(pnp_record_of(node_path@, gname, pnp_id.deep_view())));
            assert(Some(rec).deep_view() == Some(rec.deep_view()));
        }
        Some(rec)
    } else if str_eq(sub, "amba") {
        let rec = amba_record(node_path, name, registration_path);
        proof {
            assert(sub@ == "amba"@);
            assert(""@.len() == 0);
            assert("amba"@.len() == 4);
            assert(subsystem is Some);
            assert(subsystem.deep_view() == Some(sub@));
            assert(!is_usb_subsystem(subsystem.deep_view()));
            lemma_classify_spec_amba(
                node_path@,
                registration_path.deep_view(),
                subsystem.deep_view(),
                gusb,
                pnp_id.deep_view(),
                gname,
            );
            assert(spec_r == Some(amba_record_of(node_path@, gname, registration_path.deep_view())));
            assert(Some(rec).deep_view() == Some(rec.deep_view()));
        }
        Some(rec)
    } else {
        let rec = unknown_record(node_path, name);
        proof {
            lemma_classify_spec_unknown(
                node_path@,
                registration_path.deep_view(),
                subsystem.deep_view(),
                gusb,
                pnp_id.deep_view(),
                gname,
            );
            assert(spec_r == Some(unknown_record_of(node_path@, gname)));
            assert(Some(rec).deep_view() == Some(rec.deep_view()));
        }
        Some(rec)
    }
}

} // verus!
