use list_ports::classify::classify_node;
use list_ports::classify::usb_device_path;
use list_ports::classify::usb_info_from_attributes;
use list_ports::location::location_to_string;
use list_ports::option_string;
use list_ports::registry::find_ancestor_by_class;
use list_ports::registry::find_interface_name;
use list_ports::registry::setup_outcome;
use list_ports::registry::InterfaceCandidate;
use list_ports::registry::ServiceEntry;
use list_ports::registry::SetupError;
use list_ports::registry::UsbDeviceProps;
use list_ports::text::basename_of;
use list_ports::text::parent_path;
use list_ports::text::parse_hex_u16;
use list_ports::text::trim;
use list_ports::ListPortInfo;
use list_ports::ListPortType;
use list_ports::ListPorts;
use list_ports::UsbPortInfo;

fn widget_descriptor() -> UsbPortInfo {
    UsbPortInfo {
        vid: 0x0403,
        pid: 0x6001,
        serial_number: None,
        location: None,
        manufacturer: None,
        product: None,
        interface: None,
    }
}

#[test]
fn it_works() {}

#[test]
fn location_root_and_one_hub() {
    assert_eq!(location_to_string(0x0120_0000), Some("1-2".to_string()));
}

#[test]
fn location_two_hubs() {
    assert_eq!(location_to_string(0x0123_0000), Some("1-2.3".to_string()));
}

#[test]
fn location_no_hub_nibbles() {
    assert_eq!(location_to_string(0x0500_0000), Some("5-0".to_string()));
}

#[test]
fn location_all_hub_nibbles() {
    assert_eq!(location_to_string(0x0123_4567), Some("1-2.3.4.5.6.7".to_string()));
}

#[test]
fn location_stops_at_first_zero_nibble() {
    assert_eq!(location_to_string(0x0120_3400), Some("1-2".to_string()));
}

#[test]
fn location_large_root() {
    assert_eq!(location_to_string(0xFF10_0000), Some("255-1".to_string()));
}

#[test]
fn location_decode_is_deterministic() {
    for id in [0u32, 0x0120_0000, 0x0123_4567, 0xFFFF_FFFF, 0x8000_0001] {
        assert_eq!(location_to_string(id), location_to_string(id));
    }
}

#[test]
fn hwid_without_optional_segments() {
    let info = widget_descriptor();
    assert_eq!(info.hwid(), "USB VID:PID=0403:6001");
}

#[test]
fn hwid_with_serial_and_location() {
    let mut info = widget_descriptor();
    info.serial_number = Some("A1".to_string());
    info.location = Some("1-2".to_string());
    assert_eq!(info.hwid(), "USB VID:PID=0403:6001 SER=A1 LOCATION=1-2");
}

#[test]
fn hwid_pads_hex_digits() {
    let mut info = widget_descriptor();
    info.vid = 0x001A;
    info.pid = 0x0000;
    assert_eq!(info.hwid(), "USB VID:PID=001A:0000");
}

#[test]
fn description_product_only() {
    let mut info = widget_descriptor();
    info.product = Some("Widget".to_string());
    assert_eq!(info.description("fallback"), "Widget");
}

#[test]
fn description_interface_and_product() {
    let mut info = widget_descriptor();
    info.interface = Some("IF0".to_string());
    info.product = Some("Widget".to_string());
    assert_eq!(info.description("fallback"), "IF0 - Widget");
}

#[test]
fn description_falls_back_when_both_absent() {
    let info = widget_descriptor();
    assert_eq!(info.description("ttyUSB0"), "ttyUSB0");
}

#[test]
fn description_falls_back_when_product_absent() {
    let mut info = widget_descriptor();
    info.interface = Some("IF0".to_string());
    assert_eq!(info.description("ttyUSB0"), "ttyUSB0");
}

#[test]
fn classify_excludes_platform_subsystem() {
    let r = classify_node(
        "/dev/ttyS0",
        Some("/sys/devices/platform/serial8250/tty/ttyS0"),
        Some("platform"),
        None,
        None,
    );
    assert!(r.is_none());
}

#[test]
fn classify_excludes_path_without_basename() {
    let r = classify_node("/dev/", None, None, None, None);
    assert!(r.is_none());
}

#[test]
fn classify_unresolved_registration_yields_unknown() {
    let r = classify_node("/dev/ttyS0", None, None, None, None).unwrap();
    assert_eq!(r.device, "/dev/ttyS0");
    assert_eq!(r.name, "ttyS0");
    assert_eq!(r.description, "");
    assert_eq!(r.hwid, "");
    assert!(matches!(r.port_type, ListPortType::Unknown));
}

#[test]
fn classify_usb_serial_node() {
    let mut info = widget_descriptor();
    info.serial_number = Some("A1".to_string());
    info.product = Some("Widget".to_string());
    let r = classify_node(
        "/dev/ttyUSB0",
        Some("/sys/devices/usb1/1-2/1-2:1.0/ttyUSB0"),
        Some("usb-serial"),
        Some(info),
        None,
    )
    .unwrap();
    assert_eq!(r.device, "/dev/ttyUSB0");
    assert_eq!(r.name, "ttyUSB0");
    assert_eq!(r.description, "Widget");
    assert_eq!(r.hwid, "USB VID:PID=0403:6001 SER=A1");
    match r.port_type {
        ListPortType::UsbPort(u) => {
            assert_eq!(u.vid, 0x0403);
            assert_eq!(u.pid, 0x6001);
            assert_eq!(u.serial_number.as_deref(), Some("A1"));
        },
        _ => panic!("expected a USB port"),
    }
}

#[test]
fn classify_usb_node_without_readable_device() {
    let r = classify_node("/dev/ttyACM0", Some("/sys/x/ttyACM0"), Some("usb"), None, None)
        .unwrap();
    assert_eq!(r.hwid, "USB VID:PID=0000:0000");
    assert_eq!(r.description, "ttyACM0");
    assert!(matches!(r.port_type, ListPortType::UsbPort(_)));
}

#[test]
fn classify_pnp_node() {
    let r = classify_node(
        "/dev/ttyS0",
        Some("/sys/devices/pnp0/00:04/tty/ttyS0"),
        Some("pnp"),
        None,
        Some("PNP0501\n"),
    )
    .unwrap();
    assert_eq!(r.description, "ttyS0");
    assert_eq!(r.hwid, "PNP0501");
    assert!(matches!(r.port_type, ListPortType::PnpPort));
}

#[test]
fn classify_pnp_node_without_id() {
    let r = classify_node("/dev/ttyS0", Some("/sys/x/ttyS0"), Some("pnp"), None, None).unwrap();
    assert_eq!(r.hwid, "");
    assert!(matches!(r.port_type, ListPortType::PnpPort));
}

#[test]
fn classify_amba_node() {
    let r = classify_node(
        "/dev/ttyAMA0",
        Some("/sys/devices/platform/soc/3f201000.serial"),
        Some("amba"),
        None,
        None,
    )
    .unwrap();
    assert_eq!(r.description, "ttyAMA0");
    assert_eq!(r.hwid, "3f201000.serial");
    assert!(matches!(r.port_type, ListPortType::AmbaPort));
}

#[test]
fn basename_of_paths() {
    assert_eq!(basename_of("/dev/ttyUSB0"), Some("ttyUSB0".to_string()));
    assert_eq!(basename_of("ttyUSB0"), Some("ttyUSB0".to_string()));
    assert_eq!(basename_of("/dev/"), None);
    assert_eq!(basename_of(""), None);
}

#[test]
fn parent_path_of_paths() {
    assert_eq!(parent_path("/sys/devices/x"), Some("/sys/devices".to_string()));
    assert_eq!(parent_path("plain"), None);
    assert_eq!(parent_path("/top"), Some("".to_string()));
}

#[test]
fn usb_device_path_by_subsystem() {
    assert_eq!(
        usb_device_path("/sys/devices/usb1/1-2/1-2:1.0/ttyUSB0", "usb-serial"),
        Some("/sys/devices/usb1/1-2".to_string())
    );
    assert_eq!(
        usb_device_path("/sys/devices/usb1/1-2/ttyACM0", "usb"),
        Some("/sys/devices/usb1/1-2".to_string())
    );
    assert_eq!(usb_device_path("/sys/devices/pnp0/00:04", "pnp"), None);
    assert_eq!(usb_device_path("no-separator", "usb"), None);
}

#[test]
fn trim_surrounding_whitespace() {
    assert_eq!(trim("  0403\n"), "0403");
    assert_eq!(trim("\t a b \r\n"), "a b");
    assert_eq!(trim("   "), "");
    assert_eq!(trim(""), "");
    assert_eq!(trim("x"), "x");
}

#[test]
fn parse_hex_values() {
    assert_eq!(parse_hex_u16("0403"), 0x0403);
    assert_eq!(parse_hex_u16("ffff"), 0xFFFF);
    assert_eq!(parse_hex_u16("FFFF"), 0xFFFF);
    assert_eq!(parse_hex_u16("0ffff"), 0xFFFF);
    assert_eq!(parse_hex_u16("1A"), 0x1A);
}

#[test]
fn parse_hex_rejects_malformed_input() {
    assert_eq!(parse_hex_u16(""), 0);
    assert_eq!(parse_hex_u16("xyz"), 0);
    assert_eq!(parse_hex_u16("12 4"), 0);
    assert_eq!(parse_hex_u16("123456"), 0);
    assert_eq!(parse_hex_u16("10000"), 0);
}

#[test]
fn usb_info_from_raw_attributes() {
    let info = usb_info_from_attributes(
        Some("0403\n"),
        Some(" 6001 "),
        Some("A1\n"),
        Some("FTDI\n"),
        Some("Widget\n"),
        None,
        Some("1-2".to_string()),
    );
    assert_eq!(info.vid, 0x0403);
    assert_eq!(info.pid, 0x6001);
    assert_eq!(info.serial_number.as_deref(), Some("A1"));
    assert_eq!(info.manufacturer.as_deref(), Some("FTDI"));
    assert_eq!(info.product.as_deref(), Some("Widget"));
    assert_eq!(info.interface, None);
    assert_eq!(info.location.as_deref(), Some("1-2"));
}

#[test]
fn usb_info_defaults_on_unreadable_attributes() {
    let info = usb_info_from_attributes(None, Some("bogus"), None, None, None, None, None);
    assert_eq!(info.vid, 0);
    assert_eq!(info.pid, 0);
    assert_eq!(info.serial_number, None);
    assert_eq!(info.location, None);
}

#[test]
fn setup_failure_is_reported_not_swallowed() {
    assert_eq!(setup_outcome(true, 0), Err(SetupError::NullMatchingSet));
    assert_eq!(setup_outcome(false, -536_870_206), Err(SetupError::QueryFailed(-536_870_206)));
    assert_eq!(setup_outcome(false, 0), Ok(()));
}

#[test]
fn ancestor_walk_finds_first_matching_class() {
    let classes = vec![
        "IOSerialBSDClient".to_string(),
        "IOUSBInterface".to_string(),
        "IOUSBDevice".to_string(),
        "IOUSBDevice".to_string(),
    ];
    assert_eq!(find_ancestor_by_class(&classes, "IOUSBDevice"), Some(2));
    assert_eq!(find_ancestor_by_class(&classes, "IOPCIDevice"), None);
    assert_eq!(find_ancestor_by_class(&Vec::new(), "IOUSBDevice"), None);
}

#[test]
fn interface_scan_matches_by_location() {
    let candidates = vec![
        InterfaceCandidate { interface_name: Some("CDC".to_string()), location_id: 0x0110_0000 },
        InterfaceCandidate { interface_name: Some("FTDI IF".to_string()), location_id: 0x0120_0000 },
        InterfaceCandidate { interface_name: Some("other".to_string()), location_id: 0x0120_0000 },
    ];
    assert_eq!(find_interface_name(&candidates, 0x0120_0000), Some("FTDI IF".to_string()));
    assert_eq!(find_interface_name(&candidates, 0x0130_0000), None);
}

#[test]
fn interface_scan_keeps_absent_name_of_first_match() {
    let candidates = vec![
        InterfaceCandidate { interface_name: None, location_id: 7 },
        InterfaceCandidate { interface_name: Some("late".to_string()), location_id: 7 },
    ];
    assert_eq!(find_interface_name(&candidates, 7), None);
}

#[test]
fn service_record_with_usb_ancestor() {
    let props = UsbDeviceProps {
        vid: 0x0403,
        pid: 0x6001,
        serial_number: Some("A1".to_string()),
        manufacturer: Some("FTDI".to_string()),
        product: Some("Widget".to_string()),
        location_id: 0x0120_0000,
        interface: Some("IF0".to_string()),
    };
    let r = ListPortInfo::new("/dev/cu.usbserial-A1", Some(props));
    assert_eq!(r.device, "/dev/cu.usbserial-A1");
    assert_eq!(r.name, "");
    assert_eq!(r.description, "IF0 - Widget");
    assert_eq!(r.hwid, "USB VID:PID=0403:6001 SER=A1 LOCATION=1-2");
    match r.port_type {
        ListPortType::UsbPort(u) => {
            assert_eq!(u.location.as_deref(), Some("1-2"));
            assert_eq!(u.interface.as_deref(), Some("IF0"));
        },
        _ => panic!("expected a USB port"),
    }
}

#[test]
fn service_record_without_usb_ancestor() {
    let r = ListPortInfo::new("/dev/cu.Bluetooth", None);
    assert_eq!(r.device, "/dev/cu.Bluetooth");
    assert_eq!(r.name, "");
    assert_eq!(r.description, "n/a");
    assert_eq!(r.hwid, "n/a");
    assert!(matches!(r.port_type, ListPortType::NativePort));
}

#[test]
fn port_list_skips_entries_without_callout_device() {
    let entries = vec![
        ServiceEntry { callout_device: Some("/dev/cu.one".to_string()), usb: None },
        ServiceEntry { callout_device: None, usb: None },
        ServiceEntry { callout_device: Some("/dev/cu.two".to_string()), usb: None },
    ];
    let ports = ListPorts::new(&entries);
    let devices: Vec<String> = ports.iter().iter().map(|p| p.device.clone()).collect();
    assert_eq!(devices, vec!["/dev/cu.one".to_string(), "/dev/cu.two".to_string()]);
}

#[test]
fn port_list_hands_records_out_by_value() {
    let entries = vec![ServiceEntry { callout_device: Some("/dev/cu.one".to_string()), usb: None }];
    let ports = ListPorts::new(&entries).into_ports();
    assert_eq!(ports.len(), 1);
    assert_eq!(ports[0].device, "/dev/cu.one");
}

#[test]
fn option_string_renders_absent_values() {
    assert_eq!(option_string(&Some("A1".to_string())), "A1");
    assert_eq!(option_string(&None), "None");
}
