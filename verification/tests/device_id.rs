use udev::context::{Context, Lookup};
use udev::device::{DeviceRecord, DeviceType};
use udev::device_id::DeviceId;

#[test]
fn block_device_id() {
    assert_eq!(DeviceId::parse(b"b8:2"), Some(DeviceId::Block { major: 8, minor: 2 }));
}

#[test]
fn character_device_id() {
    assert_eq!(DeviceId::parse(b"c128:1"), Some(DeviceId::Character { major: 128, minor: 1 }));
}

#[test]
fn network_device_id() {
    assert_eq!(DeviceId::parse(b"n3"), Some(DeviceId::Network { ifindex: 3 }));
}

#[test]
fn kernel_device_id() {
    assert_eq!(
        DeviceId::parse(b"+sound:card29"),
        Some(DeviceId::Kernel { subsystem: b"sound".to_vec(), sysname: b"card29".to_vec() })
    );
}

#[test]
fn kernel_device_id_splits_at_the_first_colon() {
    assert_eq!(
        DeviceId::parse(b"+usb:1-1:1.0"),
        Some(DeviceId::Kernel { subsystem: b"usb".to_vec(), sysname: b"1-1:1.0".to_vec() })
    );
    assert_eq!(
        DeviceId::parse(b"+:"),
        Some(DeviceId::Kernel { subsystem: vec![], sysname: vec![] })
    );
}

#[test]
fn strings_of_no_known_form_name_nothing() {
    assert_eq!(DeviceId::parse(b""), None);
    assert_eq!(DeviceId::parse(b"x8:2"), None);
    assert_eq!(DeviceId::parse(b"B8:2"), None);
    assert_eq!(DeviceId::parse(b"8:2"), None);
    assert_eq!(DeviceId::parse(b"b"), None);
    assert_eq!(DeviceId::parse(b"b8"), None);
    assert_eq!(DeviceId::parse(b"b:2"), None);
    assert_eq!(DeviceId::parse(b"b8:"), None);
    assert_eq!(DeviceId::parse(b"b8:2x"), None);
    assert_eq!(DeviceId::parse(b"b8:2:1"), None);
    assert_eq!(DeviceId::parse(b"b 8:2"), None);
    assert_eq!(DeviceId::parse(b"b-8:2"), None);
    assert_eq!(DeviceId::parse(b"c1;2"), None);
    assert_eq!(DeviceId::parse(b"n"), None);
    assert_eq!(DeviceId::parse(b"n3a"), None);
    assert_eq!(DeviceId::parse(b"n3:4"), None);
    assert_eq!(DeviceId::parse(b"+soundcard29"), None);
    assert_eq!(DeviceId::parse(b"+"), None);
}

#[test]
fn numbers_up_to_32_bits() {
    assert_eq!(
        DeviceId::parse(b"b4294967295:4294967295"),
        Some(DeviceId::Block { major: u32::MAX, minor: u32::MAX })
    );
    assert_eq!(DeviceId::parse(b"b4294967296:0"), None);
    assert_eq!(DeviceId::parse(b"b0:4294967296"), None);
    assert_eq!(DeviceId::parse(b"n99999999999999999999999999"), None);
    assert_eq!(DeviceId::parse(b"n42949672950"), None);
    assert_eq!(DeviceId::parse(b"n0"), Some(DeviceId::Network { ifindex: 0 }));
    assert_eq!(DeviceId::parse(b"n007"), Some(DeviceId::Network { ifindex: 7 }));
    assert_eq!(DeviceId::parse(b"n00000000000000000004294967295"), Some(DeviceId::Network { ifindex: u32::MAX }));
}

#[test]
fn device_number_of_an_id() {
    assert_eq!(DeviceId::Block { major: 8, minor: 2 }.devnum(), Some((DeviceType::Block, 0x802)));
    assert_eq!(
        DeviceId::Character { major: 128, minor: 1 }.devnum(),
        Some((DeviceType::Character, 0x8001))
    );
    assert_eq!(
        DeviceId::Block { major: 0x12345, minor: 0x6789a }.devnum(),
        Some((DeviceType::Block, 0x0001_2000_6783_459a))
    );
    assert_eq!(DeviceId::Network { ifindex: 3 }.devnum(), None);
    assert_eq!(
        DeviceId::Kernel { subsystem: b"sound".to_vec(), sysname: b"card29".to_vec() }.devnum(),
        None
    );
}

#[test]
fn device_from_device_id_b8_2_reports_major_8_minor_2() {
    let ctx = Context::new(0x1000, 0).unwrap();
    let lookup = ctx.device_from_device_id(b"b8:2").unwrap();
    // The database answers the id with the device that has the number it names.
    let id = match &lookup {
        Lookup::DeviceId(id) => {
            let bytes = id.as_bytes_with_nul();
            DeviceId::parse(&bytes[..bytes.len() - 1]).unwrap()
        }
        _ => panic!("not a lookup by device id"),
    };
    let (kind, number) = id.devnum().unwrap();
    assert_eq!(kind, DeviceType::Block);
    let record = DeviceRecord {
        syspath: b"/sys/devices/pci0000:00/ata1/host0/target0:0:0/0:0:0:0/block/sda/sda2".to_vec(),
        subsystem: Some(b"block".to_vec()),
        devtype: Some(b"partition".to_vec()),
        devnode: Some(b"/dev/sda2".to_vec()),
        devnum: number,
        properties: vec![],
        attributes: vec![],
        tags: vec![],
        parent: None,
        seqnum: 0,
    };
    let device = ctx.device(Some(record), 0).unwrap();
    assert_eq!(device.major_minor(), Some((8, 2)));
}

#[test]
fn major_and_minor_survive_the_device_number() {
    let ctx = Context::new(0x1000, 0).unwrap();
    for (major, minor) in [(1u32, 0u32), (0, 1), (8, 2), (259, 65536), (4095, 255), (4096, 256), (u32::MAX, 0), (0, u32::MAX), (u32::MAX, u32::MAX)] {
        let (_, number) = DeviceId::Character { major, minor }.devnum().unwrap();
        let record = DeviceRecord {
            syspath: b"/sys/devices/virtual/mem/null".to_vec(),
            subsystem: None,
            devtype: None,
            devnode: None,
            devnum: number,
            properties: vec![],
            attributes: vec![],
            tags: vec![],
            parent: None,
            seqnum: 0,
        };
        assert_eq!(ctx.device(Some(record), 0).unwrap().major_minor(), Some((major, minor)));
    }
}
