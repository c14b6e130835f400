use udev::context::Context;
use udev::device::{DeviceRecord, Entry};
use udev::error::{Error, Handle};
use udev::monitor::{Event, EventType, MonitorBuilder, MonitorFilter, MonitorSocket};
use udev::util::os_str_to_cstring;

fn ctx() -> Context {
    Context::new(0x1000, 0).unwrap()
}

fn c(s: &[u8]) -> udev::util::CString {
    os_str_to_cstring(s).unwrap()
}

fn uevent(action: Option<&[u8]>, seqnum: u64) -> DeviceRecord {
    let mut properties = vec![Entry { name: b"DEVPATH".to_vec(), value: b"/devices/virtual/block/loop0".to_vec() }];
    if let Some(a) = action {
        properties.push(Entry { name: b"ACTION".to_vec(), value: a.to_vec() });
    }
    properties.push(Entry { name: b"SUBSYSTEM".to_vec(), value: b"block".to_vec() });
    DeviceRecord {
        syspath: b"/sys/devices/virtual/block/loop0".to_vec(),
        subsystem: Some(b"block".to_vec()),
        devtype: Some(b"disk".to_vec()),
        devnode: Some(b"/dev/loop0".to_vec()),
        devnum: 0x700,
        properties,
        attributes: vec![],
        tags: vec![],
        parent: None,
        seqnum,
    }
}

fn socket() -> MonitorSocket {
    MonitorBuilder::new(&ctx(), 0x3000, 0).unwrap().listen(0, 7).unwrap()
}

fn event(action: Option<&[u8]>) -> Event {
    socket().next(Some(uevent(action, 1))).unwrap()
}

#[test]
fn monitor_listens_to_the_source_named_udev() {
    assert_eq!(MonitorBuilder::source().as_bytes_with_nul(), b"udev\0");
}

#[test]
fn monitor_of_a_null_handle_is_an_allocation_error() {
    assert!(matches!(MonitorBuilder::new(&ctx(), 0, 1), Err(Error::Allocation { errno: 1 })));
}

#[test]
fn new_monitor_has_no_filters() {
    let m = MonitorBuilder::new(&ctx(), 0x3000, 0).unwrap();
    assert!(m.filters().is_empty());
    assert_eq!(m.handle().addr(), 0x3000);
    assert_eq!(m.context(), ctx());
    let n = MonitorBuilder::from_raw(&ctx(), Handle::new(0x3000).unwrap());
    assert!(n.filters().is_empty());
    assert_eq!(n.handle(), m.handle());
}

#[test]
fn each_monitor_filter_carries_its_strings() {
    let m = MonitorBuilder::new(&ctx(), 0x3000, 0).unwrap();
    assert_eq!(m.match_subsystem(b"block"), Ok(MonitorFilter::Subsystem(c(b"block"))));
    assert_eq!(
        m.match_subsystem_devtype(b"usb", b"usb_device"),
        Ok(MonitorFilter::SubsystemDevtype { subsystem: c(b"usb"), devtype: c(b"usb_device") })
    );
    assert_eq!(m.match_tag(b"seat"), Ok(MonitorFilter::Tag(c(b"seat"))));
}

#[test]
fn monitor_filter_strings_with_nul_are_invalid_input() {
    let m = MonitorBuilder::new(&ctx(), 0x3000, 0).unwrap();
    assert_eq!(m.match_subsystem(b"bl\0ock"), Err(Error::InvalidInput));
    assert_eq!(m.match_subsystem_devtype(b"u\0sb", b"usb_device"), Err(Error::InvalidInput));
    assert_eq!(m.match_subsystem_devtype(b"usb", b"usb_device\0"), Err(Error::InvalidInput));
    assert_eq!(m.match_tag(b"\0"), Err(Error::InvalidInput));
}

#[test]
fn monitor_filters_accumulate_in_any_order_and_number() {
    let mut m = MonitorBuilder::new(&ctx(), 0x3000, 0).unwrap();
    let f = m.match_tag(b"seat").unwrap();
    assert_eq!(m.add_filter(f, 0), Ok(()));
    let f = m.match_subsystem(b"block").unwrap();
    assert_eq!(m.add_filter(f, 0), Ok(()));
    let f = m.match_subsystem(b"block").unwrap();
    assert_eq!(m.add_filter(f, 0), Ok(()));
    let f = m.match_subsystem_devtype(b"usb", b"usb_device").unwrap();
    assert_eq!(m.add_filter(f, 0), Ok(()));
    assert_eq!(
        m.filters(),
        &vec![
            MonitorFilter::Tag(c(b"seat")),
            MonitorFilter::Subsystem(c(b"block")),
            MonitorFilter::Subsystem(c(b"block")),
            MonitorFilter::SubsystemDevtype { subsystem: c(b"usb"), devtype: c(b"usb_device") },
        ]
    );
}

#[test]
fn refused_monitor_filter_leaves_the_earlier_ones() {
    let mut m = MonitorBuilder::new(&ctx(), 0x3000, 0).unwrap();
    let f = m.match_subsystem(b"block").unwrap();
    m.add_filter(f, 0).unwrap();
    let f = m.match_tag(b"seat").unwrap();
    assert_eq!(m.add_filter(f, -12), Err(Error::System { code: -12 }));
    assert_eq!(m.match_tag(b"se\0at"), Err(Error::InvalidInput));
    assert_eq!(m.filters(), &vec![MonitorFilter::Subsystem(c(b"block"))]);
}

#[test]
fn clearing_removes_all_filters() {
    let mut m = MonitorBuilder::new(&ctx(), 0x3000, 0).unwrap();
    let f = m.match_subsystem(b"block").unwrap();
    m.add_filter(f, 0).unwrap();
    let f = m.match_tag(b"seat").unwrap();
    m.add_filter(f, 0).unwrap();
    assert_eq!(m.clear_filters(-1), Err(Error::System { code: -1 }));
    assert_eq!(m.filters().len(), 2);
    assert_eq!(m.clear_filters(0), Ok(()));
    assert!(m.filters().is_empty());
    assert_eq!(m.handle().addr(), 0x3000);
}

#[test]
fn listen_turns_the_monitor_into_a_socket() {
    let mut m = MonitorBuilder::new(&ctx(), 0x3000, 0).unwrap();
    let f = m.match_subsystem(b"block").unwrap();
    m.add_filter(f, 0).unwrap();
    let s = m.listen(0, 7).unwrap();
    assert_eq!(s.as_raw_fd(), 7);
    assert_eq!(s.as_raw().addr(), 0x3000);
    assert_eq!(s.filters(), &vec![MonitorFilter::Subsystem(c(b"block"))]);
}

#[test]
fn listen_that_the_kernel_refuses_is_a_system_error() {
    let m = MonitorBuilder::new(&ctx(), 0x3000, 0).unwrap();
    assert!(matches!(m.listen(-1, 7), Err(Error::System { code: -1 })));
    let m = MonitorBuilder::new(&ctx(), 0x3000, 0).unwrap();
    assert!(matches!(m.listen(-13, -1), Err(Error::System { code: -13 })));
}

#[test]
fn socket_from_raw() {
    let s = MonitorSocket::from_raw(&ctx(), Handle::new(0x3000).unwrap(), 9);
    assert_eq!(s.as_raw_fd(), 9);
    assert_eq!(s.as_raw().addr(), 0x3000);
    assert!(s.filters().is_empty());
}

#[test]
fn cloned_socket_is_the_same_socket() {
    let mut m = MonitorBuilder::new(&ctx(), 0x3000, 0).unwrap();
    let f = m.match_tag(b"seat").unwrap();
    m.add_filter(f, 0).unwrap();
    let s = m.listen(0, 7).unwrap();
    let t = s.clone();
    assert_eq!(t.as_raw_fd(), s.as_raw_fd());
    assert_eq!(t.as_raw(), s.as_raw());
    assert_eq!(t.filters(), s.filters());
}

#[test]
fn no_datagram_is_no_event_again_and_again() {
    let mut s = socket();
    for _ in 0..1000 {
        assert_eq!(s.next(None), None);
    }
    assert_eq!(s.as_raw_fd(), 7);
    let e = s.next(Some(uevent(Some(b"add"), 5))).unwrap();
    assert_eq!(e.sequence_number(), 5);
    assert_eq!(s.next(None), None);
}

#[test]
fn datagram_becomes_an_event_with_its_device() {
    let mut s = socket();
    let e = s.next(Some(uevent(Some(b"change"), 4711))).unwrap();
    assert_eq!(e.event_type(), EventType::Change);
    assert_eq!(e.sequence_number(), 4711);
    let d = e.device();
    assert_eq!(d.syspath(), b"/sys/devices/virtual/block/loop0");
    assert_eq!(d.sequence_number(), 4711);
    assert_eq!(d.context(), ctx());
    assert_eq!(d.property_value(b"ACTION"), Some(&b"change"[..]));
}

#[test]
fn event_gives_access_to_its_device() {
    let e = event(Some(b"add"));
    assert_eq!(e.syspath(), b"/sys/devices/virtual/block/loop0");
    assert_eq!(e.subsystem(), Some(&b"block"[..]));
    assert_eq!(e.property_value(b"SUBSYSTEM"), Some(&b"block"[..]));
    assert_eq!(e.property_value(b"ID_MODEL"), None);
    assert_eq!(e.major_minor(), Some((7, 0)));
    assert_eq!(*e, e.device());
}

#[test]
fn event_outlives_its_socket() {
    let mut s = socket();
    let e = s.next(Some(uevent(Some(b"bind"), 9))).unwrap();
    drop(s);
    assert_eq!(e.event_type(), EventType::Bind);
    assert_eq!(e.sequence_number(), 9);
}

#[test]
fn action_remove_is_a_remove_event() {
    assert_eq!(event(Some(b"remove")).event_type(), EventType::Remove);
}

#[test]
fn no_action_is_an_unknown_event() {
    assert_eq!(event(None).event_type(), EventType::Unknown);
}

#[test]
fn each_action_word_has_its_event_type() {
    assert_eq!(event(Some(b"add")).event_type(), EventType::Add);
    assert_eq!(event(Some(b"change")).event_type(), EventType::Change);
    assert_eq!(event(Some(b"remove")).event_type(), EventType::Remove);
    assert_eq!(event(Some(b"bind")).event_type(), EventType::Bind);
    assert_eq!(event(Some(b"unbind")).event_type(), EventType::Unbind);
}

#[test]
fn other_actions_are_unknown() {
    for action in [
        &b""[..], b"Add", b"ADD", b"add ", b" add", b"ad", b"adds", b"move", b"online", b"offline",
        b"removed", b"unbin", b"bin", b"un", b"\xff\xfe", b"add\n",
    ] {
        assert_eq!(event(Some(action)).event_type(), EventType::Unknown);
    }
}

#[test]
fn event_type_is_read_from_the_first_action() {
    let mut r = uevent(Some(b"add"), 1);
    r.properties.push(Entry { name: b"ACTION".to_vec(), value: b"remove".to_vec() });
    let e = socket().next(Some(r)).unwrap();
    assert_eq!(e.event_type(), EventType::Add);
    assert_eq!(e.event_type(), EventType::Add);
}

#[test]
fn event_type_names() {
    assert_eq!(EventType::Add.name(), "add");
    assert_eq!(EventType::Change.name(), "change");
    assert_eq!(EventType::Remove.name(), "remove");
    assert_eq!(EventType::Bind.name(), "bind");
    assert_eq!(EventType::Unbind.name(), "unbind");
    assert_eq!(EventType::Unknown.name(), "unknown");
}

#[test]
fn default_event_type_is_unknown() {
    assert_eq!(EventType::default(), EventType::Unknown);
}

#[test]
fn sequence_number_defaults_to_zero() {
    assert_eq!(socket().next(Some(uevent(None, 0))).unwrap().sequence_number(), 0);
    assert_eq!(event(Some(b"add")).sequence_number(), 1);
    let mut s = socket();
    assert_eq!(s.next(Some(uevent(Some(b"add"), u64::MAX))).unwrap().sequence_number(), u64::MAX);
}
