//! A device as the foreign layer reported it at one moment.

use vstd::prelude::*;
use crate::context::Context;
use crate::util::{bytes_eq, clone_bytes};

verus! {

/// The view of a byte string that may be absent.
pub open spec fn opt_view(v: Option<Vec<u8>>) -> Option<Seq<u8>> {
    match v {
        Some(b) => Some(b@),
        None => None,
    }
}

fn clone_opt_bytes(v: &Option<Vec<u8>>) -> (r: Option<Vec<u8>>)
    ensures
        opt_view(r) == opt_view(*v),
{
    match v {
        Some(b) => Some(clone_bytes(b.as_slice())),
        None => None,
    }
}

/// One pair of a name and a value, as the foreign layer's lists hold them.
#[derive(Debug, PartialEq, Eq)]
pub struct Entry {
    pub name: Vec<u8>,
    pub value: Vec<u8>,
}

impl View for Entry {
    type V = (Seq<u8>, Seq<u8>);

    open spec fn view(&self) -> (Seq<u8>, Seq<u8>) {
        (self.name@, self.value@)
    }
}

impl Clone for Entry {
    fn clone(&self) -> (r: Self)
        ensures
            r@ == self@,
    {
        Entry { name: clone_bytes(self.name.as_slice()), value: clone_bytes(self.value.as_slice()) }
    }
}

/// The views of a list of pairs, in the list's order.
pub open spec fn entries_view(v: Seq<Entry>) -> Seq<(Seq<u8>, Seq<u8>)> {
    Seq::new(v.len(), |i: int| v[i]@)
}

/// The views of a list of byte strings, in the list's order.
pub open spec fn strings_view(v: Seq<Vec<u8>>) -> Seq<Seq<u8>> {
    Seq::new(v.len(), |i: int| v[i]@)
}

fn clone_entries(v: &Vec<Entry>) -> (r: Vec<Entry>)
    ensures
        entries_view(r@) == entries_view(v@),
{
    let mut out: Vec<Entry> = Vec::new();
    let mut i: usize = 0;
    while i < v.len()
        invariant
            0 <= i <= v.len(),
            out@.len() == i,
            forall|k: int| 0 <= k < i ==> out@[k]@ == v@[k]@,
        decreases v.len() - i,
    {
        let e = v[i].clone();
        out.push(e);
        i += 1;
    }
    proof {
        assert(entries_view(out@) =~= entries_view(v@));
    }
    out
}

fn clone_strings(v: &Vec<Vec<u8>>) -> (r: Vec<Vec<u8>>)
    ensures
        strings_view(r@) == strings_view(v@),
{
    let mut out: Vec<Vec<u8>> = Vec::new();
    let mut i: usize = 0;
    while i < v.len()
        invariant
            0 <= i <= v.len(),
            out@.len() == i,
            forall|k: int| 0 <= k < i ==> out@[k]@ == v@[k]@,
        decreases v.len() - i,
    {
        let s = clone_bytes(v[i].as_slice());
        out.push(s);
        i += 1;
    }
    proof {
        assert(strings_view(out@) =~= strings_view(v@));
    }
    out
}

/// The value that a list of pairs holds under a name: that of the first pair
/// with the name, or nothing where no pair has it.
pub open spec fn lookup(entries: Seq<(Seq<u8>, Seq<u8>)>, name: Seq<u8>) -> Option<Seq<u8>>
    decreases entries.len(),
{
    if entries.len() == 0 {
        None
    } else if entries[0].0 == name {
        Some(entries[0].1)
    } else {
        lookup(entries.skip(1), name)
    }
}

/// The view of a borrowed byte string that may be absent.
pub open spec fn opt_slice_view(v: Option<&[u8]>) -> Option<Seq<u8>> {
    match v {
        Some(b) => Some(b@),
        None => None,
    }
}

/// Finds the value that a list of pairs holds under a name.
pub fn find_value<'a>(entries: &'a Vec<Entry>, name: &[u8]) -> (r: Option<&'a [u8]>)
    ensures
        opt_slice_view(r) == lookup(entries_view(entries@), name@),
{
    let ghost all = entries_view(entries@);
    let mut i: usize = 0;
    proof {
        assert(all.skip(0) =~= all);
    }
    while i < entries.len()
        invariant
            0 <= i <= entries.len(),
            all == entries_view(entries@),
            lookup(all, name@) == lookup(all.skip(i as int), name@),
        decreases entries.len() - i,
    {
        proof {
            assert(all.skip(i as int)[0] == entries@[i as int]@);
            assert(all.skip(i as int).skip(1) =~= all.skip(i + 1));
        }
        if bytes_eq(entries[i].name.as_slice(), name) {
            return Some(entries[i].value.as_slice());
        }
        i += 1;
    }
    None
}

/// The device number that the foreign layer's answer stands for: zero is its
/// word for none.
pub open spec fn spec_devnum(raw: u64) -> Option<u64> {
    if raw == 0 {
        None
    } else {
        Some(raw)
    }
}

/// What the foreign layer reports of one device.
#[derive(Debug, PartialEq, Eq)]
pub struct DeviceRecord {
    /// The path that identifies the device.
    pub syspath: Vec<u8>,
    /// The kernel subsystem that it belongs to.
    pub subsystem: Option<Vec<u8>>,
    /// Its kind within the subsystem.
    pub devtype: Option<Vec<u8>>,
    /// The path of its device node.
    pub devnode: Option<Vec<u8>>,
    /// Its device number, or zero where it has none.
    pub devnum: u64,
    /// The properties that the event or the database gave it.
    pub properties: Vec<Entry>,
    /// The attributes read from its directory.
    pub attributes: Vec<Entry>,
    /// The tags that rules attached to it.
    pub tags: Vec<Vec<u8>>,
    /// The path of its parent device.
    pub parent: Option<Vec<u8>>,
    /// The sequence number of the event that it came with, or zero.
    pub seqnum: u64,
}

/// A device as a mathematical value.
pub struct DeviceView {
    pub syspath: Seq<u8>,
    pub subsystem: Option<Seq<u8>>,
    pub devtype: Option<Seq<u8>>,
    pub devnode: Option<Seq<u8>>,
    pub devnum: Option<u64>,
    pub properties: Seq<(Seq<u8>, Seq<u8>)>,
    pub attributes: Seq<(Seq<u8>, Seq<u8>)>,
    pub tags: Seq<Seq<u8>>,
    pub parent: Option<Seq<u8>>,
    pub seqnum: u64,
}

impl View for DeviceRecord {
    type V = DeviceView;

    open spec fn view(&self) -> DeviceView {
        DeviceView {
            syspath: self.syspath@,
            subsystem: opt_view(self.subsystem),
            devtype: opt_view(self.devtype),
            devnode: opt_view(self.devnode),
            devnum: spec_devnum(self.devnum),
            properties: entries_view(self.properties@),
            attributes: entries_view(self.attributes@),
            tags: strings_view(self.tags@),
            parent: opt_view(self.parent),
            seqnum: self.seqnum,
        }
    }
}

impl Clone for DeviceRecord {
    fn clone(&self) -> (r: Self)
        ensures
            r@ == self@,
    {
        DeviceRecord {
            syspath: clone_bytes(self.syspath.as_slice()),
            subsystem: clone_opt_bytes(&self.subsystem),
            devtype: clone_opt_bytes(&self.devtype),
            devnode: clone_opt_bytes(&self.devnode),
            devnum: self.devnum,
            properties: clone_entries(&self.properties),
            attributes: clone_entries(&self.attributes),
            tags: clone_strings(&self.tags),
            parent: clone_opt_bytes(&self.parent),
            seqnum: self.seqnum,
        }
    }
}

/// The major number in a device number: its bits 8 to 19 and 44 to 63.
pub open spec fn spec_major(dev: u64) -> u32 {
    (((dev & 0x0000_0000_000f_ff00u64) >> 8u64) | ((dev & 0xffff_f000_0000_0000u64) >> 32u64)) as u32
}

/// The minor number in a device number: its bits 0 to 7 and 20 to 43.
pub open spec fn spec_minor(dev: u64) -> u32 {
    ((dev & 0x0000_0000_0000_00ffu64) | ((dev & 0x0000_0fff_fff0_0000u64) >> 12u64)) as u32
}

/// The device number that holds a major and a minor number.
pub open spec fn spec_makedev(major: u32, minor: u32) -> u64 {
    (((major as u64) & 0x0000_0fffu64) << 8u64) | (((major as u64) & 0xffff_f000u64) << 32u64) | ((
    minor as u64) & 0x0000_00ffu64) | (((minor as u64) & 0xffff_ff00u64) << 12u64)
}

/// `libc::major`, which on Linux collects the major number from the two
/// places where a device number keeps it.
#[verifier::external_body]
fn major(dev: u64) -> (r: u32)
    ensures
        r == spec_major(dev),
{
    libc::major(dev)
}

/// `libc::minor`, which on Linux collects the minor number from the two
/// places where a device number keeps it.
#[verifier::external_body]
fn minor(dev: u64) -> (r: u32)
    ensures
        r == spec_minor(dev),
{
    libc::minor(dev)
}

/// `libc::makedev`, which on Linux spreads a major and a minor number over
/// the places where a device number keeps them.
#[verifier::external_body]
pub(crate) fn makedev(major: u32, minor: u32) -> (r: u64)
    ensures
        r == spec_makedev(major, minor),
{
    libc::makedev(major, minor)
}

/// A device number gives back the major and the minor number that it was
/// made of.
pub proof fn lemma_makedev_round_trip(major: u32, minor: u32)
    ensures
        spec_major(spec_makedev(major, minor)) == major,
        spec_minor(spec_makedev(major, minor)) == minor,
{
    assert(spec_major(spec_makedev(major, minor)) == major) by (bit_vector);
    assert(spec_minor(spec_makedev(major, minor)) == minor) by (bit_vector);
}

/// The two kinds of device that have a device number.
#[derive(Debug, Clone, Copy, PartialEq, Eq, Structural)]
pub enum DeviceType {
    /// A character device.
    Character,
    /// A block device.
    Block,
}

impl DeviceType {
    /// The letter by which the foreign layer knows the kind.
    pub open spec fn spec_letter(self) -> u8 {
        match self {
            DeviceType::Character => 'c' as u8,
            DeviceType::Block => 'b' as u8,
        }
    }

    /// The letter by which the foreign layer knows the kind: `c` or `b`.
    pub fn letter(&self) -> (r: u8)
        ensures
            r == self.spec_letter(),
    {
        match self {
            DeviceType::Character => 0x63,
            DeviceType::Block => 0x62,
        }
    }
}

fn opt_slice(v: &Option<Vec<u8>>) -> (r: Option<&[u8]>)
    ensures
        opt_slice_view(r) == opt_view(*v),
{
    match v {
        Some(b) => Some(b.as_slice()),
        None => None,
    }
}

/// A device: what the foreign layer reported of it when it was looked up or
/// when its event arrived. Nothing in it changes afterwards.
#[derive(Debug, PartialEq, Eq)]
pub struct Device {
    context: Context,
    record: DeviceRecord,
}

impl View for Device {
    type V = DeviceView;

    closed spec fn view(&self) -> DeviceView {
        self.record@
    }
}

/// The view of a record that may be absent.
pub open spec fn opt_record_view(record: Option<DeviceRecord>) -> Option<DeviceView> {
    match record {
        Some(r) => Some(r@),
        None => None,
    }
}

/// The view of a device that may be absent.
pub open spec fn opt_device_view(device: Option<Device>) -> Option<DeviceView> {
    match device {
        Some(d) => Some(d@),
        None => None,
    }
}

impl Clone for Device {
    fn clone(&self) -> (r: Self)
        ensures
            r@ == self@,
            r.spec_context() == self.spec_context(),
    {
        Device { context: self.context, record: self.record.clone() }
    }
}

impl Device {
    /// The connection through which the device was found.
    pub closed spec fn spec_context(&self) -> Context {
        self.context
    }

    /// Makes the device of a record that the foreign layer filled, and ties
    /// it to the connection.
    pub fn from_raw(context: &Context, record: DeviceRecord) -> (r: Device)
        ensures
            r@ == record@,
            r.spec_context() == *context,
    {
        Device { context: *context, record }
    }

    /// The connection through which the device was found.
    pub fn context(&self) -> (r: Context)
        ensures
            r == self.spec_context(),
    {
        self.context
    }

    /// The path that identifies the device.
    pub fn syspath(&self) -> (r: &[u8])
        ensures
            r@ == self@.syspath,
    {
        self.record.syspath.as_slice()
    }

    /// The kernel subsystem that the device belongs to.
    pub fn subsystem(&self) -> (r: Option<&[u8]>)
        ensures
            opt_slice_view(r) == self@.subsystem,
    {
        opt_slice(&self.record.subsystem)
    }

    /// The device's kind within its subsystem.
    pub fn devtype(&self) -> (r: Option<&[u8]>)
        ensures
            opt_slice_view(r) == self@.devtype,
    {
        opt_slice(&self.record.devtype)
    }

    /// The path of the device node.
    pub fn devnode(&self) -> (r: Option<&[u8]>)
        ensures
            opt_slice_view(r) == self@.devnode,
    {
        opt_slice(&self.record.devnode)
    }

    /// The path of the parent device.
    pub fn parent_syspath(&self) -> (r: Option<&[u8]>)
        ensures
            opt_slice_view(r) == self@.parent,
    {
        opt_slice(&self.record.parent)
    }

    /// The device number, where the device has one.
    pub fn devnum(&self) -> (r: Option<u64>)
        ensures
            r == self@.devnum,
    {
        if self.record.devnum == 0 {
            None
        } else {
            Some(self.record.devnum)
        }
    }

    /// The major and the minor number of the device number.
    pub fn major_minor(&self) -> (r: Option<(u32, u32)>)
        ensures
            r == match self@.devnum {
                Some(dev) => Some((spec_major(dev), spec_minor(dev))),
                None => None,
            },
    {
        match self.devnum() {
            Some(dev) => Some((major(dev), minor(dev))),
            None => None,
        }
    }

    /// The sequence number of the event that the device came with, or zero.
    pub fn sequence_number(&self) -> (r: u64)
        ensures
            r == self@.seqnum,
    {
        self.record.seqnum
    }

    /// The value of a property; nothing where the device has none of that
    /// name.
    pub fn property_value(&self, name: &[u8]) -> (r: Option<&[u8]>)
        ensures
            opt_slice_view(r) == lookup(self@.properties, name@),
    {
        find_value(&self.record.properties, name)
    }

    /// The value of an attribute; nothing where the device has none of that
    /// name.
    pub fn attribute_value(&self, name: &[u8]) -> (r: Option<&[u8]>)
        ensures
            opt_slice_view(r) == lookup(self@.attributes, name@),
    {
        find_value(&self.record.attributes, name)
    }

    /// Whether a tag is attached to the device.
    pub fn has_tag(&self, tag: &[u8]) -> (r: bool)
        ensures
            r == self@.tags.contains(tag@),
    {
        let mut i: usize = 0;
        while i < self.record.tags.len()
            invariant
                0 <= i <= self.record.tags.len(),
                forall|k: int| 0 <= k < i ==> self.record.tags@[k]@ != tag@,
            decreases self.record.tags.len() - i,
        {
            if bytes_eq(self.record.tags[i].as_slice(), tag) {
                proof {
                    assert(self@.tags[i as int] == tag@);
                }
                return true;
            }
            i += 1;
        }
        proof {
            if self@.tags.contains(tag@) {
                let k = choose|k: int| 0 <= k < self@.tags.len() && self@.tags[k] == tag@;
                assert(self.record.tags@[k]@ == tag@);
            }
        }
        false
    }
}

/// Reading a device twice gives the same both times: what an accessor
/// returns depends on the device and on what is asked alone, and asking
/// changes nothing. Stated here of the path and of a property's value.
pub proof fn lemma_reading_twice_gives_the_same(
    device: &Device,
    name: &[u8],
    first_path: &[u8],
    second_path: &[u8],
    first_value: Option<&[u8]>,
    second_value: Option<&[u8]>,
)
    requires
        call_ensures(Device::syspath, (device,), first_path),
        call_ensures(Device::syspath, (device,), second_path),
        call_ensures(Device::property_value, (device, name), first_value),
        call_ensures(Device::property_value, (device, name), second_value),
    ensures
        first_path@ == second_path@,
        opt_slice_view(first_value) == opt_slice_view(second_value),
{
}

} // verus!
