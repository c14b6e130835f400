//! Device ids: the short names by which the device manager refers to a
//! device, such as `b8:2`, `c128:1`, `n3` or `+sound:card29`.

use vstd::prelude::*;
use vstd::slice::slice_subrange;
use crate::device::{lemma_makedev_round_trip, makedev, spec_makedev, Device, DeviceType};
use crate::util::{clone_bytes, find_byte, first_index};

verus! {

/// What a device id names.
#[derive(Debug, PartialEq, Eq)]
pub enum DeviceId {
    /// A block device, by the major and minor number.
    Block { major: u32, minor: u32 },
    /// A character device, by the major and minor number.
    Character { major: u32, minor: u32 },
    /// A network device, by the index of its interface.
    Network { ifindex: u32 },
    /// Any device, by its subsystem and kernel name.
    Kernel { subsystem: Vec<u8>, sysname: Vec<u8> },
}

/// What a device id names, as a mathematical value.
pub enum DeviceIdView {
    Block { major: u32, minor: u32 },
    Character { major: u32, minor: u32 },
    Network { ifindex: u32 },
    Kernel { subsystem: Seq<u8>, sysname: Seq<u8> },
}

impl View for DeviceId {
    type V = DeviceIdView;

    open spec fn view(&self) -> DeviceIdView {
        match self {
            DeviceId::Block { major, minor } => DeviceIdView::Block {
                major: *major,
                minor: *minor,
            },
            DeviceId::Character { major, minor } => DeviceIdView::Character {
                major: *major,
                minor: *minor,
            },
            DeviceId::Network { ifindex } => DeviceIdView::Network { ifindex: *ifindex },
            DeviceId::Kernel { subsystem, sysname } => DeviceIdView::Kernel {
                subsystem: subsystem@,
                sysname: sysname@,
            },
        }
    }
}

/// Whether a byte is a decimal digit.
pub open spec fn is_digit(b: u8) -> bool {
    '0' as u8 <= b <= '9' as u8
}

/// Whether a string is made of decimal digits alone.
pub open spec fn all_digits(s: Seq<u8>) -> bool {
    forall|i: int| 0 <= i < s.len() ==> is_digit(#[trigger] s[i])
}

/// The number that a string of decimal digits writes.
pub open spec fn decimal(s: Seq<u8>) -> nat
    decreases s.len(),
{
    if s.len() == 0 {
        0
    } else {
        (decimal(s.drop_last()) * 10 + (s.last() - '0' as u8)) as nat
    }
}

/// The number that a string writes, where it is one or more decimal digits
/// and the number fits into 32 bits.
pub open spec fn spec_number(s: Seq<u8>) -> Option<u32> {
    if s.len() > 0 && all_digits(s) && decimal(s) <= u32::MAX {
        Some(decimal(s) as u32)
    } else {
        None
    }
}

/// The two numbers that a string of the form `<number>:<number>` writes.
pub open spec fn spec_number_pair(s: Seq<u8>) -> Option<(u32, u32)> {
    let colon = first_index(s, ':' as u8);
    if colon < s.len() {
        match (spec_number(s.take(colon)), spec_number(s.skip(colon + 1))) {
            (Some(a), Some(b)) => Some((a, b)),
            _ => None,
        }
    } else {
        None
    }
}

/// What a device id names. The first byte tells the form: `b` and `c` are
/// followed by `<major>:<minor>`, `n` by the interface's index, and `+` by
/// `<subsystem>:<sysname>`, where the subsystem ends at the first colon. A
/// string of no such form names nothing.
pub open spec fn spec_parse(id: Seq<u8>) -> Option<DeviceIdView> {
    if id.len() == 0 {
        None
    } else {
        let rest = id.skip(1);
        if id[0] == 'b' as u8 {
            match spec_number_pair(rest) {
                Some(p) => Some(DeviceIdView::Block { major: p.0, minor: p.1 }),
                None => None,
            }
        } else if id[0] == 'c' as u8 {
            match spec_number_pair(rest) {
                Some(p) => Some(DeviceIdView::Character { major: p.0, minor: p.1 }),
                None => None,
            }
        } else if id[0] == 'n' as u8 {
            match spec_number(rest) {
                Some(n) => Some(DeviceIdView::Network { ifindex: n }),
                None => None,
            }
        } else if id[0] == '+' as u8 {
            let colon = first_index(rest, ':' as u8);
            if colon < rest.len() {
                Some(
                    DeviceIdView::Kernel {
                        subsystem: rest.take(colon),
                        sysname: rest.skip(colon + 1),
                    },
                )
            } else {
                None
            }
        } else {
            None
        }
    }
}

/// The number that digits write does not shrink when more digits follow.
proof fn lemma_decimal_grows(s: Seq<u8>, k: int)
    requires
        0 <= k <= s.len(),
        all_digits(s),
    ensures
        decimal(s.take(k)) <= decimal(s),
    decreases s.len() - k,
{
    if k == s.len() {
        assert(s.take(k) =~= s);
    } else {
        lemma_decimal_grows(s, k + 1);
        let t = s.take(k + 1);
        assert(t.drop_last() =~= s.take(k));
        assert(is_digit(t.last())) by {
            assert(t.last() == s[k]);
        }
    }
}

fn parse_number(s: &[u8]) -> (r: Option<u32>)
    ensures
        r == spec_number(s@),
{
    if s.len() == 0 {
        return None;
    }
    let mut value: u64 = 0;
    let mut i: usize = 0;
    while i < s.len()
        invariant
            0 <= i <= s.len(),
            all_digits(s@.take(i as int)),
            value == decimal(s@.take(i as int)),
            value <= u32::MAX,
        decreases s.len() - i,
    {
        let b = s[i];
        if b < 0x30 || b > 0x39 {
            proof {
                assert(!is_digit(s@[i as int]));
            }
            return None;
        }
        let ghost t = s@.take(i + 1);
        proof {
            assert(t.drop_last() =~= s@.take(i as int));
            assert(t.last() == b);
            assert forall|k: int| 0 <= k < t.len() implies is_digit(#[trigger] t[k]) by {
                if k < i {
                    assert(t[k] == s@.take(i as int)[k]);
                }
            }
        }
        let digit: u64 = (b - 0x30) as u64;
        let next: u64 = value * 10 + digit;
        if next > 0xffff_ffff {
            proof {
                if all_digits(s@) {
                    lemma_decimal_grows(s@, i + 1);
                }
            }
            return None;
        }
        value = next;
        i += 1;
    }
    proof {
        assert(s@.take(i as int) =~= s@);
    }
    Some(value as u32)
}

fn parse_number_pair(s: &[u8]) -> (r: Option<(u32, u32)>)
    ensures
        r == spec_number_pair(s@),
{
    let colon = find_byte(s, 0x3a);
    if colon >= s.len() {
        return None;
    }
    let first = slice_subrange(s, 0, colon);
    let second = slice_subrange(s, colon + 1, s.len());
    proof {
        assert(first@ =~= s@.take(colon as int));
        assert(second@ =~= s@.skip(colon + 1));
    }
    match (parse_number(first), parse_number(second)) {
        (Some(a), Some(b)) => Some((a, b)),
        _ => None,
    }
}

/// The view of a device id that may be absent.
pub open spec fn opt_id_view(id: Option<DeviceId>) -> Option<DeviceIdView> {
    match id {
        Some(d) => Some(d@),
        None => None,
    }
}

impl DeviceId {
    /// Reads a device id.
    pub fn parse(id: &[u8]) -> (r: Option<DeviceId>)
        ensures
            opt_id_view(r) == spec_parse(id@),
    {
        if id.len() == 0 {
            return None;
        }
        let rest = slice_subrange(id, 1, id.len());
        proof {
            assert(rest@ =~= id@.skip(1));
        }
        let form = id[0];
        if form == 0x62 {
            match parse_number_pair(rest) {
                Some(p) => Some(DeviceId::Block { major: p.0, minor: p.1 }),
                None => None,
            }
        } else if form == 0x63 {
            match parse_number_pair(rest) {
                Some(p) => Some(DeviceId::Character { major: p.0, minor: p.1 }),
                None => None,
            }
        } else if form == 0x6e {
            match parse_number(rest) {
                Some(n) => Some(DeviceId::Network { ifindex: n }),
                None => None,
            }
        } else if form == 0x2b {
            let colon = find_byte(rest, 0x3a);
            if colon < rest.len() {
                let subsystem = clone_bytes(slice_subrange(rest, 0, colon));
                let sysname = clone_bytes(slice_subrange(rest, colon + 1, rest.len()));
                proof {
                    assert(subsystem@ =~= rest@.take(colon as int));
                    assert(sysname@ =~= rest@.skip(colon + 1));
                }
                Some(DeviceId::Kernel { subsystem, sysname })
            } else {
                None
            }
        } else {
            None
        }
    }

    /// The kind and the device number of the device that the id names, where
    /// it names one by its numbers.
    pub open spec fn spec_devnum(self) -> Option<(DeviceType, u64)> {
        match self {
            DeviceId::Block { major, minor } => Some(
                (DeviceType::Block, spec_makedev(major, minor)),
            ),
            DeviceId::Character { major, minor } => Some(
                (DeviceType::Character, spec_makedev(major, minor)),
            ),
            _ => None,
        }
    }

    /// The kind and the device number of the device that the id names, where
    /// it names one by its numbers.
    pub fn devnum(&self) -> (r: Option<(DeviceType, u64)>)
        ensures
            r == self.spec_devnum(),
    {
        match self {
            DeviceId::Block { major, minor } => Some((DeviceType::Block, makedev(*major, *minor))),
            DeviceId::Character { major, minor } => Some(
                (DeviceType::Character, makedev(*major, *minor)),
            ),
            _ => None,
        }
    }
}

/// A device reports the numbers of the id that names it: where the id gives
/// a major and a minor number, not both zero, the device with the device
/// number that the id stands for has that major and that minor number.
pub proof fn lemma_device_reports_the_numbers_of_its_id(
    id: DeviceId,
    major: u32,
    minor: u32,
    number: Option<(DeviceType, u64)>,
    device: Device,
    reported: Option<(u32, u32)>,
)
    requires
        id@ == (DeviceIdView::Block { major, minor }) || id@ == (DeviceIdView::Character {
            major,
            minor,
        }),
        major != 0 || minor != 0,
        call_ensures(DeviceId::devnum, (&id,), number),
        number.is_some() && device@.devnum == Some(number.unwrap().1),
        call_ensures(Device::major_minor, (&device,), reported),
    ensures
        reported == Some((major, minor)),
{
    lemma_makedev_round_trip(major, minor);
}

} // verus!
