//! The monitor: filters that the kernel applies, then a socket of events.

use vstd::prelude::*;
use vstd::string::is_ascii;
use crate::context::{action_key, Context};
use crate::device::{lookup, Device, DeviceRecord, DeviceView};
use crate::error::{try_alloc, Error, Handle};
use crate::util::{
    ascii,
    bytes_eq,
    errno_to_result,
    has_nul,
    os_str_to_cstring,
    os_strs_to_cstrings,
    spec_errno_to_result,
    CString,
};

verus! {

/// A rule by which the kernel picks the events that reach the socket.
#[derive(Debug, PartialEq, Eq)]
pub enum MonitorFilter {
    /// Events of devices of a subsystem.
    Subsystem(CString),
    /// Events of devices of a subsystem and of a kind within it.
    SubsystemDevtype { subsystem: CString, devtype: CString },
    /// Events of devices that carry a tag.
    Tag(CString),
}

/// A rule of the monitor as a mathematical value.
pub enum MonitorFilterView {
    Subsystem(Seq<u8>),
    SubsystemDevtype { subsystem: Seq<u8>, devtype: Seq<u8> },
    Tag(Seq<u8>),
}

impl View for MonitorFilter {
    type V = MonitorFilterView;

    open spec fn view(&self) -> MonitorFilterView {
        match self {
            MonitorFilter::Subsystem(s) => MonitorFilterView::Subsystem(s@),
            MonitorFilter::SubsystemDevtype { subsystem, devtype } => {
                MonitorFilterView::SubsystemDevtype { subsystem: subsystem@, devtype: devtype@ }
            },
            MonitorFilter::Tag(t) => MonitorFilterView::Tag(t@),
        }
    }
}

impl Clone for MonitorFilter {
    fn clone(&self) -> (r: Self)
        ensures
            r@ == self@,
    {
        match self {
            MonitorFilter::Subsystem(s) => MonitorFilter::Subsystem(s.clone()),
            MonitorFilter::SubsystemDevtype { subsystem, devtype } => {
                MonitorFilter::SubsystemDevtype {
                    subsystem: subsystem.clone(),
                    devtype: devtype.clone(),
                }
            },
            MonitorFilter::Tag(t) => MonitorFilter::Tag(t.clone()),
        }
    }
}

/// The views of a list of rules, in the list's order.
pub open spec fn monitor_filters_view(v: Seq<MonitorFilter>) -> Seq<MonitorFilterView> {
    Seq::new(v.len(), |i: int| v[i]@)
}

fn clone_filters(v: &Vec<MonitorFilter>) -> (r: Vec<MonitorFilter>)
    ensures
        monitor_filters_view(r@) == monitor_filters_view(v@),
{
    let mut out: Vec<MonitorFilter> = Vec::new();
    let mut i: usize = 0;
    while i < v.len()
        invariant
            0 <= i <= v.len(),
            out@.len() == i,
            forall|k: int| 0 <= k < i ==> out@[k]@ == v@[k]@,
        decreases v.len() - i,
    {
        let f = v[i].clone();
        out.push(f);
        i += 1;
    }
    proof {
        assert(monitor_filters_view(out@) =~= monitor_filters_view(v@));
    }
    out
}

/// A monitor as a mathematical value: its foreign handle, its connection and
/// the rules that the kernel holds for it, oldest first.
pub struct MonitorView {
    pub handle: Handle,
    pub context: Context,
    pub filters: Seq<MonitorFilterView>,
}

/// A monitor that is being set up. Rules are added to it, in any number and
/// order; then it is turned into a socket, once.
pub struct MonitorBuilder {
    handle: Handle,
    context: Context,
    filters: Vec<MonitorFilter>,
}

impl View for MonitorBuilder {
    type V = MonitorView;

    closed spec fn view(&self) -> MonitorView {
        MonitorView {
            handle: self.handle,
            context: self.context,
            filters: monitor_filters_view(self.filters@),
        }
    }
}

/// The name `udev`.
pub open spec fn udev_name() -> Seq<u8> {
    ascii("udev"@)
}

impl MonitorBuilder {
    /// The name of the event source that a monitor listens to: `udev`, the
    /// events that the device manager sends out once its rules have run.
    pub fn source() -> (r: CString)
        ensures
            r@ == udev_name(),
    {
        let name = "udev".as_bytes();
        proof {
            broadcast use vstd::string::is_ascii_spec_bytes;

            reveal_strlit("udev");
            assert(is_ascii("udev"));
            assert(name@ =~= udev_name());
            assert(!has_nul(udev_name()));
        }
        match os_str_to_cstring(name) {
            Ok(c) => c,
            Err(_) => {
                proof {
                    assert(false);
                }
                unreached()
            },
        }
    }

    /// Takes up the monitor that the foreign layer made on a connection.
    /// `addr` is the handle it returned and `errno` the platform error number
    /// read after the call. The monitor starts without rules.
    pub fn new(context: &Context, addr: usize, errno: i32) -> (r: Result<MonitorBuilder, Error>)
        ensures
            match r {
                Ok(m) => addr != 0 && m@.handle.spec_addr() == addr && m@.context == *context
                    && m@.filters == Seq::<MonitorFilterView>::empty(),
                Err(e) => addr == 0 && e == (Error::Allocation { errno }),
            },
    {
        match try_alloc(Handle::new(addr), errno) {
            Ok(handle) => Ok(MonitorBuilder::from_raw(context, handle)),
            Err(e) => Err(e),
        }
    }

    /// The monitor behind a handle, tied to its connection and without
    /// rules.
    pub fn from_raw(context: &Context, handle: Handle) -> (r: MonitorBuilder)
        ensures
            r@.handle == handle,
            r@.context == *context,
            r@.filters == Seq::<MonitorFilterView>::empty(),
    {
        let m = MonitorBuilder { handle, context: *context, filters: Vec::new() };
        proof {
            assert(m@.filters =~= Seq::<MonitorFilterView>::empty());
        }
        m
    }

    /// The rules that the kernel holds for the monitor, oldest first.
    pub fn filters(&self) -> (r: &Vec<MonitorFilter>)
        ensures
            monitor_filters_view(r@) == self@.filters,
    {
        &self.filters
    }

    /// The foreign handle of the monitor.
    pub fn handle(&self) -> (r: Handle)
        ensures
            r == self@.handle,
    {
        self.handle
    }

    /// The connection that the monitor was made on.
    pub fn context(&self) -> (r: Context)
        ensures
            r == self@.context,
    {
        self.context
    }

    /// The rule that passes the events of a subsystem's devices. A name that
    /// holds a zero byte is refused.
    pub fn match_subsystem(&self, subsystem: &[u8]) -> (r: Result<MonitorFilter, Error>)
        ensures
            match r {
                Ok(f) => !has_nul(subsystem@) && f@ == MonitorFilterView::Subsystem(subsystem@),
                Err(e) => has_nul(subsystem@) && e == Error::InvalidInput,
            },
    {
        match os_str_to_cstring(subsystem) {
            Ok(s) => Ok(MonitorFilter::Subsystem(s)),
            Err(e) => Err(e),
        }
    }

    /// The rule that passes the events of the devices of a subsystem and of a
    /// kind within it. A string that holds a zero byte is refused.
    pub fn match_subsystem_devtype(&self, subsystem: &[u8], devtype: &[u8]) -> (r: Result<
        MonitorFilter,
        Error,
    >)
        ensures
            match r {
                Ok(f) => !has_nul(subsystem@) && !has_nul(devtype@) && f@ == (
                MonitorFilterView::SubsystemDevtype { subsystem: subsystem@, devtype: devtype@ }),
                Err(e) => (has_nul(subsystem@) || has_nul(devtype@)) && e == Error::InvalidInput,
            },
    {
        match os_strs_to_cstrings(subsystem, devtype) {
            Ok(p) => Ok(MonitorFilter::SubsystemDevtype { subsystem: p.0, devtype: p.1 }),
            Err(e) => Err(e),
        }
    }

    /// The rule that passes the events of the devices with a tag. A tag that
    /// holds a zero byte is refused.
    pub fn match_tag(&self, tag: &[u8]) -> (r: Result<MonitorFilter, Error>)
        ensures
            match r {
                Ok(f) => !has_nul(tag@) && f@ == MonitorFilterView::Tag(tag@),
                Err(e) => has_nul(tag@) && e == Error::InvalidInput,
            },
    {
        match os_str_to_cstring(tag) {
            Ok(t) => Ok(MonitorFilter::Tag(t)),
            Err(e) => Err(e),
        }
    }

    /// Records a rule that was handed to the foreign layer. `status` is what
    /// the foreign layer answered: on zero the rule joins the list behind the
    /// others, on anything else the list stays as it was.
    pub fn add_filter(&mut self, filter: MonitorFilter, status: i32) -> (r: Result<(), Error>)
        ensures
            r == spec_errno_to_result(status),
            final(self)@.handle == old(self)@.handle,
            final(self)@.context == old(self)@.context,
            final(self)@.filters == if status == 0 {
                old(self)@.filters.push(filter@)
            } else {
                old(self)@.filters
            },
    {
        match errno_to_result(status) {
            Ok(()) => {
                self.filters.push(filter);
                proof {
                    assert(final(self)@.filters =~= old(self)@.filters.push(filter@));
                }
                Ok(())
            },
            Err(e) => Err(e),
        }
    }

    /// Records that the foreign layer was asked to drop all rules. `status`
    /// is what it answered: on zero the list is emptied, on anything else it
    /// stays as it was.
    pub fn clear_filters(&mut self, status: i32) -> (r: Result<(), Error>)
        ensures
            r == spec_errno_to_result(status),
            final(self)@.handle == old(self)@.handle,
            final(self)@.context == old(self)@.context,
            final(self)@.filters == if status == 0 {
                Seq::<MonitorFilterView>::empty()
            } else {
                old(self)@.filters
            },
    {
        match errno_to_result(status) {
            Ok(()) => {
                self.filters.clear();
                proof {
                    assert(final(self)@.filters =~= Seq::<MonitorFilterView>::empty());
                }
                Ok(())
            },
            Err(e) => Err(e),
        }
    }

    /// Turns the monitor into a socket. `status` is what the foreign layer
    /// answered when it was asked to start receiving, and `fd` the socket's
    /// file descriptor. On a nonzero status there is no socket.
    pub fn listen(self, status: i32, fd: i32) -> (r: Result<MonitorSocket, Error>)
        ensures
            match r {
                Ok(s) => status == 0 && s@ == self@ && s.spec_fd() == fd,
                Err(e) => status != 0 && e == (Error::System { code: status }),
            },
    {
        match errno_to_result(status) {
            Ok(()) => Ok(MonitorSocket { inner: self, fd }),
            Err(e) => Err(e),
        }
    }
}

/// A monitor that receives. Its rules can no longer be changed. The socket
/// never blocks: the caller waits on the file descriptor and then asks for
/// the next event.
pub struct MonitorSocket {
    inner: MonitorBuilder,
    fd: i32,
}

impl View for MonitorSocket {
    type V = MonitorView;

    closed spec fn view(&self) -> MonitorView {
        self.inner@
    }
}

impl Clone for MonitorSocket {
    fn clone(&self) -> (r: Self)
        ensures
            r@ == self@,
            r.spec_fd() == self.spec_fd(),
    {
        MonitorSocket {
            inner: MonitorBuilder {
                handle: self.inner.handle,
                context: self.inner.context,
                filters: clone_filters(&self.inner.filters),
            },
            fd: self.fd,
        }
    }
}

impl MonitorSocket {
    /// The socket's file descriptor.
    pub closed spec fn spec_fd(&self) -> i32 {
        self.fd
    }

    /// The foreign handle of the monitor.
    pub fn as_raw(&self) -> (r: Handle)
        ensures
            r == self@.handle,
    {
        self.inner.handle
    }

    /// The socket behind the handle of a monitor that receives already, tied
    /// to its connection. `fd` is the socket's file descriptor.
    pub fn from_raw(context: &Context, handle: Handle, fd: i32) -> (r: MonitorSocket)
        ensures
            r@.handle == handle,
            r@.context == *context,
            r@.filters == Seq::<MonitorFilterView>::empty(),
            r.spec_fd() == fd,
    {
        MonitorSocket { inner: MonitorBuilder::from_raw(context, handle), fd }
    }

    /// The rules that the kernel holds for the socket, oldest first.
    pub fn filters(&self) -> (r: &Vec<MonitorFilter>)
        ensures
            monitor_filters_view(r@) == self@.filters,
    {
        &self.inner.filters
    }

    /// The socket's file descriptor, for the caller to wait on.
    pub fn as_raw_fd(&self) -> (r: i32)
        ensures
            r == self.spec_fd(),
    {
        self.fd
    }

    /// Takes up the outcome of one attempt to receive. `received` is the
    /// record of the device that arrived, if one did. Without one there is no
    /// event now, whether nothing was waiting or the attempt failed; the
    /// socket is the same afterwards in either case.
    pub fn next(&mut self, received: Option<DeviceRecord>) -> (r: Option<Event>)
        ensures
            *final(self) == *old(self),
            match r {
                Some(e) => received.is_some() && e@ == received.unwrap()@
                    && e.spec_context() == old(self)@.context,
                None => received.is_none(),
            },
    {
        match received {
            Some(record) => {
                let device = Device::from_raw(&self.inner.context, record);
                Some(Event { device })
            },
            None => None,
        }
    }
}

/// What happened to a device.
#[derive(Debug, Clone, Copy, PartialEq, Eq, Structural)]
pub enum EventType {
    /// The device was added.
    Add,
    /// The device changed.
    Change,
    /// The device was removed.
    Remove,
    /// The device was bound to a driver.
    Bind,
    /// The device was unbound from its driver.
    Unbind,
    /// Something else, or nothing that is known.
    Unknown,
}

impl Default for EventType {
    fn default() -> (r: EventType)
        ensures
            r == EventType::Unknown,
    {
        EventType::Unknown
    }
}

/// The kind of event that an action stands for. The five words are matched
/// letter for letter; any other action, and none at all, is unknown.
pub open spec fn event_type_of(action: Option<Seq<u8>>) -> EventType {
    match action {
        Some(a) => {
            if a == ascii("add"@) {
                EventType::Add
            } else if a == ascii("change"@) {
                EventType::Change
            } else if a == ascii("remove"@) {
                EventType::Remove
            } else if a == ascii("bind"@) {
                EventType::Bind
            } else if a == ascii("unbind"@) {
                EventType::Unbind
            } else {
                EventType::Unknown
            }
        },
        None => EventType::Unknown,
    }
}

impl EventType {
    /// The kind's name in lower case.
    pub open spec fn spec_name(self) -> Seq<char> {
        match self {
            EventType::Add => "add"@,
            EventType::Change => "change"@,
            EventType::Remove => "remove"@,
            EventType::Bind => "bind"@,
            EventType::Unbind => "unbind"@,
            EventType::Unknown => "unknown"@,
        }
    }

    /// The kind's name in lower case, as it is written out.
    pub fn name(&self) -> (r: &'static str)
        ensures
            r@ == self.spec_name(),
    {
        match self {
            EventType::Add => "add",
            EventType::Change => "change",
            EventType::Remove => "remove",
            EventType::Bind => "bind",
            EventType::Unbind => "unbind",
            EventType::Unknown => "unknown",
        }
    }
}

/// A change in a device's state: the device as it was when the event was
/// sent, and with it the kind of event and its number.
#[derive(Debug, PartialEq, Eq)]
pub struct Event {
    device: Device,
}

impl View for Event {
    type V = DeviceView;

    closed spec fn view(&self) -> DeviceView {
        self.device@
    }
}

impl core::ops::Deref for Event {
    type Target = Device;

    /// The device that the event is about.
    fn deref(&self) -> (r: &Device)
        ensures
            r@ == self@,
            r.spec_context() == self.spec_context(),
    {
        &self.device
    }
}

impl Event {
    /// The connection through which the event came.
    pub closed spec fn spec_context(&self) -> Context {
        self.device.spec_context()
    }

    /// The kind of the event, read from the device's property `ACTION`.
    pub fn event_type(&self) -> (r: EventType)
        ensures
            r == event_type_of(lookup(self@.properties, action_key())),
    {
        let key = "ACTION".as_bytes();
        let add = "add".as_bytes();
        let change = "change".as_bytes();
        let remove = "remove".as_bytes();
        let bind = "bind".as_bytes();
        let unbind = "unbind".as_bytes();
        proof {
            broadcast use vstd::string::is_ascii_spec_bytes;

            reveal_strlit("ACTION");
            reveal_strlit("add");
            reveal_strlit("change");
            reveal_strlit("remove");
            reveal_strlit("bind");
            reveal_strlit("unbind");
            assert(is_ascii("ACTION") && is_ascii("add") && is_ascii("change"));
            assert(is_ascii("remove") && is_ascii("bind") && is_ascii("unbind"));
            assert(key@ =~= action_key());
            assert(add@ =~= ascii("add"@));
            assert(change@ =~= ascii("change"@));
            assert(remove@ =~= ascii("remove"@));
            assert(bind@ =~= ascii("bind"@));
            assert(unbind@ =~= ascii("unbind"@));
        }
        match self.device.property_value(key) {
            Some(value) => {
                if bytes_eq(value, add) {
                    EventType::Add
                } else if bytes_eq(value, change) {
                    EventType::Change
                } else if bytes_eq(value, remove) {
                    EventType::Remove
                } else if bytes_eq(value, bind) {
                    EventType::Bind
                } else if bytes_eq(value, unbind) {
                    EventType::Unbind
                } else {
                    EventType::Unknown
                }
            },
            None => EventType::Unknown,
        }
    }

    /// The number of the event in the kernel's count.
    pub fn sequence_number(&self) -> (r: u64)
        ensures
            r == self@.seqnum,
    {
        self.device.sequence_number()
    }

    /// The device that the event is about.
    pub fn device(&self) -> (r: Device)
        ensures
            r@ == self@,
            r.spec_context() == self.spec_context(),
    {
        self.device.clone()
    }
}

} // verus!
