//! The connection to the device database, and the lookups made through it.

use vstd::prelude::*;
use vstd::string::is_ascii;
use crate::device::{entries_view, find_value, lookup, Device, DeviceRecord, DeviceType, Entry};
use crate::error::{try_alloc, Error, Handle};
use crate::util::{
    ascii,
    c_str_bytes,
    has_nul,
    lemma_c_str_of_terminated,
    os_str_to_cstring,
    os_strs_to_cstrings,
    CString,
};

verus! {

/// A request to find one device, ready for the foreign layer.
#[derive(Debug, PartialEq, Eq)]
pub enum Lookup {
    /// The device at a path.
    Syspath(CString),
    /// The device of a kind with a device number.
    Devnum { dev_type: DeviceType, dev_num: u64 },
    /// The device of a subsystem with a kernel name.
    SubsystemSysname { subsystem: CString, sysname: CString },
    /// The device that a device id names.
    DeviceId(CString),
    /// The device that the event in the process's environment is about.
    Environment,
}

/// A request to find one device, as a mathematical value.
pub enum LookupView {
    Syspath(Seq<u8>),
    Devnum { dev_type: DeviceType, dev_num: u64 },
    SubsystemSysname { subsystem: Seq<u8>, sysname: Seq<u8> },
    DeviceId(Seq<u8>),
    Environment,
}

impl View for Lookup {
    type V = LookupView;

    open spec fn view(&self) -> LookupView {
        match self {
            Lookup::Syspath(p) => LookupView::Syspath(p@),
            Lookup::Devnum { dev_type, dev_num } => LookupView::Devnum {
                dev_type: *dev_type,
                dev_num: *dev_num,
            },
            Lookup::SubsystemSysname { subsystem, sysname } => LookupView::SubsystemSysname {
                subsystem: subsystem@,
                sysname: sysname@,
            },
            Lookup::DeviceId(id) => LookupView::DeviceId(id@),
            Lookup::Environment => LookupView::Environment,
        }
    }
}

/// The name `DEVPATH`.
pub open spec fn devpath_key() -> Seq<u8> {
    ascii("DEVPATH"@)
}

/// The name `SUBSYSTEM`.
pub open spec fn subsystem_key() -> Seq<u8> {
    ascii("SUBSYSTEM"@)
}

/// The name `ACTION`.
pub open spec fn action_key() -> Seq<u8> {
    ascii("ACTION"@)
}

/// The name `SEQNUM`.
pub open spec fn seqnum_key() -> Seq<u8> {
    ascii("SEQNUM"@)
}

/// Whether an environment can stand for an event: it names the device's
/// path, its subsystem, what happened to it and the event's number.
pub open spec fn names_an_event(env: Seq<(Seq<u8>, Seq<u8>)>) -> bool {
    &&& lookup(env, devpath_key()).is_some()
    &&& lookup(env, subsystem_key()).is_some()
    &&& lookup(env, action_key()).is_some()
    &&& lookup(env, seqnum_key()).is_some()
}

/// A connection to the device database. Everything else is made through one
/// and keeps a copy of it.
#[derive(Debug, Clone, Copy, PartialEq, Eq, Structural)]
pub struct Context {
    handle: Handle,
}

impl Context {
    /// The foreign handle of the connection.
    pub closed spec fn spec_handle(self) -> Handle {
        self.handle
    }

    /// Takes up the connection that the foreign layer opened. `addr` is the
    /// handle it returned and `errno` the platform error number read after the
    /// call. A null handle means that no connection could be made.
    pub fn new(addr: usize, errno: i32) -> (r: Result<Context, Error>)
        ensures
            match r {
                Ok(c) => addr != 0 && c.spec_handle().spec_addr() == addr,
                Err(e) => addr == 0 && e == (Error::Allocation { errno }),
            },
    {
        match try_alloc(Handle::new(addr), errno) {
            Ok(handle) => Ok(Context::from_raw(handle)),
            Err(e) => Err(e),
        }
    }

    /// The connection behind a handle.
    pub fn from_raw(handle: Handle) -> (r: Context)
        ensures
            r.spec_handle() == handle,
    {
        Context { handle }
    }

    /// The foreign handle of the connection.
    pub fn handle(&self) -> (r: Handle)
        ensures
            r == self.spec_handle(),
    {
        self.handle
    }

    /// Asks for the device at a path below the device file system. A path
    /// that holds a zero byte is refused.
    pub fn device_from_syspath(&self, syspath: &[u8]) -> (r: Result<Lookup, Error>)
        ensures
            match r {
                Ok(l) => !has_nul(syspath@) && l@ == LookupView::Syspath(syspath@),
                Err(e) => has_nul(syspath@) && e == Error::InvalidInput,
            },
    {
        match os_str_to_cstring(syspath) {
            Ok(p) => Ok(Lookup::Syspath(p)),
            Err(e) => Err(e),
        }
    }

    /// Asks for the device of a kind with a device number.
    pub fn device_from_devnum(&self, dev_type: DeviceType, dev_num: u64) -> (r: Lookup)
        ensures
            r@ == (LookupView::Devnum { dev_type, dev_num }),
    {
        Lookup::Devnum { dev_type, dev_num }
    }

    /// Asks for the device of a subsystem with a kernel name. A string that
    /// holds a zero byte is refused.
    pub fn device_from_subsystem_sysname(&self, subsystem: &[u8], sysname: &[u8]) -> (r: Result<
        Lookup,
        Error,
    >)
        ensures
            match r {
                Ok(l) => !has_nul(subsystem@) && !has_nul(sysname@) && l@ == (
                LookupView::SubsystemSysname { subsystem: subsystem@, sysname: sysname@ }),
                Err(e) => (has_nul(subsystem@) || has_nul(sysname@)) && e == Error::InvalidInput,
            },
    {
        let (subsystem, sysname) = match os_strs_to_cstrings(subsystem, sysname) {
            Ok(p) => p,
            Err(e) => {
                return Err(e);
            },
        };
        Ok(Lookup::SubsystemSysname { subsystem, sysname })
    }

    /// Asks for the device that a device id names. An id that holds a zero
    /// byte is refused; whether the id has one of the known forms is for the
    /// foreign layer to say.
    pub fn device_from_device_id(&self, device_id: &[u8]) -> (r: Result<Lookup, Error>)
        ensures
            match r {
                Ok(l) => !has_nul(device_id@) && l@ == LookupView::DeviceId(device_id@),
                Err(e) => has_nul(device_id@) && e == Error::InvalidInput,
            },
    {
        match os_str_to_cstring(device_id) {
            Ok(id) => Ok(Lookup::DeviceId(id)),
            Err(e) => Err(e),
        }
    }

    /// Asks for the device that the event in the process's environment is
    /// about. `env` is that environment. Where it lacks one of the four names
    /// that every event has, there is no such device, and the error carries
    /// the number for an invalid argument.
    pub fn device_from_environment(&self, env: &Vec<Entry>) -> (r: Result<Lookup, Error>)
        ensures
            match r {
                Ok(l) => names_an_event(entries_view(env@)) && l@ == LookupView::Environment,
                Err(e) => !names_an_event(entries_view(env@)) && e == (Error::Allocation {
                    errno: Error::InvalidInput.spec_errno(),
                }),
            },
    {
        let devpath = "DEVPATH".as_bytes();
        let subsystem = "SUBSYSTEM".as_bytes();
        let action = "ACTION".as_bytes();
        let seqnum = "SEQNUM".as_bytes();
        proof {
            broadcast use vstd::string::is_ascii_spec_bytes;

            reveal_strlit("DEVPATH");
            reveal_strlit("SUBSYSTEM");
            reveal_strlit("ACTION");
            reveal_strlit("SEQNUM");
            assert(is_ascii("DEVPATH") && is_ascii("SUBSYSTEM"));
            assert(is_ascii("ACTION") && is_ascii("SEQNUM"));
            assert(devpath@ =~= devpath_key());
            assert(subsystem@ =~= subsystem_key());
            assert(action@ =~= action_key());
            assert(seqnum@ =~= seqnum_key());
        }
        let named = if find_value(env, devpath).is_some() && find_value(env, subsystem).is_some()
            && find_value(env, action).is_some() && find_value(env, seqnum).is_some() {
            Some(Lookup::Environment)
        } else {
            None
        };
        try_alloc(named, Error::InvalidInput.errno())
    }

    /// Takes up the answer to a lookup. `found` is the record of the device
    /// that the foreign layer found, if it found one, and `errno` the platform
    /// error number read after the call.
    pub fn device(&self, found: Option<DeviceRecord>, errno: i32) -> (r: Result<Device, Error>)
        ensures
            match r {
                Ok(d) => found.is_some() && d@ == found.unwrap()@ && d.spec_context() == *self,
                Err(e) => found.is_none() && e == (Error::Allocation { errno }),
            },
    {
        match try_alloc(found, errno) {
            Ok(record) => Ok(Device::from_raw(self, record)),
            Err(e) => Err(e),
        }
    }
}

/// A device that was found by its path reads back that path: where the
/// foreign layer answers a lookup by path with the device at the path that it
/// was handed, the device's path is the one that was asked for, byte for
/// byte.
pub proof fn lemma_syspath_reads_back(
    context: &Context,
    path: &[u8],
    lookup: Lookup,
    record: DeviceRecord,
    errno: i32,
    device: Device,
    back: &[u8],
)
    requires
        call_ensures(Context::device_from_syspath, (context, path), Ok(lookup)),
        lookup matches Lookup::Syspath(handed) && record@.syspath == c_str_bytes(handed@.push(0)),
        call_ensures(Context::device, (context, Some(record), errno), Ok(device)),
        call_ensures(Device::syspath, (&device,), back),
    ensures
        back@ == path@,
{
    lemma_c_str_of_terminated(path@);
}

} // verus!
