//! The enumerator: filters for a scan, then a walk over what the scan found.

use vstd::prelude::*;
use crate::context::{Context, Lookup, LookupView};
use crate::device::{
    opt_device_view,
    opt_record_view,
    strings_view,
    Device,
    DeviceRecord,
    DeviceView,
};
use crate::error::{try_alloc, Error, Handle};
use crate::util::{
    c_str_bytes,
    clone_bytes,
    errno_to_result,
    has_nul,
    lemma_c_str_len,
    os_str_to_cstring,
    os_strs_to_cstrings,
    ptr_to_os_str_unchecked,
    spec_errno_to_result,
    CString,
};

verus! {

/// A condition on the devices that a scan finds.
#[derive(Debug, PartialEq, Eq)]
pub enum Filter {
    /// The device has been set up by the device manager.
    IsInitialized,
    /// The device belongs to a subsystem.
    Subsystem(CString),
    /// The device has an attribute with a value.
    Attribute { name: CString, value: CString },
    /// The device has a kernel name.
    Sysname(CString),
    /// The device has a property with a value.
    Property { name: CString, value: CString },
    /// The device carries a tag.
    Tag(CString),
    /// The device is the one at a path or lies below it.
    Parent(Vec<u8>),
    /// The device at a path, whatever else is asked.
    Syspath(CString),
    /// The device does not belong to a subsystem.
    NoSubsystem(CString),
    /// The device has no attribute with a value.
    NoAttribute { name: CString, value: CString },
}

/// A condition of a scan as a mathematical value.
pub enum FilterView {
    IsInitialized,
    Subsystem(Seq<u8>),
    Attribute { name: Seq<u8>, value: Seq<u8> },
    Sysname(Seq<u8>),
    Property { name: Seq<u8>, value: Seq<u8> },
    Tag(Seq<u8>),
    Parent(Seq<u8>),
    Syspath(Seq<u8>),
    NoSubsystem(Seq<u8>),
    NoAttribute { name: Seq<u8>, value: Seq<u8> },
}

impl View for Filter {
    type V = FilterView;

    open spec fn view(&self) -> FilterView {
        match self {
            Filter::IsInitialized => FilterView::IsInitialized,
            Filter::Subsystem(s) => FilterView::Subsystem(s@),
            Filter::Attribute { name, value } => FilterView::Attribute {
                name: name@,
                value: value@,
            },
            Filter::Sysname(s) => FilterView::Sysname(s@),
            Filter::Property { name, value } => FilterView::Property {
                name: name@,
                value: value@,
            },
            Filter::Tag(t) => FilterView::Tag(t@),
            Filter::Parent(p) => FilterView::Parent(p@),
            Filter::Syspath(p) => FilterView::Syspath(p@),
            Filter::NoSubsystem(s) => FilterView::NoSubsystem(s@),
            Filter::NoAttribute { name, value } => FilterView::NoAttribute {
                name: name@,
                value: value@,
            },
        }
    }
}

impl Clone for Filter {
    fn clone(&self) -> (r: Self)
        ensures
            r@ == self@,
    {
        match self {
            Filter::IsInitialized => Filter::IsInitialized,
            Filter::Subsystem(s) => Filter::Subsystem(s.clone()),
            Filter::Attribute { name, value } => Filter::Attribute {
                name: name.clone(),
                value: value.clone(),
            },
            Filter::Sysname(s) => Filter::Sysname(s.clone()),
            Filter::Property { name, value } => Filter::Property {
                name: name.clone(),
                value: value.clone(),
            },
            Filter::Tag(t) => Filter::Tag(t.clone()),
            Filter::Parent(p) => Filter::Parent(clone_bytes(p.as_slice())),
            Filter::Syspath(p) => Filter::Syspath(p.clone()),
            Filter::NoSubsystem(s) => Filter::NoSubsystem(s.clone()),
            Filter::NoAttribute { name, value } => Filter::NoAttribute {
                name: name.clone(),
                value: value.clone(),
            },
        }
    }
}

/// The views of a list of conditions, in the list's order.
pub open spec fn filters_view(v: Seq<Filter>) -> Seq<FilterView> {
    Seq::new(v.len(), |i: int| v[i]@)
}

/// An enumerator as a mathematical value: its foreign handle, its connection
/// and the conditions that were added to it, oldest first.
pub struct EnumeratorView {
    pub handle: Handle,
    pub context: Context,
    pub filters: Seq<FilterView>,
}

/// Collects conditions and then scans the device tree for the devices that
/// meet them.
pub struct Enumerator {
    handle: Handle,
    context: Context,
    filters: Vec<Filter>,
}

impl View for Enumerator {
    type V = EnumeratorView;

    closed spec fn view(&self) -> EnumeratorView {
        EnumeratorView {
            handle: self.handle,
            context: self.context,
            filters: filters_view(self.filters@),
        }
    }
}

impl Clone for Enumerator {
    fn clone(&self) -> (r: Self)
        ensures
            r@ == self@,
    {
        let mut filters: Vec<Filter> = Vec::new();
        let mut i: usize = 0;
        while i < self.filters.len()
            invariant
                0 <= i <= self.filters.len(),
                filters@.len() == i,
                forall|k: int| 0 <= k < i ==> filters@[k]@ == self.filters@[k]@,
            decreases self.filters.len() - i,
        {
            let f = self.filters[i].clone();
            filters.push(f);
            i += 1;
        }
        proof {
            assert(filters_view(filters@) =~= filters_view(self.filters@));
        }
        Enumerator { handle: self.handle, context: self.context, filters }
    }
}

impl Enumerator {
    /// Takes up the enumerator that the foreign layer made on a connection.
    /// `addr` is the handle it returned and `errno` the platform error number
    /// read after the call. The enumerator starts without conditions.
    pub fn new(context: &Context, addr: usize, errno: i32) -> (r: Result<Enumerator, Error>)
        ensures
            match r {
                Ok(en) => addr != 0 && en@.handle.spec_addr() == addr && en@.context == *context
                    && en@.filters == Seq::<FilterView>::empty(),
                Err(e) => addr == 0 && e == (Error::Allocation { errno }),
            },
    {
        match try_alloc(Handle::new(addr), errno) {
            Ok(handle) => Ok(Enumerator::from_raw(context, handle)),
            Err(e) => Err(e),
        }
    }

    /// The enumerator behind a handle, tied to its connection and without
    /// conditions.
    pub fn from_raw(context: &Context, handle: Handle) -> (r: Enumerator)
        ensures
            r@.handle == handle,
            r@.context == *context,
            r@.filters == Seq::<FilterView>::empty(),
    {
        let en = Enumerator { handle, context: *context, filters: Vec::new() };
        proof {
            assert(en@.filters =~= Seq::<FilterView>::empty());
        }
        en
    }

    /// The conditions that were added, oldest first.
    pub fn filters(&self) -> (r: &Vec<Filter>)
        ensures
            filters_view(r@) == self@.filters,
    {
        &self.filters
    }

    /// The foreign handle of the enumerator.
    pub fn handle(&self) -> (r: Handle)
        ensures
            r == self@.handle,
    {
        self.handle
    }

    /// The connection that the enumerator was made on.
    pub fn context(&self) -> (r: Context)
        ensures
            r == self@.context,
    {
        self.context
    }

    /// The condition that a device has been set up.
    pub fn match_is_initialized(&self) -> (r: Filter)
        ensures
            r@ == FilterView::IsInitialized,
    {
        Filter::IsInitialized
    }

    /// The condition that a device belongs to a subsystem. A name that holds
    /// a zero byte is refused.
    pub fn match_subsystem(&self, subsystem: &[u8]) -> (r: Result<Filter, Error>)
        ensures
            match r {
                Ok(f) => !has_nul(subsystem@) && f@ == FilterView::Subsystem(subsystem@),
                Err(e) => has_nul(subsystem@) && e == Error::InvalidInput,
            },
    {
        match os_str_to_cstring(subsystem) {
            Ok(s) => Ok(Filter::Subsystem(s)),
            Err(e) => Err(e),
        }
    }

    /// The condition that a device has an attribute with a value. A string
    /// that holds a zero byte is refused.
    pub fn match_attribute(&self, attribute: &[u8], value: &[u8]) -> (r: Result<Filter, Error>)
        ensures
            match r {
                Ok(f) => !has_nul(attribute@) && !has_nul(value@) && f@ == (FilterView::Attribute {
                    name: attribute@,
                    value: value@,
                }),
                Err(e) => (has_nul(attribute@) || has_nul(value@)) && e == Error::InvalidInput,
            },
    {
        match os_strs_to_cstrings(attribute, value) {
            Ok(p) => Ok(Filter::Attribute { name: p.0, value: p.1 }),
            Err(e) => Err(e),
        }
    }

    /// The condition that a device has a kernel name. A name that holds a
    /// zero byte is refused.
    pub fn match_sysname(&self, sysname: &[u8]) -> (r: Result<Filter, Error>)
        ensures
            match r {
                Ok(f) => !has_nul(sysname@) && f@ == FilterView::Sysname(sysname@),
                Err(e) => has_nul(sysname@) && e == Error::InvalidInput,
            },
    {
        match os_str_to_cstring(sysname) {
            Ok(s) => Ok(Filter::Sysname(s)),
            Err(e) => Err(e),
        }
    }

    /// The condition that a device has a property with a value. A string that
    /// holds a zero byte is refused.
    pub fn match_property(&self, property: &[u8], value: &[u8]) -> (r: Result<Filter, Error>)
        ensures
            match r {
                Ok(f) => !has_nul(property@) && !has_nul(value@) && f@ == (FilterView::Property {
                    name: property@,
                    value: value@,
                }),
                Err(e) => (has_nul(property@) || has_nul(value@)) && e == Error::InvalidInput,
            },
    {
        match os_strs_to_cstrings(property, value) {
            Ok(p) => Ok(Filter::Property { name: p.0, value: p.1 }),
            Err(e) => Err(e),
        }
    }

    /// The condition that a device carries a tag. A tag that holds a zero
    /// byte is refused.
    pub fn match_tag(&self, tag: &[u8]) -> (r: Result<Filter, Error>)
        ensures
            match r {
                Ok(f) => !has_nul(tag@) && f@ == FilterView::Tag(tag@),
                Err(e) => has_nul(tag@) && e == Error::InvalidInput,
            },
    {
        match os_str_to_cstring(tag) {
            Ok(t) => Ok(Filter::Tag(t)),
            Err(e) => Err(e),
        }
    }

    /// The condition that a device is the given one or lies below it.
    pub fn match_parent(&self, parent: &Device) -> (r: Filter)
        ensures
            r@ == FilterView::Parent(parent@.syspath),
    {
        let copy = clone_bytes(parent.syspath());
        Filter::Parent(copy)
    }

    /// The condition that a device does not belong to a subsystem. A name
    /// that holds a zero byte is refused.
    pub fn nomatch_subsystem(&self, subsystem: &[u8]) -> (r: Result<Filter, Error>)
        ensures
            match r {
                Ok(f) => !has_nul(subsystem@) && f@ == FilterView::NoSubsystem(subsystem@),
                Err(e) => has_nul(subsystem@) && e == Error::InvalidInput,
            },
    {
        match os_str_to_cstring(subsystem) {
            Ok(s) => Ok(Filter::NoSubsystem(s)),
            Err(e) => Err(e),
        }
    }

    /// The condition that a device has no attribute with a value. A string
    /// that holds a zero byte is refused.
    pub fn nomatch_attribute(&self, attribute: &[u8], value: &[u8]) -> (r: Result<Filter, Error>)
        ensures
            match r {
                Ok(f) => !has_nul(attribute@) && !has_nul(value@) && f@ == (
                FilterView::NoAttribute { name: attribute@, value: value@ }),
                Err(e) => (has_nul(attribute@) || has_nul(value@)) && e == Error::InvalidInput,
            },
    {
        match os_strs_to_cstrings(attribute, value) {
            Ok(p) => Ok(Filter::NoAttribute { name: p.0, value: p.1 }),
            Err(e) => Err(e),
        }
    }

    /// The request to include the device at a path. A path that holds a zero
    /// byte is refused.
    pub fn add_syspath(&self, syspath: &[u8]) -> (r: Result<Filter, Error>)
        ensures
            match r {
                Ok(f) => !has_nul(syspath@) && f@ == FilterView::Syspath(syspath@),
                Err(e) => has_nul(syspath@) && e == Error::InvalidInput,
            },
    {
        match os_str_to_cstring(syspath) {
            Ok(p) => Ok(Filter::Syspath(p)),
            Err(e) => Err(e),
        }
    }

    /// Records a condition that was handed to the foreign layer. `status` is
    /// what the foreign layer answered: on zero the condition joins the list
    /// behind the others, on anything else the list stays as it was.
    pub fn add_filter(&mut self, filter: Filter, status: i32) -> (r: Result<(), Error>)
        ensures
            r == spec_errno_to_result(status),
            final(self)@.handle == old(self)@.handle,
            final(self)@.context == old(self)@.context,
            final(self)@.filters == if status == 0 {
                old(self)@.filters.push(filter@)
            } else {
                old(self)@.filters
            },
    {
        match errno_to_result(status) {
            Ok(()) => {
                self.filters.push(filter);
                proof {
                    assert(final(self)@.filters =~= old(self)@.filters.push(filter@));
                }
                Ok(())
            },
            Err(e) => Err(e),
        }
    }

    /// Takes up the outcome of a scan. `status` is what the foreign layer
    /// answered and `entries` the names in its result list, in the list's
    /// order, each as the foreign layer holds it. On a nonzero status there
    /// is nothing to walk; otherwise the walk starts at the first entry and
    /// keeps the order. The enumerator itself is the same afterwards.
    pub fn scan_devices(&mut self, status: i32, entries: Vec<Vec<u8>>) -> (r: Result<
        Devices,
        Error,
    >)
        ensures
            *final(self) == *old(self),
            match r {
                Ok(d) => status == 0 && d@.enumerator == old(self)@.handle && d@.context == old(
                    self,
                )@.context && d@.remaining == names(strings_view(entries@)),
                Err(e) => status != 0 && e == (Error::System { code: status }),
            },
    {
        match errno_to_result(status) {
            Ok(()) => {
                let d = Devices {
                    enumerator: self.handle,
                    context: self.context,
                    entries,
                    cursor: 0,
                };
                proof {
                    assert(strings_view(entries@).skip(0) =~= strings_view(entries@));
                }
                Ok(d)
            },
            Err(e) => Err(e),
        }
    }
}

/// The paths that a result list names: of each entry the C string that
/// starts it.
pub open spec fn names(entries: Seq<Seq<u8>>) -> Seq<Seq<u8>> {
    Seq::new(entries.len(), |i: int| c_str_bytes(entries[i]))
}

/// A walk as a mathematical value: the enumerator and the connection that it
/// belongs to, and the paths still to come, next one first.
pub struct DevicesView {
    pub enumerator: Handle,
    pub context: Context,
    pub remaining: Seq<Seq<u8>>,
}

impl DevicesView {
    /// One step of the walk. `found` is what the lookup for the next path
    /// found. The step moves past that path and yields what was found; at
    /// the end of the list it moves nothing and yields nothing.
    pub open spec fn step(self, found: Option<DeviceView>) -> (DevicesView, Option<DeviceView>) {
        if self.remaining.len() > 0 {
            (
                DevicesView {
                    enumerator: self.enumerator,
                    context: self.context,
                    remaining: self.remaining.skip(1),
                },
                found,
            )
        } else {
            (self, None)
        }
    }

    /// The devices that the walk yields, in the order in which it yields
    /// them, when its lookups are answered by `answers`, one for each step.
    pub open spec fn walk(self, answers: Seq<Option<DeviceView>>) -> Seq<DeviceView>
        decreases answers.len(),
    {
        if answers.len() == 0 {
            Seq::empty()
        } else {
            let (rest, found) = self.step(answers[0]);
            match found {
                Some(d) => seq![d] + rest.walk(answers.skip(1)),
                None => rest.walk(answers.skip(1)),
            }
        }
    }
}

/// A walk yields nothing but what its lookups found: each device that it
/// yields is the answer to one of them.
pub proof fn lemma_walk_yields_what_was_found(
    start: DevicesView,
    answers: Seq<Option<DeviceView>>,
    k: int,
)
    requires
        0 <= k < start.walk(answers).len(),
    ensures
        exists|i: int| 0 <= i < answers.len() && answers[i] == Some(start.walk(answers)[k]),
    decreases answers.len(),
{
    let (rest, found) = start.step(answers[0]);
    let tail = answers.skip(1);
    let k_tail = if found.is_some() {
        k - 1
    } else {
        k
    };
    if found.is_some() && k == 0 {
        assert(answers[0] == Some(start.walk(answers)[k]));
    } else {
        lemma_walk_yields_what_was_found(rest, tail, k_tail);
        let i = choose|i: int| 0 <= i < tail.len() && tail[i] == Some(rest.walk(tail)[k_tail]);
        assert(answers[i + 1] == Some(start.walk(answers)[k]));
    }
}

/// Whatever holds of every device that the lookups found holds of every
/// device that the walk yields. So where the foreign layer's scan finds only
/// devices that meet the conditions added before it, the walk yields only
/// such devices.
pub proof fn lemma_walk_keeps_what_holds(
    start: DevicesView,
    answers: Seq<Option<DeviceView>>,
    holds: spec_fn(DeviceView) -> bool,
)
    requires
        forall|i: int| 0 <= i < answers.len() && answers[i].is_some() ==> holds(answers[i].unwrap()),
    ensures
        forall|k: int| 0 <= k < start.walk(answers).len() ==> holds(start.walk(answers)[k]),
{
    assert forall|k: int| 0 <= k < start.walk(answers).len() implies holds(
        start.walk(answers)[k],
    ) by {
        lemma_walk_yields_what_was_found(start, answers, k);
        let i = choose|i: int| 0 <= i < answers.len() && answers[i] == Some(start.walk(answers)[k]);
        assert(holds(answers[i].unwrap()));
    }
}

/// Whether the devices of a list stand in dependency order: none stands
/// before its parent, or in its parent's place.
pub open spec fn parents_first(devices: Seq<DeviceView>) -> bool {
    forall|child: int, parent: int|
        0 <= child < devices.len() && 0 <= parent < devices.len() && devices[child].parent == Some(
            devices[parent].syspath,
        ) ==> parent < child
}

/// Whether the devices found for a result list stand in dependency order.
pub open spec fn found_parents_first(answers: Seq<Option<DeviceView>>) -> bool {
    forall|child: int, parent: int|
        0 <= child < answers.len() && 0 <= parent < answers.len() && answers[child].is_some()
            && answers[parent].is_some() && answers[child].unwrap().parent == Some(
            answers[parent].unwrap().syspath,
        ) ==> parent < child
}

/// A walk keeps the order of the result list. So where the list is in
/// dependency order, every device that the walk yields comes after its
/// parent, if the walk yields the parent at all.
pub proof fn lemma_walk_keeps_parents_first(start: DevicesView, answers: Seq<Option<DeviceView>>)
    requires
        found_parents_first(answers),
    ensures
        parents_first(start.walk(answers)),
    decreases answers.len(),
{
    if answers.len() > 0 {
        let (rest, found) = start.step(answers[0]);
        let tail = answers.skip(1);
        let all = start.walk(answers);
        let later = rest.walk(tail);
        assert(found_parents_first(tail)) by {
            assert forall|child: int, parent: int|
                0 <= child < tail.len() && 0 <= parent < tail.len() && tail[child].is_some()
                    && tail[parent].is_some() && tail[child].unwrap().parent == Some(
                    tail[parent].unwrap().syspath,
                ) implies parent < child by {
                assert(answers[child + 1] == tail[child]);
                assert(answers[parent + 1] == tail[parent]);
            }
        }
        lemma_walk_keeps_parents_first(rest, tail);
        if found.is_some() {
            assert(found == answers[0]);
            assert forall|child: int, parent: int|
                0 <= child < all.len() && 0 <= parent < all.len() && all[child].parent == Some(
                    all[parent].syspath,
                ) implies parent < child by {
                if child == 0 && parent == 0 {
                    assert(answers[0].unwrap().parent == Some(answers[0].unwrap().syspath));
                } else if child == 0 {
                    lemma_walk_yields_what_was_found(rest, tail, parent - 1);
                    let i = choose|i: int|
                        0 <= i < tail.len() && tail[i] == Some(later[parent - 1]);
                    assert(answers[i + 1] == tail[i]);
                    assert(answers[0].unwrap().parent == Some(answers[i + 1].unwrap().syspath));
                } else if parent == 0 {
                } else {
                    assert(later[child - 1] == all[child]);
                    assert(later[parent - 1] == all[parent]);
                }
            }
        }
    }
}

/// A walk over the result of a scan. It goes through the list once, from
/// front to back, and cannot be started again.
pub struct Devices {
    enumerator: Handle,
    context: Context,
    entries: Vec<Vec<u8>>,
    cursor: usize,
}

impl View for Devices {
    type V = DevicesView;

    closed spec fn view(&self) -> DevicesView {
        DevicesView {
            enumerator: self.enumerator,
            context: self.context,
            remaining: names(strings_view(self.entries@).skip(self.cursor as int)),
        }
    }
}

impl Devices {
    #[verifier::type_invariant]
    spec fn in_range(self) -> bool {
        self.cursor <= self.entries@.len()
    }

    /// The lookup to make for the entry at which the walk stands, or nothing
    /// at the end of the list.
    pub fn pending(&self) -> (r: Option<Lookup>)
        ensures
            match r {
                Some(l) => self@.remaining.len() > 0 && l@ == LookupView::Syspath(
                    self@.remaining[0],
                ),
                None => self@.remaining.len() == 0,
            },
    {
        proof {
            use_type_invariant(self);
        }
        if self.cursor < self.entries.len() {
            let syspath = ptr_to_os_str_unchecked(self.entries[self.cursor].as_slice());
            proof {
                lemma_c_str_len(self.entries@[self.cursor as int]@);
            }
            match self.context.device_from_syspath(syspath) {
                Ok(l) => Some(l),
                Err(_) => {
                    proof {
                        assert(false);
                    }
                    unreached()
                },
            }
        } else {
            None
        }
    }

    /// Moves past the entry at which the walk stands. `found` is the record
    /// of the device that the lookup for it found, if it found one, and
    /// `errno` the platform error number read after the lookup. An entry whose
    /// device was found yields the device. One whose device was not found
    /// yields nothing and is passed over without a word; so is a call at the
    /// end of the list, which moves nothing.
    pub fn next(&mut self, found: Option<DeviceRecord>, errno: i32) -> (r: Option<Device>)
        ensures
            (final(self)@, opt_device_view(r)) == old(self)@.step(opt_record_view(found)),
            r.is_some() ==> r.unwrap().spec_context() == old(self)@.context,
    {
        proof {
            use_type_invariant(&*self);
        }
        if self.cursor >= self.entries.len() {
            return None;
        }
        self.cursor = self.cursor + 1;
        proof {
            let all = strings_view(old(self).entries@);
            assert(names(all.skip(old(self).cursor as int)).skip(1) =~= names(
                all.skip(old(self).cursor + 1),
            ));
        }
        match self.context.device(found, errno) {
            Ok(d) => Some(d),
            Err(_) => None,
        }
    }
}

} // verus!
