//! The bounded registry of driver descriptors, keyed by driver id.
use vstd::prelude::*;

use crate::driver::descriptor::DriverDescriptor;
use crate::error::{HalError, HalResult};

verus! {

/// Capacity of a registry made by `new`.
pub const MAX_DRIVERS: usize = 256;

/// Whether some descriptor of `drivers` carries `id`.
pub open spec fn has_driver<E>(drivers: Seq<DriverDescriptor<E>>, id: u32) -> bool {
    exists|i: int| 0 <= i < drivers.len() && #[trigger] drivers[i].driver_id == id
}

/// Outcome of registering `d` into `drivers` with room for `capacity`:
/// validation first, then room, then uniqueness of the id.
pub open spec fn register_outcome<E>(
    drivers: Seq<DriverDescriptor<E>>,
    capacity: nat,
    d: DriverDescriptor<E>,
) -> HalResult<()> {
    if !d.well_formed() {
        Err(HalError::InvalidArg)
    } else if drivers.len() >= capacity {
        Err(HalError::NoMemory)
    } else if has_driver(drivers, d.driver_id) {
        Err(HalError::DeviceBusy)
    } else {
        Ok(())
    }
}

/// Whether a descriptor's priority reaches `min_priority`.
pub open spec fn reaches<E>(min_priority: u32) -> spec_fn(DriverDescriptor<E>) -> bool {
    |d: DriverDescriptor<E>| d.priority >= min_priority
}

/// The registered descriptors in order of registration.
pub struct DriverRegistry<E> {
    drivers: Vec<DriverDescriptor<E>>,
    capacity: usize,
}

impl<E> View for DriverRegistry<E> {
    type V = Seq<DriverDescriptor<E>>;

    closed spec fn view(&self) -> Seq<DriverDescriptor<E>> {
        self.drivers@
    }
}

impl<E: Copy> DriverRegistry<E> {
    /// The most descriptors the registry holds.
    pub closed spec fn capacity(&self) -> nat {
        self.capacity as nat
    }

    /// Within capacity, every descriptor well formed, ids unique.
    pub open spec fn wf(&self) -> bool {
        &&& self@.len() <= self.capacity()
        &&& forall|i: int| 0 <= i < self@.len() ==> #[trigger] self@[i].well_formed()
        &&& forall|i: int, j: int|
            0 <= i < self@.len() && 0 <= j < self@.len() && i != j ==> #[trigger] self@[i].driver_id
                != #[trigger] self@[j].driver_id
    }

    /// An empty registry of the default capacity.
    pub fn new() -> (r: DriverRegistry<E>)
        ensures
            r.wf(),
            r@.len() == 0,
            r.capacity() == MAX_DRIVERS,
    {
        DriverRegistry::with_capacity(MAX_DRIVERS)
    }

    /// An empty registry that holds at most `capacity` descriptors.
    pub fn with_capacity(capacity: usize) -> (r: DriverRegistry<E>)
        ensures
            r.wf(),
            r@.len() == 0,
            r.capacity() == capacity,
    {
        DriverRegistry { drivers: Vec::new(), capacity }
    }

    /// Slot of the descriptor carrying `driver_id`.
    fn position_of(&self, driver_id: u32) -> (r: Option<usize>)
        ensures
            r matches Some(i) ==> i < self@.len() && self@[i as int].driver_id == driver_id,
            r is None ==> !has_driver(self@, driver_id),
    {
        let mut i: usize = 0;
        while i < self.drivers.len()
            invariant
                i <= self.drivers@.len(),
                forall|k: int| 0 <= k < i ==> #[trigger] self.drivers@[k].driver_id != driver_id,
            decreases self.drivers@.len() - i,
        {
            if self.drivers[i].driver_id == driver_id {
                return Some(i);
            }
            i = i + 1;
        }
        None
    }

    /// Registers a copy of `descriptor`: `InvalidArg` when it is not well
    /// formed, `NoMemory` when the registry is full, `DeviceBusy` when its id
    /// is already registered.
    pub fn register(&mut self, descriptor: &DriverDescriptor<E>) -> (r: HalResult<()>)
        requires
            old(self).wf(),
        ensures
            final(self).wf(),
            final(self).capacity() == old(self).capacity(),
            r == register_outcome(old(self)@, old(self).capacity(), *descriptor),
            r is Ok ==> final(self)@ == old(self)@.push(*descriptor),
            r is Err ==> final(self)@ == old(self)@,
    {
        descriptor.validate()?;
        if self.drivers.len() >= self.capacity {
            return Err(HalError::NoMemory);
        }
        if self.position_of(descriptor.driver_id).is_some() {
            return Err(HalError::DeviceBusy);
        }
        self.drivers.push(*descriptor);
        proof {
            let n = old(self)@.len() as int;
            assert forall|i: int| 0 <= i < self@.len() implies #[trigger] self.drivers@[i].well_formed() by {
                if i < n {
                    assert(self.drivers@[i] == old(self).drivers@[i]);
                }
            }
            assert forall|i: int, j: int|
                0 <= i < self.drivers@.len() && 0 <= j < self.drivers@.len() && i != j
                    implies #[trigger] self.drivers@[i].driver_id != #[trigger] self.drivers@[j].driver_id by {
                if i < n && j < n {
                    assert(self.drivers@[i] == old(self).drivers@[i]);
                    assert(self.drivers@[j] == old(self).drivers@[j]);
                } else if i < n {
                    assert(self.drivers@[i] == old(self).drivers@[i]);
                } else {
                    assert(self.drivers@[j] == old(self).drivers@[j]);
                }
            }
        }
        Ok(())
    }

    /// Removes the descriptor carrying `driver_id`, keeping the order of the
    /// others; `InvalidArg` when there is none.
    pub fn unregister(&mut self, driver_id: u32) -> (r: HalResult<()>)
        requires
            old(self).wf(),
        ensures
            final(self).wf(),
            final(self).capacity() == old(self).capacity(),
            r is Ok <==> has_driver(old(self)@, driver_id),
            r is Ok ==> exists|i: int|
                0 <= i < old(self)@.len() && old(self)@[i].driver_id == driver_id
                    && final(self)@ == old(self)@.remove(i),
            r is Ok ==> !has_driver(final(self)@, driver_id),
            r is Err ==> r == Err::<(), HalError>(HalError::InvalidArg) && final(self)@ == old(self)@,
    {
        match self.position_of(driver_id) {
            None => Err(HalError::InvalidArg),
            Some(pos) => {
                self.drivers.remove(pos);
                proof {
                    let o = old(self).drivers@;
                    let p = pos as int;
                    assert forall|i: int| 0 <= i < self@.len() implies #[trigger] self.drivers@[i].well_formed() by {
                        if i < p {
                            assert(self.drivers@[i] == o[i]);
                        } else {
                            assert(self.drivers@[i] == o[i + 1]);
                        }
                    }
                    assert forall|i: int, j: int|
                        0 <= i < self.drivers@.len() && 0 <= j < self.drivers@.len() && i != j
                            implies #[trigger] self.drivers@[i].driver_id != #[trigger] self.drivers@[j].driver_id by {
                        let oi = if i < p { i } else { i + 1 };
                        let oj = if j < p { j } else { j + 1 };
                        assert(self.drivers@[i] == o[oi]);
                        assert(self.drivers@[j] == o[oj]);
                    }
                    assert forall|i: int| 0 <= i < self@.len() implies #[trigger] self@[i].driver_id != driver_id by {
                        let oi = if i < p { i } else { i + 1 };
                        assert(self.drivers@[i] == o[oi]);
                    }
                }
                Ok(())
            },
        }
    }

    /// The descriptor carrying `driver_id`, if one is registered.
    pub fn find(&self, driver_id: u32) -> (r: Option<&DriverDescriptor<E>>)
        ensures
            r is Some <==> has_driver(self@, driver_id),
            r matches Some(d) ==> d.driver_id == driver_id && self@.contains(*d),
            self.wf() ==> (r matches Some(d) ==> forall|i: int|
                0 <= i < self@.len() && #[trigger] self@[i].driver_id == driver_id ==> self@[i] == *d),
            self.wf() && driver_id == 0 ==> r is None,
    {
        match self.position_of(driver_id) {
            None => None,
            Some(i) => {
                proof {
                    if self.wf() {
                        assert(self@[i as int].well_formed());
                    }
                }
                Some(&self.drivers[i])
            },
        }
    }

    /// Every registered descriptor whose priority is at least
    /// `min_priority`, in order of registration.
    pub fn get_by_priority(&self, min_priority: u32) -> (r: Vec<&DriverDescriptor<E>>)
        ensures
            r@.map_values(|d: &DriverDescriptor<E>| *d) == self@.filter(reaches(min_priority)),
    {
        let mut out: Vec<&DriverDescriptor<E>> = Vec::new();
        let mut i: usize = 0;
        while i < self.drivers.len()
            invariant
                i <= self.drivers@.len(),
                out@.map_values(|d: &DriverDescriptor<E>| *d) == self@.take(i as int).filter(
                    reaches(min_priority),
                ),
            decreases self.drivers@.len() - i,
        {
            let d = &self.drivers[i];
            proof {
                assert(self@.take(i as int + 1).drop_last() =~= self@.take(i as int));
                reveal(Seq::filter);
            }
            if d.priority >= min_priority {
                out.push(d);
                assert(out@.map_values(|d: &DriverDescriptor<E>| *d) =~= self@.take(i as int).filter(
                    reaches(min_priority),
                ).push(*d));
            }
            i = i + 1;
        }
        assert(self@.take(self@.len() as int) =~= self@);
        out
    }
}

/// A descriptor with id zero, or without a probe entry point, is refused
/// with `InvalidArg`, whatever the registry holds.
pub proof fn lemma_invalid_descriptor_refused<E>(
    drivers: Seq<DriverDescriptor<E>>,
    capacity: nat,
    d: DriverDescriptor<E>,
)
    ensures
        d.driver_id == 0 ==> register_outcome(drivers, capacity, d) == Err::<(), HalError>(
            HalError::InvalidArg,
        ),
        d.probe is None ==> register_outcome(drivers, capacity, d) == Err::<(), HalError>(
            HalError::InvalidArg,
        ),
{
}

/// Once a descriptor is registered, registering a well-formed descriptor
/// with the same id is refused with `DeviceBusy`, provided the first
/// registration left room (a full registry answers `NoMemory` first).
pub proof fn lemma_second_registration_busy<E>(
    drivers: Seq<DriverDescriptor<E>>,
    capacity: nat,
    d: DriverDescriptor<E>,
    again: DriverDescriptor<E>,
)
    requires
        register_outcome(drivers, capacity, d) is Ok,
        drivers.len() + 1 < capacity,
        again.well_formed(),
        again.driver_id == d.driver_id,
    ensures
        register_outcome(drivers.push(d), capacity, again) == Err::<(), HalError>(
            HalError::DeviceBusy,
        ),
{
    assert(drivers.push(d)[drivers.len() as int].driver_id == again.driver_id);
}

/// The priority query selects exactly the registered descriptors whose
/// priority reaches the bound: all of them for bound zero, none for a bound
/// above every registered priority.
pub proof fn lemma_priority_selection<E>(drivers: Seq<DriverDescriptor<E>>, min_priority: u32)
    ensures
        forall|d: DriverDescriptor<E>|
            #[trigger] drivers.filter(reaches(min_priority)).contains(d) <==> drivers.contains(d)
                && d.priority >= min_priority,
        min_priority == 0 ==> drivers.filter(reaches(min_priority)) == drivers,
        (forall|i: int| 0 <= i < drivers.len() ==> #[trigger] drivers[i].priority < min_priority)
            ==> drivers.filter(reaches(min_priority)).len() == 0,
{
    broadcast use vstd::seq_lib::group_filter_ensures;

    assert forall|d: DriverDescriptor<E>|
        #[trigger] drivers.filter(reaches(min_priority)).contains(d) <==> drivers.contains(d)
            && d.priority >= min_priority by {
        if drivers.filter(reaches(min_priority)).contains(d) {
            drivers.lemma_filter_contains_rev(reaches(min_priority), d);
            let k = choose|k: int|
                0 <= k < drivers.filter(reaches(min_priority)).len()
                    && drivers.filter(reaches(min_priority))[k] == d;
            assert(reaches::<E>(min_priority)(drivers.filter(reaches(min_priority))[k]));
        }
        if drivers.contains(d) && d.priority >= min_priority {
            let k = choose|k: int| 0 <= k < drivers.len() && drivers[k] == d;
            assert(reaches::<E>(min_priority)(drivers[k]));
        }
    }
    if min_priority == 0 {
        lemma_filter_keeps_all(drivers, min_priority);
    }
    if forall|i: int| 0 <= i < drivers.len() ==> #[trigger] drivers[i].priority < min_priority {
        assert(drivers.all(|x: DriverDescriptor<E>| !reaches::<E>(min_priority)(x)));
        drivers.lemma_all_neg_filter_empty(reaches(min_priority));
    }
}

proof fn lemma_filter_keeps_all<E>(drivers: Seq<DriverDescriptor<E>>, min_priority: u32)
    requires
        forall|i: int| 0 <= i < drivers.len() ==> #[trigger] drivers[i].priority >= min_priority,
    ensures
        drivers.filter(reaches(min_priority)) == drivers,
    decreases drivers.len(),
{
    reveal(Seq::filter);
    if drivers.len() > 0 {
        let rest = drivers.drop_last();
        lemma_filter_keeps_all(rest, min_priority);
        assert(rest.push(drivers.last()) =~= drivers);
    }
}

/// Registering a descriptor, unregistering its id, then registering it
/// again succeeds: removal leaves no trace of the id.
pub proof fn lemma_register_round_trip<E>(
    drivers: Seq<DriverDescriptor<E>>,
    capacity: nat,
    d: DriverDescriptor<E>,
    removed_at: int,
)
    requires
        register_outcome(drivers, capacity, d) is Ok,
        0 <= removed_at < drivers.len() + 1,
        drivers.push(d)[removed_at].driver_id == d.driver_id,
    ensures
        drivers.push(d).remove(removed_at) == drivers,
        register_outcome(drivers.push(d).remove(removed_at), capacity, d) is Ok,
{
    if removed_at < drivers.len() {
        assert(drivers[removed_at].driver_id == d.driver_id);
    }
    assert(drivers.push(d).remove(removed_at) =~= drivers);
}

} // verus!
