//! Memory-mapped devices: an ordered table of address ranges, each bound to
//! one device, through which device reads and writes are dispatched.
use vstd::prelude::*;

use crate::state::BridgeError;

verus! {

/// A memory-mapped device. Offsets are relative to the start of the range
/// that the device is bound to.
pub trait Device: Send + Sync {
    fn read(&mut self, offset: u64) -> u64;

    fn write(&mut self, offset: u64, value: u64);

    fn reset(&mut self);
}

/// True when `addr` lies in the half-open range `[r.0, r.1)`.
pub open spec fn range_contains(r: (u64, u64, usize), addr: u64) -> bool {
    r.0 <= addr < r.1
}

/// True when the two ranges share an address.
pub open spec fn ranges_overlap(a: (u64, u64, usize), b: (u64, u64, usize)) -> bool {
    a.0 < b.1 && b.0 < a.1
}

/// Where an access to `addr` goes: the device index of the range that holds
/// `addr` and the offset of `addr` in that range; `None` when no range holds it.
pub open spec fn route_of(ranges: Seq<(u64, u64, usize)>, addr: u64) -> Option<(usize, u64)> {
    if exists|k: int| 0 <= k < ranges.len() && range_contains(#[trigger] ranges[k], addr) {
        let k = choose|k: int| 0 <= k < ranges.len() && range_contains(#[trigger] ranges[k], addr);
        Some((ranges[k].2, (addr - ranges[k].0) as u64))
    } else {
        None
    }
}

/// True when `[start, end)` is non-empty and overlaps none of `ranges`.
pub open spec fn range_free(ranges: Seq<(u64, u64, usize)>, start: u64, end: u64) -> bool {
    &&& start < end
    &&& forall|k: int| 0 <= k < ranges.len() ==> !ranges_overlap(#[trigger] ranges[k], (start, end, 0))
}

/// Dispatches device accesses by address range. The host program uses it
/// with `D = dyn Device`.
pub struct DeviceManager<D: Device + ?Sized> {
    devices: Vec<Box<D>>,
    mmio_map: Vec<(u64, u64, usize)>,
}

impl<D: Device + ?Sized> DeviceManager<D> {
    /// The bound ranges, in registration order: start, end and device index.
    pub closed spec fn ranges(&self) -> Seq<(u64, u64, usize)> {
        self.mmio_map@
    }

    /// Number of registered devices.
    pub closed spec fn device_count(&self) -> nat {
        self.devices@.len()
    }

    /// Every range is non-empty, names a registered device, and no two
    /// ranges overlap.
    pub open spec fn wf(&self) -> bool {
        &&& forall|k: int| #![trigger self.ranges()[k]]
            0 <= k < self.ranges().len() ==> self.ranges()[k].0 < self.ranges()[k].1
                && self.ranges()[k].2 < self.device_count()
        &&& forall|j: int, k: int|
            0 <= j < self.ranges().len() && 0 <= k < self.ranges().len() && j != k
                ==> !ranges_overlap(#[trigger] self.ranges()[j], #[trigger] self.ranges()[k])
    }

    /// A manager with no devices.
    pub fn new() -> (r: DeviceManager<D>)
        ensures
            r.wf(),
            r.ranges() == Seq::<(u64, u64, usize)>::empty(),
            r.device_count() == 0,
    {
        DeviceManager { devices: Vec::new(), mmio_map: Vec::new() }
    }

    /// Binds `device` to `[start, end)`; `InvalidParameter`, and nothing
    /// bound, when the range is empty or overlaps a bound one.
    pub fn add_device(&mut self, start: u64, end: u64, device: Box<D>) -> (r: Result<
        usize,
        BridgeError,
    >)
        requires
            old(self).wf(),
        ensures
            final(self).wf(),
            r is Ok <==> range_free(old(self).ranges(), start, end),
            r matches Ok(i) ==> i == old(self).device_count() && final(self).ranges() == old(
                self,
            ).ranges().push((start, end, i)) && final(self).device_count() == old(self).device_count() + 1,
            r matches Err(e) ==> e == BridgeError::InvalidParameter && final(self).ranges() == old(
                self,
            ).ranges() && final(self).device_count() == old(self).device_count(),
    {
        if start >= end {
            return Err(BridgeError::InvalidParameter);
        }
        let mut k: usize = 0;
        while k < self.mmio_map.len()
            invariant
                self.wf(),
                self.mmio_map@ == old(self).mmio_map@,
                self.devices@ == old(self).devices@,
                k <= self.mmio_map@.len(),
                forall|j: int| 0 <= j < k ==> !ranges_overlap(#[trigger] self.mmio_map@[j], (start, end, 0)),
            decreases self.mmio_map@.len() - k,
        {
            let (s, e, _) = self.mmio_map[k];
            if s < end && start < e {
                assert(ranges_overlap(self.mmio_map@[k as int], (start, end, 0)));
                return Err(BridgeError::InvalidParameter);
            }
            k = k + 1;
        }
        let index = self.devices.len();
        self.devices.push(device);
        self.mmio_map.push((start, end, index));
        assert forall|j: int, k: int|
            0 <= j < self.ranges().len() && 0 <= k < self.ranges().len() && j != k implies !ranges_overlap(
            #[trigger] self.ranges()[j],
            #[trigger] self.ranges()[k],
        ) by {
            if j < old(self).ranges().len() && k < old(self).ranges().len() {
                assert(self.ranges()[j] == old(self).ranges()[j]);
                assert(self.ranges()[k] == old(self).ranges()[k]);
            } else if j < old(self).ranges().len() {
                assert(!ranges_overlap(old(self).ranges()[j], (start, end, 0)));
            } else {
                assert(!ranges_overlap(old(self).ranges()[k], (start, end, 0)));
            }
        }
        Ok(index)
    }

    /// The device index and offset that an access to `addr` goes to.
    pub fn route(&self, addr: u64) -> (r: Option<(usize, u64)>)
        requires
            self.wf(),
        ensures
            r == route_of(self.ranges(), addr),
            r matches Some((i, _)) ==> i < self.device_count(),
    {
        let mut k: usize = 0;
        while k < self.mmio_map.len()
            invariant
                self.wf(),
                k <= self.mmio_map@.len(),
                forall|j: int| 0 <= j < k ==> !range_contains(#[trigger] self.mmio_map@[j], addr),
            decreases self.mmio_map@.len() - k,
        {
            let (s, e, index) = self.mmio_map[k];
            if s <= addr && addr < e {
                proof {
                    let ranges = self.ranges();
                    assert(range_contains(ranges[k as int], addr));
                    let c = choose|c: int| 0 <= c < ranges.len() && range_contains(#[trigger] ranges[c], addr);
                    if c != k {
                        assert(ranges_overlap(ranges[c], ranges[k as int]));
                    }
                    assert(c == k);
                    assert(ranges[k as int].2 < self.device_count());
                }
                return Some((index, addr - s));
            }
            k = k + 1;
        }
        None
    }

    /// Reads through the device of the range that holds `addr`, at the
    /// offset of `addr` in that range, and hands back what the device
    /// returned; `InvalidParameter` when no range holds `addr`.
    pub fn read(&mut self, addr: u64) -> (r: Result<u64, BridgeError>)
        requires
            old(self).wf(),
        ensures
            final(self).wf(),
            final(self).ranges() == old(self).ranges(),
            final(self).device_count() == old(self).device_count(),
            r is Ok <==> route_of(old(self).ranges(), addr) is Some,
            r matches Err(e) ==> e == BridgeError::InvalidParameter,
    {
        match self.route(addr) {
            Some((index, offset)) => {
                let value = self.devices[index].read(offset);
                Ok(value)
            },
            None => Err(BridgeError::InvalidParameter),
        }
    }

    /// Writes `value` through the device of the range that holds `addr`, at
    /// the offset of `addr` in that range; `InvalidParameter` when no range
    /// holds `addr`.
    pub fn write(&mut self, addr: u64, value: u64) -> (r: Result<(), BridgeError>)
        requires
            old(self).wf(),
        ensures
            final(self).wf(),
            final(self).ranges() == old(self).ranges(),
            final(self).device_count() == old(self).device_count(),
            r is Ok <==> route_of(old(self).ranges(), addr) is Some,
            r matches Err(e) ==> e == BridgeError::InvalidParameter,
    {
        match self.route(addr) {
            Some((index, offset)) => {
                self.devices[index].write(offset, value);
                Ok(())
            },
            None => Err(BridgeError::InvalidParameter),
        }
    }

    /// Resets every registered device, in registration order.
    pub fn reset(&mut self)
        requires
            old(self).wf(),
        ensures
            final(self).wf(),
            final(self).ranges() == old(self).ranges(),
            final(self).device_count() == old(self).device_count(),
    {
        let mut i: usize = 0;
        while i < self.devices.len()
            invariant
                self.wf(),
                self.ranges() == old(self).ranges(),
                self.device_count() == old(self).device_count(),
                i <= self.devices@.len(),
            decreases self.devices@.len() - i,
        {
            self.devices[i].reset();
            i = i + 1;
        }
    }
}

} // verus!
