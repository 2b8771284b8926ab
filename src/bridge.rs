//! One virtual machine instance as the bridge sees it: the cached state
//! snapshot, guest memory, breakpoints, devices and the event queue.
//!
//! The engine is driven by the host program. Before a run it pushes
//! `pending_breakpoints`; after the run it hands the exit code and the
//! engine's new snapshot to `complete_run`.
use vstd::prelude::*;

use crate::devices::{range_free, route_of, Device, DeviceManager};
use crate::events::{posted, polled, EventQueue, VmEvent, EVENT_QUEUE_CAPACITY};
use crate::memory::{in_bounds, splice, GuestMemory};
use crate::state::{BridgeError, VmState, EXIT_BREAKPOINT, NUM_GPRS, NUM_PERF_COUNTERS};

verus! {

/// Every field of the two snapshots but the general registers agrees.
pub open spec fn same_but_registers(a: VmState, b: VmState) -> bool {
    &&& a.pc == b.pc
    &&& a.sp == b.sp
    &&& a.flags == b.flags
    &&& a.vregs == b.vregs
    &&& a.perf_counters == b.perf_counters
    &&& a.cache_ctrl == b.cache_ctrl
    &&& a.vbase == b.vbase
}

/// `after` is `before` with general register `i` set to `v`.
pub open spec fn register_written(before: VmState, after: VmState, i: int, v: u64) -> bool {
    &&& after.gprs@ == before.gprs@.update(i, v)
    &&& same_but_registers(before, after)
}

/// True when `index` names a general register.
pub open spec fn register_index_ok(index: int) -> bool {
    0 <= index < 32
}

/// True when `index` names a performance counter.
pub open spec fn counter_index_ok(index: int) -> bool {
    0 <= index < 8
}

/// The event queue after a run that ended with `exit_code` at `pc`: a
/// breakpoint hit posts a breakpoint event for `pc`.
pub open spec fn run_events(q: Seq<VmEvent>, cap: nat, exit_code: int, pc: u64) -> Seq<VmEvent> {
    if exit_code == EXIT_BREAKPOINT {
        posted(q, cap, VmEvent::Breakpoint(pc))
    } else {
        q
    }
}

/// The bridge of one instance.
pub struct VmInstance {
    state: VmState,
    memory: GuestMemory,
    devices: DeviceManager<dyn Device>,
    events: EventQueue,
    breakpoints: Vec<u64>,
}

impl VmInstance {
    /// The cached state snapshot.
    pub closed spec fn cached(&self) -> VmState {
        self.state
    }

    /// The guest memory bytes.
    pub closed spec fn memory(&self) -> Seq<u8> {
        self.memory@
    }

    /// The registered breakpoint addresses.
    pub closed spec fn breakpoints(&self) -> Set<u64> {
        self.breakpoints@.to_set()
    }

    /// The queued events, oldest first.
    pub closed spec fn events(&self) -> Seq<VmEvent> {
        self.events@
    }

    /// The capacity of the event queue.
    pub closed spec fn event_capacity(&self) -> nat {
        self.events.capacity()
    }

    /// The device range table.
    pub closed spec fn device_ranges(&self) -> Seq<(u64, u64, usize)> {
        self.devices.ranges()
    }

    /// The device table is well formed.
    pub closed spec fn devices_wf(&self) -> bool {
        self.devices.wf()
    }

    /// The instance invariant: the device table is well formed, and the event
    /// queue has capacity `EVENT_QUEUE_CAPACITY` and never holds more.
    pub open spec fn wf(&self) -> bool {
        &&& self.devices_wf()
        &&& self.event_capacity() == EVENT_QUEUE_CAPACITY
        &&& self.events().len() <= self.event_capacity()
    }

    /// A fresh instance with `memory_size` bytes of guest memory whose cache
    /// holds `initial`, the engine's snapshot after initialisation;
    /// `OutOfMemory` when the memory cannot be allocated, which is always the
    /// case when `memory_size` exceeds the address space.
    pub fn new(memory_size: u64, initial: VmState) -> (r: Result<VmInstance, BridgeError>)
        ensures
            memory_size > usize::MAX ==> r is Err,
            r matches Ok(vm) ==> {
                &&& vm.wf()
                &&& vm.cached() == initial
                &&& vm.memory().len() == memory_size
                &&& vm.breakpoints() == Set::<u64>::empty()
                &&& vm.events() == Seq::<VmEvent>::empty()
                &&& vm.event_capacity() == EVENT_QUEUE_CAPACITY
                &&& vm.device_ranges() == Seq::<(u64, u64, usize)>::empty()
            },
            r matches Err(e) ==> e == BridgeError::OutOfMemory,
    {
        let memory = match GuestMemory::new(memory_size) {
            Ok(m) => m,
            Err(e) => {
                return Err(e);
            },
        };
        let vm = VmInstance {
            state: initial,
            memory,
            devices: DeviceManager::new(),
            events: EventQueue::new(),
            breakpoints: Vec::new(),
        };
        assert(vm.breakpoints@.to_set() =~= Set::<u64>::empty());
        Ok(vm)
    }

    /// Size of the guest memory in bytes.
    pub fn memory_size(&self) -> (r: usize)
        ensures
            r == self.memory().len(),
    {
        self.memory.len()
    }

    /// A copy of the cached snapshot; the engine is not consulted.
    pub fn get_state(&self) -> (r: VmState)
        ensures
            r == self.cached(),
    {
        self.state
    }

    /// The cached value of general register `index`; `InvalidParameter`
    /// when `index` is outside `[0, 32)`.
    pub fn get_register(&self, index: i32) -> (r: Result<u64, BridgeError>)
        ensures
            r is Ok <==> register_index_ok(index as int),
            r matches Ok(v) ==> v == self.cached().gprs@[index as int],
            r matches Err(e) ==> e == BridgeError::InvalidParameter,
    {
        if index < 0 || index >= NUM_GPRS as i32 {
            return Err(BridgeError::InvalidParameter);
        }
        Ok(self.state.gprs[index as usize])
    }

    /// Sets general register `index` of the cached snapshot to `value`; the
    /// engine sees it from the next run on. `InvalidParameter`, and nothing
    /// changed, when `index` is outside `[0, 32)`.
    pub fn set_register(&mut self, index: i32, value: u64) -> (r: Result<(), BridgeError>)
        requires
            old(self).wf(),
        ensures
            final(self).wf(),
            r is Ok <==> register_index_ok(index as int),
            r is Ok ==> register_written(old(self).cached(), final(self).cached(), index as int, value),
            r matches Err(e) ==> e == BridgeError::InvalidParameter && final(self).cached()
                == old(self).cached(),
            final(self).memory() == old(self).memory(),
            final(self).breakpoints() == old(self).breakpoints(),
            final(self).events() == old(self).events(),
            final(self).event_capacity() == old(self).event_capacity(),
            final(self).device_ranges() == old(self).device_ranges(),
    {
        if index < 0 || index >= NUM_GPRS as i32 {
            return Err(BridgeError::InvalidParameter);
        }
        self.state.gprs[index as usize] = value;
        Ok(())
    }

    /// The cached value of performance counter `index`; `InvalidParameter`
    /// when `index` is outside `[0, 8)`.
    pub fn get_perf_counter(&self, index: i32) -> (r: Result<u64, BridgeError>)
        ensures
            r is Ok <==> counter_index_ok(index as int),
            r matches Ok(v) ==> v == self.cached().perf_counters@[index as int],
            r matches Err(e) ==> e == BridgeError::InvalidParameter,
    {
        if index < 0 || index >= NUM_PERF_COUNTERS as i32 {
            return Err(BridgeError::InvalidParameter);
        }
        Ok(self.state.perf_counters[index as usize])
    }

    /// Copies `data` into guest memory from `address` on;
    /// `InvalidParameter`, and memory unchanged, when it does not fit.
    pub fn write_memory(&mut self, address: u64, data: &[u8]) -> (r: Result<(), BridgeError>)
        requires
            old(self).wf(),
        ensures
            final(self).wf(),
            r is Ok <==> in_bounds(address as int, data@.len() as int, old(self).memory().len() as int),
            r is Ok ==> final(self).memory() == splice(old(self).memory(), address as int, data@),
            r matches Err(e) ==> e == BridgeError::InvalidParameter && final(self).memory()
                == old(self).memory(),
            final(self).cached() == old(self).cached(),
            final(self).breakpoints() == old(self).breakpoints(),
            final(self).events() == old(self).events(),
            final(self).event_capacity() == old(self).event_capacity(),
            final(self).device_ranges() == old(self).device_ranges(),
    {
        self.memory.write(address, data)
    }

    /// Loads a program image at `address`; the same access as `write_memory`.
    pub fn load_program(&mut self, program: &[u8], address: u64) -> (r: Result<(), BridgeError>)
        requires
            old(self).wf(),
        ensures
            final(self).wf(),
            r is Ok <==> in_bounds(address as int, program@.len() as int, old(self).memory().len() as int),
            r is Ok ==> final(self).memory() == splice(old(self).memory(), address as int, program@),
            r matches Err(e) ==> e == BridgeError::InvalidParameter && final(self).memory()
                == old(self).memory(),
            final(self).cached() == old(self).cached(),
            final(self).breakpoints() == old(self).breakpoints(),
            final(self).events() == old(self).events(),
            final(self).event_capacity() == old(self).event_capacity(),
            final(self).device_ranges() == old(self).device_ranges(),
    {
        self.write_memory(address, program)
    }

    /// The `size` guest memory bytes from `address` on; `InvalidParameter`,
    /// and nothing copied, when they do not all lie in guest memory.
    pub fn read_memory(&self, address: u64, size: u64) -> (r: Result<Vec<u8>, BridgeError>)
        ensures
            r is Ok <==> in_bounds(address as int, size as int, self.memory().len() as int),
            r matches Ok(v) ==> v@ == self.memory().subrange(address as int, address + size),
            r matches Err(e) ==> e == BridgeError::InvalidParameter,
    {
        self.memory.read(address, size)
    }

    /// Adds `address` to the breakpoint set.
    pub fn set_breakpoint(&mut self, address: u64)
        requires
            old(self).wf(),
        ensures
            final(self).wf(),
            final(self).breakpoints() == old(self).breakpoints().insert(address),
            final(self).cached() == old(self).cached(),
            final(self).memory() == old(self).memory(),
            final(self).events() == old(self).events(),
            final(self).event_capacity() == old(self).event_capacity(),
            final(self).device_ranges() == old(self).device_ranges(),
    {
        if self.has_breakpoint(address) {
            assert(self.breakpoints@.to_set() =~= self.breakpoints@.to_set().insert(address));
            return;
        }
        let ghost before = self.breakpoints@;
        self.breakpoints.push(address);
        proof {
            assert(self.breakpoints@ =~= before + seq![address]);
            Seq::lemma_to_set_insert_commutes(before, address);
        }
    }

    /// True when `address` is a registered breakpoint.
    pub fn has_breakpoint(&self, address: u64) -> (r: bool)
        ensures
            r == self.breakpoints().contains(address),
    {
        let mut i: usize = 0;
        while i < self.breakpoints.len()
            invariant
                i <= self.breakpoints@.len(),
                forall|j: int| 0 <= j < i ==> self.breakpoints@[j] != address,
            decreases self.breakpoints@.len() - i,
        {
            if self.breakpoints[i] == address {
                assert(self.breakpoints@[i as int] == address);
                return true;
            }
            i = i + 1;
        }
        false
    }

    /// Removes `address` from the breakpoint set; no change when it is not
    /// there.
    pub fn clear_breakpoint(&mut self, address: u64)
        requires
            old(self).wf(),
        ensures
            final(self).wf(),
            final(self).breakpoints() == old(self).breakpoints().remove(address),
            final(self).cached() == old(self).cached(),
            final(self).memory() == old(self).memory(),
            final(self).events() == old(self).events(),
            final(self).event_capacity() == old(self).event_capacity(),
            final(self).device_ranges() == old(self).device_ranges(),
    {
        let mut kept: Vec<u64> = Vec::new();
        let mut i: usize = 0;
        while i < self.breakpoints.len()
            invariant
                i <= self.breakpoints@.len(),
                forall|a: u64|
                    kept@.contains(a) <==> (a != address && exists|j: int|
                        0 <= j < i && #[trigger] self.breakpoints@[j] == a),
            decreases self.breakpoints@.len() - i,
        {
            let b = self.breakpoints[i];
            let ghost old_kept = kept@;
            if b != address {
                kept.push(b);
            }
            assert forall|a: u64|
                kept@.contains(a) <==> (a != address && exists|j: int|
                    0 <= j < i + 1 && #[trigger] self.breakpoints@[j] == a) by {
                if kept@.contains(a) {
                    let k = choose|k: int| 0 <= k < kept@.len() && kept@[k] == a;
                    if k < old_kept.len() {
                        assert(old_kept[k] == a);
                        assert(old_kept.contains(a));
                    } else {
                        assert(self.breakpoints@[i as int] == a);
                    }
                }
                if a != address && exists|j: int| 0 <= j < i + 1 && #[trigger] self.breakpoints@[j] == a {
                    let j = choose|j: int| 0 <= j < i + 1 && #[trigger] self.breakpoints@[j] == a;
                    if j < i {
                        assert(old_kept.contains(a));
                        let k = choose|k: int| 0 <= k < old_kept.len() && old_kept[k] == a;
                        assert(kept@[k] == a);
                    } else {
                        assert(kept@[kept@.len() - 1] == a);
                    }
                }
            }
            i = i + 1;
        }
        assert(kept@.to_set() =~= self.breakpoints@.to_set().remove(address)) by {
            assert forall|a: u64| self.breakpoints@.contains(a) <==> exists|j: int|
                0 <= j < self.breakpoints@.len() && #[trigger] self.breakpoints@[j] == a by {}
        }
        self.breakpoints = kept;
    }

    /// The breakpoint addresses that the host pushes into the engine before
    /// a run.
    pub fn pending_breakpoints(&self) -> (r: Vec<u64>)
        ensures
            r@.to_set() == self.breakpoints(),
    {
        self.breakpoints.clone()
    }

    /// Records the outcome of a run: the cache takes `post`, the engine's
    /// snapshot after the run, and a breakpoint hit posts a breakpoint event
    /// at the new program counter (dropped when the queue is full). Hands
    /// back the engine's exit code unchanged.
    pub fn complete_run(&mut self, exit_code: i32, post: VmState) -> (r: i32)
        requires
            old(self).wf(),
        ensures
            final(self).wf(),
            r == exit_code,
            final(self).cached() == post,
            final(self).events() == run_events(
                old(self).events(),
                old(self).event_capacity(),
                exit_code as int,
                post.pc,
            ),
            final(self).event_capacity() == old(self).event_capacity(),
            final(self).memory() == old(self).memory(),
            final(self).breakpoints() == old(self).breakpoints(),
            final(self).device_ranges() == old(self).device_ranges(),
    {
        self.state = post;
        if exit_code == EXIT_BREAKPOINT {
            let pc = self.state.pc;
            let _ = self.events.post(VmEvent::Breakpoint(pc));
        }
        exit_code
    }

    /// Takes the oldest queued event, if any; never blocks.
    pub fn poll_event(&mut self) -> (r: Option<VmEvent>)
        requires
            old(self).wf(),
        ensures
            final(self).wf(),
            (r, final(self).events()) == polled(old(self).events()),
            final(self).event_capacity() == old(self).event_capacity(),
            final(self).cached() == old(self).cached(),
            final(self).memory() == old(self).memory(),
            final(self).breakpoints() == old(self).breakpoints(),
            final(self).device_ranges() == old(self).device_ranges(),
    {
        self.events.poll()
    }

    /// Binds `device` to the addresses `[start, end)`; `InvalidParameter`
    /// when the range is empty or overlaps a bound one.
    pub fn add_device(&mut self, start: u64, end: u64, device: Box<dyn Device>) -> (r: Result<
        usize,
        BridgeError,
    >)
        requires
            old(self).wf(),
        ensures
            final(self).wf(),
            r is Ok <==> range_free(old(self).device_ranges(), start, end),
            r matches Ok(i) ==> final(self).device_ranges() == old(self).device_ranges().push(
                (start, end, i),
            ),
            r matches Err(e) ==> e == BridgeError::InvalidParameter && final(self).device_ranges()
                == old(self).device_ranges(),
            final(self).cached() == old(self).cached(),
            final(self).memory() == old(self).memory(),
            final(self).breakpoints() == old(self).breakpoints(),
            final(self).events() == old(self).events(),
            final(self).event_capacity() == old(self).event_capacity(),
    {
        self.devices.add_device(start, end, device)
    }

    /// Reads the device register at `addr`; `InvalidParameter` when no
    /// device range holds `addr`.
    pub fn mmio_read(&mut self, addr: u64) -> (r: Result<u64, BridgeError>)
        requires
            old(self).wf(),
        ensures
            final(self).wf(),
            r is Ok <==> route_of(old(self).device_ranges(), addr) is Some,
            r matches Err(e) ==> e == BridgeError::InvalidParameter,
            final(self).device_ranges() == old(self).device_ranges(),
            final(self).cached() == old(self).cached(),
            final(self).memory() == old(self).memory(),
            final(self).breakpoints() == old(self).breakpoints(),
            final(self).events() == old(self).events(),
            final(self).event_capacity() == old(self).event_capacity(),
    {
        self.devices.read(addr)
    }

    /// Writes `value` to the device register at `addr`; `InvalidParameter`
    /// when no device range holds `addr`.
    pub fn mmio_write(&mut self, addr: u64, value: u64) -> (r: Result<(), BridgeError>)
        requires
            old(self).wf(),
        ensures
            final(self).wf(),
            r is Ok <==> route_of(old(self).device_ranges(), addr) is Some,
            r matches Err(e) ==> e == BridgeError::InvalidParameter,
            final(self).device_ranges() == old(self).device_ranges(),
            final(self).cached() == old(self).cached(),
            final(self).memory() == old(self).memory(),
            final(self).breakpoints() == old(self).breakpoints(),
            final(self).events() == old(self).events(),
            final(self).event_capacity() == old(self).event_capacity(),
    {
        self.devices.write(addr, value)
    }

    /// Resets every bound device.
    pub fn reset_devices(&mut self)
        requires
            old(self).wf(),
        ensures
            final(self).wf(),
            final(self).device_ranges() == old(self).device_ranges(),
            final(self).cached() == old(self).cached(),
            final(self).memory() == old(self).memory(),
            final(self).breakpoints() == old(self).breakpoints(),
            final(self).events() == old(self).events(),
            final(self).event_capacity() == old(self).event_capacity(),
    {
        self.devices.reset()
    }
}

/// A register just written through `set_register` reads back, through
/// `get_register`, as the value written.
pub proof fn lemma_set_then_get_register(before: VmState, after: VmState, i: int, v: u64)
    requires
        1 <= i < 32,
        register_written(before, after, i, v),
    ensures
        after.gprs@[i] == v,
{
}

/// On an instance whose queue is empty, a run that ends at a breakpoint
/// queues exactly one breakpoint event for the program counter it stopped
/// at: the first poll returns it and a second poll finds nothing.
pub proof fn lemma_breakpoint_event_polled_once(q: Seq<VmEvent>, cap: nat, pc: u64)
    requires
        q.len() == 0,
        cap > 0,
    ensures
        polled(run_events(q, cap, 2, pc)).0 == Some(VmEvent::Breakpoint(pc)),
        polled(polled(run_events(q, cap, 2, pc)).1).0 is None,
{
    assert(polled(run_events(q, cap, 2, pc)).1 =~= Seq::<VmEvent>::empty());
}

/// A run that ends at a breakpoint, on a queue with room, queues exactly one
/// breakpoint event for the program counter it stopped at, behind the events
/// already there.
pub proof fn lemma_breakpoint_hit_queues_event(q: Seq<VmEvent>, cap: nat, pc: u64)
    requires
        q.len() < cap,
    ensures
        run_events(q, cap, 2, pc) == q.push(VmEvent::Breakpoint(pc)),
{
}

/// A run never grows the queue past its capacity; one that does not end at a
/// breakpoint, or that ends on a full queue, leaves the queue as it was.
pub proof fn lemma_run_events_bounded(q: Seq<VmEvent>, cap: nat, exit_code: int, pc: u64)
    requires
        q.len() <= cap,
    ensures
        run_events(q, cap, exit_code, pc).len() <= cap,
        exit_code != 2 || q.len() == cap ==> run_events(q, cap, exit_code, pc) == q,
{
}

} // verus!
