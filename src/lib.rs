//! Host bridge around a register-and-memory execution engine.
//!
//! The library keeps the per-instance bookkeeping of a virtual machine: the
//! cached state snapshot, bounds-checked guest memory, breakpoints, memory
//! mapped devices and the event queue, plus the handle table that maps
//! integer handles to instances. The engine itself and the process-wide
//! locks live with the host program, which hands results back to the
//! verified decision functions here.

pub mod bridge;
pub mod devices;
pub mod events;
pub mod memory;
pub mod registry;
pub mod state;

pub use bridge::VmInstance;
pub use devices::{Device, DeviceManager};
pub use events::{EventQueue, VmEvent, EVENT_QUEUE_CAPACITY};
pub use memory::GuestMemory;
pub use registry::Registry;
pub use state::{
    check_status, decode_event, exit_status, BridgeError, Error, Event, EventType, Flags,
    PerfCounter, Status, VmState,
};
