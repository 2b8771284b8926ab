//! Plain-data types shared by every layer: the processor flag word, the state
//! snapshot, status codes and event kinds.
use vstd::prelude::*;

verus! {

/// The processor flag word of a state snapshot.
#[derive(Debug, Clone, Copy, PartialEq, Eq, Structural)]
pub struct Flags(pub u64);

impl Flags {
    pub const ZERO: u64 = 1 << 0;
    pub const CARRY: u64 = 1 << 1;
    pub const OVERFLOW: u64 = 1 << 2;
    pub const NEGATIVE: u64 = 1 << 3;
    pub const INTERRUPT_ENABLE: u64 = 1 << 4;
    pub const USER_MODE: u64 = 1 << 5;
    pub const HALTED: u64 = 1 << 7;

    /// True when any bit of `flag` is set in the flag word.
    pub fn is_set(&self, flag: u64) -> (r: bool)
        ensures
            r == (self.0 & flag != 0),
    {
        self.0 & flag != 0
    }
}

/// Number of general-purpose registers in a snapshot.
pub const NUM_GPRS: usize = 32;
/// Number of performance counters in a snapshot.
pub const NUM_PERF_COUNTERS: usize = 8;

/// Point-in-time copy of the engine's registers, flags and counters.
#[derive(Debug, Clone, Copy)]
pub struct VmState {
    pub pc: u64,
    pub sp: u64,
    pub flags: Flags,
    pub gprs: [u64; 32],
    pub vregs: [[u64; 4]; 16],
    pub perf_counters: [u64; 8],
    pub cache_ctrl: u64,
    pub vbase: u64,
}

/// The all-zero snapshot.
pub open spec fn zero_state(s: VmState) -> bool {
    &&& s.pc == 0
    &&& s.sp == 0
    &&& s.flags.0 == 0
    &&& forall|i: int| 0 <= i < 32 ==> #[trigger] s.gprs@[i] == 0
    &&& forall|i: int, j: int| 0 <= i < 16 && 0 <= j < 4 ==> #[trigger] s.vregs@[i]@[j] == 0
    &&& forall|i: int| 0 <= i < 8 ==> #[trigger] s.perf_counters@[i] == 0
    &&& s.cache_ctrl == 0
    &&& s.vbase == 0
}

impl Default for VmState {
    fn default() -> (r: VmState)
        ensures
            zero_state(r),
    {
        let lane: [u64; 4] = [0u64; 4];
        VmState {
            pc: 0,
            sp: 0,
            flags: Flags(0),
            gprs: [0u64; 32],
            vregs: [lane; 16],
            perf_counters: [0u64; 8],
            cache_ctrl: 0,
            vbase: 0,
        }
    }
}

/// Status code of a successful call.
pub const NANO_OK: i32 = 0;
/// Status code of a generic failure.
pub const NANO_ERROR: i32 = -1;
/// Status code of a failed allocation.
pub const NANO_ENOMEM: i32 = -2;
/// Status code of a rejected argument.
pub const NANO_EINVAL: i32 = -3;
/// Status code of a library that was not initialised.
pub const NANO_EINIT: i32 = -4;

/// Engine exit code of a clean stop.
pub const EXIT_CLEAN: i32 = 0;
/// Engine exit code of a halt with an error.
pub const EXIT_HALTED_WITH_ERROR: i32 = 1;
/// Engine exit code of a breakpoint hit.
pub const EXIT_BREAKPOINT: i32 = 2;

/// Status of a call as the caller-facing layer reports it.
#[derive(Debug, Clone, Copy, PartialEq, Eq, Structural)]
pub enum Status {
    /// Operation completed successfully
    Success,
    /// Generic error
    Error,
    /// Out of memory
    OutOfMemory,
    /// Invalid parameter
    InvalidParameter,
    /// Initialization error
    InitializationError,
    /// A run stopped at a breakpoint; an expected outcome, not a failure
    BreakpointHit,
}

/// The status that a numeric status code stands for; unknown codes are generic errors.
pub open spec fn status_of(code: int) -> Status {
    if code == 0 {
        Status::Success
    } else if code == -2 {
        Status::OutOfMemory
    } else if code == -3 {
        Status::InvalidParameter
    } else if code == -4 {
        Status::InitializationError
    } else {
        Status::Error
    }
}

/// The status that a run or step reports for an engine exit code.
pub open spec fn exit_status_of(code: int) -> Status {
    if code == 1 {
        Status::Error
    } else if code == 2 {
        Status::BreakpointHit
    } else {
        status_of(code)
    }
}

impl Status {
    /// The numeric code of this status.
    pub open spec fn spec_code(self) -> int {
        match self {
            Status::Success => 0,
            Status::Error => -1,
            Status::OutOfMemory => -2,
            Status::InvalidParameter => -3,
            Status::InitializationError => -4,
            Status::BreakpointHit => 2,
        }
    }

    pub fn code(&self) -> (r: i32)
        ensures
            r == self.spec_code(),
    {
        match self {
            Status::Success => NANO_OK,
            Status::Error => NANO_ERROR,
            Status::OutOfMemory => NANO_ENOMEM,
            Status::InvalidParameter => NANO_EINVAL,
            Status::InitializationError => NANO_EINIT,
            Status::BreakpointHit => EXIT_BREAKPOINT,
        }
    }

    pub fn from_code(code: i32) -> (r: Status)
        ensures
            r == status_of(code as int),
    {
        match code {
            0 => Status::Success,
            -1 => Status::Error,
            -2 => Status::OutOfMemory,
            -3 => Status::InvalidParameter,
            -4 => Status::InitializationError,
            _ => Status::Error,
        }
    }
}

/// The status that a run or step reports for the engine's exit code: a clean
/// stop is `Success`, a halt with an error is `Error`, a breakpoint hit is
/// `BreakpointHit`, any other code is read as a status code.
pub fn exit_status(code: i32) -> (r: Status)
    ensures
        r == exit_status_of(code as int),
{
    if code == EXIT_CLEAN {
        Status::Success
    } else if code == EXIT_HALTED_WITH_ERROR {
        Status::Error
    } else if code == EXIT_BREAKPOINT {
        Status::BreakpointHit
    } else {
        Status::from_code(code)
    }
}

/// The failures that the bridge reports.
#[derive(Debug, Clone, Copy, PartialEq, Eq, Structural)]
pub enum BridgeError {
    /// Unknown, destroyed or out-of-range handle.
    InvalidHandle,
    /// Bad index, bad address range or missing output slot.
    InvalidParameter,
    /// Guest memory could not be allocated, or the handle table is full.
    OutOfMemory,
    /// The engine reported a failure.
    EngineFailure,
    /// The library was not initialised.
    NotInitialized,
}

impl BridgeError {
    /// The caller-facing status code of this failure.
    pub open spec fn spec_code(self) -> int {
        match self {
            BridgeError::InvalidHandle => -3,
            BridgeError::InvalidParameter => -3,
            BridgeError::OutOfMemory => -2,
            BridgeError::EngineFailure => -1,
            BridgeError::NotInitialized => -4,
        }
    }

    pub fn code(&self) -> (r: i32)
        ensures
            r == self.spec_code(),
    {
        match self {
            BridgeError::InvalidHandle => NANO_EINVAL,
            BridgeError::InvalidParameter => NANO_EINVAL,
            BridgeError::OutOfMemory => NANO_ENOMEM,
            BridgeError::EngineFailure => NANO_ERROR,
            BridgeError::NotInitialized => NANO_EINIT,
        }
    }
}

/// Error reported by the caller-facing layer.
#[derive(Debug, Clone)]
pub struct Error {
    pub status: Status,
    pub message: String,
}

/// `Ok` for a success code; otherwise an error that carries the status and
/// names the operation that failed.
pub fn check_status(status: i32, operation: &str) -> (r: Result<(), Error>)
    ensures
        r is Ok <==> status == 0,
        r matches Err(e) ==> e.status == status_of(status as int) && e.message@ == operation@,
{
    let st = Status::from_code(status);
    if status == NANO_OK {
        Ok(())
    } else {
        Err(Error { status: st, message: operation.to_owned() })
    }
}

/// Kind of an event as the caller-facing layer reports it.
#[derive(Debug, Clone, Copy, PartialEq, Eq, Structural)]
pub enum EventType {
    /// Program halted normally
    Halted,
    /// Hit a breakpoint
    Breakpoint,
    /// Exception occurred
    Exception,
    /// Device interrupt
    DeviceInterrupt,
}

/// The event kind that a numeric kind code stands for, if any.
pub open spec fn event_type_of(code: int) -> Option<EventType> {
    if code == 0 {
        Some(EventType::Halted)
    } else if code == 1 {
        Some(EventType::Breakpoint)
    } else if code == 2 {
        Some(EventType::Exception)
    } else if code == 3 {
        Some(EventType::DeviceInterrupt)
    } else {
        None
    }
}

impl EventType {
    pub fn from_code(code: i32) -> (r: Option<EventType>)
        ensures
            r == event_type_of(code as int),
    {
        match code {
            0 => Some(EventType::Halted),
            1 => Some(EventType::Breakpoint),
            2 => Some(EventType::Exception),
            3 => Some(EventType::DeviceInterrupt),
            _ => None,
        }
    }
}

/// An event with its kind and payload.
#[derive(Debug, Clone, Copy, PartialEq, Eq, Structural)]
pub struct Event {
    pub event_type: EventType,
    pub data: u64,
}

/// The event that a poll result stands for: a success code with a known kind
/// gives the event; anything else means that no event was there.
pub fn decode_event(status: i32, kind: i32, data: u64) -> (r: Option<Event>)
    ensures
        r == (if status == 0 && event_type_of(kind as int) is Some {
            Some(Event { event_type: event_type_of(kind as int)->0, data })
        } else {
            None
        }),
{
    if status == NANO_OK {
        match EventType::from_code(kind) {
            Some(event_type) => Some(Event { event_type, data }),
            None => None,
        }
    } else {
        None
    }
}

/// Performance counters of a snapshot, by position.
#[derive(Debug, Clone, Copy, PartialEq, Eq, Structural)]
pub enum PerfCounter {
    InstructionCount,
    CycleCount,
    L1Miss,
    L2Miss,
    BranchMiss,
    PipelineStall,
    MemoryOps,
    SIMDOps,
}

impl PerfCounter {
    /// Position of this counter in a snapshot's counter array.
    pub open spec fn spec_index(self) -> int {
        match self {
            PerfCounter::InstructionCount => 0,
            PerfCounter::CycleCount => 1,
            PerfCounter::L1Miss => 2,
            PerfCounter::L2Miss => 3,
            PerfCounter::BranchMiss => 4,
            PerfCounter::PipelineStall => 5,
            PerfCounter::MemoryOps => 6,
            PerfCounter::SIMDOps => 7,
        }
    }

    pub fn index(&self) -> (r: i32)
        ensures
            r == self.spec_index(),
            0 <= r < 8,
    {
        match self {
            PerfCounter::InstructionCount => 0,
            PerfCounter::CycleCount => 1,
            PerfCounter::L1Miss => 2,
            PerfCounter::L2Miss => 3,
            PerfCounter::BranchMiss => 4,
            PerfCounter::PipelineStall => 5,
            PerfCounter::MemoryOps => 6,
            PerfCounter::SIMDOps => 7,
        }
    }
}

} // verus!
