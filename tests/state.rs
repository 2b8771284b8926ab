use nanocore::events::VmEvent;
use nanocore::state::{
    check_status, decode_event, exit_status, BridgeError, Event, EventType, Flags, PerfCounter,
    Status, VmState,
};

#[test]
fn flags_test_single_bits() {
    let f = Flags(Flags::ZERO | Flags::HALTED);
    assert!(f.is_set(Flags::ZERO));
    assert!(f.is_set(Flags::HALTED));
    assert!(!f.is_set(Flags::CARRY));
    assert!(!f.is_set(Flags::USER_MODE));
    assert!(f.is_set(Flags::CARRY | Flags::HALTED));
    assert_eq!(Flags::USER_MODE, 1 << 5);
    assert_eq!(Flags::HALTED, 1 << 7);
}

#[test]
fn default_state_is_zero() {
    let s = VmState::default();
    assert_eq!(s.pc, 0);
    assert_eq!(s.flags, Flags(0));
    assert_eq!(s.gprs, [0u64; 32]);
    assert_eq!(s.vregs, [[0u64; 4]; 16]);
    assert_eq!(s.perf_counters, [0u64; 8]);
    assert_eq!(s.vbase, 0);
}

#[test]
fn status_codes_map_both_ways() {
    let all = [
        Status::Success,
        Status::Error,
        Status::OutOfMemory,
        Status::InvalidParameter,
        Status::InitializationError,
    ];
    for s in all {
        assert_eq!(Status::from_code(s.code()), s);
    }
    assert_eq!(Status::Success.code(), 0);
    assert_eq!(Status::InvalidParameter.code(), -3);
    assert_eq!(Status::from_code(-99), Status::Error);
    assert_eq!(Status::from_code(5), Status::Error);
}

#[test]
fn exit_codes_map_to_status() {
    assert_eq!(exit_status(0), Status::Success);
    assert_eq!(exit_status(1), Status::Error);
    assert_eq!(exit_status(2), Status::BreakpointHit);
    assert_ne!(exit_status(2), exit_status(1));
    assert_eq!(Status::BreakpointHit.code(), 2);
    assert_eq!(exit_status(-3), Status::InvalidParameter);
}

#[test]
fn bridge_errors_have_status_codes() {
    assert_eq!(BridgeError::InvalidHandle.code(), -3);
    assert_eq!(BridgeError::InvalidParameter.code(), -3);
    assert_eq!(BridgeError::OutOfMemory.code(), -2);
    assert_eq!(BridgeError::EngineFailure.code(), -1);
    assert_eq!(BridgeError::NotInitialized.code(), -4);
}

#[test]
fn check_status_names_the_operation() {
    assert!(check_status(0, "create VM").is_ok());
    let e = check_status(-2, "create VM").unwrap_err();
    assert_eq!(e.status, Status::OutOfMemory);
    assert_eq!(e.message, "create VM");
    let e = check_status(17, "reset VM").unwrap_err();
    assert_eq!(e.status, Status::Error);
}

#[test]
fn event_codes_round_trip() {
    assert_eq!(VmEvent::Halted.encode(), (0, 0));
    assert_eq!(VmEvent::Breakpoint(0x1234).encode(), (1, 0x1234));
    assert_eq!(VmEvent::Exception(7).encode(), (2, 7));
    assert_eq!(VmEvent::DeviceInterrupt(3).encode(), (3, 3));
    assert_eq!(EventType::from_code(0), Some(EventType::Halted));
    assert_eq!(EventType::from_code(3), Some(EventType::DeviceInterrupt));
    assert_eq!(EventType::from_code(4), None);
    assert_eq!(EventType::from_code(-1), None);
}

#[test]
fn decode_event_needs_success_and_known_kind() {
    assert_eq!(
        decode_event(0, 1, 0x40),
        Some(Event { event_type: EventType::Breakpoint, data: 0x40 })
    );
    assert_eq!(decode_event(-1, 1, 0x40), None);
    assert_eq!(decode_event(0, 9, 0x40), None);
}

#[test]
fn perf_counter_positions() {
    assert_eq!(PerfCounter::InstructionCount.index(), 0);
    assert_eq!(PerfCounter::L2Miss.index(), 3);
    assert_eq!(PerfCounter::SIMDOps.index(), 7);
}
