use nanocore::devices::{Device, DeviceManager};
use nanocore::state::BridgeError;
use nanocore::VmInstance;
use nanocore::VmState;

struct Scratch {
    regs: [u64; 4],
}

impl Device for Scratch {
    fn read(&mut self, offset: u64) -> u64 {
        self.regs[offset as usize]
    }

    fn write(&mut self, offset: u64, value: u64) {
        self.regs[offset as usize] = value;
    }

    fn reset(&mut self) {
        self.regs = [0; 4];
    }
}

fn scratch() -> Box<dyn Device> {
    Box::new(Scratch { regs: [0; 4] })
}

#[test]
fn accesses_dispatch_by_range_with_relative_offsets() {
    let mut dm: DeviceManager<dyn Device> = DeviceManager::new();
    assert_eq!(dm.add_device(0x100, 0x104, scratch()), Ok(0));
    assert_eq!(dm.add_device(0x200, 0x204, scratch()), Ok(1));
    dm.write(0x102, 55).unwrap();
    dm.write(0x200, 66).unwrap();
    assert_eq!(dm.read(0x102), Ok(55));
    assert_eq!(dm.read(0x200), Ok(66));
    assert_eq!(dm.read(0x202), Ok(0));
}

#[test]
fn unmapped_addresses_are_errors() {
    let mut dm: DeviceManager<dyn Device> = DeviceManager::new();
    assert_eq!(dm.read(0), Err(BridgeError::InvalidParameter));
    dm.add_device(0x100, 0x104, scratch()).unwrap();
    assert_eq!(dm.read(0x104), Err(BridgeError::InvalidParameter));
    assert_eq!(dm.write(0xFF, 1), Err(BridgeError::InvalidParameter));
}

#[test]
fn overlapping_or_empty_ranges_are_refused() {
    let mut dm: DeviceManager<dyn Device> = DeviceManager::new();
    dm.add_device(0x100, 0x110, scratch()).unwrap();
    assert_eq!(dm.add_device(0x10F, 0x120, scratch()), Err(BridgeError::InvalidParameter));
    assert_eq!(dm.add_device(0x0F0, 0x101, scratch()), Err(BridgeError::InvalidParameter));
    assert_eq!(dm.add_device(0x300, 0x300, scratch()), Err(BridgeError::InvalidParameter));
    assert_eq!(dm.add_device(0x110, 0x114, scratch()), Ok(1));
}

#[test]
fn reset_reaches_every_device() {
    let mut dm: DeviceManager<dyn Device> = DeviceManager::new();
    dm.add_device(0x100, 0x104, scratch()).unwrap();
    dm.add_device(0x200, 0x204, scratch()).unwrap();
    dm.write(0x101, 5).unwrap();
    dm.write(0x203, 6).unwrap();
    dm.reset();
    assert_eq!(dm.read(0x101), Ok(0));
    assert_eq!(dm.read(0x203), Ok(0));
}

#[test]
fn instance_dispatches_to_its_devices() {
    let mut vm = VmInstance::new(4096, VmState::default()).unwrap();
    assert_eq!(vm.mmio_read(0x8000), Err(BridgeError::InvalidParameter));
    vm.add_device(0x8000, 0x8004, scratch()).unwrap();
    vm.mmio_write(0x8001, 9).unwrap();
    assert_eq!(vm.mmio_read(0x8001), Ok(9));
    vm.reset_devices();
    assert_eq!(vm.mmio_read(0x8001), Ok(0));
}

#[test]
fn route_names_device_and_offset() {
    let mut dm: DeviceManager<dyn Device> = DeviceManager::new();
    dm.add_device(0x100, 0x104, scratch()).unwrap();
    dm.add_device(0x200, 0x210, scratch()).unwrap();
    assert_eq!(dm.route(0x100), Some((0, 0)));
    assert_eq!(dm.route(0x20C), Some((1, 0xC)));
    assert_eq!(dm.route(0x104), None);
    assert_eq!(dm.route(0x1FF), None);
}
