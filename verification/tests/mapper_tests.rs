use vm16::device::Device;
use vm16::device::DeviceType;
use vm16::device::OutputAction;
use vm16::errors::VmError;
use vm16::mapper::MemoryMapper;

fn storage(len: usize) -> Device {
    Device::new(len, DeviceType::Memory)
}

#[test]
fn map_rejects_a_remapped_range_larger_than_the_device() {
    let mut mm = MemoryMapper::new();
    let r = mm.map(storage(10), 0x0000, 0x0064, true);
    assert_eq!(r, Err(VmError::RegionTooSmall));
    // without remapping no such check applies
    let mut mm2 = MemoryMapper::new();
    assert!(mm2.map(storage(10), 0x0000, 0x0064, false).is_ok());
}

#[test]
fn byte_round_trip_through_a_region() {
    let mut mm = MemoryMapper::new();
    mm.map(storage(0x100), 0x0000, 0x00FF, true).unwrap();
    mm.set_byte(0xAB, 0x0042).unwrap();
    assert_eq!(mm.get_byte(0x0042), Ok(0xAB));
    assert_eq!(mm.get_byte(0x0041), Ok(0x00));
}

#[test]
fn remap_translates_to_device_relative_offsets() {
    let mut mm = MemoryMapper::new();
    mm.map(storage(0x10), 0x2000, 0x200F, true).unwrap();
    mm.set_byte(0x99, 0x2003).unwrap();
    assert_eq!(mm.get_byte(0x2003), Ok(0x99));
    // without remapping the absolute address indexes the device
    let mut mm2 = MemoryMapper::new();
    mm2.map(storage(0x30), 0x0020, 0x002F, false).unwrap();
    mm2.set_byte(0x77, 0x0025).unwrap();
    assert_eq!(mm2.get_byte(0x0025), Ok(0x77));
}

#[test]
fn the_first_containing_region_wins() {
    let mut mm = MemoryMapper::new();
    mm.map(storage(0x10), 0x0000, 0x000F, true).unwrap();
    mm.map(storage(0x100), 0x0000, 0x00FF, true).unwrap();
    assert_eq!(mm.find_region(0x0005), Some(0));
    assert_eq!(mm.find_region(0x0015), Some(1));
    assert_eq!(mm.find_region(0x0100), None);
    let mut mm2 = mm;
    assert_eq!(mm2.mut_find_region(0x0005), Some(0));
    // a write to an overlapped address lands in the first region
    mm2.set_byte(0x11, 0x0005).unwrap();
    assert_eq!(mm2.get_byte(0x0005), Ok(0x11));
}

#[test]
fn unmapped_addresses_are_reported() {
    let mut mm = MemoryMapper::new();
    mm.map(storage(0x10), 0x0000, 0x000F, true).unwrap();
    assert_eq!(mm.get_byte(0x0010), Err(VmError::UnmappedAddress(0x0010)));
    assert_eq!(mm.set_byte(0x00, 0xFFFF), Err(VmError::UnmappedAddress(0xFFFF)));
    assert_eq!(mm.get_uint_16(0x8000), Err(VmError::UnmappedAddress(0x8000)));
}

#[test]
fn a_region_larger_than_its_device_overruns() {
    let mut mm = MemoryMapper::new();
    // legal without remap, but the device has only 0x80 bytes
    mm.map(storage(0x80), 0x0000, 0x00FF, false).unwrap();
    assert_eq!(mm.get_byte(0x0090), Err(VmError::DeviceOverrun(0x0090)));
    assert_eq!(mm.set_byte(0x01, 0x0090), Err(VmError::DeviceOverrun(0x0090)));
    assert_eq!(mm.get_byte(0x007F), Ok(0x00));
}

#[test]
fn word_round_trip_through_one_region() {
    let mut mm = MemoryMapper::new();
    mm.map(storage(0x100), 0x0000, 0x00FF, true).unwrap();
    mm.set_uint_16(0x0010, 0xBEEF).unwrap();
    assert_eq!(mm.get_uint_16(0x0010), Ok(0xBEEF));
    mm.set_uint_16(0x0010, 0x0000).unwrap();
    assert_eq!(mm.get_uint_16(0x0010), Ok(0x0000));
}

#[test]
fn words_are_stored_big_endian() {
    let mut mm = MemoryMapper::new();
    mm.map(storage(0x100), 0x0000, 0x00FF, true).unwrap();
    mm.set_uint_16(0x0020, 0x1234).unwrap();
    assert_eq!(mm.get_byte(0x0020), Ok(0x12));
    assert_eq!(mm.get_byte(0x0021), Ok(0x34));
    assert_eq!(mm.get_uint_8(0x0020), Ok(0x12));
}

#[test]
fn set_uint_8_matches_set_byte() {
    let mut mm = MemoryMapper::new();
    mm.map(storage(0x100), 0x0000, 0x00FF, true).unwrap();
    mm.set_uint_8(0x0033, 0x5C).unwrap();
    assert_eq!(mm.get_byte(0x0033), Ok(0x5C));
    assert_eq!(mm.get_uint_8(0x0033), Ok(0x5C));
}

#[test]
fn view_memory_reads_a_range_without_side_effects() {
    let mut mm = MemoryMapper::new();
    mm.map(storage(0x100), 0x0000, 0x00FF, true).unwrap();
    mm.set_byte(0x01, 0x0010).unwrap();
    mm.set_byte(0x02, 0x0011).unwrap();
    mm.set_byte(0x03, 0x0012).unwrap();
    assert_eq!(mm.view_memory(0x0010, 4), Ok(vec![0x01, 0x02, 0x03, 0x00]));
    assert_eq!(mm.view_memory(0x00FF, 4), Err(VmError::DeviceOverrun(0x00FF)));
    assert_eq!(mm.view_memory(0x4000, 1), Err(VmError::UnmappedAddress(0x4000)));
}

#[test]
fn output_writes_queue_screen_actions() {
    let mut mm = MemoryMapper::new();
    mm.map(Device::new(0x100, DeviceType::Stdout), 0x3000, 0x30FF, true).unwrap();
    mm.set_byte(0x48, 0x3000).unwrap();
    mm.set_byte(0xFF, 0x3001).unwrap();
    mm.set_uint_16(0x3010, 0x4142).unwrap();
    // reads from the output device come back zero
    assert_eq!(mm.get_byte(0x3000), Ok(0x00));
    let out = mm.take_output();
    assert_eq!(
        out,
        vec![
            OutputAction::Put { x: 2, y: 0, ch: 0x48 },
            OutputAction::Clear,
            OutputAction::Put { x: 2, y: 1, ch: 0x41 },
            OutputAction::Put { x: 4, y: 1, ch: 0x42 },
        ]
    );
    // the queue is drained
    assert_eq!(mm.take_output(), vec![]);
}
