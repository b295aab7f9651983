use vm16::array_buffer::ArrayBuffer;
use vm16::create_memory::ByteArray;
use vm16::device::Device;
use vm16::device::DeviceType;
use vm16::device::OutputAction;
use vm16::memory::Memory;

#[test]
fn memory_starts_zeroed_and_keeps_writes() {
    let mut m = Memory::new(64);
    assert_eq!(m.get_byte(0), 0x00);
    assert_eq!(m.get_byte(63), 0x00);
    m.set_byte(0xAB, 7);
    assert_eq!(m.get_byte(7), 0xAB);
    assert_eq!(m.get_byte(8), 0x00);
    m.set_byte(0xCD, 7);
    assert_eq!(m.get_byte(7), 0xCD);
}

#[test]
fn byte_array_round_trips() {
    let mut a = ByteArray::new(16);
    assert_eq!(a.get_byte(3), 0x00);
    a.set_byte(0x5A, 3);
    assert_eq!(a.get_byte(3), 0x5A);
    let b = vm16::create_memory::create_memory(8);
    assert_eq!(b.get_byte(0), 0x00);
}

#[test]
fn array_buffer_knows_its_length() {
    let a = ArrayBuffer::new(32);
    assert_eq!(a.length, 32);
    assert_eq!(a.buffer.len(), 32);
    assert!(a.buffer.iter().all(|&b| b == 0));
    let b = vm16::array_buffer::create_memory(5);
    assert_eq!(b.length, 5);
}

#[test]
fn storage_device_stores_and_reads() {
    let mut d = Device::new(256, DeviceType::Memory);
    assert_eq!(d.get_byte(200), 0x00);
    let act = d.set_byte(0x77, 200);
    assert_eq!(act, None);
    assert_eq!(d.get_byte(200), 0x77);
}

#[test]
fn output_device_reads_back_zero() {
    let mut d = Device::new(256, DeviceType::Stdout);
    d.set_byte(0x41, 10);
    assert_eq!(d.get_byte(10), 0x00);
}

#[test]
fn output_device_places_characters_on_the_grid() {
    let mut d = Device::new(256, DeviceType::Stdout);
    // cell 0: first column pair, first row
    assert_eq!(d.set_byte(0x48, 0), Some(OutputAction::Put { x: 2, y: 0, ch: 0x48 }));
    // cell 5: sixth column pair, first row
    assert_eq!(d.set_byte(0x49, 5), Some(OutputAction::Put { x: 12, y: 0, ch: 0x49 }));
    // cell 16: first column pair, second row
    assert_eq!(d.set_byte(0x21, 16), Some(OutputAction::Put { x: 2, y: 1, ch: 0x21 }));
}

#[test]
fn output_device_mode_bytes_become_mode_actions() {
    let mut d = Device::new(256, DeviceType::Stdout);
    assert_eq!(d.set_byte(0xFF, 0), Some(OutputAction::Clear));
    assert_eq!(d.set_byte(0x01, 0), Some(OutputAction::Bold));
    assert_eq!(d.set_byte(0xF2, 0), Some(OutputAction::Regular));
}
