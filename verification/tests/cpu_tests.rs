use vm16::cpu::CPU;
use vm16::cpu::Register;
use vm16::device::Device;
use vm16::device::DeviceType;
use vm16::errors::VmError;
use vm16::mapper::MemoryMapper;

fn mapped_machine() -> CPU {
    let mut mm = MemoryMapper::new();
    mm.map(Device::new(0xFF00, DeviceType::Memory), 0x0000, 0xFEFF, true).unwrap();
    mm.map(Device::new(0x0100, DeviceType::Memory), 0xFF00, 0xFFFF, true).unwrap();
    CPU::new(mm)
}

#[test]
fn a_fresh_machine_has_zero_registers_and_a_high_stack() {
    let cpu = mapped_machine();
    assert_eq!(cpu.get_register(Register::Ip), 0x0000);
    assert_eq!(cpu.get_register(Register::Acc), 0x0000);
    for r in [
        Register::R1,
        Register::R2,
        Register::R3,
        Register::R4,
        Register::R5,
        Register::R6,
        Register::R7,
        Register::R8,
    ] {
        assert_eq!(cpu.get_register(r), 0x0000);
    }
    assert_eq!(cpu.get_register(Register::Sp), 0xFFFD);
    assert_eq!(cpu.get_register(Register::Fp), 0xFFFD);
    assert_eq!(cpu.frame_size(), 0);
}

#[test]
fn every_register_round_trips_every_kind_of_value() {
    let mut cpu = mapped_machine();
    let regs = [
        Register::Ip,
        Register::Acc,
        Register::R1,
        Register::R2,
        Register::R3,
        Register::R4,
        Register::R5,
        Register::R6,
        Register::R7,
        Register::R8,
        Register::Sp,
        Register::Fp,
    ];
    for (i, r) in regs.iter().enumerate() {
        let v = 0x1111u16.wrapping_mul(i as u16 + 1) ^ 0x00FF;
        cpu.set_register(*r, v);
        assert_eq!(cpu.get_register(*r), v);
    }
    for v in [0x0000u16, 0x0001, 0x00FF, 0x0100, 0xFFFF] {
        cpu.set_register(Register::R5, v);
        assert_eq!(cpu.get_register(Register::R5), v);
    }
}

#[test]
fn setting_one_register_leaves_the_others_alone() {
    let mut cpu = mapped_machine();
    cpu.set_register(Register::R1, 0xAAAA);
    cpu.set_register(Register::R2, 0xBBBB);
    assert_eq!(cpu.get_register(Register::R1), 0xAAAA);
    assert_eq!(cpu.get_register(Register::R2), 0xBBBB);
    assert_eq!(cpu.get_register(Register::R3), 0x0000);
}

#[test]
fn fetch_advances_the_instruction_pointer() {
    let mut mm = MemoryMapper::new();
    mm.map(Device::new(0x100, DeviceType::Memory), 0x0000, 0x00FF, true).unwrap();
    mm.set_byte(0x12, 0x0000).unwrap();
    mm.set_byte(0x34, 0x0001).unwrap();
    mm.set_byte(0x56, 0x0002).unwrap();
    let mut cpu = CPU::new(mm);
    assert_eq!(cpu.fetch8(), Ok(0x12));
    assert_eq!(cpu.get_register(Register::Ip), 1);
    assert_eq!(cpu.fetch16(), Ok(0x3456));
    assert_eq!(cpu.get_register(Register::Ip), 3);
}

#[test]
fn fetching_outside_the_map_is_an_error() {
    let mut mm = MemoryMapper::new();
    mm.map(Device::new(0x10, DeviceType::Memory), 0x0000, 0x000F, true).unwrap();
    let mut cpu = CPU::new(mm);
    cpu.set_register(Register::Ip, 0x0100);
    assert_eq!(cpu.fetch8(), Err(VmError::UnmappedAddress(0x0100)));
    // a failed fetch leaves the instruction pointer alone
    assert_eq!(cpu.get_register(Register::Ip), 0x0100);
}

#[test]
fn register_operands_wrap_modulo_the_register_count() {
    let mut mm = MemoryMapper::new();
    mm.map(Device::new(0x10, DeviceType::Memory), 0x0000, 0x000F, true).unwrap();
    mm.set_byte(2, 0x0000).unwrap();
    mm.set_byte(13, 0x0001).unwrap();
    mm.set_byte(255, 0x0002).unwrap();
    let mut cpu = CPU::new(mm);
    // selector 2 is r1, at byte offset 4
    assert_eq!(cpu.fetch_register_index(), Ok(4));
    // selector 13 wraps to 1, the accumulator
    assert_eq!(cpu.fetch_register_index(), Ok(2));
    // selector 255 wraps to 3, r2
    assert_eq!(cpu.fetch_register_index(), Ok(6));
}

#[test]
fn pushes_then_pops_return_values_in_reverse() {
    let mut cpu = mapped_machine();
    let sp0 = cpu.get_register(Register::Sp);
    let words = [0x1111u16, 0x2222, 0x3333, 0x4444];
    for w in words {
        cpu.push(w).unwrap();
    }
    assert_eq!(cpu.get_register(Register::Sp), sp0 - 8);
    assert_eq!(cpu.frame_size(), 8);
    for w in words.iter().rev() {
        assert_eq!(cpu.pop(), Ok(*w));
    }
    assert_eq!(cpu.get_register(Register::Sp), sp0);
    assert_eq!(cpu.frame_size(), 0);
}

#[test]
fn popped_words_still_sit_in_memory() {
    let mut cpu = mapped_machine();
    let sp0 = cpu.get_register(Register::Sp);
    cpu.push(0xCAFE).unwrap();
    assert_eq!(cpu.pop(), Ok(0xCAFE));
    assert_eq!(cpu.mem_read_word(sp0), Ok(0xCAFE));
}

#[test]
fn push_state_then_pop_state_restores_the_registers() {
    let mut cpu = mapped_machine();
    for (i, r) in [
        Register::R1,
        Register::R2,
        Register::R3,
        Register::R4,
        Register::R5,
        Register::R6,
        Register::R7,
        Register::R8,
    ]
    .iter()
    .enumerate()
    {
        cpu.set_register(*r, 0x0101u16 * (i as u16 + 1));
    }
    cpu.set_register(Register::Ip, 0x0123);
    // the calling convention: the caller pushes its argument count first
    cpu.push(0x0000).unwrap();
    let sp_before = cpu.get_register(Register::Sp);
    let fp_before = cpu.get_register(Register::Fp);

    cpu.push_state().unwrap();
    // the frame opens where the save left the stack
    assert_eq!(cpu.get_register(Register::Fp), sp_before - 20);
    assert_eq!(cpu.frame_size(), 0);
    // a subroutine scrambles everything it may
    cpu.set_register(Register::Ip, 0x4000);
    for r in [Register::R1, Register::R2, Register::R7, Register::R8] {
        cpu.set_register(r, 0xDEAD);
    }
    cpu.pop_state().unwrap();

    assert_eq!(cpu.get_register(Register::Ip), 0x0123);
    for (i, r) in [
        Register::R1,
        Register::R2,
        Register::R3,
        Register::R4,
        Register::R5,
        Register::R6,
        Register::R7,
        Register::R8,
    ]
    .iter()
    .enumerate()
    {
        assert_eq!(cpu.get_register(*r), 0x0101u16 * (i as u16 + 1));
    }
    // the zero argument count was consumed
    assert_eq!(cpu.get_register(Register::Sp), sp_before + 2);
    assert_eq!(cpu.get_register(Register::Fp), fp_before);
}

#[test]
fn mem_word_access_is_big_endian() {
    let mut cpu = mapped_machine();
    cpu.mem_write_word(0x0F00, 0xDDEE).unwrap();
    assert_eq!(cpu.mem_read_word(0x0F00), Ok(0xDDEE));
    assert_eq!(cpu.mapper().get_byte(0x0F00), Ok(0xDD));
    assert_eq!(cpu.mapper().get_byte(0x0F01), Ok(0xEE));
}
