use vm16::cpu::CPU;
use vm16::cpu::Register;
use vm16::device::Device;
use vm16::device::DeviceType;
use vm16::device::OutputAction;
use vm16::instructions::ADD_REG_REG;
use vm16::instructions::CAL_LIT;
use vm16::instructions::HLT;
use vm16::instructions::JNE_LIT;
use vm16::instructions::MOV_LIT_MEM;
use vm16::instructions::MOV_LIT_REG;
use vm16::instructions::MOV_REG_MEM;
use vm16::instructions::MOV_REG_REG;
use vm16::instructions::POP;
use vm16::instructions::PSH_LIT;
use vm16::instructions::RET;
use vm16::mapper::MemoryMapper;

const ACC: u8 = 1;
const R1: u8 = 2;
const R2: u8 = 3;
const R3: u8 = 4;
const R8: u8 = 9;

fn boot(program: &[u8]) -> CPU {
    let mut mm = MemoryMapper::new();
    mm.map(Device::new(0xFF00, DeviceType::Memory), 0x0000, 0xFEFF, true).unwrap();
    mm.map(Device::new(0x0100, DeviceType::Memory), 0xFF00, 0xFFFF, true).unwrap();
    for (i, b) in program.iter().enumerate() {
        mm.set_byte(*b, i as u16).unwrap();
    }
    CPU::new(mm)
}

fn load_at(cpu_program: &mut MemoryMapper, at: u16, bytes: &[u8]) {
    for (i, b) in bytes.iter().enumerate() {
        cpu_program.set_byte(*b, at + i as u16).unwrap();
    }
}

#[test]
fn counting_loop_terminates_after_a_hundred_iterations() {
    // add r1 into the running total until the accumulator reaches 0x0064
    let mut cpu = boot(&[
        MOV_LIT_REG, 0x00, 0x01, R1,       // 0x00
        ADD_REG_REG, R1, R2,               // 0x04: acc = r1 + r2
        MOV_REG_REG, ACC, R2,              // 0x07: r2 = acc
        JNE_LIT, 0x00, 0x64, 0x00, 0x04,   // 0x0A: loop while acc != 100
        HLT,                               // 0x0F
    ]);
    let mut steps = 0;
    let mut iterations = 0;
    loop {
        steps += 1;
        let ip = cpu.get_register(Register::Ip);
        if ip == 0x0004 {
            iterations += 1;
        }
        if cpu.step().unwrap() {
            break;
        }
        assert!(steps < 10_000, "loop ran away");
    }
    assert_eq!(cpu.get_register(Register::Acc), 0x0064);
    assert_eq!(iterations, 100);
    // one setup instruction, one hundred three-instruction passes, one halt
    assert_eq!(steps, 1 + 100 * 3 + 1);
}

#[test]
fn two_pushes_and_a_pop_leave_one_word_on_the_stack() {
    let mut cpu = boot(&[
        PSH_LIT, 0xAA, 0xAA,
        PSH_LIT, 0xBB, 0xBB,
        POP, R1,
        HLT,
    ]);
    let sp0 = cpu.get_register(Register::Sp);
    assert_eq!(cpu.run(100), Ok(true));
    assert_eq!(cpu.get_register(Register::R1), 0xBBBB);
    // the first pushed word is still on the stack
    assert_eq!(cpu.get_register(Register::Sp), sp0 - 2);
    assert_eq!(cpu.mem_read_word(sp0), Ok(0xAAAA));
}

#[test]
fn a_subroutine_call_restores_the_callers_registers() {
    let mut mm = MemoryMapper::new();
    mm.map(Device::new(0xFF00, DeviceType::Memory), 0x0000, 0xFEFF, true).unwrap();
    mm.map(Device::new(0x0100, DeviceType::Memory), 0xFF00, 0xFFFF, true).unwrap();
    load_at(&mut mm, 0x0000, &[
        MOV_LIT_REG, 0x11, 0x11, R1,       // 0x00
        MOV_LIT_REG, 0x22, 0x22, R2,       // 0x04
        MOV_LIT_REG, 0x88, 0x88, R8,       // 0x08
        PSH_LIT, 0x00, 0x00,               // 0x0C: zero-argument marker
        CAL_LIT, 0x30, 0x00,               // 0x0F
        MOV_LIT_REG, 0x00, 0x99, R3,       // 0x12: runs after the return
        HLT,                               // 0x16
    ]);
    // the subroutine scrambles the general-purpose registers, then returns
    load_at(&mut mm, 0x3000, &[
        MOV_LIT_REG, 0xDE, 0xAD, R1,
        MOV_LIT_REG, 0xBE, 0xEF, R2,
        MOV_LIT_REG, 0x0B, 0xAD, R8,
        RET,
    ]);
    let mut cpu = CPU::new(mm);
    let sp0 = cpu.get_register(Register::Sp);
    let fp0 = cpu.get_register(Register::Fp);
    assert_eq!(cpu.run(1000), Ok(true));
    assert_eq!(cpu.get_register(Register::R1), 0x1111);
    assert_eq!(cpu.get_register(Register::R2), 0x2222);
    assert_eq!(cpu.get_register(Register::R8), 0x8888);
    assert_eq!(cpu.get_register(Register::R3), 0x0099);
    assert_eq!(cpu.get_register(Register::Sp), sp0);
    assert_eq!(cpu.get_register(Register::Fp), fp0);
}

#[test]
fn writes_to_the_screen_region_become_output_actions() {
    let mut mm = MemoryMapper::new();
    // the screen shadows part of main memory, so it is mapped first
    mm.map(Device::new(0x0100, DeviceType::Stdout), 0x3000, 0x30FF, true).unwrap();
    mm.map(Device::new(0xFF00, DeviceType::Memory), 0x0000, 0xFEFF, true).unwrap();
    mm.map(Device::new(0x0100, DeviceType::Memory), 0xFF00, 0xFFFF, true).unwrap();
    load_at(&mut mm, 0x0000, &[
        MOV_LIT_MEM, 0x48, 0x49, 0x30, 0x00,   // two characters onto the grid
        HLT,
    ]);
    let mut cpu = CPU::new(mm);
    assert_eq!(cpu.run(100), Ok(true));
    let out = cpu.take_output();
    assert_eq!(
        out,
        vec![
            OutputAction::Put { x: 2, y: 0, ch: 0x48 },
            OutputAction::Put { x: 4, y: 0, ch: 0x49 },
        ]
    );
    assert_eq!(cpu.take_output(), vec![]);
}

#[test]
fn nested_calls_restore_each_frame() {
    let mut mm = MemoryMapper::new();
    mm.map(Device::new(0xFF00, DeviceType::Memory), 0x0000, 0xFEFF, true).unwrap();
    mm.map(Device::new(0x0100, DeviceType::Memory), 0xFF00, 0xFFFF, true).unwrap();
    load_at(&mut mm, 0x0000, &[
        MOV_LIT_REG, 0x12, 0x34, R1,       // 0x00
        PSH_LIT, 0x00, 0x00,               // 0x04
        CAL_LIT, 0x20, 0x00,               // 0x07
        HLT,                               // 0x0A
    ]);
    load_at(&mut mm, 0x2000, &[
        MOV_LIT_REG, 0x56, 0x78, R1,
        PSH_LIT, 0x00, 0x00,
        CAL_LIT, 0x40, 0x00,
        // the inner return restored r1; spill it where the caller's
        // return cannot overwrite it
        MOV_REG_MEM, R1, 0x0F, 0x00,
        RET,
    ]);
    load_at(&mut mm, 0x4000, &[
        MOV_LIT_REG, 0x00, 0x00, R1,
        RET,
    ]);
    let mut cpu = CPU::new(mm);
    let sp0 = cpu.get_register(Register::Sp);
    assert_eq!(cpu.run(1000), Ok(true));
    assert_eq!(cpu.get_register(Register::R1), 0x1234);
    assert_eq!(cpu.mem_read_word(0x0F00), Ok(0x5678));
    assert_eq!(cpu.get_register(Register::Sp), sp0);
}
