use vm16::cpu::CPU;
use vm16::cpu::Register;
use vm16::device::Device;
use vm16::device::DeviceType;
use vm16::errors::VmError;
use vm16::instructions::ADD_LIT_REG;
use vm16::instructions::ADD_REG_REG;
use vm16::instructions::AND_REG_LIT;
use vm16::instructions::AND_REG_REG;
use vm16::instructions::DEC_REG;
use vm16::instructions::HLT;
use vm16::instructions::INC_REG;
use vm16::instructions::JEQ_LIT;
use vm16::instructions::JEQ_REG;
use vm16::instructions::JGE_LIT;
use vm16::instructions::JGT_LIT;
use vm16::instructions::JGT_REG;
use vm16::instructions::JLE_LIT;
use vm16::instructions::JLT_LIT;
use vm16::instructions::JNE_LIT;
use vm16::instructions::JNE_REG;
use vm16::instructions::LSH_REG_LIT;
use vm16::instructions::LSH_REG_REG;
use vm16::instructions::MOV_LIT_MEM;
use vm16::instructions::MOV_LIT_OFF_REG;
use vm16::instructions::MOV_LIT_REG;
use vm16::instructions::MOV_MEM_REG;
use vm16::instructions::MOV_REG_MEM;
use vm16::instructions::MOV_REG_PTR_REG;
use vm16::instructions::MOV_REG_REG;
use vm16::instructions::MUL_LIT_REG;
use vm16::instructions::MUL_REG_REG;
use vm16::instructions::NOT;
use vm16::instructions::OR_REG_LIT;
use vm16::instructions::OR_REG_REG;
use vm16::instructions::POP;
use vm16::instructions::PSH_LIT;
use vm16::instructions::PSH_REG;
use vm16::instructions::RSH_REG_LIT;
use vm16::instructions::RSH_REG_REG;
use vm16::instructions::SUB_LIT_REG;
use vm16::instructions::SUB_REG_LIT;
use vm16::instructions::SUB_REG_REG;
use vm16::instructions::XOR_REG_LIT;
use vm16::instructions::XOR_REG_REG;
use vm16::mapper::MemoryMapper;

// register selector bytes, as programs encode them
const ACC: u8 = 1;
const R1: u8 = 2;
const R2: u8 = 3;
const R3: u8 = 4;
const R4: u8 = 5;

fn machine(program: &[u8]) -> CPU {
    let mut mm = MemoryMapper::new();
    mm.map(Device::new(0xFF00, DeviceType::Memory), 0x0000, 0xFEFF, true).unwrap();
    mm.map(Device::new(0x0100, DeviceType::Memory), 0xFF00, 0xFFFF, true).unwrap();
    for (i, b) in program.iter().enumerate() {
        mm.set_byte(*b, i as u16).unwrap();
    }
    CPU::new(mm)
}

fn run_to_halt(cpu: &mut CPU) -> usize {
    let mut steps = 0;
    loop {
        steps += 1;
        if cpu.step().unwrap() {
            return steps;
        }
        assert!(steps < 100_000, "program did not halt");
    }
}

#[test]
fn mov_lit_reg_loads_a_literal() {
    let mut cpu = machine(&[MOV_LIT_REG, 0x12, 0x34, R1, HLT]);
    run_to_halt(&mut cpu);
    assert_eq!(cpu.get_register(Register::R1), 0x1234);
}

#[test]
fn mov_reg_reg_copies() {
    let mut cpu = machine(&[MOV_LIT_REG, 0xAB, 0xCD, R1, MOV_REG_REG, R1, R2, HLT]);
    run_to_halt(&mut cpu);
    assert_eq!(cpu.get_register(Register::R2), 0xABCD);
    assert_eq!(cpu.get_register(Register::R1), 0xABCD);
}

#[test]
fn mov_reg_mem_and_back() {
    let mut cpu = machine(&[
        MOV_LIT_REG, 0xFE, 0xDC, R1,
        MOV_REG_MEM, R1, 0x0F, 0x00,
        MOV_MEM_REG, 0x0F, 0x00, R2,
        HLT,
    ]);
    run_to_halt(&mut cpu);
    assert_eq!(cpu.get_register(Register::R2), 0xFEDC);
    assert_eq!(cpu.mapper().get_byte(0x0F00), Ok(0xFE));
    assert_eq!(cpu.mapper().get_byte(0x0F01), Ok(0xDC));
}

#[test]
fn mov_lit_mem_writes_big_endian() {
    let mut cpu = machine(&[MOV_LIT_MEM, 0x12, 0x34, 0x0F, 0x00, HLT]);
    run_to_halt(&mut cpu);
    assert_eq!(cpu.mapper().get_byte(0x0F00), Ok(0x12));
    assert_eq!(cpu.mapper().get_byte(0x0F01), Ok(0x34));
    assert_eq!(cpu.mapper().get_uint_16(0x0F00), Ok(0x1234));
}

#[test]
fn mov_reg_ptr_reg_follows_the_pointer() {
    let mut cpu = machine(&[
        MOV_LIT_MEM, 0xBE, 0xEF, 0x0F, 0x10,
        MOV_LIT_REG, 0x0F, 0x10, R1,
        MOV_REG_PTR_REG, R1, R2,
        HLT,
    ]);
    run_to_halt(&mut cpu);
    assert_eq!(cpu.get_register(Register::R2), 0xBEEF);
}

#[test]
fn mov_lit_off_reg_reads_a_whole_word_at_the_offset() {
    let mut cpu = machine(&[
        MOV_LIT_MEM, 0xAB, 0xCD, 0x0F, 0x02,
        MOV_LIT_REG, 0x00, 0x02, R3,
        MOV_LIT_OFF_REG, 0x0F, 0x00, R3, R4,
        HLT,
    ]);
    run_to_halt(&mut cpu);
    assert_eq!(cpu.get_register(Register::R4), 0xABCD);
}

#[test]
fn add_reg_reg_lands_in_the_accumulator() {
    let mut cpu = machine(&[
        MOV_LIT_REG, 0x00, 0x08, R1,
        MOV_LIT_REG, 0x00, 0x09, R2,
        ADD_REG_REG, R1, R2,
        HLT,
    ]);
    run_to_halt(&mut cpu);
    assert_eq!(cpu.get_register(Register::Acc), 0x0011);
}

#[test]
fn add_lit_reg_wraps_unsigned() {
    let mut cpu = machine(&[
        MOV_LIT_REG, 0xFF, 0xFF, R1,
        ADD_LIT_REG, 0x00, 0x01, R1,
        HLT,
    ]);
    run_to_halt(&mut cpu);
    assert_eq!(cpu.get_register(Register::Acc), 0x0000);
}

#[test]
fn subtraction_forms_take_register_minus_literal() {
    let mut cpu = machine(&[
        MOV_LIT_REG, 0x00, 0x10, R1,
        SUB_LIT_REG, 0x00, 0x01, R1,
        HLT,
    ]);
    run_to_halt(&mut cpu);
    assert_eq!(cpu.get_register(Register::Acc), 0x000F);

    let mut cpu2 = machine(&[
        MOV_LIT_REG, 0x00, 0x10, R1,
        SUB_REG_LIT, R1, 0x00, 0x04,
        HLT,
    ]);
    run_to_halt(&mut cpu2);
    assert_eq!(cpu2.get_register(Register::Acc), 0x000C);
}

#[test]
fn sub_reg_reg_wraps_below_zero() {
    let mut cpu = machine(&[
        MOV_LIT_REG, 0x00, 0x05, R1,
        MOV_LIT_REG, 0x00, 0x07, R2,
        SUB_REG_REG, R1, R2,
        HLT,
    ]);
    run_to_halt(&mut cpu);
    assert_eq!(cpu.get_register(Register::Acc), 0xFFFE);
}

#[test]
fn multiplication_wraps() {
    let mut cpu = machine(&[
        MOV_LIT_REG, 0x01, 0x00, R1,
        MUL_LIT_REG, 0x01, 0x00, R1,
        HLT,
    ]);
    run_to_halt(&mut cpu);
    assert_eq!(cpu.get_register(Register::Acc), 0x0000);

    let mut cpu2 = machine(&[
        MOV_LIT_REG, 0x00, 0x06, R1,
        MOV_LIT_REG, 0x00, 0x07, R2,
        MUL_REG_REG, R1, R2,
        HLT,
    ]);
    run_to_halt(&mut cpu2);
    assert_eq!(cpu2.get_register(Register::Acc), 0x002A);
}

#[test]
fn inc_and_dec_mutate_in_place_and_wrap() {
    let mut cpu = machine(&[
        MOV_LIT_REG, 0xFF, 0xFF, R1,
        INC_REG, R1,
        MOV_LIT_REG, 0x00, 0x00, R2,
        DEC_REG, R2,
        HLT,
    ]);
    run_to_halt(&mut cpu);
    assert_eq!(cpu.get_register(Register::R1), 0x0000);
    assert_eq!(cpu.get_register(Register::R2), 0xFFFF);
    assert_eq!(cpu.get_register(Register::Acc), 0x0000);
}

#[test]
fn shifts_mutate_the_register_in_place() {
    let mut cpu = machine(&[
        MOV_LIT_REG, 0x00, 0x01, R1,
        LSH_REG_LIT, R1, 0x00, 0x04,
        MOV_LIT_REG, 0x00, 0x02, R3,
        RSH_REG_LIT, R1, 0x00, 0x01,
        LSH_REG_REG, R1, R3,
        HLT,
    ]);
    run_to_halt(&mut cpu);
    // 1 << 4 = 16, >> 1 = 8, << 2 = 32
    assert_eq!(cpu.get_register(Register::R1), 32);
}

#[test]
fn shifting_by_a_register_of_sixteen_clears() {
    let mut cpu = machine(&[
        MOV_LIT_REG, 0xFF, 0xFF, R1,
        MOV_LIT_REG, 0x00, 0x10, R2,
        RSH_REG_REG, R1, R2,
        HLT,
    ]);
    run_to_halt(&mut cpu);
    assert_eq!(cpu.get_register(Register::R1), 0x0000);
}

#[test]
fn bitwise_ops_land_in_the_accumulator() {
    let mut cpu = machine(&[
        MOV_LIT_REG, 0x0F, 0xF0, R1,
        AND_REG_LIT, R1, 0x00, 0xFF,
        HLT,
    ]);
    run_to_halt(&mut cpu);
    assert_eq!(cpu.get_register(Register::Acc), 0x00F0);

    let mut cpu2 = machine(&[
        MOV_LIT_REG, 0x0F, 0xF0, R1,
        MOV_LIT_REG, 0xF0, 0x0F, R2,
        OR_REG_REG, R1, R2,
        HLT,
    ]);
    run_to_halt(&mut cpu2);
    assert_eq!(cpu2.get_register(Register::Acc), 0xFFFF);

    let mut cpu3 = machine(&[
        MOV_LIT_REG, 0x00, 0xFF, R1,
        XOR_REG_LIT, R1, 0x0F, 0x0F,
        HLT,
    ]);
    run_to_halt(&mut cpu3);
    assert_eq!(cpu3.get_register(Register::Acc), 0x0FF0);

    let mut cpu4 = machine(&[
        MOV_LIT_REG, 0xAA, 0xAA, R1,
        MOV_LIT_REG, 0xAA, 0xAA, R2,
        XOR_REG_REG, R1, R2,
        HLT,
    ]);
    run_to_halt(&mut cpu4);
    assert_eq!(cpu4.get_register(Register::Acc), 0x0000);

    let mut cpu5 = machine(&[
        MOV_LIT_REG, 0x00, 0xFF, R1,
        MOV_LIT_REG, 0x0F, 0x0F, R2,
        AND_REG_REG, R1, R2,
        HLT,
    ]);
    run_to_halt(&mut cpu5);
    assert_eq!(cpu5.get_register(Register::Acc), 0x000F);

    let mut cpu6 = machine(&[
        MOV_LIT_REG, 0xFF, 0x00, R1,
        OR_REG_LIT, R1, 0x00, 0x0F,
        HLT,
    ]);
    run_to_halt(&mut cpu6);
    assert_eq!(cpu6.get_register(Register::Acc), 0xFF0F);
}

#[test]
fn not_complements_into_the_accumulator() {
    let mut cpu = machine(&[MOV_LIT_REG, 0x00, 0xFF, R1, NOT, R1, HLT]);
    run_to_halt(&mut cpu);
    assert_eq!(cpu.get_register(Register::Acc), 0xFF00);
    assert_eq!(cpu.get_register(Register::R1), 0x00FF);
}

#[test]
fn jne_jumps_only_on_difference() {
    // acc stays 0; the literal 1 differs, so the jump to the halt is taken
    let mut cpu = machine(&[
        JNE_LIT, 0x00, 0x01, 0x00, 0x09,
        MOV_LIT_REG, 0xEE, 0xEE, R1,  // skipped
        HLT,
    ]);
    run_to_halt(&mut cpu);
    assert_eq!(cpu.get_register(Register::R1), 0x0000);
    assert_eq!(cpu.get_register(Register::Ip), 0x000A);

    // the literal 0 equals acc: fall through
    let mut cpu2 = machine(&[
        JNE_LIT, 0x00, 0x00, 0x00, 0x09,
        MOV_LIT_REG, 0xEE, 0xEE, R1,
        HLT,
    ]);
    run_to_halt(&mut cpu2);
    assert_eq!(cpu2.get_register(Register::R1), 0xEEEE);
}

#[test]
fn jeq_compares_against_the_accumulator() {
    let mut cpu = machine(&[
        MOV_LIT_REG, 0x00, 0x05, ACC,
        MOV_LIT_REG, 0x00, 0x05, R1,
        JEQ_REG, R1, 0x00, 0x0D,
        HLT,                           // jumped over
        MOV_LIT_REG, 0x77, 0x77, R2,   // at 0x0D
        HLT,
    ]);
    run_to_halt(&mut cpu);
    assert_eq!(cpu.get_register(Register::R2), 0x7777);

    let mut cpu2 = machine(&[
        MOV_LIT_REG, 0x00, 0x05, ACC,
        JEQ_LIT, 0x00, 0x05, 0x00, 0x0A,
        HLT,
        MOV_LIT_REG, 0x66, 0x66, R2,   // at 0x0A
        HLT,
    ]);
    run_to_halt(&mut cpu2);
    assert_eq!(cpu2.get_register(Register::R2), 0x6666);
}

#[test]
fn ordered_jumps_compare_unsigned_against_the_accumulator() {
    // acc = 5; literal 3 is below: JLT jumps
    let mut cpu = machine(&[
        MOV_LIT_REG, 0x00, 0x05, ACC,
        JLT_LIT, 0x00, 0x03, 0x00, 0x0A,
        HLT,
        MOV_LIT_REG, 0x00, 0x01, R1,   // at 0x0A
        HLT,
    ]);
    run_to_halt(&mut cpu);
    assert_eq!(cpu.get_register(Register::R1), 0x0001);

    // acc = 5; literal 7 is above: JGT jumps
    let mut cpu2 = machine(&[
        MOV_LIT_REG, 0x00, 0x05, ACC,
        JGT_LIT, 0x00, 0x07, 0x00, 0x0A,
        HLT,
        MOV_LIT_REG, 0x00, 0x02, R1,
        HLT,
    ]);
    run_to_halt(&mut cpu2);
    assert_eq!(cpu2.get_register(Register::R1), 0x0002);

    // acc = 5; literal 5 is not above: JGT falls through
    let mut cpu3 = machine(&[
        MOV_LIT_REG, 0x00, 0x05, ACC,
        JGT_LIT, 0x00, 0x05, 0x00, 0x0A,
        HLT,
        MOV_LIT_REG, 0x00, 0x03, R1,
        HLT,
    ]);
    run_to_halt(&mut cpu3);
    assert_eq!(cpu3.get_register(Register::R1), 0x0000);

    // JLE and JGE accept equality
    let mut cpu4 = machine(&[
        MOV_LIT_REG, 0x00, 0x05, ACC,
        JLE_LIT, 0x00, 0x05, 0x00, 0x0A,
        HLT,
        JGE_LIT, 0x00, 0x05, 0x00, 0x10,
        HLT,
        MOV_LIT_REG, 0x00, 0x04, R1,   // at 0x10
        HLT,
    ]);
    run_to_halt(&mut cpu4);
    assert_eq!(cpu4.get_register(Register::R1), 0x0004);

    // register form: acc = 5, r1 = 9 is above
    let mut cpu5 = machine(&[
        MOV_LIT_REG, 0x00, 0x05, ACC,
        MOV_LIT_REG, 0x00, 0x09, R1,
        JGT_REG, R1, 0x00, 0x0D,
        HLT,
        MOV_LIT_REG, 0x00, 0x05, R2,   // at 0x0D
        HLT,
    ]);
    run_to_halt(&mut cpu5);
    assert_eq!(cpu5.get_register(Register::R2), 0x0005);

    // register form of JNE: r1 = 9 differs from acc = 5
    let mut cpu6 = machine(&[
        MOV_LIT_REG, 0x00, 0x05, ACC,
        MOV_LIT_REG, 0x00, 0x09, R1,
        JNE_REG, R1, 0x00, 0x0D,
        HLT,
        MOV_LIT_REG, 0x00, 0x06, R2,
        HLT,
    ]);
    run_to_halt(&mut cpu6);
    assert_eq!(cpu6.get_register(Register::R2), 0x0006);
}

#[test]
fn push_and_pop_through_programs() {
    let mut cpu = machine(&[
        MOV_LIT_REG, 0x12, 0x21, R1,
        PSH_REG, R1,
        PSH_LIT, 0x34, 0x43,
        POP, R2,
        POP, R3,
        HLT,
    ]);
    let sp0 = cpu.get_register(Register::Sp);
    run_to_halt(&mut cpu);
    assert_eq!(cpu.get_register(Register::R2), 0x3443);
    assert_eq!(cpu.get_register(Register::R3), 0x1221);
    assert_eq!(cpu.get_register(Register::Sp), sp0);
}

#[test]
fn an_unknown_opcode_is_a_structured_error() {
    let mut cpu = machine(&[0xEE]);
    assert_eq!(cpu.step(), Err(VmError::UnknownOpcode(0xEE)));
    // decoding it directly reports the same fault
    let mut cpu2 = machine(&[]);
    assert_eq!(cpu2.execute(0xEE), Err(VmError::UnknownOpcode(0xEE)));
}

#[test]
fn run_stops_at_the_budget_or_the_halt() {
    let mut cpu = machine(&[MOV_LIT_REG, 0x00, 0x01, R1, HLT]);
    assert_eq!(cpu.run(0), Ok(false));
    assert_eq!(cpu.run(100), Ok(true));
    assert_eq!(cpu.get_register(Register::R1), 0x0001);

    let mut cpu2 = machine(&[MOV_LIT_REG, 0x00, 0x01, R1, HLT]);
    assert_eq!(cpu2.run(1), Ok(false));
    assert_eq!(cpu2.get_register(Register::R1), 0x0001);
    assert_eq!(cpu2.run(1), Ok(true));
}
