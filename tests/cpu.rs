use i8080::bus::Bus;
use i8080::cpu::{Cpu, State};
use i8080::machine::{SimpleBus, SimpleMachine};

fn machine_with(program: &[u8]) -> SimpleMachine {
    let mut m = SimpleMachine::new();
    m.load(0x0000, program);
    m
}

#[test]
fn new_cpu_is_reset() {
    let c = Cpu::new();
    assert_eq!(c.pc, 0);
    assert_eq!(c.sp, 0);
    assert_eq!(c.a, 0);
    assert_eq!(c.bc(), 0);
    assert_eq!(c.de(), 0);
    assert_eq!(c.hl(), 0);
    assert!(c.iff);
    assert_eq!(c.state, State::Running);
    assert!(!c.flags.zero && !c.flags.sign && !c.flags.parity && !c.flags.aux_carry && !c.flags.carry);
}

#[test]
fn pair_setters_round_trip() {
    let mut c = Cpu::new();
    for x in [0u16, 1, 0x00FF, 0x0100, 0x1234, 0xABCD, 0xFFFF] {
        c.set_bc(x);
        assert_eq!(c.bc(), x);
        c.set_de(x);
        assert_eq!(c.de(), x);
        c.set_hl(x);
        assert_eq!(c.hl(), x);
    }
    c.set_bc(0x1234);
    assert_eq!((c.b, c.c), (0x12, 0x34));
}

#[test]
fn af_fixes_reserved_bits() {
    let mut c = Cpu::new();
    for x in [0u16, 0xFFFF, 0x12D7, 0x4528, 0x8002] {
        c.set_af(x);
        assert_eq!(c.af(), (x | 0x02) & !0x28);
    }
    c.set_af(0x00D5);
    assert!(c.flags.sign && c.flags.zero && c.flags.aux_carry && c.flags.parity && c.flags.carry);
}

#[test]
fn four_steps_reach_halt() {
    let mut m = machine_with(&[0xC3, 0x03, 0x00, 0x00, 0x00, 0x76]);
    let mut total = 0;
    for _ in 0..4 {
        total += m.step();
    }
    assert_eq!(m.cpu.state, State::Halted);
    assert_eq!(m.cpu.pc, 0x0006);
    assert_eq!(total, 22);
}

#[test]
fn lxi_b_loads_pair() {
    let mut m = machine_with(&[0x01, 0x34, 0x12]);
    let cycles = m.step();
    assert_eq!(m.cpu.b, 0x12);
    assert_eq!(m.cpu.c, 0x34);
    assert_eq!(m.cpu.pc, 3);
    assert_eq!(cycles, 10);
}

#[test]
fn adi_overflow_sets_flags() {
    let mut m = machine_with(&[0x3E, 0xFF, 0xC6, 0x01]);
    m.step();
    m.step();
    assert_eq!(m.cpu.a, 0x00);
    assert!(m.cpu.flags.zero);
    assert!(m.cpu.flags.carry);
    assert!(m.cpu.flags.aux_carry);
    assert!(!m.cpu.flags.sign);
    assert!(m.cpu.flags.parity);
}

#[test]
fn push_pop_hl_restores() {
    let mut m = machine_with(&[0x31, 0x00, 0x20, 0x21, 0xCD, 0xAB, 0xE5, 0xE1]);
    for _ in 0..4 {
        m.step();
    }
    assert_eq!(m.cpu.hl(), 0xABCD);
    assert_eq!(m.cpu.sp, 0x2000);
    assert_eq!(m.bus.memory[0x1FFE], 0xCD);
    assert_eq!(m.bus.memory[0x1FFF], 0xAB);
}

#[test]
fn push_pop_every_pair_restores() {
    // PUSH B/D/H/PSW then POP of the same pair at a few stack pointers.
    for (push, pop) in [(0xC5u8, 0xC1u8), (0xD5, 0xD1), (0xE5, 0xE1), (0xF5, 0xF1)] {
        for sp in [0x0000u16, 0x0001, 0x2000, 0xFFFF] {
            let mut m = machine_with(&[push, pop]);
            m.cpu.sp = sp;
            m.cpu.set_bc(0x1234);
            m.cpu.set_de(0x5678);
            m.cpu.set_hl(0x9ABC);
            m.cpu.set_af(0xDED7);
            let before = m.cpu;
            m.step();
            m.step();
            assert_eq!(m.cpu.sp, sp);
            assert_eq!(m.cpu.bc(), before.bc());
            assert_eq!(m.cpu.de(), before.de());
            assert_eq!(m.cpu.hl(), before.hl());
            assert_eq!(m.cpu.af(), before.af());
        }
    }
}

#[test]
fn add_sets_aux_carry() {
    let mut m = machine_with(&[0x3E, 0x0F, 0xC6, 0x01]);
    m.step();
    m.step();
    assert_eq!(m.cpu.a, 0x10);
    assert!(m.cpu.flags.aux_carry);
    assert!(!m.cpu.flags.carry);
    assert!(!m.cpu.flags.zero);

    let mut m = machine_with(&[0x3E, 0xFF, 0x06, 0x01, 0x80]);
    for _ in 0..3 {
        m.step();
    }
    assert_eq!(m.cpu.a, 0);
    assert!(m.cpu.flags.zero && m.cpu.flags.carry && m.cpu.flags.aux_carry);
}

#[test]
fn inr_wraps_to_zero() {
    // STC; MVI B,0FFh; INR B
    let mut m = machine_with(&[0x37, 0x06, 0xFF, 0x04]);
    m.step();
    m.step();
    let cycles = m.step();
    assert_eq!(m.cpu.b, 0x00);
    assert!(m.cpu.flags.zero);
    assert!(m.cpu.flags.aux_carry);
    assert!(m.cpu.flags.carry);
    assert_eq!(cycles, 5);
}

#[test]
fn dcr_wraps_to_ff() {
    // MVI A,00h; DCR A (carry stays clear)
    let mut m = machine_with(&[0x3E, 0x00, 0x3D]);
    m.step();
    m.step();
    assert_eq!(m.cpu.a, 0xFF);
    assert!(!m.cpu.flags.zero);
    assert!(m.cpu.flags.sign);
    assert!(m.cpu.flags.aux_carry);
    assert!(!m.cpu.flags.carry);
}

#[test]
fn inr_memory_operand() {
    // LXI H,1000h; MVI M,0FFh; INR M
    let mut m = machine_with(&[0x21, 0x00, 0x10, 0x36, 0xFF, 0x34]);
    m.step();
    assert_eq!(m.step(), 10);
    assert_eq!(m.step(), 10);
    assert_eq!(m.bus.memory[0x1000], 0x00);
    assert!(m.cpu.flags.zero);
}

#[test]
fn rla_then_rra_restores() {
    for v in [0x00u8, 0x01, 0x80, 0x81, 0x5A, 0xFF] {
        for carry in [false, true] {
            let mut m = machine_with(&[0x17, 0x1F]);
            m.cpu.a = v;
            m.cpu.flags.carry = carry;
            m.step();
            m.step();
            assert_eq!(m.cpu.a, v);
            assert_eq!(m.cpu.flags.carry, carry);
        }
    }
}

#[test]
fn rotates_move_bits_through_carry() {
    // RLC of 0x81 gives 0x03 with C set; RRC of 0x01 gives 0x80 with C set
    let mut m = machine_with(&[0x07, 0x0F, 0x0F]);
    m.cpu.a = 0x81;
    m.step();
    assert_eq!(m.cpu.a, 0x03);
    assert!(m.cpu.flags.carry);
    m.step();
    assert_eq!(m.cpu.a, 0x81);
    assert!(m.cpu.flags.carry);
    m.step();
    assert_eq!(m.cpu.a, 0xC0);
    assert!(m.cpu.flags.carry);
}

#[test]
fn ora_a_sets_parity() {
    for v in 0..=255u8 {
        let mut m = machine_with(&[0xB7]);
        m.cpu.a = v;
        m.step();
        assert_eq!(m.cpu.flags.parity, v.count_ones() % 2 == 0, "value {v:#04x}");
        assert_eq!(m.cpu.a, v);
        assert!(!m.cpu.flags.carry);
        assert!(!m.cpu.flags.aux_carry);
    }
}

#[test]
fn halted_cpu_stays_put() {
    let mut m = machine_with(&[0x76, 0x3C]);
    m.step();
    let before = m.cpu;
    for _ in 0..3 {
        assert_eq!(m.step(), 4);
        assert_eq!(m.cpu, before);
    }
}

#[test]
fn word_round_trip_on_bus() {
    let mut bus = SimpleBus::new();
    for addr in [0x0000u16, 0x1234, 0xFFFE, 0xFFFF] {
        bus.write16(addr, 0xBEEF);
        assert_eq!(bus.read16(addr), 0xBEEF);
    }
    bus.write16(0xFFFF, 0x1234);
    assert_eq!(bus.memory[0xFFFF], 0x34);
    assert_eq!(bus.memory[0x0000], 0x12);
}

#[test]
fn call_then_ret() {
    // at 0x0100: CALL 0300h; at 0x0300: RET
    let mut m = SimpleMachine::new();
    m.load(0x0100, &[0xCD, 0x00, 0x03]);
    m.load(0x0300, &[0xC9]);
    m.cpu.pc = 0x0100;
    m.cpu.sp = 0x4000;
    assert_eq!(m.step(), 17);
    assert_eq!(m.cpu.pc, 0x0300);
    assert_eq!(m.cpu.sp, 0x3FFE);
    assert_eq!(m.bus.read16(0x3FFE), 0x0103);
    assert_eq!(m.step(), 10);
    assert_eq!(m.cpu.pc, 0x0103);
    assert_eq!(m.cpu.sp, 0x4000);
}

#[test]
fn conditional_call_and_return_cycles() {
    // CNZ with Z set is not taken; RZ with Z set is taken; RNZ is not
    let mut m = SimpleMachine::new();
    m.load(0x0100, &[0xC4, 0x00, 0x02, 0xC0, 0xC8]);
    m.cpu.pc = 0x0100;
    m.cpu.sp = 0x4000;
    m.cpu.flags.zero = true;
    m.bus.write16(0x4000, 0x1234);
    assert_eq!(m.step(), 11);
    assert_eq!(m.cpu.pc, 0x0103);
    assert_eq!(m.step(), 5);
    assert_eq!(m.cpu.pc, 0x0104);
    assert_eq!(m.step(), 11);
    assert_eq!(m.cpu.pc, 0x1234);
    assert_eq!(m.cpu.sp, 0x4002);
}

#[test]
fn jump_operand_is_skipped_when_not_taken() {
    // JNZ with Z set falls through past the operand
    let mut m = machine_with(&[0xC2, 0x00, 0x80, 0x00]);
    m.cpu.flags.zero = true;
    assert_eq!(m.step(), 10);
    assert_eq!(m.cpu.pc, 3);
}

#[test]
fn pc_wraps_at_top_of_memory() {
    let mut m = SimpleMachine::new();
    m.cpu.pc = 0xFFFF;
    m.step();
    assert_eq!(m.cpu.pc, 0x0000);
}

#[test]
fn push_wraps_stack_pointer() {
    let mut m = machine_with(&[0xC5]);
    m.cpu.sp = 0x0001;
    m.cpu.set_bc(0xA1B2);
    m.step();
    assert_eq!(m.cpu.sp, 0xFFFF);
    assert_eq!(m.bus.memory[0xFFFF], 0xB2);
    assert_eq!(m.bus.memory[0x0000], 0xA1);
}

#[test]
fn rst_pushes_and_jumps() {
    let mut m = SimpleMachine::new();
    m.load(0x0200, &[0xEF]);
    m.cpu.pc = 0x0200;
    m.cpu.sp = 0x1000;
    assert_eq!(m.step(), 11);
    assert_eq!(m.cpu.pc, 0x0028);
    assert_eq!(m.bus.read16(0x0FFE), 0x0201);
}

#[test]
fn sub_and_sbb_borrow() {
    // MVI A,10h; SUI 01h -> 0Fh, AC set (0 < 1), C clear; STC; SBI 0Fh -> FFh, C set
    let mut m = machine_with(&[0x3E, 0x10, 0xD6, 0x01, 0x37, 0xDE, 0x0F]);
    m.step();
    m.step();
    assert_eq!(m.cpu.a, 0x0F);
    assert!(m.cpu.flags.aux_carry);
    assert!(!m.cpu.flags.carry);
    m.step();
    m.step();
    assert_eq!(m.cpu.a, 0xFF);
    assert!(m.cpu.flags.carry);
    assert!(m.cpu.flags.sign);
}

#[test]
fn cmp_keeps_accumulator() {
    let mut m = machine_with(&[0x3E, 0x05, 0xFE, 0x05, 0xFE, 0x06]);
    m.step();
    m.step();
    assert_eq!(m.cpu.a, 0x05);
    assert!(m.cpu.flags.zero);
    assert!(!m.cpu.flags.carry);
    m.step();
    assert!(m.cpu.flags.carry);
    assert_eq!(m.cpu.a, 0x05);
}

#[test]
fn logic_ops_set_carry_and_aux() {
    // MVI A,0F0h; STC; ANI 3Ch -> 30h, C=0, AC=1; XRI 30h -> 0, Z; ORI 81h -> 81h, S
    let mut m = machine_with(&[0x3E, 0xF0, 0x37, 0xE6, 0x3C, 0xEE, 0x30, 0xF6, 0x81]);
    m.step();
    m.step();
    m.step();
    assert_eq!(m.cpu.a, 0x30);
    assert!(!m.cpu.flags.carry && m.cpu.flags.aux_carry);
    m.step();
    assert_eq!(m.cpu.a, 0);
    assert!(m.cpu.flags.zero && !m.cpu.flags.aux_carry);
    m.step();
    assert_eq!(m.cpu.a, 0x81);
    assert!(m.cpu.flags.sign && !m.cpu.flags.zero);
}

#[test]
fn adc_adds_carry() {
    // MVI A,0Eh; STC; ACI 01h -> 10h with AC
    let mut m = machine_with(&[0x3E, 0x0E, 0x37, 0xCE, 0x01]);
    m.step();
    m.step();
    m.step();
    assert_eq!(m.cpu.a, 0x10);
    assert!(m.cpu.flags.aux_carry);
    assert!(!m.cpu.flags.carry);
}

#[test]
fn daa_adjusts_bcd() {
    // 0x9B -> add 0x66 -> 0x01 with C and AC
    let mut m = machine_with(&[0x27]);
    m.cpu.a = 0x9B;
    m.step();
    assert_eq!(m.cpu.a, 0x01);
    assert!(m.cpu.flags.carry);
    assert!(m.cpu.flags.aux_carry);
    // 0x15 + 0x27 = 0x3C, DAA -> 0x42
    let mut m = machine_with(&[0x3E, 0x15, 0xC6, 0x27, 0x27]);
    m.step();
    m.step();
    m.step();
    assert_eq!(m.cpu.a, 0x42);
    assert!(!m.cpu.flags.carry);
}

#[test]
fn dad_sets_only_carry() {
    // LXI H,0FFFFh; LXI B,0002h; DAD B
    let mut m = machine_with(&[0x21, 0xFF, 0xFF, 0x01, 0x02, 0x00, 0x09]);
    m.step();
    m.step();
    assert_eq!(m.step(), 11);
    assert_eq!(m.cpu.hl(), 0x0001);
    assert!(m.cpu.flags.carry);
    assert!(!m.cpu.flags.zero);
}

#[test]
fn inx_dcx_wrap() {
    let mut m = machine_with(&[0x13, 0x3B]);
    m.cpu.set_de(0xFFFF);
    assert_eq!(m.step(), 6);
    assert_eq!(m.cpu.de(), 0x0000);
    m.step();
    assert_eq!(m.cpu.sp, 0xFFFF);
}

#[test]
fn xthl_xchg_sphl_pchl() {
    let mut m = machine_with(&[0xE3, 0xEB, 0xF9, 0xE9]);
    m.cpu.sp = 0x2000;
    m.bus.write16(0x2000, 0x1111);
    m.cpu.set_hl(0x2222);
    m.cpu.set_de(0x3333);
    assert_eq!(m.step(), 19);
    assert_eq!(m.cpu.hl(), 0x1111);
    assert_eq!(m.bus.read16(0x2000), 0x2222);
    assert_eq!(m.step(), 4);
    assert_eq!(m.cpu.hl(), 0x3333);
    assert_eq!(m.cpu.de(), 0x1111);
    assert_eq!(m.step(), 6);
    assert_eq!(m.cpu.sp, 0x3333);
    assert_eq!(m.step(), 5);
    assert_eq!(m.cpu.pc, 0x3333);
}

#[test]
fn loads_and_stores() {
    // LXI B,1000h; MVI A,42h; STAX B; STA 2000h; LHLD 1000h; SHLD 3000h; LDA 3000h; LDAX B
    let prog = [
        0x01, 0x00, 0x10, 0x3E, 0x42, 0x02, 0x32, 0x00, 0x20, 0x2A, 0x00, 0x10, 0x22, 0x00, 0x30, 0x3A,
        0x00, 0x30, 0x0A,
    ];
    let mut m = machine_with(&prog);
    m.step();
    m.step();
    assert_eq!(m.step(), 7);
    assert_eq!(m.bus.memory[0x1000], 0x42);
    assert_eq!(m.step(), 13);
    assert_eq!(m.bus.memory[0x2000], 0x42);
    assert_eq!(m.step(), 16);
    assert_eq!(m.cpu.hl(), 0x0042);
    assert_eq!(m.step(), 16);
    assert_eq!(m.bus.read16(0x3000), 0x0042);
    m.cpu.a = 0;
    assert_eq!(m.step(), 13);
    assert_eq!(m.cpu.a, 0x42);
    m.cpu.a = 0;
    m.step();
    assert_eq!(m.cpu.a, 0x42);
}

#[test]
fn mov_cycles() {
    // MOV B,C; MOV M,A; MOV A,M
    let mut m = machine_with(&[0x41, 0x77, 0x7E]);
    m.cpu.c = 9;
    m.cpu.a = 7;
    m.cpu.set_hl(0x4000);
    assert_eq!(m.step(), 5);
    assert_eq!(m.cpu.b, 9);
    assert_eq!(m.step(), 7);
    assert_eq!(m.bus.memory[0x4000], 7);
    assert_eq!(m.step(), 7);
}

#[test]
fn cma_stc_cmc_ei_di() {
    let mut m = machine_with(&[0x2F, 0x37, 0x3F, 0xF3, 0xFB]);
    m.cpu.a = 0x0F;
    m.step();
    assert_eq!(m.cpu.a, 0xF0);
    assert!(m.cpu.flags.aux_carry);
    m.step();
    assert!(m.cpu.flags.carry);
    m.step();
    assert!(!m.cpu.flags.carry);
    m.step();
    assert!(!m.cpu.iff);
    m.step();
    assert!(m.cpu.iff);
}

#[test]
fn in_reads_zero_and_out_discards() {
    let mut m = machine_with(&[0xDB, 0x10, 0xD3, 0x11]);
    m.cpu.a = 0x55;
    assert_eq!(m.step(), 10);
    assert_eq!(m.cpu.a, 0);
    assert_eq!(m.step(), 10);
    assert_eq!(m.cpu.pc, 4);
}

#[test]
fn undocumented_aliases() {
    // 0x08 is NOP, 0xCB is JMP, 0xDD is CALL, 0xD9 is RET
    let mut m = machine_with(&[0x08, 0xCB, 0x10, 0x00]);
    m.load(0x0010, &[0xDD, 0x20, 0x00]);
    m.load(0x0020, &[0xD9]);
    m.cpu.sp = 0x8000;
    assert_eq!(m.step(), 4);
    assert_eq!(m.step(), 10);
    assert_eq!(m.cpu.pc, 0x0010);
    assert_eq!(m.step(), 17);
    assert_eq!(m.cpu.pc, 0x0020);
    assert_eq!(m.step(), 10);
    assert_eq!(m.cpu.pc, 0x0013);
}

#[test]
fn every_opcode_steps() {
    for op in 0..=255u8 {
        let mut m = machine_with(&[op, 0x00, 0x00]);
        m.cpu.sp = 0x8000;
        let cycles = m.step();
        assert!((4..=19).contains(&cycles), "opcode {op:#04x}");
    }
}

#[test]
fn trace_line_format() {
    let mut c = Cpu::new();
    c.pc = 0x0100;
    c.sp = 0xFFFE;
    c.a = 0x0A;
    c.set_bc(0x1234);
    c.set_de(0xABCD);
    c.set_hl(0x00FF);
    c.flags.zero = true;
    c.flags.carry = true;
    assert_eq!(
        c.to_string(),
        "PC=0100 SP=FFFE A=0A BC=1234 DE=ABCD HL=00FF F=[Z:1 S:0 P:0 AC:0 C:1] (Running)"
    );
    c.state = State::Halted;
    assert!(c.to_string().ends_with("(Halted)"));
}

#[test]
fn interrupt_restarts_when_enabled() {
    let mut m = SimpleMachine::new();
    m.cpu.pc = 0x1234;
    m.cpu.sp = 0x2000;
    m.cpu.request_interrupt(&mut m.bus, 0xD7);
    assert_eq!(m.cpu.pc, 0x0010);
    assert!(!m.cpu.iff);
    assert_eq!(m.cpu.sp, 0x1FFE);
    assert_eq!(m.bus.read16(0x1FFE), 0x1234);
    // disabled now: a second request is ignored
    m.cpu.request_interrupt(&mut m.bus, 0xFF);
    assert_eq!(m.cpu.pc, 0x0010);
    assert_eq!(m.cpu.sp, 0x1FFE);
}
