use vstd::prelude::*;

use crate::bus::{add16, store_word, word_at};
use crate::cpu::{even_parity, with_zsp, Cpu, Flags, State};
use crate::decode::{decode_spec, Instr};

verus! {

/// What one instruction leaves behind: the CPU, the memory, and its cycle cost.
pub type Outcome = (Cpu, Seq<u8>, u64);

/// Value of register `r`; code 6 reads memory at HL.
pub open spec fn reg_value(c: Cpu, mem: Seq<u8>, r: u8) -> u8 {
    if r == 0 {
        c.b
    } else if r == 1 {
        c.c
    } else if r == 2 {
        c.d
    } else if r == 3 {
        c.e
    } else if r == 4 {
        c.h
    } else if r == 5 {
        c.l
    } else if r == 6 {
        mem[c.spec_hl() as int]
    } else {
        c.a
    }
}

/// CPU and memory after storing `v` in register `r`; code 6 writes memory at HL.
pub open spec fn set_reg_value(c: Cpu, mem: Seq<u8>, r: u8, v: u8) -> (Cpu, Seq<u8>) {
    if r == 0 {
        (Cpu { b: v, ..c }, mem)
    } else if r == 1 {
        (Cpu { c: v, ..c }, mem)
    } else if r == 2 {
        (Cpu { d: v, ..c }, mem)
    } else if r == 3 {
        (Cpu { e: v, ..c }, mem)
    } else if r == 4 {
        (Cpu { h: v, ..c }, mem)
    } else if r == 5 {
        (Cpu { l: v, ..c }, mem)
    } else if r == 6 {
        (c, mem.update(c.spec_hl() as int, v))
    } else {
        (Cpu { a: v, ..c }, mem)
    }
}

/// Value of pair `rp` (`0=BC, 1=DE, 2=HL, 3=SP`).
pub open spec fn pair_value(c: Cpu, rp: u8) -> u16 {
    if rp == 0 {
        c.spec_bc()
    } else if rp == 1 {
        c.spec_de()
    } else if rp == 2 {
        c.spec_hl()
    } else {
        c.sp
    }
}

pub open spec fn with_pair(c: Cpu, rp: u8, x: u16) -> Cpu {
    if rp == 0 {
        c.with_bc(x)
    } else if rp == 1 {
        c.with_de(x)
    } else if rp == 2 {
        c.with_hl(x)
    } else {
        Cpu { sp: x, ..c }
    }
}

/// Value of pair `rp` as PUSH sees it (`3=AF`).
pub open spec fn stack_pair_value(c: Cpu, rp: u8) -> u16 {
    if rp == 3 {
        c.spec_af()
    } else {
        pair_value(c, rp)
    }
}

pub open spec fn with_stack_pair(c: Cpu, rp: u8, x: u16) -> Cpu {
    if rp == 3 {
        c.with_af(x)
    } else {
        with_pair(c, rp, x)
    }
}

/// Whether condition `cc` holds under flags `f`.
pub open spec fn condition_holds(f: Flags, cc: u8) -> bool {
    if cc == 0 {
        !f.zero
    } else if cc == 1 {
        f.zero
    } else if cc == 2 {
        !f.carry
    } else if cc == 3 {
        f.carry
    } else if cc == 4 {
        !f.parity
    } else if cc == 5 {
        f.parity
    } else if cc == 6 {
        !f.sign
    } else {
        f.sign
    }
}

/// All five flags for an 8-bit result `v` with the given AC and C.
pub open spec fn result_flags(v: u8, aux_carry: bool, carry: bool) -> Flags {
    Flags { zero: v == 0, sign: v >= 0x80, parity: even_parity(v), aux_carry, carry }
}

pub open spec fn carry_in(f: Flags) -> int {
    if f.carry {
        1
    } else {
        0
    }
}

/// Accumulator and flags after ALU operation `op` on A = `a` and operand `v`.
pub open spec fn alu(op: u8, a: u8, v: u8, f: Flags) -> (u8, Flags) {
    let cin = carry_in(f);
    if op == 0 {
        let r = ((a + v) % 256) as u8;
        (r, result_flags(r, a % 16 + v % 16 >= 16, a + v >= 256))
    } else if op == 1 {
        let r = ((a + v + cin) % 256) as u8;
        (r, result_flags(r, a % 16 + v % 16 + cin >= 16, a + v + cin >= 256))
    } else if op == 2 {
        let r = ((a - v) % 256) as u8;
        (r, result_flags(r, a % 16 < v % 16, a < v))
    } else if op == 3 {
        let r = ((a - v - cin) % 256) as u8;
        (r, result_flags(r, a % 16 < v % 16 + cin, a < v + cin))
    } else if op == 4 {
        (a & v, result_flags(a & v, true, false))
    } else if op == 5 {
        (a ^ v, result_flags(a ^ v, false, false))
    } else if op == 6 {
        (a | v, result_flags(a | v, false, false))
    } else {
        let r = ((a - v) % 256) as u8;
        (a, result_flags(r, a % 16 < v % 16, a < v))
    }
}

/// The CPU after ALU operation `op` with operand `v`.
pub open spec fn with_alu(c: Cpu, op: u8, v: u8) -> Cpu {
    let (a, flags) = alu(op, c.a, v, c.flags);
    Cpu { a, flags, ..c }
}

/// INR on value `v`: the result and the flags (C kept).
pub open spec fn inr(v: u8, f: Flags) -> (u8, Flags) {
    let r = ((v + 1) % 256) as u8;
    (r, with_zsp(Flags { aux_carry: v % 16 == 15, ..f }, r))
}

/// DCR on value `v`: the result and the flags (C kept).
pub open spec fn dcr(v: u8, f: Flags) -> (u8, Flags) {
    let r = ((v - 1) % 256) as u8;
    (r, with_zsp(Flags { aux_carry: v % 16 == 0, ..f }, r))
}

/// DAA: decimal adjustment of A after a BCD addition.
pub open spec fn daa(a: u8, f: Flags) -> (u8, Flags) {
    let low = if a % 16 > 9 || f.aux_carry { 6int } else { 0int };
    let high = if a > 0x99 || f.carry { 0x60int } else { 0int };
    let r = ((a + low + high) % 256) as u8;
    (r, result_flags(r, a % 16 + low >= 16, high != 0))
}

/// Accumulator and carry after one of the four rotates (`0=RLC, 1=RRC, 2=RAL, 3=RAR`).
pub open spec fn rotate(kind: int, a: u8, carry: bool) -> (u8, bool) {
    let cin: int = if carry { 1 } else { 0 };
    if kind == 0 {
        (((a * 2) % 256 + a / 128) as u8, a >= 128)
    } else if kind == 1 {
        ((a / 2 + (a % 2) * 128) as u8, a % 2 == 1)
    } else if kind == 2 {
        (((a * 2) % 256 + cin) as u8, a >= 128)
    } else {
        ((a / 2 + cin * 128) as u8, a % 2 == 1)
    }
}

pub open spec fn with_rotate(c: Cpu, kind: int) -> Cpu {
    let (a, carry) = rotate(kind, c.a, c.flags.carry);
    Cpu { a, flags: Flags { carry, ..c.flags }, ..c }
}

/// Pushes `ret` and jumps to `target`.
pub open spec fn call_to(c: Cpu, mem: Seq<u8>, ret: u16, target: u16) -> (Cpu, Seq<u8>) {
    let sp = add16(c.sp, -2);
    (Cpu { sp, pc: target, ..c }, store_word(mem, sp, ret))
}

/// Pops the return address into PC.
pub open spec fn return_from(c: Cpu, mem: Seq<u8>) -> Cpu {
    Cpu { pc: word_at(mem, c.sp), sp: add16(c.sp, 2), ..c }
}

/// Executes `i`, whose opcode has been fetched (`c.pc` is past it). `inp`
/// gives what each input port answers.
pub open spec fn execute(i: Instr, c: Cpu, mem: Seq<u8>, inp: spec_fn(u8) -> u8) -> Outcome {
    let n = mem[c.pc as int];
    let c1 = Cpu { pc: add16(c.pc, 1), ..c };
    let w = word_at(mem, c.pc);
    let c2 = Cpu { pc: add16(c.pc, 2), ..c };
    match i {
        Instr::Nop => (c, mem, 4),
        Instr::Hlt => (Cpu { state: State::Halted, ..c }, mem, 4),
        Instr::Mov(d, s) => {
            let (c3, m3) = set_reg_value(c, mem, d, reg_value(c, mem, s));
            (c3, m3, if d == 6 || s == 6 { 7 } else { 5 })
        },
        Instr::Mvi(d) => {
            let (c3, m3) = set_reg_value(c1, mem, d, n);
            (c3, m3, if d == 6 { 10 } else { 7 })
        },
        Instr::Ldax(rp) => (Cpu { a: mem[pair_value(c, rp) as int], ..c }, mem, 7),
        Instr::Stax(rp) => (c, mem.update(pair_value(c, rp) as int, c.a), 7),
        Instr::Lda => (Cpu { a: mem[w as int], ..c2 }, mem, 13),
        Instr::Sta => (c2, mem.update(w as int, c.a), 13),
        Instr::Lhld => (c2.with_hl(word_at(mem, w)), mem, 16),
        Instr::Shld => (c2, store_word(mem, w, c.spec_hl()), 16),
        Instr::Lxi(rp) => (with_pair(c2, rp, w), mem, 10),
        Instr::Sphl => (Cpu { sp: c.spec_hl(), ..c }, mem, 6),
        Instr::Xthl => (c.with_hl(word_at(mem, c.sp)), store_word(mem, c.sp, c.spec_hl()), 19),
        Instr::Xchg => (c.with_de(c.spec_hl()).with_hl(c.spec_de()), mem, 4),
        Instr::Push(rp) => {
            let sp = add16(c.sp, -2);
            (Cpu { sp, ..c }, store_word(mem, sp, stack_pair_value(c, rp)), 11)
        },
        Instr::Pop(rp) => (
            with_stack_pair(Cpu { sp: add16(c.sp, 2), ..c }, rp, word_at(mem, c.sp)),
            mem,
            10,
        ),
        Instr::Alu(op, s) => (with_alu(c, op, reg_value(c, mem, s)), mem, if s == 6 { 7 } else { 4 }),
        Instr::AluImm(op) => (with_alu(c1, op, n), mem, 7),
        Instr::Inr(r) => {
            let (v, flags) = inr(reg_value(c, mem, r), c.flags);
            let (c3, m3) = set_reg_value(Cpu { flags, ..c }, mem, r, v);
            (c3, m3, if r == 6 { 10 } else { 5 })
        },
        Instr::Dcr(r) => {
            let (v, flags) = dcr(reg_value(c, mem, r), c.flags);
            let (c3, m3) = set_reg_value(Cpu { flags, ..c }, mem, r, v);
            (c3, m3, if r == 6 { 10 } else { 5 })
        },
        Instr::Inx(rp) => (with_pair(c, rp, add16(pair_value(c, rp), 1)), mem, 6),
        Instr::Dcx(rp) => (with_pair(c, rp, add16(pair_value(c, rp), -1)), mem, 6),
        Instr::Dad(rp) => {
            let s = c.spec_hl() + pair_value(c, rp);
            (
                Cpu { flags: Flags { carry: s >= 0x10000, ..c.flags }, ..c.with_hl((s % 0x10000) as u16) },
                mem,
                11,
            )
        },
        Instr::Rlc => (with_rotate(c, 0), mem, 4),
        Instr::Rrc => (with_rotate(c, 1), mem, 4),
        Instr::Ral => (with_rotate(c, 2), mem, 4),
        Instr::Rar => (with_rotate(c, 3), mem, 4),
        Instr::Daa => {
            let (a, flags) = daa(c.a, c.flags);
            (Cpu { a, flags, ..c }, mem, 4)
        },
        Instr::Cma => (Cpu { a: !c.a, flags: Flags { aux_carry: true, ..c.flags }, ..c }, mem, 4),
        Instr::Stc => (Cpu { flags: Flags { carry: true, ..c.flags }, ..c }, mem, 4),
        Instr::Cmc => (Cpu { flags: Flags { carry: !c.flags.carry, ..c.flags }, ..c }, mem, 4),
        Instr::Jmp => (Cpu { pc: w, ..c2 }, mem, 10),
        Instr::Jcc(cc) => (
            if condition_holds(c.flags, cc) { Cpu { pc: w, ..c2 } } else { c2 },
            mem,
            10,
        ),
        Instr::Pchl => (Cpu { pc: c.spec_hl(), ..c }, mem, 5),
        Instr::Call => {
            let (c3, m3) = call_to(c, mem, c2.pc, w);
            (c3, m3, 17)
        },
        Instr::Ccc(cc) => {
            if condition_holds(c.flags, cc) {
                let (c3, m3) = call_to(c, mem, c2.pc, w);
                (c3, m3, 17)
            } else {
                (c2, mem, 11)
            }
        },
        Instr::Ret => (return_from(c, mem), mem, 10),
        Instr::Rcc(cc) => {
            if condition_holds(c.flags, cc) {
                (return_from(c, mem), mem, 11)
            } else {
                (c, mem, 5)
            }
        },
        Instr::Rst(v) => {
            let (c3, m3) = call_to(c, mem, c.pc, (v * 8) as u16);
            (c3, m3, 11)
        },
        Instr::Ei => (Cpu { iff: true, ..c }, mem, 4),
        Instr::Di => (Cpu { iff: false, ..c }, mem, 4),
        Instr::In => (Cpu { a: inp(n), ..c1 }, mem, 10),
        Instr::Out => (c1, mem, 10),
    }
}

/// An interrupt carrying the restart opcode `opcode`: taken only when
/// interrupts are enabled and the CPU is Running; it disables interrupts,
/// pushes PC and jumps to the restart vector of `opcode` (bits 5:3 times 8).
pub open spec fn interrupt_spec(c: Cpu, mem: Seq<u8>, opcode: u8) -> (Cpu, Seq<u8>) {
    if c.iff && c.state == State::Running {
        call_to(Cpu { iff: false, ..c }, mem, c.pc, (((opcode / 8) % 8) * 8) as u16)
    } else {
        (c, mem)
    }
}

/// One step: a Halted CPU costs 4 cycles and changes nothing; otherwise the
/// opcode at PC is fetched (PC advances, wrapping) and executed.
pub open spec fn step_spec(c: Cpu, mem: Seq<u8>, inp: spec_fn(u8) -> u8) -> Outcome {
    if c.state == State::Halted {
        (c, mem, 4)
    } else {
        execute(decode_spec(mem[c.pc as int]), Cpu { pc: add16(c.pc, 1), ..c }, mem, inp)
    }
}

} // verus!
