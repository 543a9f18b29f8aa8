use vstd::prelude::*;

use crate::bus::{add16, hi_byte, lo_byte, store_word, word, word_at, Bus};
use crate::decode::{decode, operands_in_range, Instr};
use crate::semantics::{
    call_to, condition_holds, daa, dcr, inr, pair_value, reg_value, return_from, set_reg_value,
    with_alu, with_pair, with_rotate, execute, interrupt_spec, step_spec,
};

verus! {

/// Cycle count of one instruction.
pub type Cycles = u64;

/// Run state of the CPU.
#[derive(Clone, Copy, PartialEq, Eq, Structural, Debug)]
pub enum State {
    Running,
    Halted,
}

/// The five condition flags.
#[derive(Clone, Copy, PartialEq, Eq, Structural, Debug)]
pub struct Flags {
    pub zero: bool,
    pub sign: bool,
    pub parity: bool,
    pub aux_carry: bool,
    pub carry: bool,
}

/// Architectural state of an 8080.
#[derive(Clone, Copy, PartialEq, Eq, Structural, Debug)]
pub struct Cpu {
    pub a: u8,
    pub flags: Flags,
    pub b: u8,
    pub c: u8,
    pub d: u8,
    pub e: u8,
    pub h: u8,
    pub l: u8,
    pub sp: u16,
    pub pc: u16,
    pub iff: bool,
    pub state: State,
}

/// Number of one bits in `n`.
pub open spec fn popcount(n: nat) -> nat
    decreases n,
{
    if n == 0 {
        0
    } else {
        n % 2 + popcount(n / 2)
    }
}

/// Even parity of a byte: an even number of one bits.
pub open spec fn even_parity(v: u8) -> bool {
    popcount(v as nat) % 2 == 0
}

/// `f` with Zero, Sign and Parity computed from `v`; AC and C kept.
pub open spec fn with_zsp(f: Flags, v: u8) -> Flags {
    Flags { zero: v == 0, sign: v >= 0x80, parity: even_parity(v), ..f }
}

/// The flag byte F: bit7=S, bit6=Z, bit4=AC, bit2=P, bit1=1, bit0=C, bits 5 and 3 zero.
pub open spec fn flags_byte(f: Flags) -> u8 {
    0x02u8 | (if f.zero { 0x40u8 } else { 0u8 }) | (if f.sign { 0x80u8 } else { 0u8 }) | (if f.parity {
        0x04u8
    } else {
        0u8
    }) | (if f.aux_carry { 0x10u8 } else { 0u8 }) | (if f.carry { 0x01u8 } else { 0u8 })
}

/// The flags that a flag byte `f` encodes.
pub open spec fn flags_of_byte(f: u8) -> Flags {
    Flags {
        zero: f & 0x40 != 0,
        sign: f & 0x80 != 0,
        parity: f & 0x04 != 0,
        aux_carry: f & 0x10 != 0,
        carry: f & 0x01 != 0,
    }
}

/// The state after reset: all registers zero, all flags clear, PC=0, SP=0,
/// Running, interrupts enabled.
pub open spec fn reset_state() -> Cpu {
    Cpu {
        a: 0,
        flags: Flags { zero: false, sign: false, parity: false, aux_carry: false, carry: false },
        b: 0,
        c: 0,
        d: 0,
        e: 0,
        h: 0,
        l: 0,
        sp: 0,
        pc: 0,
        iff: true,
        state: State::Running,
    }
}

impl Cpu {
    pub open spec fn spec_bc(self) -> u16 {
        word(self.c, self.b)
    }

    pub open spec fn spec_de(self) -> u16 {
        word(self.e, self.d)
    }

    pub open spec fn spec_hl(self) -> u16 {
        word(self.l, self.h)
    }

    pub open spec fn spec_af(self) -> u16 {
        word(flags_byte(self.flags), self.a)
    }

    pub open spec fn with_bc(self, x: u16) -> Cpu {
        Cpu { b: hi_byte(x), c: lo_byte(x), ..self }
    }

    pub open spec fn with_de(self, x: u16) -> Cpu {
        Cpu { d: hi_byte(x), e: lo_byte(x), ..self }
    }

    pub open spec fn with_hl(self, x: u16) -> Cpu {
        Cpu { h: hi_byte(x), l: lo_byte(x), ..self }
    }

    pub open spec fn with_af(self, x: u16) -> Cpu {
        Cpu { a: hi_byte(x), flags: flags_of_byte(lo_byte(x)), ..self }
    }

    /// A CPU in the reset state.
    pub fn new() -> (r: Cpu)
        ensures
            r == reset_state(),
    {
        Cpu {
            a: 0,
            flags: Flags { zero: false, sign: false, parity: false, aux_carry: false, carry: false },
            b: 0,
            c: 0,
            d: 0,
            e: 0,
            h: 0,
            l: 0,
            sp: 0,
            pc: 0,
            iff: true,
            state: State::Running,
        }
    }

    pub fn bc(&self) -> (r: u16)
        ensures
            r == self.spec_bc(),
    {
        (self.b as u16) * 256 + (self.c as u16)
    }

    pub fn set_bc(&mut self, value: u16)
        ensures
            *final(self) == old(self).with_bc(value),
    {
        self.b = (value / 256) as u8;
        self.c = (value % 256) as u8;
    }

    pub fn de(&self) -> (r: u16)
        ensures
            r == self.spec_de(),
    {
        (self.d as u16) * 256 + (self.e as u16)
    }

    pub fn set_de(&mut self, value: u16)
        ensures
            *final(self) == old(self).with_de(value),
    {
        self.d = (value / 256) as u8;
        self.e = (value % 256) as u8;
    }

    pub fn hl(&self) -> (r: u16)
        ensures
            r == self.spec_hl(),
    {
        (self.h as u16) * 256 + (self.l as u16)
    }

    pub fn set_hl(&mut self, value: u16)
        ensures
            *final(self) == old(self).with_hl(value),
    {
        self.h = (value / 256) as u8;
        self.l = (value % 256) as u8;
    }

    pub fn af(&self) -> (r: u16)
        ensures
            r == self.spec_af(),
    {
        let f: u8 = 0x02u8 | (if self.flags.zero { 0x40u8 } else { 0u8 }) | (if self.flags.sign {
            0x80u8
        } else {
            0u8
        }) | (if self.flags.parity { 0x04u8 } else { 0u8 }) | (if self.flags.aux_carry {
            0x10u8
        } else {
            0u8
        }) | (if self.flags.carry { 0x01u8 } else { 0u8 });
        (self.a as u16) * 256 + (f as u16)
    }

    pub fn set_af(&mut self, value: u16)
        ensures
            *final(self) == old(self).with_af(value),
    {
        self.a = (value / 256) as u8;
        let f = (value % 256) as u8;
        self.flags.zero = f & 0x40 != 0;
        self.flags.sign = f & 0x80 != 0;
        self.flags.parity = f & 0x04 != 0;
        self.flags.aux_carry = f & 0x10 != 0;
        self.flags.carry = f & 0x01 != 0;
    }
}


spec fn is_transfer(i: Instr) -> bool {
    matches!(i, Instr::Nop | Instr::Hlt | Instr::Mov(..) | Instr::Mvi(..) | Instr::Ldax(..) | Instr::Stax(..)
        | Instr::Lda | Instr::Sta | Instr::Lhld | Instr::Shld | Instr::Lxi(..) | Instr::Sphl
        | Instr::Xthl | Instr::Xchg | Instr::Push(..) | Instr::Pop(..))
}

spec fn is_arith(i: Instr) -> bool {
    matches!(i, Instr::Alu(..) | Instr::AluImm(..) | Instr::Inr(..) | Instr::Dcr(..) | Instr::Inx(..)
        | Instr::Dcx(..) | Instr::Dad(..) | Instr::Rlc | Instr::Rrc | Instr::Ral | Instr::Rar
        | Instr::Daa | Instr::Cma | Instr::Stc | Instr::Cmc)
}

spec fn is_misc(i: Instr) -> bool {
    matches!(i, Instr::Inx(..) | Instr::Dcx(..) | Instr::Dad(..) | Instr::Rlc | Instr::Rrc | Instr::Ral
        | Instr::Rar | Instr::Daa | Instr::Cma | Instr::Stc | Instr::Cmc)
}

spec fn is_flag_op(i: Instr) -> bool {
    matches!(i, Instr::Rlc | Instr::Rrc | Instr::Ral | Instr::Rar | Instr::Daa | Instr::Cma | Instr::Stc | Instr::Cmc)
}

spec fn is_control(i: Instr) -> bool {
    !is_transfer(i) && !is_arith(i)
}

proof fn lemma_popcount_bound(n: nat)
    ensures
        popcount(n) <= n,
    decreases n,
{
    if n > 0 {
        lemma_popcount_bound(n / 2);
    }
}

/// Even parity of `v`, counted bit by bit.
fn parity_even(v: u8) -> (r: bool)
    ensures
        r == even_parity(v),
{
    let mut x: u8 = v;
    let mut ones: u8 = 0;
    proof {
        lemma_popcount_bound(v as nat);
    }
    while x > 0
        invariant
            ones as nat + popcount(x as nat) == popcount(v as nat),
            popcount(v as nat) <= 255,
        decreases x,
    {
        ones = ones + x % 2;
        x = x / 2;
    }
    ones % 2 == 0
}

impl Cpu {
    fn fetch_byte<B: Bus>(&mut self, bus: &B) -> (r: u8)
        ensures
            r == bus.mem()[old(self).pc as int],
            *final(self) == (Cpu { pc: add16(old(self).pc, 1), ..*old(self) }),
    {
        let byte = bus.read(self.pc);
        self.pc = self.pc.wrapping_add(1);
        byte
    }

    fn fetch_word<B: Bus>(&mut self, bus: &B) -> (r: u16)
        ensures
            r == word_at(bus.mem(), old(self).pc),
            *final(self) == (Cpu { pc: add16(old(self).pc, 2), ..*old(self) }),
    {
        let w = bus.read16(self.pc);
        self.pc = self.pc.wrapping_add(2);
        w
    }

    fn reg<B: Bus>(&self, code: u8, bus: &B) -> (r: u8)
        requires
            code < 8,
        ensures
            r == reg_value(*self, bus.mem(), code),
    {
        match code {
            0 => self.b,
            1 => self.c,
            2 => self.d,
            3 => self.e,
            4 => self.h,
            5 => self.l,
            6 => bus.read(self.hl()),
            _ => self.a,
        }
    }

    fn set_reg<B: Bus>(&mut self, code: u8, value: u8, bus: &mut B)
        requires
            code < 8,
        ensures
            (*final(self), final(bus).mem()) == set_reg_value(*old(self), old(bus).mem(), code, value),
    {
        match code {
            0 => self.b = value,
            1 => self.c = value,
            2 => self.d = value,
            3 => self.e = value,
            4 => self.h = value,
            5 => self.l = value,
            6 => bus.write(self.hl(), value),
            _ => self.a = value,
        }
    }

    fn pair(&self, rp: u8) -> (r: u16)
        ensures
            r == pair_value(*self, rp),
    {
        match rp {
            0 => self.bc(),
            1 => self.de(),
            2 => self.hl(),
            _ => self.sp,
        }
    }

    fn set_pair(&mut self, rp: u8, value: u16)
        ensures
            *final(self) == with_pair(*old(self), rp, value),
    {
        match rp {
            0 => self.set_bc(value),
            1 => self.set_de(value),
            2 => self.set_hl(value),
            _ => self.sp = value,
        }
    }

    fn condition(&self, code: u8) -> (r: bool)
        ensures
            r == condition_holds(self.flags, code),
    {
        match code {
            0 => !self.flags.zero,
            1 => self.flags.zero,
            2 => !self.flags.carry,
            3 => self.flags.carry,
            4 => !self.flags.parity,
            5 => self.flags.parity,
            6 => !self.flags.sign,
            _ => self.flags.sign,
        }
    }

    fn set_zsp(&mut self, value: u8)
        ensures
            *final(self) == (Cpu { flags: with_zsp(old(self).flags, value), ..*old(self) }),
    {
        self.flags.zero = value == 0;
        self.flags.sign = value >= 0x80;
        self.flags.parity = parity_even(value);
    }

    fn op_add(&mut self, value: u8)
        ensures
            *final(self) == with_alu(*old(self), 0, value),
    {
        let a = self.a;
        let r: u16 = a as u16 + value as u16;
        let res = (r % 256) as u8;
        self.a = res;
        self.set_zsp(res);
        self.flags.carry = r >= 256;
        self.flags.aux_carry = a % 16 + value % 16 >= 16;
    }

    fn op_adc(&mut self, value: u8)
        ensures
            *final(self) == with_alu(*old(self), 1, value),
    {
        let a = self.a;
        let carry: u8 = if self.flags.carry { 1 } else { 0 };
        let r: u16 = a as u16 + value as u16 + carry as u16;
        let res = (r % 256) as u8;
        self.a = res;
        self.set_zsp(res);
        self.flags.carry = r >= 256;
        self.flags.aux_carry = a % 16 + value % 16 + carry >= 16;
    }

    fn op_sub(&mut self, value: u8)
        ensures
            *final(self) == with_alu(*old(self), 2, value),
    {
        let a = self.a;
        let res = a.wrapping_sub(value);
        self.a = res;
        self.set_zsp(res);
        self.flags.carry = a < value;
        self.flags.aux_carry = a % 16 < value % 16;
    }

    #[verifier::rlimit(40)]
    fn op_sbc(&mut self, value: u8)
        ensures
            *final(self) == with_alu(*old(self), 3, value),
    {
        let a = self.a;
        let carry: u8 = if self.flags.carry { 1 } else { 0 };
        let res = a.wrapping_sub(value).wrapping_sub(carry);
        self.a = res;
        self.set_zsp(res);
        self.flags.carry = (a as u16) < value as u16 + carry as u16;
        self.flags.aux_carry = a % 16 < value % 16 + carry;
    }

    fn op_and(&mut self, value: u8)
        ensures
            *final(self) == with_alu(*old(self), 4, value),
    {
        self.a = self.a & value;
        self.set_zsp(self.a);
        self.flags.carry = false;
        self.flags.aux_carry = true;
    }

    fn op_xor(&mut self, value: u8)
        ensures
            *final(self) == with_alu(*old(self), 5, value),
    {
        self.a = self.a ^ value;
        self.set_zsp(self.a);
        self.flags.carry = false;
        self.flags.aux_carry = false;
    }

    fn op_or(&mut self, value: u8)
        ensures
            *final(self) == with_alu(*old(self), 6, value),
    {
        self.a = self.a | value;
        self.set_zsp(self.a);
        self.flags.carry = false;
        self.flags.aux_carry = false;
    }

    fn op_cp(&mut self, value: u8)
        ensures
            *final(self) == with_alu(*old(self), 7, value),
    {
        let a = self.a;
        self.set_zsp(a.wrapping_sub(value));
        self.flags.carry = a < value;
        self.flags.aux_carry = a % 16 < value % 16;
    }

    /// Dispatches ALU operation `op` (`0=ADD .. 7=CMP`) with operand `value`.
    fn op_alu(&mut self, op: u8, value: u8)
        ensures
            *final(self) == with_alu(*old(self), op, value),
    {
        match op {
            0 => self.op_add(value),
            1 => self.op_adc(value),
            2 => self.op_sub(value),
            3 => self.op_sbc(value),
            4 => self.op_and(value),
            5 => self.op_xor(value),
            6 => self.op_or(value),
            _ => self.op_cp(value),
        }
    }

    fn op_inc(&mut self, value: u8) -> (r: u8)
        ensures
            (r, final(self).flags) == inr(value, old(self).flags),
            *final(self) == (Cpu { flags: final(self).flags, ..*old(self) }),
    {
        let r = value.wrapping_add(1);
        self.flags.aux_carry = value % 16 == 15;
        self.set_zsp(r);
        r
    }

    fn op_dec(&mut self, value: u8) -> (r: u8)
        ensures
            (r, final(self).flags) == dcr(value, old(self).flags),
            *final(self) == (Cpu { flags: final(self).flags, ..*old(self) }),
    {
        let r = value.wrapping_sub(1);
        self.flags.aux_carry = value % 16 == 0;
        self.set_zsp(r);
        r
    }

    fn op_add16(&mut self, value: u16)
        ensures
            ({
                let s = old(self).spec_hl() + value;
                *final(self) == (Cpu {
                    flags: Flags { carry: s >= 0x10000, ..old(self).flags },
                    ..old(self).with_hl((s % 0x10000) as u16)
                })
            }),
    {
        let hl = self.hl();
        let s: u32 = hl as u32 + value as u32;
        self.set_hl((s % 0x10000) as u16);
        self.flags.carry = s >= 0x10000;
    }

    /// INX (`up`) or DCX on pair `rp`: 16-bit wrapping, no flags touched.
    fn op_step_pair(&mut self, rp: u8, up: bool)
        ensures
            *final(self) == with_pair(*old(self), rp, add16(pair_value(*old(self), rp), if up { 1 } else { -1 })),
    {
        let value = if up { self.pair(rp).wrapping_add(1) } else { self.pair(rp).wrapping_sub(1) };
        self.set_pair(rp, value);
    }

    fn op_daa(&mut self)
        ensures
            *final(self) == (Cpu { a: daa(old(self).a, old(self).flags).0, flags: daa(old(self).a, old(self).flags).1, ..*old(self) }),
    {
        let a = self.a;
        let low: u8 = if a % 16 > 9 || self.flags.aux_carry { 6 } else { 0 };
        let high: u8 = if a > 0x99 || self.flags.carry { 0x60 } else { 0 };
        let r: u16 = a as u16 + low as u16 + high as u16;
        let res = (r % 256) as u8;
        self.a = res;
        self.set_zsp(res);
        self.flags.carry = high != 0;
        self.flags.aux_carry = a % 16 + low >= 16;
    }

    fn op_rotate(&mut self, kind: u8)
        requires
            kind < 4,
        ensures
            *final(self) == with_rotate(*old(self), kind as int),
    {
        let a = self.a;
        let cin: u8 = if self.flags.carry { 1 } else { 0 };
        if kind == 0 {
            self.a = (((a as u16) * 2) % 256) as u8 + a / 128;
            self.flags.carry = a >= 128;
        } else if kind == 1 {
            self.a = a / 2 + (a % 2) * 128;
            self.flags.carry = a % 2 == 1;
        } else if kind == 2 {
            self.a = (((a as u16) * 2) % 256) as u8 + cin;
            self.flags.carry = a >= 128;
        } else {
            self.a = a / 2 + cin * 128;
            self.flags.carry = a % 2 == 1;
        }
    }

    fn op_jp<B: Bus>(&mut self, bus: &B, condition: bool)
        ensures
            ({
                let c2 = Cpu { pc: add16(old(self).pc, 2), ..*old(self) };
                *final(self) == if condition { Cpu { pc: word_at(bus.mem(), old(self).pc), ..c2 } } else { c2 }
            }),
    {
        let addr = self.fetch_word(bus);
        if condition {
            self.pc = addr;
        }
    }

    fn op_push<B: Bus>(&mut self, bus: &mut B, value: u16)
        ensures
            *final(self) == (Cpu { sp: add16(old(self).sp, -2), ..*old(self) }),
            final(bus).mem() == store_word(old(bus).mem(), add16(old(self).sp, -2), value),
    {
        self.sp = self.sp.wrapping_sub(2);
        bus.write16(self.sp, value);
    }

    fn op_pop<B: Bus>(&mut self, bus: &B) -> (r: u16)
        ensures
            r == word_at(bus.mem(), old(self).sp),
            *final(self) == (Cpu { sp: add16(old(self).sp, 2), ..*old(self) }),
    {
        let value = bus.read16(self.sp);
        self.sp = self.sp.wrapping_add(2);
        value
    }

    fn op_call<B: Bus>(&mut self, bus: &mut B, condition: bool)
        ensures
            ({
                let c2 = Cpu { pc: add16(old(self).pc, 2), ..*old(self) };
                let target = word_at(old(bus).mem(), old(self).pc);
                if condition {
                    (*final(self), final(bus).mem()) == call_to(*old(self), old(bus).mem(), c2.pc, target)
                } else {
                    *final(self) == c2 && final(bus).mem() == old(bus).mem()
                }
            }),
    {
        let addr = self.fetch_word(bus);
        if condition {
            let ret = self.pc;
            self.op_push(bus, ret);
            self.pc = addr;
        }
    }

    fn op_ret<B: Bus>(&mut self, bus: &B, condition: bool)
        ensures
            *final(self) == if condition { return_from(*old(self), bus.mem()) } else { *old(self) },
    {
        if condition {
            let addr = self.op_pop(bus);
            self.pc = addr;
        }
    }

    /// Executes one instruction and returns its cycle cost. A Halted CPU
    /// fetches nothing and costs 4 cycles.
    pub fn step<B: Bus>(&mut self, bus: &mut B) -> (r: Cycles)
        ensures
            (*final(self), final(bus).mem(), r) == step_spec(*old(self), old(bus).mem(), |p: u8| old(bus).port_in(p)),
    {
        if self.state == State::Halted {
            return 4;
        }
        let opcode = self.fetch_byte(bus);
        let instr = decode(opcode);
        self.execute(instr, bus)
    }

    /// Delivers an interrupt whose data byte is the restart opcode `opcode`;
    /// ignored while interrupts are disabled or the CPU is Halted.
    pub fn request_interrupt<B: Bus>(&mut self, bus: &mut B, opcode: u8)
        ensures
            (*final(self), final(bus).mem()) == interrupt_spec(*old(self), old(bus).mem(), opcode),
    {
        if self.iff && self.state == State::Running {
            self.iff = false;
            let ret = self.pc;
            self.op_push(bus, ret);
            self.pc = ((opcode / 8) % 8) as u16 * 8;
        }
    }

    /// Executes `instr`, whose opcode has been fetched.
    fn execute<B: Bus>(&mut self, instr: Instr, bus: &mut B) -> (r: Cycles)
        requires
            operands_in_range(instr),
        ensures
            (*final(self), final(bus).mem(), r) == execute(instr, *old(self), old(bus).mem(), |p: u8| old(bus).port_in(p)),
    {
        match instr {
            Instr::Nop | Instr::Hlt | Instr::Mov(..) | Instr::Mvi(..) | Instr::Ldax(..) | Instr::Stax(..)
            | Instr::Lda | Instr::Sta | Instr::Lhld | Instr::Shld | Instr::Lxi(..) | Instr::Sphl
            | Instr::Xthl | Instr::Xchg | Instr::Push(..) | Instr::Pop(..) => self.execute_transfer(instr, bus),
            Instr::Alu(..) | Instr::AluImm(..) | Instr::Inr(..) | Instr::Dcr(..) | Instr::Inx(..)
            | Instr::Dcx(..) | Instr::Dad(..) | Instr::Rlc | Instr::Rrc | Instr::Ral | Instr::Rar
            | Instr::Daa | Instr::Cma | Instr::Stc | Instr::Cmc => self.execute_arith(instr, bus),
            _ => self.execute_control(instr, bus),
        }
    }

    /// Moves, loads, stores and stack transfers.
    fn execute_transfer<B: Bus>(&mut self, instr: Instr, bus: &mut B) -> (r: Cycles)
        requires
            operands_in_range(instr),
            is_transfer(instr),
        ensures
            (*final(self), final(bus).mem(), r) == execute(instr, *old(self), old(bus).mem(), |p: u8| old(bus).port_in(p)),
    {
        proof {
            bus.lemma_mem_len();
        }
        match instr {
            Instr::Nop => 4,
            Instr::Hlt => {
                self.state = State::Halted;
                4
            },
            Instr::Mov(dest, src) => {
                let value = self.reg(src, bus);
                self.set_reg(dest, value, bus);
                if src == 6 || dest == 6 { 7 } else { 5 }
            },
            Instr::Mvi(dest) => {
                let value = self.fetch_byte(bus);
                self.set_reg(dest, value, bus);
                if dest == 6 { 10 } else { 7 }
            },
            Instr::Ldax(rp) => {
                self.a = bus.read(self.pair(rp));
                7
            },
            Instr::Stax(rp) => {
                bus.write(self.pair(rp), self.a);
                7
            },
            Instr::Lda => {
                let addr = self.fetch_word(bus);
                self.a = bus.read(addr);
                13
            },
            Instr::Sta => {
                let addr = self.fetch_word(bus);
                bus.write(addr, self.a);
                13
            },
            Instr::Lhld => {
                let addr = self.fetch_word(bus);
                let value = bus.read16(addr);
                self.set_hl(value);
                16
            },
            Instr::Shld => {
                let addr = self.fetch_word(bus);
                bus.write16(addr, self.hl());
                16
            },
            Instr::Lxi(rp) => {
                let value = self.fetch_word(bus);
                self.set_pair(rp, value);
                10
            },
            Instr::Sphl => {
                self.sp = self.hl();
                6
            },
            Instr::Xthl => {
                let hl_old = self.hl();
                let top = bus.read16(self.sp);
                self.set_hl(top);
                bus.write16(self.sp, hl_old);
                19
            },
            Instr::Xchg => {
                let de_old = self.de();
                let hl_old = self.hl();
                self.set_de(hl_old);
                self.set_hl(de_old);
                4
            },
            Instr::Push(rp) => {
                let value = if rp == 3 { self.af() } else { self.pair(rp) };
                self.op_push(bus, value);
                11
            },
            Instr::Pop(rp) => {
                let value = self.op_pop(bus);
                if rp == 3 {
                    self.set_af(value);
                } else {
                    self.set_pair(rp, value);
                }
                10
            },
            _ => 4,
        }
    }

    /// Arithmetic, logic, rotates and flag operations.
    fn execute_arith<B: Bus>(&mut self, instr: Instr, bus: &mut B) -> (r: Cycles)
        requires
            operands_in_range(instr),
            is_arith(instr),
        ensures
            (*final(self), final(bus).mem(), r) == execute(instr, *old(self), old(bus).mem(), |p: u8| old(bus).port_in(p)),
    {
        proof {
            bus.lemma_mem_len();
        }
        match instr {
            Instr::Alu(op, src) => {
                let value = self.reg(src, bus);
                self.op_alu(op, value);
                if src == 6 { 7 } else { 4 }
            },
            Instr::AluImm(op) => {
                let value = self.fetch_byte(bus);
                self.op_alu(op, value);
                7
            },
            Instr::Inr(dest) => {
                let value = self.reg(dest, bus);
                let result = self.op_inc(value);
                self.set_reg(dest, result, bus);
                if dest == 6 { 10 } else { 5 }
            },
            Instr::Dcr(dest) => {
                let value = self.reg(dest, bus);
                let result = self.op_dec(value);
                self.set_reg(dest, result, bus);
                if dest == 6 { 10 } else { 5 }
            },
            _ => self.execute_misc(instr),
        }
    }

    /// Pair arithmetic, rotates, decimal adjust and flag operations: registers
    /// and flags only.
    fn execute_misc(&mut self, instr: Instr) -> (r: Cycles)
        requires
            is_misc(instr),
        ensures
            forall|mem: Seq<u8>, inp: spec_fn(u8) -> u8| #[trigger] execute(instr, *old(self), mem, inp) == (*final(self), mem, r),
    {
        match instr {
            Instr::Inx(rp) => {
                self.op_step_pair(rp, true);
                6
            },
            Instr::Dcx(rp) => {
                self.op_step_pair(rp, false);
                6
            },
            Instr::Dad(rp) => {
                let value = self.pair(rp);
                self.op_add16(value);
                11
            },
            _ => self.execute_flags(instr),
        }
    }

    /// Rotates, decimal adjust and flag operations: A and the flags only.
    fn execute_flags(&mut self, instr: Instr) -> (r: Cycles)
        requires
            is_flag_op(instr),
        ensures
            forall|mem: Seq<u8>, inp: spec_fn(u8) -> u8| #[trigger] execute(instr, *old(self), mem, inp) == (*final(self), mem, r),
    {
        match instr {
            Instr::Rlc => {
                self.op_rotate(0);
                4
            },
            Instr::Rrc => {
                self.op_rotate(1);
                4
            },
            Instr::Ral => {
                self.op_rotate(2);
                4
            },
            Instr::Rar => {
                self.op_rotate(3);
                4
            },
            Instr::Daa => {
                self.op_daa();
                4
            },
            Instr::Cma => {
                self.a = !self.a;
                self.flags.aux_carry = true;
                4
            },
            Instr::Stc => {
                self.flags.carry = true;
                4
            },
            Instr::Cmc => {
                self.flags.carry = !self.flags.carry;
                4
            },
            _ => 4,
        }
    }

    /// Jumps, calls, returns, restarts, interrupt enable and port I/O.
    fn execute_control<B: Bus>(&mut self, instr: Instr, bus: &mut B) -> (r: Cycles)
        requires
            operands_in_range(instr),
            is_control(instr),
        ensures
            (*final(self), final(bus).mem(), r) == execute(instr, *old(self), old(bus).mem(), |p: u8| old(bus).port_in(p)),
    {
        proof {
            bus.lemma_mem_len();
        }
        match instr {
            Instr::Jmp => {
                self.op_jp(bus, true);
                10
            },
            Instr::Jcc(cc) => {
                let condition = self.condition(cc);
                self.op_jp(bus, condition);
                10
            },
            Instr::Pchl => {
                self.pc = self.hl();
                5
            },
            Instr::Call => {
                self.op_call(bus, true);
                17
            },
            Instr::Ccc(cc) => {
                let condition = self.condition(cc);
                self.op_call(bus, condition);
                if condition { 17 } else { 11 }
            },
            Instr::Ret => {
                self.op_ret(bus, true);
                10
            },
            Instr::Rcc(cc) => {
                let condition = self.condition(cc);
                self.op_ret(bus, condition);
                if condition { 11 } else { 5 }
            },
            Instr::Rst(n) => {
                let ret = self.pc;
                self.op_push(bus, ret);
                self.pc = (n as u16) * 8;
                11
            },
            Instr::Ei => {
                self.iff = true;
                4
            },
            Instr::Di => {
                self.iff = false;
                4
            },
            Instr::In => {
                let port = self.fetch_byte(bus);
                self.a = bus.input(port);
                10
            },
            Instr::Out => {
                let port = self.fetch_byte(bus);
                bus.output(port, self.a);
                10
            },
            _ => 4,
        }
    }
}

/// A pair written with `set_bc` (likewise DE, HL) reads back unchanged.
pub proof fn law_pair_round_trip(c: Cpu, x: u16)
    ensures
        c.with_bc(x).spec_bc() == x,
        c.with_de(x).spec_de() == x,
        c.with_hl(x).spec_hl() == x,
{
}

/// `set_af(x)` then `af()` gives `x` with bit 1 set and bits 3 and 5 cleared.
pub proof fn law_af_round_trip(c: Cpu, x: u16)
    ensures
        c.with_af(x).spec_af() == (x | 0x02) & !0x28u16,
{
    let f = lo_byte(x);
    assert(flags_byte(flags_of_byte(f)) == (f | 0x02) & !0x28u8) by (bit_vector);
    assert(word((lo_byte(x) | 0x02) & !0x28u8, hi_byte(x)) == (x | 0x02) & !0x28u16) by (bit_vector);
}

} // verus!
