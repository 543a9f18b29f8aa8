use vstd::prelude::*;

use crate::bus::{
    add16, hi_byte, law_word_round_trip, store_word, lemma_add16_add16, lemma_word_bytes, lo_byte, word_at,
    MEM_SIZE,
};
use crate::cpu::{flags_byte, flags_of_byte, popcount, Cpu, Flags, State};
use crate::decode::{decode_spec, Instr};
use crate::semantics::{
    dcr, execute, inr, reg_value, return_from, set_reg_value, stack_pair_value, step_spec, with_rotate, with_stack_pair,
};

verus! {

/// RAL followed by RAR, with C untouched in between, restores A and C.
pub proof fn law_rotate_through_carry_round_trip(c: Cpu, mem: Seq<u8>, inp: spec_fn(u8) -> u8)
    ensures
        ({
            let c1 = execute(Instr::Ral, c, mem, inp).0;
            let c2 = execute(Instr::Rar, c1, mem, inp).0;
            c2.a == c.a && c2.flags.carry == c.flags.carry
        }),
{
    let a = c.a;
    let cin: int = if c.flags.carry { 1 } else { 0 };
    if a < 128 {
        vstd::arithmetic::div_mod::lemma_small_mod((a * 2) as nat, 256);
        assert(with_rotate(c, 2).a == a * 2 + cin);
    } else {
        vstd::arithmetic::div_mod::lemma_small_mod((a * 2 - 256) as nat, 256);
        vstd::arithmetic::div_mod::lemma_mod_sub_multiples_vanish(a * 2, 256);
        assert(with_rotate(c, 2).a == a * 2 - 256 + cin);
    }
}

/// After ORA A, P is set exactly when A has an even number of one bits.
pub proof fn law_ora_a_parity(c: Cpu, mem: Seq<u8>, inp: spec_fn(u8) -> u8)
    ensures
        execute(Instr::Alu(6, 7), c, mem, inp).0.flags.parity == (popcount(c.a as nat) % 2 == 0),
{
    assert(c.a | c.a == c.a) by (bit_vector);
}

/// Stepping a Halted CPU costs 4 cycles and changes nothing.
pub proof fn law_halted_step(c: Cpu, mem: Seq<u8>, inp: spec_fn(u8) -> u8)
    requires
        c.state == State::Halted,
    ensures
        step_spec(c, mem, inp) == (c, mem, 4u64),
{
}

/// PUSH then POP of the same pair gives back the whole CPU state: the pair
/// and SP, at every SP, also across the top of memory.
pub proof fn law_push_pop(c: Cpu, mem: Seq<u8>, inp: spec_fn(u8) -> u8, rp: u8)
    requires
        mem.len() == MEM_SIZE,
        rp < 4,
    ensures
        ({
            let (c1, m1, _) = execute(Instr::Push(rp), c, mem, inp);
            let (c2, m2, _) = execute(Instr::Pop(rp), c1, m1, inp);
            c2 == c && m2 == m1
        }),
{
    let sp2 = add16(c.sp, -2);
    let v = stack_pair_value(c, rp);
    let m1 = store_word(mem, sp2, v);
    let c1 = Cpu { sp: sp2, ..c };
    lemma_execute_push(c, mem, inp, rp);
    assert(add16(sp2, 2) == c.sp) by {
        lemma_add16_add16(c.sp, -2, 2);
        vstd::arithmetic::div_mod::lemma_small_mod(c.sp as nat, 0x10000);
    }
    assert(word_at(m1, sp2) == v) by {
        law_word_round_trip(mem, sp2, v);
    }
    assert(Cpu { sp: add16(sp2, 2), ..c1 } == c);
    lemma_execute_pop(c1, m1, inp, rp);
    lemma_stack_pair_restore(c, rp);
}

proof fn lemma_execute_push(c: Cpu, mem: Seq<u8>, inp: spec_fn(u8) -> u8, rp: u8)
    ensures
        execute(Instr::Push(rp), c, mem, inp) == (
            Cpu { sp: add16(c.sp, -2), ..c },
            store_word(mem, add16(c.sp, -2), stack_pair_value(c, rp)),
            11u64,
        ),
{
}

proof fn lemma_execute_pop(c: Cpu, mem: Seq<u8>, inp: spec_fn(u8) -> u8, rp: u8)
    ensures
        execute(Instr::Pop(rp), c, mem, inp) == (
            with_stack_pair(Cpu { sp: add16(c.sp, 2), ..c }, rp, word_at(mem, c.sp)),
            mem,
            10u64,
        ),
{
}

/// Writing a pair's own value back leaves the CPU as it was.
proof fn lemma_stack_pair_restore(c: Cpu, rp: u8)
    ensures
        with_stack_pair(c, rp, stack_pair_value(c, rp)) == c,
{
    lemma_word_bytes(c.c, c.b);
    lemma_word_bytes(c.e, c.d);
    lemma_word_bytes(c.l, c.h);
    lemma_word_bytes(flags_byte(c.flags), c.a);
    lemma_flags_byte_round_trip(c.flags);
}

proof fn lemma_flags_byte_round_trip(f: Flags)
    ensures
        flags_of_byte(flags_byte(f)) == f,
{
    let (z, s, p, ac, cy) = (f.zero, f.sign, f.parity, f.aux_carry, f.carry);
    let fb = flags_byte(f);
    assert(fb == 0x02u8 | (if z { 0x40u8 } else { 0u8 }) | (if s { 0x80u8 } else { 0u8 }) | (if p {
        0x04u8
    } else {
        0u8
    }) | (if ac { 0x10u8 } else { 0u8 }) | (if cy { 0x01u8 } else { 0u8 }));
    assert({
        &&& (fb & 0x40 != 0) == z
        &&& (fb & 0x80 != 0) == s
        &&& (fb & 0x04 != 0) == p
        &&& (fb & 0x10 != 0) == ac
        &&& (fb & 0x01 != 0) == cy
    }) by (bit_vector)
        requires
            fb == 0x02u8 | (if z { 0x40u8 } else { 0u8 }) | (if s { 0x80u8 } else { 0u8 }) | (if p {
                0x04u8
            } else {
                0u8
            }) | (if ac { 0x10u8 } else { 0u8 }) | (if cy { 0x01u8 } else { 0u8 }),
    ;
}

/// CALL to `t` from PC = P jumps to `t` with P + 3 on top of the stack and SP
/// two lower; RET then restores PC = P + 3 and SP.
pub proof fn law_call_ret(c: Cpu, mem: Seq<u8>, inp: spec_fn(u8) -> u8, t: u16)
    requires
        mem.len() == MEM_SIZE,
        c.state == State::Running,
        mem[c.pc as int] == 0xCD,
        word_at(mem, add16(c.pc, 1)) == t,
    ensures
        ({
            let (c1, m1, _) = step_spec(c, mem, inp);
            let (c2, _, _) = execute(Instr::Ret, c1, m1, inp);
            &&& c1.pc == t
            &&& c1.sp == add16(c.sp, -2)
            &&& word_at(m1, c1.sp) == add16(c.pc, 3)
            &&& c2.pc == add16(c.pc, 3)
            &&& c2.sp == c.sp
        }),
{
    let c0 = Cpu { pc: add16(c.pc, 1), ..c };
    let ret = add16(c0.pc, 2);
    let sp2 = add16(c.sp, -2);
    let m1 = store_word(mem, sp2, ret);
    let c1 = Cpu { sp: sp2, pc: t, ..c0 };
    assert(step_spec(c, mem, inp) == execute(Instr::Call, c0, mem, inp)) by {
        assert(decode_spec(0xCD) == Instr::Call);
    }
    lemma_execute_call(c0, mem, inp);
    assert(ret == add16(c.pc, 3)) by {
        lemma_add16_add16(c.pc, 1, 2);
    }
    assert(add16(sp2, 2) == c.sp) by {
        lemma_add16_add16(c.sp, -2, 2);
        vstd::arithmetic::div_mod::lemma_small_mod(c.sp as nat, 0x10000);
    }
    assert(word_at(m1, sp2) == ret) by {
        law_word_round_trip(mem, sp2, ret);
    }
    lemma_execute_ret(c1, m1, inp);
}

proof fn lemma_execute_call(c: Cpu, mem: Seq<u8>, inp: spec_fn(u8) -> u8)
    ensures
        execute(Instr::Call, c, mem, inp) == (
            Cpu { sp: add16(c.sp, -2), pc: word_at(mem, c.pc), ..c },
            store_word(mem, add16(c.sp, -2), add16(c.pc, 2)),
            17u64,
        ),
{
}

proof fn lemma_execute_ret(c: Cpu, mem: Seq<u8>, inp: spec_fn(u8) -> u8)
    ensures
        execute(Instr::Ret, c, mem, inp) == (return_from(c, mem), mem, 10u64),
{
}

/// A one-byte instruction fetched at 0xFFFF leaves PC at 0x0000.
pub proof fn law_pc_wraps(c: Cpu, mem: Seq<u8>, inp: spec_fn(u8) -> u8)
    requires
        c.state == State::Running,
        c.pc == 0xFFFF,
        mem[0xFFFF] == 0x00,
    ensures
        step_spec(c, mem, inp).0.pc == 0,
{
}

/// PUSH at SP = 0x0001 wraps: SP becomes 0xFFFF, the low byte lands at
/// 0xFFFF and the high byte at 0x0000.
pub proof fn law_push_wraps(c: Cpu, mem: Seq<u8>, inp: spec_fn(u8) -> u8, rp: u8)
    requires
        mem.len() == MEM_SIZE,
        c.sp == 1,
    ensures
        ({
            let (c1, m1, _) = execute(Instr::Push(rp), c, mem, inp);
            let v = stack_pair_value(c, rp);
            c1.sp == 0xFFFF && m1[0xFFFF] == lo_byte(v) && m1[0] == hi_byte(v)
        }),
{
    assert(add16(1, -2) == 0xFFFF);
    assert(add16(0xFFFF, 1) == 0);
    lemma_execute_push(c, mem, inp, rp);
}

/// INR of 0xFF gives 0x00 with Z and AC set and C unchanged.
pub proof fn law_inr_wraps(c: Cpu, mem: Seq<u8>, inp: spec_fn(u8) -> u8, r: u8)
    requires
        mem.len() == MEM_SIZE,
        r < 8,
        reg_value(c, mem, r) == 0xFF,
    ensures
        ({
            let (c1, m1, _) = execute(Instr::Inr(r), c, mem, inp);
            &&& reg_value(c1, m1, r) == 0
            &&& c1.flags.zero
            &&& c1.flags.aux_carry
            &&& c1.flags.carry == c.flags.carry
        }),
{
    let (v, flags) = inr(0xFF, c.flags);
    assert(v == 0 && flags.zero && flags.aux_carry && flags.carry == c.flags.carry);
    lemma_execute_inr(c, mem, inp, r);
    lemma_reg_read_back(Cpu { flags, ..c }, mem, r, v);
}

/// DCR of 0x00 gives 0xFF with Z clear, S and AC set and C unchanged.
pub proof fn law_dcr_wraps(c: Cpu, mem: Seq<u8>, inp: spec_fn(u8) -> u8, r: u8)
    requires
        mem.len() == MEM_SIZE,
        r < 8,
        reg_value(c, mem, r) == 0,
    ensures
        ({
            let (c1, m1, _) = execute(Instr::Dcr(r), c, mem, inp);
            &&& reg_value(c1, m1, r) == 0xFF
            &&& !c1.flags.zero
            &&& c1.flags.sign
            &&& c1.flags.aux_carry
            &&& c1.flags.carry == c.flags.carry
        }),
{
    assert((0int - 1) % 256 == 255);
    let (v, flags) = dcr(0, c.flags);
    assert(v == 0xFF && !flags.zero && flags.sign && flags.aux_carry && flags.carry == c.flags.carry);
    lemma_execute_dcr(c, mem, inp, r);
    lemma_reg_read_back(Cpu { flags, ..c }, mem, r, v);
}

proof fn lemma_execute_inr(c: Cpu, mem: Seq<u8>, inp: spec_fn(u8) -> u8, r: u8)
    ensures
        ({
            let (v, flags) = inr(reg_value(c, mem, r), c.flags);
            let (c1, m1) = set_reg_value(Cpu { flags, ..c }, mem, r, v);
            execute(Instr::Inr(r), c, mem, inp) == (c1, m1, if r == 6 { 10u64 } else { 5u64 })
        }),
{
}

proof fn lemma_execute_dcr(c: Cpu, mem: Seq<u8>, inp: spec_fn(u8) -> u8, r: u8)
    ensures
        ({
            let (v, flags) = dcr(reg_value(c, mem, r), c.flags);
            let (c1, m1) = set_reg_value(Cpu { flags, ..c }, mem, r, v);
            execute(Instr::Dcr(r), c, mem, inp) == (c1, m1, if r == 6 { 10u64 } else { 5u64 })
        }),
{
}

/// A register written reads back, and the flags stay as they were.
proof fn lemma_reg_read_back(c: Cpu, mem: Seq<u8>, r: u8, v: u8)
    requires
        mem.len() == MEM_SIZE,
        r < 8,
    ensures
        ({
            let (c1, m1) = set_reg_value(c, mem, r, v);
            reg_value(c1, m1, r) == v && c1.flags == c.flags
        }),
{
}

} // verus!
