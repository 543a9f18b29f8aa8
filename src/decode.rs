use vstd::prelude::*;

verus! {

/// One decoded instruction. Register codes are `0=B, 1=C, 2=D, 3=E, 4=H,
/// 5=L, 6=(HL), 7=A`; pair codes are `0=BC, 1=DE, 2=HL, 3=SP` (`3=AF` for
/// PUSH and POP); condition codes are `0=NZ, 1=Z, 2=NC, 3=C, 4=PO, 5=PE,
/// 6=P, 7=M`; ALU codes are `0=ADD, 1=ADC, 2=SUB, 3=SBB, 4=ANA, 5=XRA,
/// 6=ORA, 7=CMP`.
#[derive(Clone, Copy, PartialEq, Eq, Structural, Debug)]
pub enum Instr {
    Nop,
    Hlt,
    Mov(u8, u8),
    Mvi(u8),
    Ldax(u8),
    Stax(u8),
    Lda,
    Sta,
    Lhld,
    Shld,
    Lxi(u8),
    Sphl,
    Xthl,
    Xchg,
    Push(u8),
    Pop(u8),
    Alu(u8, u8),
    AluImm(u8),
    Inr(u8),
    Dcr(u8),
    Inx(u8),
    Dcx(u8),
    Dad(u8),
    Rlc,
    Rrc,
    Ral,
    Rar,
    Daa,
    Cma,
    Stc,
    Cmc,
    Jmp,
    Jcc(u8),
    Pchl,
    Call,
    Ccc(u8),
    Ret,
    Rcc(u8),
    Rst(u8),
    Ei,
    Di,
    In,
    Out,
}

/// Every operand code of `i` is in range: registers, conditions, ALU
/// operations and restart vectors below 8, pairs below 4.
pub open spec fn operands_in_range(i: Instr) -> bool {
    match i {
        Instr::Mov(d, s) => d < 8 && s < 8,
        Instr::Alu(op, s) => op < 8 && s < 8,
        Instr::Mvi(r) | Instr::Inr(r) | Instr::Dcr(r) | Instr::AluImm(r) | Instr::Jcc(r)
        | Instr::Ccc(r) | Instr::Rcc(r) | Instr::Rst(r) => r < 8,
        Instr::Ldax(p) | Instr::Stax(p) => p < 2,
        Instr::Lxi(p) | Instr::Push(p) | Instr::Pop(p) | Instr::Inx(p) | Instr::Dcx(p)
        | Instr::Dad(p) => p < 4,
        _ => true,
    }
}

/// The instruction an opcode byte encodes, read in fields `xx yyy zzz`.
pub open spec fn decode_spec(op: u8) -> Instr {
    let x = op / 64;
    let y = (op / 8) % 8;
    let z = op % 8;
    let p = y / 2;
    let q = y % 2;
    if x == 1 {
        if op == 0x76 {
            Instr::Hlt
        } else {
            Instr::Mov(y, z)
        }
    } else if x == 2 {
        Instr::Alu(y, z)
    } else if x == 0 {
        if z == 0 {
            Instr::Nop
        } else if z == 1 {
            if q == 0 { Instr::Lxi(p) } else { Instr::Dad(p) }
        } else if z == 2 {
            if p < 2 {
                if q == 0 { Instr::Stax(p) } else { Instr::Ldax(p) }
            } else if y == 4 {
                Instr::Shld
            } else if y == 5 {
                Instr::Lhld
            } else if y == 6 {
                Instr::Sta
            } else {
                Instr::Lda
            }
        } else if z == 3 {
            if q == 0 { Instr::Inx(p) } else { Instr::Dcx(p) }
        } else if z == 4 {
            Instr::Inr(y)
        } else if z == 5 {
            Instr::Dcr(y)
        } else if z == 6 {
            Instr::Mvi(y)
        } else if y == 0 {
            Instr::Rlc
        } else if y == 1 {
            Instr::Rrc
        } else if y == 2 {
            Instr::Ral
        } else if y == 3 {
            Instr::Rar
        } else if y == 4 {
            Instr::Daa
        } else if y == 5 {
            Instr::Cma
        } else if y == 6 {
            Instr::Stc
        } else {
            Instr::Cmc
        }
    } else {
        if z == 0 {
            Instr::Rcc(y)
        } else if z == 1 {
            if q == 0 {
                Instr::Pop(p)
            } else if p < 2 {
                Instr::Ret
            } else if p == 2 {
                Instr::Pchl
            } else {
                Instr::Sphl
            }
        } else if z == 2 {
            Instr::Jcc(y)
        } else if z == 3 {
            if y < 2 {
                Instr::Jmp
            } else if y == 2 {
                Instr::Out
            } else if y == 3 {
                Instr::In
            } else if y == 4 {
                Instr::Xthl
            } else if y == 5 {
                Instr::Xchg
            } else if y == 6 {
                Instr::Di
            } else {
                Instr::Ei
            }
        } else if z == 4 {
            Instr::Ccc(y)
        } else if z == 5 {
            if q == 0 { Instr::Push(p) } else { Instr::Call }
        } else if z == 6 {
            Instr::AluImm(y)
        } else {
            Instr::Rst(y)
        }
    }
}

/// Decodes an opcode byte; every byte decodes.
pub fn decode(op: u8) -> (r: Instr)
    ensures
        r == decode_spec(op),
        operands_in_range(r),
{
    let x = op / 64;
    let y = (op / 8) % 8;
    let z = op % 8;
    let p = y / 2;
    let q = y % 2;
    if x == 1 {
        if op == 0x76 {
            Instr::Hlt
        } else {
            Instr::Mov(y, z)
        }
    } else if x == 2 {
        Instr::Alu(y, z)
    } else if x == 0 {
        if z == 0 {
            Instr::Nop
        } else if z == 1 {
            if q == 0 { Instr::Lxi(p) } else { Instr::Dad(p) }
        } else if z == 2 {
            if p < 2 {
                if q == 0 { Instr::Stax(p) } else { Instr::Ldax(p) }
            } else if y == 4 {
                Instr::Shld
            } else if y == 5 {
                Instr::Lhld
            } else if y == 6 {
                Instr::Sta
            } else {
                Instr::Lda
            }
        } else if z == 3 {
            if q == 0 { Instr::Inx(p) } else { Instr::Dcx(p) }
        } else if z == 4 {
            Instr::Inr(y)
        } else if z == 5 {
            Instr::Dcr(y)
        } else if z == 6 {
            Instr::Mvi(y)
        } else if y == 0 {
            Instr::Rlc
        } else if y == 1 {
            Instr::Rrc
        } else if y == 2 {
            Instr::Ral
        } else if y == 3 {
            Instr::Rar
        } else if y == 4 {
            Instr::Daa
        } else if y == 5 {
            Instr::Cma
        } else if y == 6 {
            Instr::Stc
        } else {
            Instr::Cmc
        }
    } else {
        if z == 0 {
            Instr::Rcc(y)
        } else if z == 1 {
            if q == 0 {
                Instr::Pop(p)
            } else if p < 2 {
                Instr::Ret
            } else if p == 2 {
                Instr::Pchl
            } else {
                Instr::Sphl
            }
        } else if z == 2 {
            Instr::Jcc(y)
        } else if z == 3 {
            if y < 2 {
                Instr::Jmp
            } else if y == 2 {
                Instr::Out
            } else if y == 3 {
                Instr::In
            } else if y == 4 {
                Instr::Xthl
            } else if y == 5 {
                Instr::Xchg
            } else if y == 6 {
                Instr::Di
            } else {
                Instr::Ei
            }
        } else if z == 4 {
            Instr::Ccc(y)
        } else if z == 5 {
            if q == 0 { Instr::Push(p) } else { Instr::Call }
        } else if z == 6 {
            Instr::AluImm(y)
        } else {
            Instr::Rst(y)
        }
    }
}

} // verus!
