use vstd::prelude::*;

use crate::bus::{add16, Bus, MEM_SIZE};
use crate::cpu::{reset_state, Cpu, Cycles, State};
use crate::decode::decode_spec;
use crate::machine::{loaded, SimpleMachine};
use crate::semantics::{execute, step_spec};

verus! {

/// Where CP/M programs are loaded and started.
pub const PROGRAM_START: u16 = 0x0100;

/// The BDOS entry point; calls there are served by the driver.
pub const BDOS_ENTRY: u16 = 0x0005;

/// Upper bound on the instructions one run may be given.
pub const MAX_RUN_OPS: u64 = 0x00FF_FFFF_FFFF_FFFF;

/// What a program writes to the console through BDOS.
#[derive(Clone, Copy, PartialEq, Eq, Structural, Debug)]
pub enum ConsoleEvent {
    /// A character to print.
    Char(u8),
    /// A call with a BDOS function number the driver does not serve.
    Unsupported(u8),
}

/// Bytes that reach the console: printable ones and line feed.
pub open spec fn printable(b: u8) -> bool {
    b >= 0x20 || b == 0x0A
}

pub open spec fn shown(b: u8) -> Seq<ConsoleEvent> {
    if printable(b) {
        seq![ConsoleEvent::Char(b)]
    } else {
        Seq::empty()
    }
}

/// The console events of the `$`-terminated string at `addr`, reading at
/// most `fuel` bytes.
pub open spec fn dollar_text(mem: Seq<u8>, addr: u16, fuel: nat) -> Seq<ConsoleEvent>
    decreases fuel,
{
    if fuel == 0 || mem[addr as int] == 0x24 {
        Seq::empty()
    } else {
        shown(mem[addr as int]) + dollar_text(mem, add16(addr, 1), (fuel - 1) as nat)
    }
}

/// The console events of a BDOS call: function 2 prints E, function 9
/// prints the `$`-terminated string at DE (scanning memory at most once
/// round), any other function is reported as unsupported.
pub open spec fn bdos_events(c: Cpu, mem: Seq<u8>) -> Seq<ConsoleEvent> {
    if c.c == 0x02 {
        shown(c.e)
    } else if c.c == 0x09 {
        dollar_text(mem, c.spec_de(), MEM_SIZE as nat)
    } else {
        seq![ConsoleEvent::Unsupported(c.c)]
    }
}

/// The driver stops at HALT or at a jump to 0x0000 (CP/M warm boot).
pub open spec fn run_stops(c: Cpu) -> bool {
    c.state == State::Halted || c.pc == 0
}

/// One driver tick: serve BDOS if PC is at its entry, then step.
pub open spec fn tick(c: Cpu, mem: Seq<u8>) -> (Cpu, Seq<u8>, u64, Seq<ConsoleEvent>) {
    let out = if c.pc == BDOS_ENTRY { bdos_events(c, mem) } else { Seq::empty() };
    let (c1, m1, cycles) = step_spec(c, mem, |p: u8| 0u8);
    (c1, m1, cycles, out)
}

/// Instructions run, cycles spent and console events of at most `fuel`
/// driver ticks from `c`, `mem`.
pub open spec fn run_spec(c: Cpu, mem: Seq<u8>, fuel: nat) -> (nat, nat, Seq<ConsoleEvent>)
    decreases fuel,
{
    if fuel == 0 || run_stops(c) {
        (0, 0, Seq::empty())
    } else {
        let (c1, m1, cycles, out) = tick(c, mem);
        let (ops, total, rest) = run_spec(c1, m1, (fuel - 1) as nat);
        ((ops + 1) as nat, (total + cycles) as nat, out + rest)
    }
}

/// The machine a CP/M program starts on: the program at 0x0100, HALT at
/// 0x0000, RET at the BDOS entry, PC at 0x0100.
pub open spec fn boot_memory(program: Seq<u8>) -> Seq<u8> {
    let m0 = Seq::new(MEM_SIZE as nat, |i: int| 0u8);
    loaded(loaded(loaded(m0, PROGRAM_START as int, program), 0, seq![0x76u8]), BDOS_ENTRY as int, seq![0xC9u8])
}

pub open spec fn boot_cpu() -> Cpu {
    Cpu { pc: PROGRAM_START, ..reset_state() }
}

/// Result of running a CP/M program.
pub struct CpmRun {
    /// Instructions executed.
    pub ops: u64,
    /// Cycles spent.
    pub cycles: Cycles,
    /// What the program wrote to the console, in order.
    pub output: Vec<ConsoleEvent>,
}

/// No instruction costs more than 19 cycles.
pub proof fn lemma_step_cycles(c: Cpu, mem: Seq<u8>, inp: spec_fn(u8) -> u8)
    ensures
        step_spec(c, mem, inp).2 <= 19,
{
    if c.state != State::Halted {
        let i = decode_spec(mem[c.pc as int]);
        let c1 = Cpu { pc: add16(c.pc, 1), ..c };
        assert(execute(i, c1, mem, inp).2 <= 19);
    }
}

impl SimpleMachine {
    /// Serves a BDOS call from the machine's registers and memory.
    pub fn process_cpm_call(&self, out: &mut Vec<ConsoleEvent>)
        ensures
            final(out)@ == old(out)@ + bdos_events(self.cpu, self.bus.memory@),
    {
        let function = self.cpu.c;
        if function == 0x02 {
            let ch = self.cpu.e;
            if ch >= 0x20 || ch == 0x0A {
                out.push(ConsoleEvent::Char(ch));
            }
            assert(out@ =~= old(out)@ + bdos_events(self.cpu, self.bus.memory@));
        } else if function == 0x09 {
            let ghost mem = self.bus.memory@;
            let start = self.cpu.de();
            let mut addr = start;
            let mut n: u32 = 0;
            let mut done = false;
            while !done && n < 0x10000
                invariant
                    mem == self.bus.memory@,
                    n <= 0x10000,
                    old(out)@ + dollar_text(mem, start, MEM_SIZE as nat) == out@ + if done {
                        Seq::empty()
                    } else {
                        dollar_text(mem, addr, (0x10000 - n) as nat)
                    },
                decreases 0x10000 - n + if done { 0int } else { 1int },
            {
                let ch = self.bus.read(addr);
                if ch == 0x24 {
                    done = true;
                    assert(out@ =~= out@ + Seq::<ConsoleEvent>::empty());
                } else {
                    let ghost before = out@;
                    if ch >= 0x20 || ch == 0x0A {
                        out.push(ConsoleEvent::Char(ch));
                    }
                    assert(out@ =~= before + shown(ch));
                    assert(before + dollar_text(mem, addr, (0x10000 - n) as nat) =~= out@ + dollar_text(
                        mem,
                        add16(addr, 1),
                        (0x10000 - n - 1) as nat,
                    ));
                    addr = addr.wrapping_add(1);
                    n = n + 1;
                }
            }
            if !done {
                assert(out@ =~= out@ + dollar_text(mem, addr, 0));
            }
        } else {
            out.push(ConsoleEvent::Unsupported(function));
        }
    }
}

/// Runs a CP/M program on a fresh machine: the program at 0x0100, HALT at
/// 0x0000, RET at the BDOS entry, PC at 0x0100. Each tick stops at HALT or
/// at PC = 0x0000, serves BDOS when PC is at its entry, then steps; at most
/// `max_ops` instructions run.
pub fn run_program(program: &[u8], max_ops: u64) -> (r: CpmRun)
    requires
        PROGRAM_START + program@.len() <= MEM_SIZE,
        max_ops <= MAX_RUN_OPS,
    ensures
        r.ops == run_spec(boot_cpu(), boot_memory(program@), max_ops as nat).0,
        r.cycles == run_spec(boot_cpu(), boot_memory(program@), max_ops as nat).1,
        r.output@ == run_spec(boot_cpu(), boot_memory(program@), max_ops as nat).2,
{
    let mut machine = SimpleMachine::new();
    machine.load(PROGRAM_START, program);
    machine.cpu.pc = PROGRAM_START;
    let halt = [0x76u8];
    let ret = [0xC9u8];
    machine.load(0x0000, halt.as_slice());
    machine.load(BDOS_ENTRY, ret.as_slice());
    assert(halt@ =~= seq![0x76u8]);
    assert(ret@ =~= seq![0xC9u8]);
    let ghost start_cpu = machine.cpu;
    let ghost start_mem = machine.bus.memory@;
    assert(start_cpu == boot_cpu());
    assert(start_mem == boot_memory(program@));
    let mut ops: u64 = 0;
    let mut cycles: u64 = 0;
    let mut output: Vec<ConsoleEvent> = Vec::new();
    while ops < max_ops && !(machine.cpu.state == State::Halted || machine.cpu.pc == 0)
        invariant
            ops <= max_ops,
            max_ops <= MAX_RUN_OPS,
            cycles <= 19 * ops,
            run_spec(start_cpu, start_mem, max_ops as nat).0 == ops + run_spec(
                machine.cpu,
                machine.bus.memory@,
                (max_ops - ops) as nat,
            ).0,
            run_spec(start_cpu, start_mem, max_ops as nat).1 == cycles + run_spec(
                machine.cpu,
                machine.bus.memory@,
                (max_ops - ops) as nat,
            ).1,
            run_spec(start_cpu, start_mem, max_ops as nat).2 == output@ + run_spec(
                machine.cpu,
                machine.bus.memory@,
                (max_ops - ops) as nat,
            ).2,
        decreases max_ops - ops,
    {
        let ghost out_before = output@;
        let ghost c0 = machine.cpu;
        let ghost m0 = machine.bus.memory@;
        if machine.cpu.pc == BDOS_ENTRY {
            machine.process_cpm_call(&mut output);
        }
        assert(output@ == out_before + tick(c0, m0).3);
        let spent = machine.step();
        proof {
            lemma_step_cycles(c0, m0, |p: u8| 0u8);
            assert(output@ + run_spec(machine.cpu, machine.bus.memory@, (max_ops - ops - 1) as nat).2
                =~= out_before + run_spec(c0, m0, (max_ops - ops) as nat).2);
        }
        ops = ops + 1;
        cycles = cycles + spent;
    }
    CpmRun { ops, cycles, output }
}

} // verus!
