use vstd::prelude::*;

use crate::bus::{Bus, MEM_SIZE};
use crate::cpu::{reset_state, Cpu, Cycles};
use crate::semantics::step_spec;

verus! {

/// Flat 64 KiB RAM; input ports answer 0 and output ports discard.
pub struct SimpleBus {
    pub memory: [u8; 0x10000],
}

/// `mem` with `data` copied in from `addr` on.
pub open spec fn loaded(mem: Seq<u8>, addr: int, data: Seq<u8>) -> Seq<u8> {
    mem.subrange(0, addr) + data + mem.subrange(addr + data.len(), mem.len() as int)
}

impl SimpleBus {
    pub fn new() -> (r: SimpleBus)
        ensures
            r.memory@ == Seq::new(MEM_SIZE as nat, |i: int| 0u8),
    {
        let r = SimpleBus { memory: [0u8; 0x10000] };
        assert(r.memory@ =~= Seq::new(MEM_SIZE as nat, |i: int| 0u8));
        r
    }
}

impl Bus for SimpleBus {
    open spec fn mem(&self) -> Seq<u8> {
        self.memory@
    }

    open spec fn port_in(&self, port: u8) -> u8 {
        0
    }

    proof fn lemma_mem_len(&self) {
    }

    fn read(&self, addr: u16) -> (r: u8) {
        self.memory[addr as usize]
    }

    fn write(&mut self, addr: u16, value: u8) {
        self.memory[addr as usize] = value;
    }

    fn input(&self, port: u8) -> (r: u8) {
        0
    }

    fn output(&mut self, port: u8, value: u8) {
    }
}

/// One CPU wired to a flat 64 KiB RAM.
pub struct SimpleMachine {
    pub cpu: Cpu,
    pub bus: SimpleBus,
}

impl SimpleMachine {
    /// A reset CPU and zeroed memory.
    pub fn new() -> (r: SimpleMachine)
        ensures
            r.cpu == reset_state(),
            r.bus.memory@ == Seq::new(MEM_SIZE as nat, |i: int| 0u8),
    {
        SimpleMachine { cpu: Cpu::new(), bus: SimpleBus::new() }
    }

    /// Executes one instruction; the bus answers 0 on every input port.
    pub fn step(&mut self) -> (r: Cycles)
        ensures
            (final(self).cpu, final(self).bus.memory@, r) == step_spec(old(self).cpu, old(self).bus.memory@, |p: u8| 0u8),
    {
        let r = self.cpu.step(&mut self.bus);
        assert((|p: u8| old(self).bus.port_in(p)) =~~= (|p: u8| 0u8));
        r
    }

    /// Copies `data` into memory from `addr` on; the CPU is untouched.
    pub fn load(&mut self, addr: u16, data: &[u8])
        requires
            addr + data@.len() <= MEM_SIZE,
        ensures
            final(self).cpu == old(self).cpu,
            final(self).bus.memory@ == loaded(old(self).bus.memory@, addr as int, data@),
    {
        let start = addr as usize;
        let mut i: usize = 0;
        while i < data.len()
            invariant
                start == addr,
                start + data@.len() <= MEM_SIZE,
                i <= data@.len(),
                self.cpu == old(self).cpu,
                self.bus.memory@.len() == MEM_SIZE,
                forall|j: int|
                    0 <= j < MEM_SIZE ==> #[trigger] self.bus.memory@[j] == if start <= j < start + i {
                        data@[j - start]
                    } else {
                        old(self).bus.memory@[j]
                    },
            decreases data@.len() - i,
        {
            self.bus.memory[start + i] = data[i];
            i = i + 1;
        }
        assert(self.bus.memory@ =~= loaded(old(self).bus.memory@, addr as int, data@));
    }
}

} // verus!
