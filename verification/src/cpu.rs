//! The machine state: memory, register file, flags, program counter and the
//! halt latch, together with construction and instruction fetch.

use vstd::prelude::*;

use crate::flags::Flags;
use crate::memory::{wrap_add16, word_at, Memory, MEMORY_SIZE};

verus! {

/// The number of general-purpose registers.
pub const NUM_REGISTERS: usize = 8;

/// The mathematical model of a machine state: the 65 536 memory bytes, the
/// eight 16-bit registers, the four flags, the program counter and the halt
/// latch.
#[verifier::ext_equal]
pub ghost struct CpuView {
    pub mem: Seq<u8>,
    pub regs: Seq<u16>,
    pub flags: Flags,
    pub pc: u16,
    pub halted: bool,
}

impl CpuView {
    /// Well-formedness: a full 64 KiB of memory and exactly eight registers.
    pub open spec fn wf(self) -> bool {
        &&& self.mem.len() == MEMORY_SIZE
        &&& self.regs.len() == NUM_REGISTERS
    }

    /// The machine state at construction: everything zero, nothing halted.
    pub open spec fn initial() -> CpuView {
        CpuView {
            mem: Seq::new(MEMORY_SIZE as nat, |i: int| 0u8),
            regs: Seq::new(NUM_REGISTERS as nat, |i: int| 0u16),
            flags: Flags::spec_clear(),
            pc: 0,
            halted: false,
        }
    }
}

/// The emulated machine.  All state is public so that observers can read
/// registers, flags and memory after a run; the contracts of the mutating
/// methods require `wf()`, which construction establishes and every method
/// preserves.
pub struct Cpu {
    pub memory: Vec<u8>,
    pub registers: Vec<u16>,
    pub flags: Flags,
    pub program_counter: u16,
    pub halted: bool,
}

impl View for Cpu {
    type V = CpuView;

    open spec fn view(&self) -> CpuView {
        CpuView {
            mem: self.memory@,
            regs: self.registers@,
            flags: self.flags,
            pc: self.program_counter,
            halted: self.halted,
        }
    }
}

impl Cpu {
    /// Well-formedness of the concrete machine: see [`CpuView::wf`].
    pub open spec fn wf(&self) -> bool {
        self@.wf()
    }

    /// Creates a machine in the zero state: memory and registers all zero,
    /// flags clear, program counter zero, not halted.
    pub fn new() -> (cpu: Cpu)
        ensures
            cpu.wf(),
            cpu@ == CpuView::initial(),
    {
        let mut memory: Vec<u8> = Vec::new();
        while memory.len() < MEMORY_SIZE
            invariant
                memory@.len() <= MEMORY_SIZE,
                forall|i: int| 0 <= i < memory@.len() ==> memory@[i] == 0u8,
            decreases MEMORY_SIZE - memory@.len(),
        {
            memory.push(0u8);
        }
        let mut registers: Vec<u16> = Vec::new();
        while registers.len() < NUM_REGISTERS
            invariant
                registers@.len() <= NUM_REGISTERS,
                forall|i: int| 0 <= i < registers@.len() ==> registers@[i] == 0u16,
            decreases NUM_REGISTERS - registers@.len(),
        {
            registers.push(0u16);
        }
        let cpu = Cpu {
            memory,
            registers,
            flags: Flags::new(),
            program_counter: 0,
            halted: false,
        };
        proof {
            assert(cpu@.mem =~= CpuView::initial().mem);
            assert(cpu@.regs =~= CpuView::initial().regs);
            assert(cpu@ =~= CpuView::initial());
        }
        cpu
    }

    /// Reads the 16-bit little-endian word at the program counter, then
    /// advances the program counter by 2, wrapping at the top of the address
    /// space.  Nothing else changes.
    pub fn fetch(&mut self) -> (instruction: u16)
        requires
            old(self).wf(),
        ensures
            final(self).wf(),
            instruction == word_at(old(self)@.mem, old(self)@.pc),
            final(self)@ == (CpuView { pc: wrap_add16(old(self)@.pc, 2), ..old(self)@ }),
    {
        let instruction = self.memory.read_word(self.program_counter);
        self.program_counter = self.program_counter.wrapping_add(2);
        instruction
    }
}

impl Cpu {
    /// A copy of the memory bytes in `start..end`: the window an observer
    /// prints after a run.
    pub fn memory_window(&self, start: u16, end: u16) -> (window: Vec<u8>)
        requires
            self.wf(),
            start <= end,
        ensures
            window@ == self@.mem.subrange(start as int, end as int),
    {
        let mut window: Vec<u8> = Vec::new();
        let mut i: usize = start as usize;
        #[verifier::loop_isolation(false)]
        while i < end as usize
            invariant
                start as usize <= i <= end as usize,
                window@ == self@.mem.subrange(start as int, i as int),
            decreases end as usize - i,
        {
            let byte = self.memory[i];
            window.push(byte);
            proof {
                assert(window@ =~= self@.mem.subrange(start as int, i + 1 as int));
            }
            i = i + 1;
        }
        proof {
            assert(window@ =~= self@.mem.subrange(start as int, end as int));
        }
        window
    }
}

impl Default for Cpu {
    /// The default machine equals the newly constructed zero state.
    fn default() -> (cpu: Cpu)
        ensures
            cpu.wf(),
            cpu@ == CpuView::initial(),
    {
        Cpu::new()
    }
}

impl Memory for Cpu {
    open spec fn mem_view(&self) -> Seq<u8> {
        self.memory@
    }

    fn read_byte(&self, address: u16) -> (value: u8) {
        self.memory.read_byte(address)
    }

    fn write_byte(&mut self, address: u16, value: u8) {
        self.memory.write_byte(address, value);
    }

    fn read_word(&self, address: u16) -> (value: u16) {
        self.memory.read_word(address)
    }

    fn write_word(&mut self, address: u16, value: u16) {
        self.memory.write_word(address, value);
    }
}

} // verus!
