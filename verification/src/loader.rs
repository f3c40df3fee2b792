//! The loader and run boundary: copies a binary image into memory starting
//! at address 0 and runs the machine to halt.
//!
//! The one boundary check is the image length: an image longer than the
//! 65 536-byte address space is rejected before anything runs.

use vstd::prelude::*;

use crate::cpu::{Cpu, CpuView};
use crate::instruction::DecodeError;
use crate::memory::MEMORY_SIZE;
use crate::run::{run_completes, run_fails};

verus! {

/// What can end an emulation: an input image longer than the address space,
/// rejected before the run begins, or an instruction word that failed to
/// decode during the run.
#[derive(Clone, Copy, Debug, PartialEq, Eq, Structural)]
pub enum EmulateError {
    ImageTooLarge { length: usize },
    Decode(DecodeError),
}

/// A memory whose first bytes were overwritten by `image` and whose
/// remainder is untouched.
pub open spec fn mem_loaded(mem: Seq<u8>, image: Seq<u8>) -> Seq<u8>
    recommends
        image.len() <= mem.len(),
{
    Seq::new(mem.len(), |i: int| if i < image.len() { image[i] } else { mem[i] })
}

/// The machine state a binary image starts from: the zero state with the
/// image copied to the bottom of memory.
pub open spec fn loaded_view(image: Seq<u8>) -> CpuView {
    CpuView { mem: mem_loaded(CpuView::initial().mem, image), ..CpuView::initial() }
}

/// The emulation of an image starting in `s0` has failed with decode error
/// `e` in some reachable state.
pub open spec fn emulation_fails(s0: CpuView, e: DecodeError) -> bool {
    exists|s1: CpuView| run_fails(s0, s1, e)
}

impl Cpu {
    /// Copies `image` into memory starting at address 0, leaving the rest of
    /// the machine untouched.  An image longer than the address space is
    /// rejected whole, and nothing changes.
    pub fn load_image(&mut self, image: &Vec<u8>) -> (result: Result<(), EmulateError>)
        requires
            old(self).wf(),
        ensures
            final(self).wf(),
            image@.len() <= MEMORY_SIZE ==> result is Ok && final(self)@ == (CpuView {
                mem: mem_loaded(old(self)@.mem, image@),
                ..old(self)@
            }),
            image@.len() > MEMORY_SIZE ==> result == Err::<(), EmulateError>(
                EmulateError::ImageTooLarge { length: image@.len() as usize },
            ) && final(self)@ == old(self)@,
    {
        if image.len() > MEMORY_SIZE {
            return Err(EmulateError::ImageTooLarge { length: image.len() });
        }
        let mut index: usize = 0;
        #[verifier::loop_isolation(false)]
        while index < image.len()
            invariant
                index <= image@.len(),
                self.memory@.len() == MEMORY_SIZE,
                forall|i: int| 0 <= i < index ==> self.memory@[i] == image@[i],
                forall|i: int|
                    index <= i < MEMORY_SIZE ==> self.memory@[i] == old(self).memory@[i],
                self.registers@ == old(self).registers@,
                self.flags == old(self).flags,
                self.program_counter == old(self).program_counter,
                self.halted == old(self).halted,
            decreases image@.len() - index,
        {
            self.memory[index] = image[index];
            index = index + 1;
        }
        proof {
            assert(self@.mem =~= mem_loaded(old(self)@.mem, image@));
            assert(self@ =~= (CpuView { mem: mem_loaded(old(self)@.mem, image@), ..old(self)@ }));
        }
        Ok(())
    }
}

/// Builds a fresh machine, loads `image` at address 0 and runs it to halt.
///
/// Returns the final machine for observation, the image-length error when
/// the image does not fit in memory (if and only if), and the decode error
/// when a fetched word matched no pattern.
pub fn emulate_image(image: &Vec<u8>) -> (result: Result<Cpu, EmulateError>)
    ensures
        image@.len() > MEMORY_SIZE <==> result == Err::<Cpu, EmulateError>(
            EmulateError::ImageTooLarge { length: image@.len() as usize },
        ),
        result matches Ok(cpu) ==> cpu.wf() && run_completes(loaded_view(image@), cpu@),
        result matches Err(EmulateError::Decode(e)) ==> emulation_fails(loaded_view(image@), e),
{
    let mut cpu = Cpu::new();
    match cpu.load_image(image) {
        Ok(_) => (),
        Err(error) => {
            return Err(error);
        },
    }
    proof {
        assert(cpu@.mem =~= loaded_view(image@).mem);
        assert(cpu@ =~= loaded_view(image@));
    }
    match cpu.run() {
        Ok(_) => {
            proof {
                assert(run_completes(loaded_view(image@), cpu@));
            }
            Ok(cpu)
        },
        Err(error) => {
            proof {
                assert(run_fails(loaded_view(image@), cpu@, error));
                assert(emulation_fails(loaded_view(image@), error));
            }
            Err(EmulateError::Decode(error))
        },
    }
}

} // verus!
