//! The instruction loop: fetch, decode, execute, repeat until the halt latch
//! is set or a word fails to decode.
//!
//! [`spec_step`] is one loop iteration at the specification level and
//! [`steps_to`] its iteration; [`Cpu::run_for`] is proved to follow exactly
//! that chain of steps.  A program may loop forever, so the loop carries an
//! explicit cycle bound; [`Cpu::run`] uses the largest possible one.

use vstd::prelude::*;

use crate::cpu::{Cpu, CpuView};
use crate::decode::spec_decode;
use crate::execute::spec_execute;
use crate::instruction::{DecodeError, Instruction};
use crate::memory::{word_at, wrap_add16};

verus! {

/// The instruction word the machine is about to fetch.
pub open spec fn fetch_word(s: CpuView) -> u16 {
    word_at(s.mem, s.pc)
}

/// The machine state right after a fetch: the program counter has advanced
/// by 2, wrapping; nothing else has changed.
pub open spec fn fetched(s: CpuView) -> CpuView {
    CpuView { pc: wrap_add16(s.pc, 2), ..s }
}

/// Whether the word at the program counter decodes.
pub open spec fn step_ok(s: CpuView) -> bool {
    spec_decode(fetch_word(s)) is Ok
}

/// One iteration of the instruction loop: fetch the word at the program
/// counter, advance the program counter by 2, then execute the decoded
/// instruction.
pub open spec fn spec_step(s: CpuView) -> CpuView
    recommends
        s.wf(),
        step_ok(s),
{
    spec_execute(fetched(s), spec_decode(fetch_word(s))->Ok_0)
}

/// The machine reaches `t` from `s` in exactly `n` instruction-loop steps,
/// none of them halted and each of them decodable.
pub open spec fn steps_to(s: CpuView, t: CpuView, n: nat) -> bool
    decreases n,
{
    if n == 0 {
        t == s
    } else {
        &&& !s.halted
        &&& step_ok(s)
        &&& steps_to(spec_step(s), t, (n - 1) as nat)
    }
}

/// The run from `s0` has failed in state `s1`: after `n` good steps the
/// machine stood in `t`, not halted, and the word at its program counter
/// decodes to the error `e`; the failing fetch still advanced the program
/// counter.
pub open spec fn fails_at(s0: CpuView, s1: CpuView, e: DecodeError, t: CpuView, n: nat) -> bool {
    &&& steps_to(s0, t, n)
    &&& !t.halted
    &&& spec_decode(fetch_word(t)) == Err::<Instruction, DecodeError>(e)
    &&& s1 == fetched(t)
}

/// The run from `s0` has completed in state `s1`: `s1` is reached by some
/// number of steps and is halted, unless the largest cycle bound ran out
/// first.
pub open spec fn run_completes(s0: CpuView, s1: CpuView) -> bool {
    exists|n: nat| steps_to(s0, s1, n) && (s1.halted || n == u64::MAX as nat)
}

/// The run from `s0` has failed in state `s1` with error `e`: some reachable,
/// not-halted state holds an undecodable word ([`fails_at`]).
pub open spec fn run_fails(s0: CpuView, s1: CpuView, e: DecodeError) -> bool {
    exists|t: CpuView, n: nat| fails_at(s0, s1, e, t, n)
}

/// Fetch, successful decode and execution compose to one specification-level
/// step.
pub proof fn lemma_step_composition(pre: CpuView, mid: CpuView, i: Instruction, post: CpuView)
    requires
        spec_decode(fetch_word(pre)) == Ok::<Instruction, DecodeError>(i),
        mid == fetched(pre),
        post == spec_execute(mid, i),
    ensures
        post == spec_step(pre),
{
}

/// A chain of steps grows by one at its end: if `t` is reached in `n` steps
/// and can itself step, its successor is reached in `n + 1` steps.
pub proof fn lemma_steps_to_extend(s: CpuView, t: CpuView, n: nat)
    requires
        steps_to(s, t, n),
        !t.halted,
        step_ok(t),
    ensures
        steps_to(s, spec_step(t), n + 1),
    decreases n,
{
    if n == 0 {
        assert(steps_to(spec_step(t), spec_step(t), 0));
    } else {
        lemma_steps_to_extend(spec_step(s), t, (n - 1) as nat);
    }
}

impl Cpu {
    /// Runs the instruction loop for at most `max_cycles` instructions.
    ///
    /// Returns `Ok(n)` after `n` executed instructions when the machine
    /// halted or the bound ran out, and the decode error when a fetched word
    /// matched no pattern of the encoding table; the failing fetch still
    /// advanced the program counter, and nothing after it ran.  On an
    /// already-halted machine this returns `Ok(0)` at once.
    #[verifier::rlimit(100)]
    #[verifier::loop_isolation(false)]
    pub fn run_for(&mut self, max_cycles: u64) -> (result: Result<u64, DecodeError>)
        requires
            old(self).wf(),
        ensures
            final(self).wf(),
            result matches Ok(n) ==> {
                &&& n <= max_cycles
                &&& steps_to(old(self)@, final(self)@, n as nat)
                &&& (final(self)@.halted || n == max_cycles)
            },
            result matches Err(e) ==> run_fails(old(self)@, final(self)@, e),
    {
        let ghost s0 = self@;
        let mut cycles: u64 = 0;
        while !self.halted && cycles < max_cycles
            invariant
                self.wf(),
                cycles <= max_cycles,
                steps_to(s0, self@, cycles as nat),
            decreases max_cycles - cycles,
        {
            let ghost pre = self@;
            let word = self.fetch();
            match self.decode(word) {
                Ok(instruction) => {
                    self.execute(instruction);
                    cycles = cycles + 1;
                    proof {
                        lemma_step_composition(pre, fetched(pre), instruction, self@);
                        lemma_steps_to_extend(s0, pre, (cycles - 1) as nat);
                    }
                },
                Err(error) => {
                    proof {
                        assert(fails_at(old(self)@, self@, error, pre, cycles as nat));
                        assert(run_fails(old(self)@, self@, error));
                    }
                    return Err(error);
                },
            }
        }
        Ok(cycles)
    }

    /// Runs the instruction loop until the machine halts or a word fails to
    /// decode, under the largest cycle bound there is.  Halting is sticky:
    /// on an already-halted machine this returns at once and changes
    /// nothing.
    pub fn run(&mut self) -> (result: Result<(), DecodeError>)
        requires
            old(self).wf(),
        ensures
            final(self).wf(),
            old(self)@.halted ==> result is Ok && final(self)@ == old(self)@,
            result is Ok ==> run_completes(old(self)@, final(self)@),
            result matches Err(e) ==> run_fails(old(self)@, final(self)@, e),
    {
        match self.run_for(u64::MAX) {
            Ok(_) => {
                proof {
                    if old(self)@.halted {
                        assert(self@ == old(self)@);
                    }
                    assert(run_completes(old(self)@, self@));
                }
                Ok(())
            },
            Err(error) => {
                proof {
                    assert(run_fails(old(self)@, self@, error));
                }
                Err(error)
            },
        }
    }
}

} // verus!
