//! Architectural guarantees of the machine, proved over the model.

use crate::model::{opcode_of, operand_of, SapState};
use vstd::prelude::*;

verus! {

/// A cycle keeps the machine well formed: memory stays sixteen cells
/// and the program counter stays in `[0, 15]`.
pub proof fn lemma_step_preserves_wf(m: SapState)
    requires
        m.wf(),
    ensures
        m.step().wf(),
{
}

/// Every fetch address the machine ever uses lies in `[0, 15]`: after
/// any number of cycles a well-formed machine is still well formed, so
/// the program counter — the address of the next fetch — never leaves
/// the sixteen-cell memory.
pub proof fn lemma_fetch_addresses_in_range(m: SapState, n: nat)
    requires
        m.wf(),
    ensures
        m.step_n(n).wf(),
        m.step_n(n).prog_count < 16,
    decreases n,
{
    if n > 0 {
        lemma_fetch_addresses_in_range(m, (n - 1) as nat);
        lemma_step_preserves_wf(m.step_n((n - 1) as nat));
    }
}

/// Does the cycle about to run transfer control: an unconditional
/// jump, or a conditional jump whose flag is set?
pub open spec fn takes_jump(m: SapState) -> bool {
    let instruction = m.memory[m.prog_count as int];
    ||| opcode_of(instruction) == 6
    ||| (opcode_of(instruction) == 7 && m.carry)
    ||| (opcode_of(instruction) == 8 && m.zero)
}

/// Program-counter wraparound: over any run in which the machine never
/// halts and no jump is taken, the fetch addresses starting from `p0`
/// are `p0, p0 + 1, ...` modulo 16. (A taken jump or an executed HLT
/// breaks the arithmetic sequence, so such cycles are excluded.)
pub proof fn lemma_prog_count_wraparound(m: SapState, n: nat)
    requires
        m.wf(),
        forall|i: nat|
            i < n ==> !(#[trigger] m.step_n(i)).halted && !takes_jump(m.step_n(i)),
    ensures
        forall|i: nat|
            i <= n ==> (#[trigger] m.step_n(i)).prog_count == (m.prog_count + i) % 16,
    decreases n,
{
    if n > 0 {
        lemma_prog_count_wraparound(m, (n - 1) as nat);
        lemma_fetch_addresses_in_range(m, (n - 1) as nat);
        assert(((m.prog_count + (n - 1)) % 16 + 1) % 16 == (m.prog_count + n) % 16)
            by (nonlinear_arith);
    }
}

/// ADD wrapping correctness: executing ADD loads `b_reg` from the
/// operand address and sets `a_reg` to the sum modulo 256; `zero` is
/// set exactly when the wrapped sum is 0, `carry` exactly when the
/// unwrapped sum overflows 8 bits — each on top of its sticky old
/// value.
pub proof fn lemma_add_wrapping(m: SapState, instruction: u8)
    requires
        m.wf(),
        opcode_of(instruction) == 2,
    ensures
        ({
            let b = m.memory[operand_of(instruction) as int];
            &&& m.execute(instruction).b_reg == b
            &&& m.execute(instruction).a_reg == (m.a_reg + b) % 256
            &&& m.execute(instruction).zero == (m.zero || (m.a_reg + b) % 256 == 0)
            &&& m.execute(instruction).carry == (m.carry || m.a_reg + b >= 256)
        }),
{
}

/// Flags are sticky: no instruction whatever clears `zero` or `carry`
/// once set — the instruction set has no clear path.
pub proof fn lemma_flags_sticky(m: SapState, instruction: u8)
    ensures
        m.zero ==> m.execute(instruction).zero,
        m.carry ==> m.execute(instruction).carry,
{
}

/// Flag stickiness lifted to whole cycles: however many cycles run, a
/// set flag stays set.
pub proof fn lemma_flags_sticky_cycles(m: SapState, n: nat)
    ensures
        m.zero ==> m.step_n(n).zero,
        m.carry ==> m.step_n(n).carry,
    decreases n,
{
    if n > 0 {
        lemma_flags_sticky_cycles(m, (n - 1) as nat);
    }
}

/// Unconditional versus conditional jumps: in the cycle about to run,
/// JMP always sets the program counter to its operand; JC and JZ do so
/// only when their flag is currently set, and otherwise the counter
/// keeps its normal post-fetch increment.
pub proof fn lemma_jump_behavior(m: SapState)
    requires
        m.wf(),
        !m.halted,
    ensures
        ({
            let instruction = m.memory[m.prog_count as int];
            &&& opcode_of(instruction) == 6 ==> m.step().prog_count == operand_of(instruction)
            &&& opcode_of(instruction) == 7 && m.carry ==> m.step().prog_count == operand_of(
                instruction,
            )
            &&& opcode_of(instruction) == 7 && !m.carry ==> m.step().prog_count == (m.prog_count
                + 1) % 16
            &&& opcode_of(instruction) == 8 && m.zero ==> m.step().prog_count == operand_of(
                instruction,
            )
            &&& opcode_of(instruction) == 8 && !m.zero ==> m.step().prog_count == (m.prog_count
                + 1) % 16
        }),
{
}

/// Output observability: OUT latches the accumulator into the output
/// register, and no other instruction touches it — so a value written
/// by OUT is what the output channel reports on that and every later
/// cycle until the next OUT.
pub proof fn lemma_out_latch(m: SapState, instruction: u8)
    ensures
        opcode_of(instruction) == 14 ==> m.execute(instruction).out == m.a_reg,
        opcode_of(instruction) != 14 ==> m.execute(instruction).out == m.out,
{
}

/// Output observability lifted to whole cycles: a cycle that executes
/// OUT reports the accumulator; any other cycle reports the same value
/// as the one before.
pub proof fn lemma_out_per_cycle(m: SapState)
    requires
        m.wf(),
    ensures
        !m.halted && opcode_of(m.memory[m.prog_count as int]) == 14 ==> m.step().out == m.a_reg,
        m.halted || opcode_of(m.memory[m.prog_count as int]) != 14 ==> m.step().out == m.out,
{
}

/// Executing HLT sets the halted indicator and changes nothing else in
/// the state.
pub proof fn lemma_halt_executes(m: SapState, instruction: u8)
    requires
        opcode_of(instruction) == 15,
    ensures
        m.execute(instruction) == (SapState { halted: true, ..m }),
{
}

/// Halt terminality: once the machine is halted, no state field ever
/// changes again, however many more cycles are driven.
pub proof fn lemma_halt_terminal(m: SapState, n: nat)
    requires
        m.halted,
    ensures
        m.step_n(n) == m,
    decreases n,
{
    if n > 0 {
        lemma_halt_terminal(m, (n - 1) as nat);
    }
}

} // verus!
