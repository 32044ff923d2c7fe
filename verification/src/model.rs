//! Mathematical model of the processor: the machine state as a plain
//! ghost record, and the decode/execute table and cycle step as total
//! spec functions over it.

use vstd::prelude::*;

verus! {

/// Ghost image of the whole machine state.
///
/// `memory` doubles as code and data store (a von Neumann design);
/// `prog_count` addresses it with a 4-bit value, so a well-formed state
/// keeps it in `[0, 15]`. `instruction_reg` and `alu` are reserved
/// slots: the cycle fetches into a local value and never latches it,
/// and no instruction reads or writes the arithmetic-unit latch.
/// `halted` is the explicit terminal indicator set by HLT.
pub struct SapState {
    pub instruction_reg: u8,
    pub prog_count: u8,
    pub memory: Seq<u8>,
    pub a_reg: u8,
    pub b_reg: u8,
    pub alu: u8,
    pub out: u8,
    pub carry: bool,
    pub zero: bool,
    pub halted: bool,
}

/// High nibble of an instruction byte: the operation selector.
pub open spec fn opcode_of(instruction: u8) -> u8 {
    instruction / 16
}

/// Low nibble of an instruction byte: a memory address or an immediate
/// literal, depending on the opcode.
pub open spec fn operand_of(instruction: u8) -> u8 {
    instruction % 16
}

impl SapState {
    /// Well-formedness: sixteen memory cells, program counter in range.
    pub open spec fn wf(self) -> bool {
        &&& self.memory.len() == 16
        &&& self.prog_count < 16
    }

    /// The decode/execute table: the state after executing one
    /// instruction byte, with the program counter already advanced by
    /// the fetch.
    ///
    /// The opcode space is total: codes with no assigned meaning are
    /// no-ops. `zero` and `carry` are sticky: instructions only ever
    /// set them, nothing clears them. SUB, despite its mnemonic, adds
    /// the two registers (wrapping) rather than subtracting, and loads
    /// nothing from memory; a true subtract-with-borrow would be an
    /// extension, not part of this instruction set.
    pub open spec fn execute(self, instruction: u8) -> SapState {
        let op: u8 = opcode_of(instruction);
        let arg: u8 = operand_of(instruction);
        if op == 1 {
            // LDA: load the accumulator from memory.
            SapState { a_reg: self.memory[arg as int], ..self }
        } else if op == 2 {
            // ADD: load b_reg from memory, then a_reg <- a_reg + b_reg
            // (wrapping); zero set on a wrapped sum of 0, carry set on
            // 8-bit overflow of the unwrapped sum.
            let b: u8 = self.memory[arg as int];
            let sum: u8 = ((self.a_reg + b) % 256) as u8;
            SapState {
                b_reg: b,
                a_reg: sum,
                zero: self.zero || sum == 0,
                carry: self.carry || self.a_reg + b >= 256,
                ..self
            }
        } else if op == 3 {
            // SUB: a_reg <- a_reg + b_reg (wrapping); zero set on a
            // result of 0; carry untouched. See the table note above.
            let sum: u8 = ((self.a_reg + self.b_reg) % 256) as u8;
            SapState { a_reg: sum, zero: self.zero || sum == 0, ..self }
        } else if op == 4 {
            // STA: store the accumulator to memory.
            SapState { memory: self.memory.update(arg as int, self.a_reg), ..self }
        } else if op == 5 {
            // LDI: load the operand nibble as an immediate.
            SapState { a_reg: arg, ..self }
        } else if op == 6 {
            // JMP: unconditional jump.
            SapState { prog_count: arg, ..self }
        } else if op == 7 {
            // JC: jump only when carry is set.
            if self.carry {
                SapState { prog_count: arg, ..self }
            } else {
                self
            }
        } else if op == 8 {
            // JZ: jump only when zero is set.
            if self.zero {
                SapState { prog_count: arg, ..self }
            } else {
                self
            }
        } else if op == 14 {
            // OUT: latch the accumulator into the output register.
            SapState { out: self.a_reg, ..self }
        } else if op == 15 {
            // HLT: enter the terminal halted state.
            SapState { halted: true, ..self }
        } else {
            // NOP and the unassigned codes: no state change.
            self
        }
    }

    /// One full clock cycle: a halted machine stays exactly as it is;
    /// otherwise fetch the byte at the program counter, advance the
    /// counter with 4-bit wraparound, and execute the fetched byte.
    pub open spec fn step(self) -> SapState {
        if self.halted {
            self
        } else {
            let instruction: u8 = self.memory[self.prog_count as int];
            let advanced = SapState {
                prog_count: (((self.prog_count + 1) % 16) as u8),
                ..self
            };
            advanced.execute(instruction)
        }
    }

    /// The state after `n` clock cycles.
    pub open spec fn step_n(self, n: nat) -> SapState
        decreases n,
    {
        if n == 0 {
            self
        } else {
            self.step_n((n - 1) as nat).step()
        }
    }
}

} // verus!
