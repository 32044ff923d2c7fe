//! The executable machine: the state aggregate and the cycle engine.

use crate::model::SapState;
use vstd::prelude::*;

verus! {

/// The machine state: a plain data aggregate, mutated in place by the
/// cycle engine and directly readable by the driver.
///
/// Memory is a fixed sixteen-cell store addressed by 4-bit operands.
/// `instruction_reg` and `alu` are reserved slots that the current
/// instruction set never reads (see [`SapState`]). `halted` is the
/// explicit terminal indicator: the driver observes it and stops
/// invoking the engine instead of spinning.
pub struct Sap {
    pub instruction_reg: u8,
    pub prog_count: u8,
    pub memory: [u8; 16],
    pub a_reg: u8,
    pub b_reg: u8,
    pub alu: u8,
    pub out: u8,
    pub carry: bool,
    pub zero: bool,
    pub halted: bool,
}

impl View for Sap {
    type V = SapState;

    open spec fn view(&self) -> SapState {
        SapState {
            instruction_reg: self.instruction_reg,
            prog_count: self.prog_count,
            memory: self.memory@,
            a_reg: self.a_reg,
            b_reg: self.b_reg,
            alu: self.alu,
            out: self.out,
            carry: self.carry,
            zero: self.zero,
            halted: self.halted,
        }
    }
}

/// Read one memory cell. Addresses come from 4-bit operands or the
/// program counter, so they are always in range.
pub fn read_mem(memory: [u8; 16], addr: u8) -> (value: u8)
    requires
        addr < 16,
    ensures
        value == memory@[addr as int],
{
    memory[addr as usize]
}

impl Sap {
    /// Construct a machine from a sixteen-byte memory image, with all
    /// registers and flags at zero and the machine not halted.
    pub fn new(memory: [u8; 16]) -> (machine: Sap)
        ensures
            machine@ == (SapState {
                instruction_reg: 0,
                prog_count: 0,
                memory: memory@,
                a_reg: 0,
                b_reg: 0,
                alu: 0,
                out: 0,
                carry: false,
                zero: false,
                halted: false,
            }),
            machine@.wf(),
    {
        Sap {
            instruction_reg: 0,
            prog_count: 0,
            memory,
            a_reg: 0,
            b_reg: 0,
            alu: 0,
            out: 0,
            carry: false,
            zero: false,
            halted: false,
        }
    }

    /// Decode and execute one instruction byte against the current
    /// state, exactly as the model's decode/execute table says.
    pub fn execute_instruction(&mut self, instruction: u8)
        ensures
            final(self)@ == old(self)@.execute(instruction),
    {
        let most_sig: u8 = instruction >> 4;
        let least_sig: u8 = instruction & 15;
        proof {
            assert(instruction >> 4 == instruction / 16) by (bit_vector);
            assert(instruction & 15 == instruction % 16) by (bit_vector);
        }
        match most_sig {
            // NOP
            0 => {},
            // LDA
            1 => {
                let val: u8 = read_mem(self.memory, least_sig);
                self.a_reg = val;
            },
            // ADD
            2 => {
                self.b_reg = read_mem(self.memory, least_sig);
                let sum: u8 = self.a_reg.wrapping_add(self.b_reg);
                if sum == 0 {
                    self.zero = true;
                }
                match self.a_reg.checked_add(self.b_reg) {
                    Some(_) => {},
                    None => {
                        self.carry = true;
                    },
                }
                self.a_reg = sum;
            },
            // SUB (adds, wrapping: see the model's table note)
            3 => {
                let dif: u8 = self.a_reg.wrapping_add(self.b_reg);
                if dif == 0 {
                    self.zero = true;
                }
                self.a_reg = dif;
            },
            // STA
            4 => {
                self.memory[least_sig as usize] = self.a_reg;
            },
            // LDI
            5 => {
                self.a_reg = least_sig;
            },
            // JMP
            6 => {
                self.prog_count = least_sig;
            },
            // JC
            7 => {
                if self.carry {
                    self.prog_count = least_sig;
                }
            },
            // JZ
            8 => {
                if self.zero {
                    self.prog_count = least_sig;
                }
            },
            // OUT
            14 => {
                self.out = self.a_reg;
            },
            // HLT
            15 => {
                self.halted = true;
            },
            _ => {},
        }
    }

    /// One clock cycle: on a halted machine, nothing; otherwise fetch
    /// the byte at the program counter, advance the counter with 4-bit
    /// wraparound, and execute the fetched byte. After the call the
    /// driver reads `out` as the cycle's observable output.
    pub fn process_clock_cycle(&mut self)
        requires
            old(self)@.wf(),
        ensures
            final(self)@ == old(self)@.step(),
            final(self)@.wf(),
    {
        if !self.halted {
            let instruction: u8 = read_mem(self.memory, self.prog_count);
            self.prog_count = self.prog_count + 1;
            if self.prog_count > 15 {
                self.prog_count = 0;
            }
            self.execute_instruction(instruction);
        }
    }
}

} // verus!
