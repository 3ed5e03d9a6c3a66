use vstd::prelude::*;

verus! {

/// A minimal machine that only knows how to add registers: 0000 halts and
/// 8XY4 adds register Y into register X with a carry flag.
pub struct CPU {
    pub registers: [u8; 16],
    pub position_in_memory: usize,
    pub memory: [u8; 4096],
}

/// What one step of the minimal machine did.
#[derive(PartialEq, Eq, Structural, Debug, Clone, Copy)]
pub enum CpuStep {
    /// The word was 0000: execution stops.
    Halt,
    /// The word was an 8XY4 addition, now done.
    Added,
    /// The word is not one the machine knows.
    Unsupported,
}

/// The big-endian word at position `p`.
pub open spec fn word_at(mem: Seq<u8>, p: int) -> u16 {
    (mem[p] as int * 256 + mem[p + 1] as int) as u16
}

/// Registers after adding register `y` into register `x`, modulo 256, with
/// register 0xF then set to the carry.
pub open spec fn added_regs(regs: Seq<u8>, x: int, y: int) -> Seq<u8> {
    let sum = regs[x] + regs[y];
    regs.update(x, (sum % 256) as u8).update(15, if sum >= 256 { 1u8 } else { 0u8 })
}

impl CPU {
    /// The word at the current position, big-endian.
    pub fn read_opcode(&self) -> (op: u16)
        requires
            self.position_in_memory + 1 < 4096,
        ensures
            op == word_at(self.memory@, self.position_in_memory as int),
    {
        let p = self.position_in_memory;
        let op_byte1 = self.memory[p] as u16;
        let op_byte2 = self.memory[p + 1] as u16;
        op_byte1 * 256 + op_byte2
    }

    /// Adds register `y` into register `x`, wrapping at 256; register 0xF
    /// tells whether it overflowed.
    pub fn add_xy(&mut self, x: u8, y: u8)
        requires
            x < 16,
            y < 16,
        ensures
            final(self).registers@ == added_regs(old(self).registers@, x as int, y as int),
            final(self).memory == old(self).memory,
            final(self).position_in_memory == old(self).position_in_memory,
    {
        let arg1 = self.registers[x as usize];
        let arg2 = self.registers[y as usize];
        let sum = arg1 as u16 + arg2 as u16;
        self.registers[x as usize] = (sum % 256) as u8;
        if sum >= 256 {
            self.registers[15] = 1;
        } else {
            self.registers[15] = 0;
        }
    }

    /// Reads the word at the current position, moves past it and carries it
    /// out; the word comes back with what was done.
    pub fn step(&mut self) -> (r: (u16, CpuStep))
        requires
            old(self).position_in_memory + 1 < 4096,
        ensures
            ({
                let op = word_at(old(self).memory@, old(self).position_in_memory as int);
                let x = (op as int / 256) % 16;
                let y = (op as int / 16) % 16;
                &&& r.0 == op
                &&& final(self).position_in_memory == old(self).position_in_memory + 2
                &&& final(self).memory == old(self).memory
                &&& r.1 == (if op == 0 {
                    CpuStep::Halt
                } else if op as int / 4096 == 8 && op as int % 16 == 4 {
                    CpuStep::Added
                } else {
                    CpuStep::Unsupported
                })
                &&& final(self).registers@ == (if r.1 == CpuStep::Added {
                    added_regs(old(self).registers@, x, y)
                } else {
                    old(self).registers@
                })
            }),
    {
        let opcode = self.read_opcode();
        self.position_in_memory = self.position_in_memory + 2;
        let c = opcode / 4096;
        let x = ((opcode / 256) % 16) as u8;
        let y = ((opcode / 16) % 16) as u8;
        let d = opcode % 16;
        if opcode == 0 {
            (opcode, CpuStep::Halt)
        } else if c == 8 && d == 4 {
            self.add_xy(x, y);
            (opcode, CpuStep::Added)
        } else {
            (opcode, CpuStep::Unsupported)
        }
    }
}

} // verus!
