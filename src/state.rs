use vstd::prelude::*;

verus! {

/// Width of the framebuffer in pixels.
pub const SCREEN_WIDTH: usize = 64;

/// Height of the framebuffer in pixels.
pub const SCREEN_HEIGHT: usize = 32;

/// Address at which programs are loaded and execution starts.
pub const START_ADDRESS: u16 = 0x200;

/// The whole machine seen as mathematical values.
#[verifier::ext_equal]
pub struct EmuState {
    pub pc: u16,
    pub ram: Seq<u8>,
    pub screen: Seq<bool>,
    pub regs: Seq<u8>,
    pub index: u16,
    pub sp: u16,
    pub stack: Seq<u16>,
    pub keys: Seq<bool>,
    pub dt: u8,
    pub st: u8,
}

impl EmuState {
    /// Sizes of the fixed containers, and a stack pointer within capacity.
    pub open spec fn wf(self) -> bool {
        &&& self.ram.len() == 4096
        &&& self.screen.len() == 2048
        &&& self.regs.len() == 16
        &&& self.stack.len() == 16
        &&& self.keys.len() == 16
        &&& self.sp <= 16
    }
}

/// The built-in hexadecimal digit glyphs, five bytes each.
pub open spec fn font() -> Seq<u8> {
    seq![
        0xF0u8, 0x90, 0x90, 0x90, 0xF0,
        0x20, 0x60, 0x20, 0x20, 0x70,
        0xF0, 0x10, 0xF0, 0x80, 0xF0,
        0xF0, 0x10, 0xF0, 0x10, 0xF0,
        0x90, 0x90, 0xF0, 0x10, 0x10,
        0xF0, 0x80, 0xF0, 0x10, 0xF0,
        0xF0, 0x80, 0xF0, 0x90, 0xF0,
        0xF0, 0x10, 0x20, 0x40, 0x40,
        0xF0, 0x90, 0xF0, 0x90, 0xF0,
        0xF0, 0x90, 0xF0, 0x10, 0xF0,
        0xF0, 0x90, 0xF0, 0x90, 0x90,
        0xE0, 0x90, 0xE0, 0x90, 0xE0,
        0xF0, 0x80, 0x80, 0x80, 0xF0,
        0xE0, 0x90, 0x90, 0x90, 0xE0,
        0xF0, 0x80, 0xF0, 0x80, 0xF0,
        0xF0, 0x80, 0xF0, 0x80, 0x80,
    ]
}

/// Fresh state: font in the reserved region, everything else zero,
/// execution at the program entry.
pub open spec fn initial_state() -> EmuState {
    EmuState {
        pc: START_ADDRESS,
        ram: Seq::new(4096, |i: int| if i < 80 { font()[i] } else { 0u8 }),
        screen: Seq::new(2048, |i: int| false),
        regs: Seq::new(16, |i: int| 0u8),
        index: 0,
        sp: 0,
        stack: Seq::new(16, |i: int| 0u16),
        keys: Seq::new(16, |i: int| false),
        dt: 0,
        st: 0,
    }
}

/// Memory after copying `data` to the program entry address.
pub open spec fn loaded_ram(ram: Seq<u8>, data: Seq<u8>) -> Seq<u8> {
    Seq::new(
        ram.len(),
        |i: int|
            if START_ADDRESS <= i < START_ADDRESS + data.len() {
                data[i - START_ADDRESS]
            } else {
                ram[i]
            },
    )
}

/// One timer tick: each timer goes down by one, stopping at zero.
pub open spec fn timers_ticked(s: EmuState) -> EmuState {
    EmuState {
        dt: if s.dt > 0 { (s.dt - 1) as u8 } else { 0 },
        st: if s.st > 0 { (s.st - 1) as u8 } else { 0 },
        ..s
    }
}

/// The big-endian instruction word at the program counter.
pub open spec fn fetched_op(s: EmuState) -> u16 {
    (s.ram[s.pc as int] as int * 256 + s.ram[s.pc + 1] as int) as u16
}

/// The state once the instruction word has been fetched.
pub open spec fn fetched(s: EmuState) -> EmuState {
    EmuState { pc: (s.pc + 2) as u16, ..s }
}

/// Instruction class: the top nibble.
pub open spec fn op_class(op: u16) -> int {
    op as int / 4096
}

/// Operand X: the second nibble.
pub open spec fn op_x(op: u16) -> int {
    (op as int / 256) % 16
}

/// Operand Y: the third nibble.
pub open spec fn op_y(op: u16) -> int {
    (op as int / 16) % 16
}

/// Operand N: the lowest nibble.
pub open spec fn op_n(op: u16) -> int {
    op as int % 16
}

/// The 8-bit immediate NN.
pub open spec fn op_nn(op: u16) -> int {
    op as int % 256
}

/// The 12-bit address NNN.
pub open spec fn op_nnn(op: u16) -> int {
    op as int % 4096
}

/// Whether the word is one of the instruction patterns of the machine.
pub open spec fn is_known_op(op: u16) -> bool {
    let c = op_class(op);
    let n = op_n(op);
    let nn = op_nn(op);
    if c == 0 {
        op == 0x0000 || op == 0x00E0 || op == 0x00EE
    } else if c == 5 || c == 9 {
        n == 0
    } else if c == 8 {
        n <= 7 || n == 0xE
    } else if c == 0xE {
        nn == 0x9E || nn == 0xA1
    } else if c == 0xF {
        nn == 0x07 || nn == 0x0A || nn == 0x15 || nn == 0x18 || nn == 0x1E || nn == 0x29
            || nn == 0x33 || nn == 0x55 || nn == 0x65
    } else {
        true
    }
}

/// Some key is held.
pub open spec fn any_key_held(keys: Seq<bool>) -> bool {
    exists|k: int| 0 <= k < 16 && #[trigger] keys[k]
}

/// `k` is the lowest-indexed held key.
pub open spec fn is_lowest_held(keys: Seq<bool>, k: int) -> bool {
    &&& 0 <= k < 16
    &&& keys[k]
    &&& forall|j: int| 0 <= j < k ==> !#[trigger] keys[j]
}

/// The lowest-indexed held key, where one is held.
pub open spec fn lowest_held(keys: Seq<bool>) -> int {
    choose|k: int| is_lowest_held(keys, k)
}

/// Whether executing `op` in `s` stays inside memory, stack, key and
/// address bounds. Outside these the machine has no defined behaviour.
pub open spec fn op_in_bounds(s: EmuState, op: u16) -> bool {
    let c = op_class(op);
    let x = op_x(op);
    let n = op_n(op);
    let nn = op_nn(op);
    let vx = s.regs[x];
    if op == 0x00EE {
        s.sp > 0
    } else if c == 2 {
        s.sp < 16
    } else if c == 3 || c == 4 || c == 5 || c == 9 {
        s.pc as int + 2 < 0x10000
    } else if c == 0xD {
        n == 0 || s.index as int + n <= 4096
    } else if c == 0xE {
        vx < 16 && s.pc as int + 2 < 0x10000
    } else if c == 0xF && nn == 0x0A {
        any_key_held(s.keys) || s.pc >= 2
    } else if c == 0xF && nn == 0x33 {
        s.index as int + 2 < 4096
    } else if c == 0xF && (nn == 0x55 || nn == 0x65) {
        s.index as int + x < 4096
    } else {
        true
    }
}

/// Whether `op` may be executed in `s`.
pub open spec fn can_execute_spec(s: EmuState, op: u16) -> bool {
    is_known_op(op) && op_in_bounds(s, op)
}

/// Whether one full step (fetch, then execute) is defined in `s`.
pub open spec fn can_tick_spec(s: EmuState) -> bool {
    s.pc as int + 1 < 4096 && can_execute_spec(fetched(s), fetched_op(s))
}

/// Program counter moved past the next instruction when `cond` holds.
pub open spec fn skip_if(s: EmuState, cond: bool) -> EmuState {
    if cond {
        EmuState { pc: (s.pc + 2) as u16, ..s }
    } else {
        s
    }
}

/// Register `x` set to `v`.
pub open spec fn with_reg(s: EmuState, x: int, v: u8) -> EmuState {
    EmuState { regs: s.regs.update(x, v), ..s }
}

/// Register `x` set to `v`, then the flag register 0xF set to `flag`.
pub open spec fn with_reg_flag(s: EmuState, x: int, v: u8, flag: u8) -> EmuState {
    EmuState { regs: s.regs.update(x, v).update(15, flag), ..s }
}

/// The register-to-register instructions of class 8.
pub open spec fn arith_spec(s: EmuState, x: int, y: int, n: int) -> EmuState {
    let a = s.regs[x];
    let b = s.regs[y];
    if n == 0 {
        with_reg(s, x, b)
    } else if n == 1 {
        with_reg(s, x, a | b)
    } else if n == 2 {
        with_reg(s, x, a & b)
    } else if n == 3 {
        with_reg(s, x, a ^ b)
    } else if n == 4 {
        with_reg_flag(s, x, ((a + b) % 256) as u8, if a + b >= 256 { 1 } else { 0 })
    } else if n == 5 {
        with_reg_flag(s, x, ((a - b) % 256) as u8, if a < b { 0 } else { 1 })
    } else if n == 6 {
        with_reg_flag(s, x, (a / 2) as u8, (a % 2) as u8)
    } else if n == 7 {
        with_reg_flag(s, x, ((b - a) % 256) as u8, if b < a { 0 } else { 1 })
    } else {
        with_reg_flag(s, x, ((a * 2) % 256) as u8, (a / 128) as u8)
    }
}

/// Bit `c` of a sprite row, counting from the most significant bit.
pub open spec fn sprite_bit(row: u8, c: int) -> bool {
    (row >> ((7 - c) as u8)) & 1u8 == 1u8
}

/// Whether drawing the `n`-row sprite at the index register, at
/// (`x0`, `y0`) with wrap-around, toggles pixel `idx`.
pub open spec fn sprite_hits(s: EmuState, x0: int, y0: int, n: int, idx: int) -> bool {
    let c = sprite_col(x0, idx);
    let r = sprite_row(y0, idx);
    r < n && c < 8 && sprite_bit(s.ram[s.index as int + r], c)
}

/// The sprite column that lands on pixel `idx` when the sprite's left edge
/// is at `x0`, wrapping around the screen width.
pub open spec fn sprite_col(x0: int, idx: int) -> int {
    (idx % 64 - x0) % 64
}

/// The sprite row that lands on pixel `idx` when the sprite's top edge is
/// at `y0`, wrapping around the screen height.
pub open spec fn sprite_row(y0: int, idx: int) -> int {
    (idx / 64 - y0) % 32
}

/// The framebuffer after drawing that sprite.
pub open spec fn drawn_screen(s: EmuState, x0: int, y0: int, n: int) -> Seq<bool> {
    Seq::new(2048, |idx: int| s.screen[idx] != sprite_hits(s, x0, y0, n, idx))
}

/// Whether drawing that sprite turns off a pixel that was on.
pub open spec fn draw_collides(s: EmuState, x0: int, y0: int, n: int) -> bool {
    exists|idx: int| 0 <= idx < 2048 && #[trigger] sprite_hits(s, x0, y0, n, idx) && s.screen[idx]
}

/// The sprite-drawing instruction DXYN.
pub open spec fn draw_spec(s: EmuState, x: int, y: int, n: int) -> EmuState {
    let x0 = s.regs[x] as int;
    let y0 = s.regs[y] as int;
    EmuState {
        screen: drawn_screen(s, x0, y0, n),
        regs: s.regs.update(15, if draw_collides(s, x0, y0, n) { 1u8 } else { 0u8 }),
        ..s
    }
}

/// The instructions of class F.
pub open spec fn misc_spec(s: EmuState, x: int, nn: int) -> EmuState {
    let vx = s.regs[x];
    let i = s.index as int;
    if nn == 0x07 {
        with_reg(s, x, s.dt)
    } else if nn == 0x0A {
        if any_key_held(s.keys) {
            with_reg(s, x, lowest_held(s.keys) as u8)
        } else {
            EmuState { pc: (s.pc - 2) as u16, ..s }
        }
    } else if nn == 0x15 {
        EmuState { dt: vx, ..s }
    } else if nn == 0x18 {
        EmuState { st: vx, ..s }
    } else if nn == 0x1E {
        EmuState { index: ((s.index as int + vx as int) % 0x10000) as u16, ..s }
    } else if nn == 0x29 {
        EmuState { index: (vx as int * 5) as u16, ..s }
    } else if nn == 0x33 {
        EmuState {
            ram: s.ram.update(i, (vx / 100) as u8).update(i + 1, ((vx / 10) % 10) as u8).update(
                i + 2,
                (vx % 10) as u8,
            ),
            ..s
        }
    } else if nn == 0x55 {
        EmuState {
            ram: Seq::new(
                s.ram.len(),
                |k: int|
                    if i <= k <= i + x {
                        s.regs[k - i]
                    } else {
                        s.ram[k]
                    },
            ),
            ..s
        }
    } else {
        EmuState {
            regs: Seq::new(
                s.regs.len(),
                |k: int|
                    if k <= x {
                        s.ram[i + k]
                    } else {
                        s.regs[k]
                    },
            ),
            ..s
        }
    }
}

/// The effect of executing the instruction word `op` in `s`, where `rnd`
/// is the random byte that CXNN draws.
pub open spec fn exec_spec(s: EmuState, op: u16, rnd: u8) -> EmuState {
    let c = op_class(op);
    let x = op_x(op);
    let y = op_y(op);
    let n = op_n(op);
    let nn = op_nn(op);
    let nnn = op_nnn(op);
    if op == 0x00E0 {
        EmuState { screen: Seq::new(2048, |i: int| false), ..s }
    } else if op == 0x00EE {
        EmuState { pc: s.stack[s.sp - 1], sp: (s.sp - 1) as u16, ..s }
    } else if c == 0 {
        s
    } else if c == 1 {
        EmuState { pc: nnn as u16, ..s }
    } else if c == 2 {
        EmuState {
            pc: nnn as u16,
            stack: s.stack.update(s.sp as int, s.pc),
            sp: (s.sp + 1) as u16,
            ..s
        }
    } else if c == 3 {
        skip_if(s, s.regs[x] == nn)
    } else if c == 4 {
        skip_if(s, s.regs[x] != nn)
    } else if c == 5 {
        skip_if(s, s.regs[x] == s.regs[y])
    } else if c == 6 {
        with_reg(s, x, nn as u8)
    } else if c == 7 {
        with_reg(s, x, ((s.regs[x] as int + nn) % 256) as u8)
    } else if c == 8 {
        arith_spec(s, x, y, n)
    } else if c == 9 {
        skip_if(s, s.regs[x] != s.regs[y])
    } else if c == 0xA {
        EmuState { index: nnn as u16, ..s }
    } else if c == 0xB {
        EmuState { pc: (s.regs[0] as int + nnn) as u16, ..s }
    } else if c == 0xC {
        with_reg(s, x, rnd & (nn as u8))
    } else if c == 0xD {
        draw_spec(s, x, y, n)
    } else if c == 0xE {
        let held = s.keys[s.regs[x] as int];
        skip_if(s, if nn == 0x9E { held } else { !held })
    } else {
        misc_spec(s, x, nn)
    }
}

/// One full step: fetch the word at the program counter, then execute it.
pub open spec fn tick_spec(s: EmuState, rnd: u8) -> EmuState {
    exec_spec(fetched(s), fetched_op(s), rnd)
}

} // verus!
