use vstd::prelude::*;
use crate::state::{
    any_key_held, arith_spec, can_execute_spec, can_tick_spec, draw_spec, drawn_screen, exec_spec,
    fetched, fetched_op, font, initial_state, is_lowest_held, loaded_ram, lowest_held, misc_spec,
    sprite_col, sprite_hits, sprite_row, tick_spec, timers_ticked, with_reg, EmuState,
    START_ADDRESS,
};

verus! {

const RAM_SIZE: usize = 4096;
const FONTSET_SIZE: usize = 80;

/// An interpreter for the 8-bit virtual machine: memory, registers, call
/// stack, framebuffer, keys and timers.
pub struct Emu {
    pc: u16,
    ram: [u8; 4096],
    screen: [bool; 2048],
    regs: [u8; 16],
    index: u16,
    sp: u16,
    stack: [u16; 16],
    keys: [bool; 16],
    dt: u8,
    st: u8,
}

impl View for Emu {
    type V = EmuState;

    closed spec fn view(&self) -> EmuState {
        EmuState {
            pc: self.pc,
            ram: self.ram@,
            screen: self.screen@,
            regs: self.regs@,
            index: self.index,
            sp: self.sp,
            stack: self.stack@,
            keys: self.keys@,
            dt: self.dt,
            st: self.st,
        }
    }
}

/// The glyph bytes of the sixteen hexadecimal digits.
fn fontset() -> (r: Vec<u8>)
    ensures
        r@ == font(),
{
    let r = vec![
        0xF0u8, 0x90, 0x90, 0x90, 0xF0,
        0x20, 0x60, 0x20, 0x20, 0x70,
        0xF0, 0x10, 0xF0, 0x80, 0xF0,
        0xF0, 0x10, 0xF0, 0x10, 0xF0,
        0x90, 0x90, 0xF0, 0x10, 0x10,
        0xF0, 0x80, 0xF0, 0x10, 0xF0,
        0xF0, 0x80, 0xF0, 0x90, 0xF0,
        0xF0, 0x10, 0x20, 0x40, 0x40,
        0xF0, 0x90, 0xF0, 0x90, 0xF0,
        0xF0, 0x90, 0xF0, 0x10, 0xF0,
        0xF0, 0x90, 0xF0, 0x90, 0x90,
        0xE0, 0x90, 0xE0, 0x90, 0xE0,
        0xF0, 0x80, 0x80, 0x80, 0xF0,
        0xE0, 0x90, 0x90, 0x90, 0xE0,
        0xF0, 0x80, 0xF0, 0x80, 0xF0,
        0xF0, 0x80, 0xF0, 0x80, 0x80,
    ];
    assert(r@ =~= font());
    r
}

/// Memory of a fresh machine: the font glyphs, then zeros.
fn initial_ram() -> (r: [u8; 4096])
    ensures
        r@ == initial_state().ram,
{
    let mut ram = [0u8; 4096];
    let glyphs = fontset();
    let mut i: usize = 0;
    while i < FONTSET_SIZE
        invariant
            i <= FONTSET_SIZE,
            glyphs@ == font(),
            ram@.len() == RAM_SIZE,
            forall|k: int| 0 <= k < i ==> ram@[k] == font()[k],
            forall|k: int| i <= k < RAM_SIZE ==> ram@[k] == 0u8,
        decreases FONTSET_SIZE - i,
    {
        ram[i] = glyphs[i];
        i = i + 1;
    }
    assert(ram@ =~= initial_state().ram);
    ram
}

/// Pixel `idx` has been visited once rows before `r`, and columns before `c`
/// of row `r`, have been drawn.
spec fn drawn_before(x0: int, y0: int, idx: int, r: int, c: int) -> bool {
    let row = sprite_row(y0, idx);
    row < r || (row == r && sprite_col(x0, idx) < c)
}

/// The pixel that sprite cell (`r`, `c`) lands on is the only one whose
/// sprite row and column are `r` and `c`.
proof fn lemma_sprite_pixel(x0: int, y0: int, r: int, c: int)
    requires
        0 <= x0 < 256,
        0 <= y0 < 256,
        0 <= r < 16,
        0 <= c < 8,
    ensures
        ({
            let idx = (x0 + c) % 64 + 64 * ((y0 + r) % 32);
            &&& 0 <= idx < 2048
            &&& sprite_col(x0, idx) == c
            &&& sprite_row(y0, idx) == r
            &&& forall|j: int|
                0 <= j < 2048 && sprite_col(x0, j) == c && sprite_row(y0, j) == r ==> j == idx
        }),
{
    let px = (x0 + c) % 64;
    let py = (y0 + r) % 32;
    let idx = px + 64 * py;
    assert(0 <= px < 64 && 0 <= py < 32);
    assert(idx % 64 == px && idx / 64 == py) by (nonlinear_arith)
        requires idx == px + 64 * py, 0 <= px < 64, 0 <= py < 32;
    assert((px - x0) % 64 == c) by (nonlinear_arith)
        requires px == (x0 + c) % 64, 0 <= c < 8, 0 <= x0;
    assert((py - y0) % 32 == r) by (nonlinear_arith)
        requires py == (y0 + r) % 32, 0 <= r < 16, 0 <= y0;
    assert forall|j: int|
        0 <= j < 2048 && sprite_col(x0, j) == c && sprite_row(y0, j) == r implies j == idx by {
        let jx = j % 64;
        let jy = j / 64;
        assert(j == jx + 64 * jy && 0 <= jx < 64 && 0 <= jy < 32) by (nonlinear_arith)
            requires jx == j % 64, jy == j / 64, 0 <= j < 2048;
        assert(jx == px) by (nonlinear_arith)
            requires (jx - x0) % 64 == c, (px - x0) % 64 == c, 0 <= jx < 64, 0 <= px < 64;
        assert(jy == py) by (nonlinear_arith)
            requires (jy - y0) % 32 == r, (py - y0) % 32 == r, 0 <= jy < 32, 0 <= py < 32;
    }
}

/// Relies on rand::random: a byte drawn from the thread-local generator.
/// Nothing is promised of its value.
#[verifier::external_body]
fn random_byte() -> u8 {
    rand::random::<u8>()
}

impl Emu {
    /// A machine in its initial state, ready to load a program.
    pub fn new() -> (r: Self)
        ensures
            r@ == initial_state(),
    {
        let e = Emu {
            pc: START_ADDRESS,
            ram: initial_ram(),
            screen: [false; 2048],
            regs: [0u8; 16],
            index: 0,
            sp: 0,
            stack: [0u16; 16],
            keys: [false; 16],
            dt: 0,
            st: 0,
        };
        assert(e@.screen =~= initial_state().screen);
        assert(e@.regs =~= initial_state().regs);
        assert(e@.stack =~= initial_state().stack);
        assert(e@.keys =~= initial_state().keys);
        e
    }

    /// Puts every field back to its initial value, font included; a
    /// loaded program is discarded.
    pub fn reset(&mut self)
        ensures
            final(self)@ == initial_state(),
    {
        *self = Emu::new();
    }

    /// Copies `data` into memory at the program entry address.
    pub fn load(&mut self, data: &[u8])
        requires
            START_ADDRESS + data@.len() <= 4096,
        ensures
            final(self)@ == (EmuState { ram: loaded_ram(old(self)@.ram, data@), ..old(self)@ }),
    {
        let start = START_ADDRESS as usize;
        let mut i: usize = 0;
        while i < data.len()
            invariant
                start == START_ADDRESS,
                start + data@.len() <= RAM_SIZE,
                i <= data@.len(),
                self@ == (EmuState { ram: self@.ram, ..old(self)@ }),
                self@.ram.len() == RAM_SIZE,
                forall|k: int|
                    0 <= k < RAM_SIZE ==> #[trigger] self@.ram[k] == (if start <= k < start + i {
                        data@[k - start]
                    } else {
                        old(self)@.ram[k]
                    }),
            decreases data@.len() - i,
        {
            self.ram[start + i] = data[i];
            i = i + 1;
        }
        assert(self@.ram =~= loaded_ram(old(self)@.ram, data@));
    }

    /// Decrements the delay and sound timers, each stopping at zero.
    pub fn tick_timers(&mut self)
        ensures
            final(self)@ == timers_ticked(old(self)@),
    {
        if self.dt > 0 {
            self.dt = self.dt - 1;
        }
        if self.st > 0 {
            self.st = self.st - 1;
        }
    }

    /// Reads the big-endian word at the program counter and moves the
    /// program counter past it.
    pub fn fetch(&mut self) -> (op: u16)
        requires
            old(self)@.pc + 1 < 4096,
        ensures
            op == fetched_op(old(self)@),
            final(self)@ == fetched(old(self)@),
    {
        let higher = self.ram[self.pc as usize] as u16;
        let lower = self.ram[(self.pc + 1) as usize] as u16;
        let op = higher * 256 + lower;
        self.pc = self.pc + 2;
        op
    }

    /// The framebuffer, row-major, `SCREEN_WIDTH` pixels per row.
    pub fn get_display(&self) -> (r: &[bool])
        ensures
            r@ == self@.screen,
    {
        self.screen.as_slice()
    }

    /// Draws the `n`-row sprite at the index register with its top-left
    /// corner at (register `x`, register `y`); register 0xF tells whether a
    /// lit pixel was turned off.
    fn draw(&mut self, x: usize, y: usize, n: usize)
        requires
            x < 16,
            y < 16,
            n < 16,
            n == 0 || old(self)@.index + n <= 4096,
        ensures
            final(self)@ == draw_spec(old(self)@, x as int, y as int, n as int),
    {
        let ghost s0 = self@;
        let x0 = self.regs[x] as usize;
        let y0 = self.regs[y] as usize;
        let mut flipped = false;
        let mut r: usize = 0;
        while r < n
            invariant
                r <= n,
                n < 16,
                n == 0 || s0.index + n <= 4096,
                x0 == s0.regs[x as int],
                y0 == s0.regs[y as int],
                self@ == (EmuState { screen: self@.screen, ..s0 }),
                forall|idx: int|
                    0 <= idx < 2048 ==> #[trigger] self@.screen[idx] == (s0.screen[idx] != (
                    sprite_hits(s0, x0 as int, y0 as int, n as int, idx) && drawn_before(
                        x0 as int,
                        y0 as int,
                        idx,
                        r as int,
                        0,
                    ))),
                flipped == exists|idx: int|
                    0 <= idx < 2048 && #[trigger] sprite_hits(s0, x0 as int, y0 as int, n as int, idx)
                        && drawn_before(x0 as int, y0 as int, idx, r as int, 0) && s0.screen[idx],
            decreases n - r,
        {
            let row = self.ram[self.index as usize + r];
            let mut c: usize = 0;
            while c < 8
                invariant
                    r < n,
                    n < 16,
                    c <= 8,
                    row == s0.ram[s0.index + r],
                    x0 == s0.regs[x as int],
                    y0 == s0.regs[y as int],
                    self@ == (EmuState { screen: self@.screen, ..s0 }),
                    forall|idx: int|
                        0 <= idx < 2048 ==> #[trigger] self@.screen[idx] == (s0.screen[idx] != (
                        sprite_hits(s0, x0 as int, y0 as int, n as int, idx) && drawn_before(
                            x0 as int,
                            y0 as int,
                            idx,
                            r as int,
                            c as int,
                        ))),
                    flipped == exists|idx: int|
                        0 <= idx < 2048 && #[trigger] sprite_hits(
                            s0,
                            x0 as int,
                            y0 as int,
                            n as int,
                            idx,
                        ) && drawn_before(x0 as int, y0 as int, idx, r as int, c as int)
                            && s0.screen[idx],
                decreases 8 - c,
            {
                let ghost before = self@.screen;
                let ghost fl0 = flipped;
                if (row >> (7 - c as u8)) & 1u8 == 1u8 {
                    let px = (x0 + c) % 64;
                    let py = (y0 + r) % 32;
                    let idx = px + 64 * py;
                    proof {
                        lemma_sprite_pixel(x0 as int, y0 as int, r as int, c as int);
                        assert(sprite_hits(s0, x0 as int, y0 as int, n as int, idx as int));
                    }
                    flipped = flipped || self.screen[idx];
                    self.screen[idx] = !self.screen[idx];
                    proof {
                        assert forall|j: int| 0 <= j < 2048 implies #[trigger] self@.screen[j] == (
                        s0.screen[j] != (sprite_hits(s0, x0 as int, y0 as int, n as int, j)
                            && drawn_before(x0 as int, y0 as int, j, r as int, c + 1))) by {
                            if j != idx {
                                assert(self@.screen[j] == before[j]);
                            }
                        }
                        if flipped {
                            if !fl0 {
                                assert(sprite_hits(s0, x0 as int, y0 as int, n as int, idx as int)
                                    && drawn_before(x0 as int, y0 as int, idx as int, r as int, c + 1)
                                    && s0.screen[idx as int]);
                            }
                        }
                    }
                } else {
                    proof {
                        assert forall|j: int|
                            0 <= j < 2048 && sprite_hits(s0, x0 as int, y0 as int, n as int, j)
                                && sprite_row(y0 as int, j) == r implies sprite_col(x0 as int, j)
                            != c by {}
                    }
                }
                c = c + 1;
            }
            proof {
                assert forall|idx: int|
                    0 <= idx < 2048 && #[trigger] sprite_hits(s0, x0 as int, y0 as int, n as int, idx)
                    implies drawn_before(x0 as int, y0 as int, idx, r as int, 8) == drawn_before(
                    x0 as int,
                    y0 as int,
                    idx,
                    r + 1,
                    0,
                ) by {}
            }
            r = r + 1;
        }
        self.regs[15] = if flipped { 1 } else { 0 };
        proof {
            assert forall|idx: int|
                0 <= idx < 2048 && #[trigger] sprite_hits(s0, x0 as int, y0 as int, n as int, idx)
                implies drawn_before(x0 as int, y0 as int, idx, n as int, 0) by {}
            assert(self@.screen =~= drawn_screen(s0, x0 as int, y0 as int, n as int));
            assert(self@ =~= draw_spec(s0, x as int, y as int, n as int));
        }
    }

    fn push(&mut self, val: u16)
        requires
            old(self)@.sp < 16,
        ensures
            final(self)@ == (EmuState {
                stack: old(self)@.stack.update(old(self)@.sp as int, val),
                sp: (old(self)@.sp + 1) as u16,
                ..old(self)@
            }),
    {
        self.stack[self.sp as usize] = val;
        self.sp = self.sp + 1;
    }

    fn pop(&mut self) -> (r: u16)
        requires
            0 < old(self)@.sp <= 16,
        ensures
            r == old(self)@.stack[old(self)@.sp - 1],
            final(self)@ == (EmuState { sp: (old(self)@.sp - 1) as u16, ..old(self)@ }),
    {
        self.sp = self.sp - 1;
        self.stack[self.sp as usize]
    }

    fn set_reg(&mut self, x: usize, v: u8)
        requires
            x < 16,
        ensures
            final(self)@ == with_reg(old(self)@, x as int, v),
    {
        self.regs[x] = v;
    }

    /// Register X takes `v`, then the flag register 0xF takes `flag`.
    fn set_reg_flag(&mut self, x: usize, v: u8, flag: u8)
        requires
            x < 16,
        ensures
            final(self)@ == (EmuState {
                regs: old(self)@.regs.update(x as int, v).update(15, flag),
                ..old(self)@
            }),
    {
        self.regs[x] = v;
        self.regs[15] = flag;
    }

    /// The register-to-register instructions 8XYN.
    fn arith(&mut self, x: usize, y: usize, n: u16)
        requires
            x < 16,
            y < 16,
            n < 16,
        ensures
            final(self)@ == arith_spec(old(self)@, x as int, y as int, n as int),
    {
        let a = self.regs[x];
        let b = self.regs[y];
        if n == 0 {
            self.set_reg(x, b);
        } else if n == 1 {
            self.set_reg(x, a | b);
        } else if n == 2 {
            self.set_reg(x, a & b);
        } else if n == 3 {
            self.set_reg(x, a ^ b);
        } else if n == 4 {
            let sum = a as u16 + b as u16;
            self.set_reg_flag(x, (sum % 256) as u8, if sum >= 256 { 1 } else { 0 });
        } else if n == 5 {
            let diff = a.wrapping_sub(b);
            proof {
                assert(diff == (a - b) % 256) by (nonlinear_arith)
                    requires diff == (if a >= b { a - b } else { a - b + 256 }), 0 <= a < 256, 0 <= b < 256;
            }
            self.set_reg_flag(x, diff, if a < b { 0 } else { 1 });
        } else if n == 6 {
            self.set_reg_flag(x, a / 2, a % 2);
        } else if n == 7 {
            let diff = b.wrapping_sub(a);
            proof {
                assert(diff == (b - a) % 256) by (nonlinear_arith)
                    requires diff == (if b >= a { b - a } else { b - a + 256 }), 0 <= a < 256, 0 <= b < 256;
            }
            self.set_reg_flag(x, diff, if b < a { 0 } else { 1 });
        } else {
            self.set_reg_flag(x, ((a as u16 * 2) % 256) as u8, a / 128);
        }
    }

    /// The instructions FXNN: timers, key wait, index arithmetic, decimal
    /// digits and register blocks.
    fn misc(&mut self, x: usize, nn: u16)
        requires
            x < 16,
            nn < 256,
            old(self)@.sp <= 16,
            nn == 0x07 || nn == 0x0A || nn == 0x15 || nn == 0x18 || nn == 0x1E || nn == 0x29
                || nn == 0x33 || nn == 0x55 || nn == 0x65,
            nn == 0x0A ==> any_key_held(old(self)@.keys) || old(self)@.pc >= 2,
            nn == 0x33 ==> old(self)@.index + 2 < 4096,
            nn == 0x55 || nn == 0x65 ==> old(self)@.index + x < 4096,
        ensures
            final(self)@ == misc_spec(old(self)@, x as int, nn as int),
    {
        let ghost s0 = self@;
        let vx = self.regs[x];
        let i = self.index as usize;
        if nn == 0x07 {
            self.set_reg(x, self.dt);
        } else if nn == 0x0A {
            let mut k: usize = 0;
            while k < 16 && !self.keys[k]
                invariant
                    k <= 16,
                    x < 16,
                    self@ == s0,
                    forall|j: int| 0 <= j < k ==> !#[trigger] s0.keys[j],
                decreases 16 - k,
            {
                k = k + 1;
            }
            let found = k < 16;
            if found {
                proof {
                    assert(is_lowest_held(s0.keys, k as int));
                    let l = lowest_held(s0.keys);
                    assert(is_lowest_held(s0.keys, l));
                    if l < k {
                        assert(!s0.keys[l]);
                    } else if l > k {
                        assert(!s0.keys[k as int]);
                    }
                }
                self.set_reg(x, k as u8);
            } else {
                proof {
                    assert(!any_key_held(s0.keys));
                }
                self.pc = self.pc - 2;
            }
        } else if nn == 0x15 {
            self.dt = vx;
        } else if nn == 0x18 {
            self.st = vx;
        } else if nn == 0x1E {
            self.index = self.index.wrapping_add(vx as u16);
        } else if nn == 0x29 {
            self.index = vx as u16 * 5;
        } else if nn == 0x33 {
            self.ram[i] = vx / 100;
            self.ram[i + 1] = (vx / 10) % 10;
            self.ram[i + 2] = vx % 10;
        } else if nn == 0x55 {
            let mut k: usize = 0;
            while k <= x
                invariant
                    k <= x + 1,
                    x < 16,
                    i == s0.index,
                    i + x < 4096,
                    self@ == (EmuState { ram: self@.ram, ..s0 }),
                    forall|j: int|
                        0 <= j < 4096 ==> #[trigger] self@.ram[j] == (if i <= j < i + k {
                            s0.regs[j - i]
                        } else {
                            s0.ram[j]
                        }),
                decreases x + 1 - k,
            {
                self.ram[i + k] = self.regs[k];
                k = k + 1;
            }
            assert(self@ =~= misc_spec(s0, x as int, nn as int));
        } else {
            let mut k: usize = 0;
            while k <= x
                invariant
                    k <= x + 1,
                    x < 16,
                    i == s0.index,
                    i + x < 4096,
                    self@ == (EmuState { regs: self@.regs, ..s0 }),
                    forall|j: int|
                        0 <= j < 16 ==> #[trigger] self@.regs[j] == (if j < k {
                            s0.ram[i + j]
                        } else {
                            s0.regs[j]
                        }),
                decreases x + 1 - k,
            {
                self.regs[k] = self.ram[i + k];
                k = k + 1;
            }
            assert(self@ =~= misc_spec(s0, x as int, nn as int));
        }
    }

    /// Whether `execute(op, _)` is defined in the current state: `op` is a
    /// known instruction and it stays within memory, stack and key bounds.
    pub fn can_execute(&self, op: u16) -> (r: bool)
        requires
            self@.wf(),
        ensures
            r == can_execute_spec(self@, op),
    {
        let c = op / 4096;
        let x = ((op / 256) % 16) as usize;
        let n = op % 16;
        let nn = op % 256;
        let known = if c == 0 {
            op == 0x0000 || op == 0x00E0 || op == 0x00EE
        } else if c == 5 || c == 9 {
            n == 0
        } else if c == 8 {
            n <= 7 || n == 0xE
        } else if c == 0xE {
            nn == 0x9E || nn == 0xA1
        } else if c == 0xF {
            nn == 0x07 || nn == 0x0A || nn == 0x15 || nn == 0x18 || nn == 0x1E || nn == 0x29
                || nn == 0x33 || nn == 0x55 || nn == 0x65
        } else {
            true
        };
        let vx = self.regs[x];
        let pc = self.pc as usize;
        let i = self.index as usize;
        let in_bounds = if op == 0x00EE {
            self.sp > 0
        } else if c == 2 {
            self.sp < 16
        } else if c == 3 || c == 4 || c == 5 || c == 9 {
            pc + 2 < 0x10000
        } else if c == 0xD {
            n == 0 || i + n as usize <= 4096
        } else if c == 0xE {
            vx < 16 && pc + 2 < 0x10000
        } else if c == 0xF && nn == 0x0A {
            let mut held = false;
            let mut k: usize = 0;
            while k < 16
                invariant
                    k <= 16,
                    self@.keys.len() == 16,
                    held == exists|j: int| 0 <= j < k && #[trigger] self@.keys[j],
                decreases 16 - k,
            {
                held = held || self.keys[k];
                k = k + 1;
            }
            held || pc >= 2
        } else if c == 0xF && nn == 0x33 {
            i + 2 < 4096
        } else if c == 0xF && (nn == 0x55 || nn == 0x65) {
            i + x < 4096
        } else {
            true
        };
        known && in_bounds
    }

    /// Executes the instruction word `op`; `rnd` is the random byte that
    /// CXNN masks.
    pub fn execute(&mut self, op: u16, rnd: u8)
        requires
            old(self)@.wf(),
            can_execute_spec(old(self)@, op),
        ensures
            final(self)@.wf(),
            final(self)@ == exec_spec(old(self)@, op, rnd),
    {
        let c = op / 4096;
        let x = ((op / 256) % 16) as usize;
        let y = ((op / 16) % 16) as usize;
        let n = op % 16;
        let nn = (op % 256) as u8;
        let nnn = op % 4096;
        if op == 0x00E0 {
            self.screen = [false; 2048];
            assert(self@.screen =~= Seq::new(2048, |i: int| false));
        } else if op == 0x00EE {
            self.pc = self.pop();
        } else if c == 0 {
        } else if c == 1 {
            self.pc = nnn;
        } else if c == 2 {
            self.push(self.pc);
            self.pc = nnn;
        } else if c == 3 {
            if self.regs[x] == nn {
                self.pc = self.pc + 2;
            }
        } else if c == 4 {
            if self.regs[x] != nn {
                self.pc = self.pc + 2;
            }
        } else if c == 5 {
            if self.regs[x] == self.regs[y] {
                self.pc = self.pc + 2;
            }
        } else if c == 6 {
            self.set_reg(x, nn);
        } else if c == 7 {
            self.set_reg(x, self.regs[x].wrapping_add(nn));
        } else if c == 8 {
            self.arith(x, y, n);
        } else if c == 9 {
            if self.regs[x] != self.regs[y] {
                self.pc = self.pc + 2;
            }
        } else if c == 0xA {
            self.index = nnn;
        } else if c == 0xB {
            self.pc = self.regs[0] as u16 + nnn;
        } else if c == 0xC {
            self.set_reg(x, rnd & nn);
        } else if c == 0xD {
            self.draw(x, y, n as usize);
        } else if c == 0xE {
            let held = self.keys[self.regs[x] as usize];
            if (nn == 0x9E && held) || (nn != 0x9E && !held) {
                self.pc = self.pc + 2;
            }
        } else {
            self.misc(x, nn as u16);
        }
    }

    /// Whether `tick` is defined in the current state: the program counter
    /// leaves room for a whole word and the word at it can be executed.
    pub fn can_tick(&self) -> (r: bool)
        requires
            self@.wf(),
        ensures
            r == can_tick_spec(self@),
    {
        if self.pc as usize + 1 >= 4096 {
            return false;
        }
        let op = self.ram[self.pc as usize] as u16 * 256 + self.ram[self.pc as usize + 1] as u16;
        let ghost s = self@;
        let probe = Emu { pc: self.pc + 2, ..*self };
        assert(probe@ == fetched(s));
        probe.can_execute(op)
    }

    /// One cycle: fetches the word at the program counter and executes it.
    pub fn tick(&mut self)
        requires
            old(self)@.wf(),
            can_tick_spec(old(self)@),
        ensures
            final(self)@.wf(),
            exists|rnd: u8| final(self)@ == tick_spec(old(self)@, rnd),
    {
        let ghost s0 = self@;
        let op = self.fetch();
        let rnd = random_byte();
        self.execute(op, rnd);
        assert(self@ == tick_spec(s0, rnd));
    }

    /// Records whether key `idx` is held.
    pub fn keypress(&mut self, idx: usize, pressed: bool)
        requires
            idx < 16,
        ensures
            final(self)@ == (EmuState { keys: old(self)@.keys.update(idx as int, pressed), ..old(self)@ }),
    {
        self.keys[idx] = pressed;
    }
    /// The program counter.
    pub fn get_pc(&self) -> (r: u16)
        ensures
            r == self@.pc,
    {
        self.pc
    }

    /// Register `x`.
    pub fn get_reg(&self, x: usize) -> (r: u8)
        requires
            x < 16,
        ensures
            r == self@.regs[x as int],
    {
        self.regs[x]
    }

    /// The index register.
    pub fn get_index(&self) -> (r: u16)
        ensures
            r == self@.index,
    {
        self.index
    }

    /// The depth of the call stack.
    pub fn get_sp(&self) -> (r: u16)
        ensures
            r == self@.sp,
    {
        self.sp
    }

    /// The delay timer.
    pub fn get_delay_timer(&self) -> (r: u8)
        ensures
            r == self@.dt,
    {
        self.dt
    }

    /// The sound timer; a tone should play while it is positive.
    pub fn get_sound_timer(&self) -> (r: u8)
        ensures
            r == self@.st,
    {
        self.st
    }

    /// The memory byte at `addr`.
    pub fn read_ram(&self, addr: usize) -> (r: u8)
        requires
            addr < 4096,
        ensures
            r == self@.ram[addr as int],
    {
        self.ram[addr]
    }
}

} // verus!
