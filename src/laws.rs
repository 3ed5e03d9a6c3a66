use vstd::prelude::*;
use crate::state::{
    any_key_held, can_execute_spec, can_tick_spec, exec_spec, fetched_op, is_lowest_held,
    lowest_held, op_class, op_n, op_nn, op_x, op_y, sprite_hits, tick_spec, timers_ticked,
    EmuState,
};

verus! {

/// Adding register Y into register X (8XY4) leaves the sum modulo 256 in X
/// and sets the flag register to 1 exactly when the sum reaches 256. X is
/// not the flag register itself, whose final value is the flag.
pub proof fn lemma_add_carry(s: EmuState, op: u16, rnd: u8)
    requires
        s.wf(),
        op_class(op) == 8,
        op_n(op) == 4,
        op_x(op) != 15,
    ensures
        can_execute_spec(s, op),
        ({
            let a = s.regs[op_x(op)] as int;
            let b = s.regs[op_y(op)] as int;
            let t = exec_spec(s, op, rnd);
            &&& t.regs[op_x(op)] == (a + b) % 256
            &&& t.regs[15] == (if a + b >= 256 { 1u8 } else { 0u8 })
        }),
{
}

/// Subtracting register Y from register X (8XY5) leaves the difference
/// modulo 256 in X and sets the flag register to 0 exactly when it borrows.
/// X is not the flag register itself, whose final value is the flag.
pub proof fn lemma_sub_borrow(s: EmuState, op: u16, rnd: u8)
    requires
        s.wf(),
        op_class(op) == 8,
        op_n(op) == 5,
        op_x(op) != 15,
    ensures
        can_execute_spec(s, op),
        ({
            let a = s.regs[op_x(op)] as int;
            let b = s.regs[op_y(op)] as int;
            let t = exec_spec(s, op, rnd);
            &&& t.regs[op_x(op)] == (a - b) % 256
            &&& t.regs[15] == (if a < b { 0u8 } else { 1u8 })
        }),
{
}

/// After clearing the screen (00E0) every pixel is off.
pub proof fn lemma_clear_blank(s: EmuState, rnd: u8)
    requires
        s.wf(),
    ensures
        can_execute_spec(s, 0x00E0),
        exec_spec(s, 0x00E0, rnd).screen.len() == 2048,
        forall|idx: int| 0 <= idx < 2048 ==> !#[trigger] exec_spec(s, 0x00E0, rnd).screen[idx],
{
}

/// Drawing the same sprite twice at the same place (DXYN, with X and Y
/// other than the flag register, which the first draw overwrites) gives
/// back the original screen, and the second draw reports a collision
/// exactly when the first one turned some pixel on.
pub proof fn lemma_draw_twice(s: EmuState, op: u16, r1: u8, r2: u8)
    requires
        s.wf(),
        op_class(op) == 0xD,
        op_x(op) != 15,
        op_y(op) != 15,
        can_execute_spec(s, op),
    ensures
        ({
            let t1 = exec_spec(s, op, r1);
            let t2 = exec_spec(t1, op, r2);
            &&& can_execute_spec(t1, op)
            &&& t2.screen == s.screen
            &&& t2.regs[15] == (if exists|idx: int|
                0 <= idx < 2048 && #[trigger] t1.screen[idx] && !s.screen[idx] {
                1u8
            } else {
                0u8
            })
        }),
{
    let t1 = exec_spec(s, op, r1);
    let t2 = exec_spec(t1, op, r2);
    let x0 = s.regs[op_x(op)] as int;
    let y0 = s.regs[op_y(op)] as int;
    let n = op_n(op);
    assert(t1.regs[op_x(op)] == s.regs[op_x(op)]);
    assert(t1.regs[op_y(op)] == s.regs[op_y(op)]);
    assert forall|idx: int| 0 <= idx < 2048 implies sprite_hits(t1, x0, y0, n, idx) == sprite_hits(
        s,
        x0,
        y0,
        n,
        idx,
    ) by {}
    assert(t2.screen =~= s.screen);
    if exists|idx: int| 0 <= idx < 2048 && #[trigger] t1.screen[idx] && !s.screen[idx] {
        let idx = choose|idx: int| 0 <= idx < 2048 && #[trigger] t1.screen[idx] && !s.screen[idx];
        assert(sprite_hits(t1, x0, y0, n, idx) && t1.screen[idx]);
    }
}

/// A call (2NNN) followed by a return (00EE) resumes at the address the
/// call was executed from, with the stack back at its former depth.
pub proof fn lemma_call_return(s: EmuState, op: u16, r1: u8, r2: u8)
    requires
        s.wf(),
        op_class(op) == 2,
        s.sp < 16,
    ensures
        can_execute_spec(s, op),
        can_execute_spec(exec_spec(s, op, r1), 0x00EE),
        exec_spec(exec_spec(s, op, r1), 0x00EE, r2).pc == s.pc,
        exec_spec(exec_spec(s, op, r1), 0x00EE, r2).sp == s.sp,
{
}

/// The state after `k` timer ticks.
pub open spec fn timers_ticked_times(s: EmuState, k: nat) -> EmuState
    decreases k,
{
    if k == 0 {
        s
    } else {
        timers_ticked(timers_ticked_times(s, (k - 1) as nat))
    }
}

/// Timers stop at zero: once a timer is zero, any number of further ticks
/// leaves it at zero.
pub proof fn lemma_timer_floor(s: EmuState, k: nat)
    ensures
        s.dt == 0 ==> timers_ticked_times(s, k).dt == 0,
        s.st == 0 ==> timers_ticked_times(s, k).st == 0,
    decreases k,
{
    if k > 0 {
        lemma_timer_floor(s, (k - 1) as nat);
    }
}

/// Waiting for a key (FX0A) with no key held is a step that changes
/// nothing, so the machine stays on that instruction; with some key held it
/// moves on and stores the lowest held key in register X.
pub proof fn lemma_key_wait(s: EmuState, rnd: u8)
    requires
        s.wf(),
        s.pc + 1 < 4096,
        op_class(fetched_op(s)) == 0xF,
        op_nn(fetched_op(s)) == 0x0A,
    ensures
        can_tick_spec(s),
        !any_key_held(s.keys) ==> tick_spec(s, rnd) == s,
        any_key_held(s.keys) ==> tick_spec(s, rnd).pc == s.pc + 2,
        any_key_held(s.keys) ==> tick_spec(s, rnd).regs[op_x(fetched_op(s))] == lowest_held(s.keys),
        any_key_held(s.keys) ==> is_lowest_held(s.keys, lowest_held(s.keys)),
{
    if any_key_held(s.keys) {
        let k = choose|k: int| 0 <= k < 16 && #[trigger] s.keys[k];
        lemma_lowest_exists(s.keys, k);
    } else {
        assert(tick_spec(s, rnd) =~= s);
    }
}

/// Where key `k` is held, some key is the lowest held one.
proof fn lemma_lowest_exists(keys: Seq<bool>, k: int)
    requires
        0 <= k < 16,
        keys[k],
    ensures
        is_lowest_held(keys, lowest_held(keys)),
    decreases k,
{
    if forall|j: int| 0 <= j < k ==> !#[trigger] keys[j] {
        assert(is_lowest_held(keys, k));
    } else {
        let j = choose|j: int| 0 <= j < k && #[trigger] keys[j];
        lemma_lowest_exists(keys, j);
    }
}

} // verus!
