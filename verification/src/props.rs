//! Laws of the instruction set, stated over the specification in
//! [`crate::semantics`] and proved once and for all.
use vstd::prelude::*;

use crate::semantics::can_tick;
use crate::semantics::exec_spec;
use crate::semantics::first_pressed;
use crate::semantics::op_at;
use crate::semantics::op_d1;
use crate::semantics::op_d2;
use crate::semantics::op_d3;
use crate::semantics::op_d4;
use crate::semantics::op_kk;
use crate::semantics::step;
use crate::semantics::wrap_add;
use crate::semantics::wrap_sub;
use crate::state::initial_state;
use crate::state::StateV;
use crate::state::NUM_KEYS;

verus! {

/// Reset-equivalence: a machine after `reset` and a freshly constructed one
/// are state-identical; `Emulator::new` and `Emulator::reset` both ensure
/// that their result is exactly `initial_state()`.
pub proof fn lemma_reset_equivalence(after_reset: StateV, fresh: StateV)
    requires
        after_reset == initial_state(),
        fresh == initial_state(),
    ensures
        after_reset == fresh,
{
}

/// Carry table: for every pair of register values, the register-add
/// instruction sets VF to 1 exactly when the true sum exceeds 255, and
/// stores the wrapped sum. `rnd` is arbitrary: the instruction ignores the
/// random source.
pub proof fn lemma_add_carry(s: StateV, op: u16, rnd: u8)
    requires
        s.wf(),
        op_d1(op) == 8,
        op_d4(op) == 4,
    ensures
        ({
            let x = op_d2(op) as int;
            let y = op_d3(op) as int;
            let s2 = exec_spec(s, op, rnd);
            &&& (s2.v[15] == 1u8 <==> s.v[x] + s.v[y] > 255)
            &&& (s2.v[15] == 0u8 <==> s.v[x] + s.v[y] <= 255)
            &&& (x != 15 ==> s2.v[x] == wrap_add(s.v[x], s.v[y]))
        }),
{
    assert((op >> 12) & 0xF == 8 ==> op != 0x0000 && op != 0x00E0 && op != 0x00EE)
        by (bit_vector);
    assert((op >> 8) & 0xF < 16 && (op >> 4) & 0xF < 16) by (bit_vector);
}

/// Borrow table: for every pair of register values, the register-subtract
/// instruction sets VF to 0 exactly when a borrow occurs (Vx < Vy) and to 1
/// otherwise, and stores the wrapped difference.
pub proof fn lemma_sub_borrow(s: StateV, op: u16, rnd: u8)
    requires
        s.wf(),
        op_d1(op) == 8,
        op_d4(op) == 5,
    ensures
        ({
            let x = op_d2(op) as int;
            let y = op_d3(op) as int;
            let s2 = exec_spec(s, op, rnd);
            &&& (s2.v[15] == 0u8 <==> s.v[x] < s.v[y])
            &&& (s2.v[15] == 1u8 <==> s.v[x] >= s.v[y])
            &&& (x != 15 ==> s2.v[x] == wrap_sub(s.v[x], s.v[y]))
        }),
{
    assert((op >> 12) & 0xF == 8 ==> op != 0x0000 && op != 0x00E0 && op != 0x00EE)
        by (bit_vector);
    assert((op >> 8) & 0xF < 16 && (op >> 4) & 0xF < 16) by (bit_vector);
}

/// Shift flag, right: the shift-right instruction captures the pre-shift
/// low bit of Vx into VF before truncating. Excluded: x = 15, where Vx is
/// VF itself, so the subsequent shift overwrites the captured bit.
pub proof fn lemma_shr_flag(s: StateV, op: u16, rnd: u8)
    requires
        s.wf(),
        op_d1(op) == 8,
        op_d4(op) == 6,
        op_d2(op) != 15,
    ensures
        ({
            let x = op_d2(op) as int;
            let s2 = exec_spec(s, op, rnd);
            &&& s2.v[15] == s.v[x] & 1
            &&& s2.v[x] == s.v[x] >> 1
        }),
{
    assert((op >> 12) & 0xF == 8 ==> op != 0x0000 && op != 0x00E0 && op != 0x00EE)
        by (bit_vector);
    assert((op >> 8) & 0xF < 16 && (op >> 4) & 0xF < 16) by (bit_vector);
}

/// Shift flag, left: the shift-left instruction captures the pre-shift high
/// bit of Vx into VF before the wraparound shift. Excluded: x = 15, as in
/// `lemma_shr_flag`.
pub proof fn lemma_shl_flag(s: StateV, op: u16, rnd: u8)
    requires
        s.wf(),
        op_d1(op) == 8,
        op_d4(op) == 0xE,
        op_d2(op) != 15,
    ensures
        ({
            let x = op_d2(op) as int;
            let s2 = exec_spec(s, op, rnd);
            &&& s2.v[15] == (s.v[x] >> 7) & 1
            &&& s2.v[x] == (s.v[x] << 1) as u8
        }),
{
    assert((op >> 12) & 0xF == 8 ==> op != 0x0000 && op != 0x00E0 && op != 0x00EE)
        by (bit_vector);
    assert((op >> 8) & 0xF < 16 && (op >> 4) & 0xF < 16) by (bit_vector);
}

/// Skip on equal immediate: one step on a skip-if-equal instruction
/// advances the program counter by 4 in total when Vx equals the immediate
/// (2 for the fetch, 2 for the skip), and by 2 when it differs.
pub proof fn lemma_skip_equal(s: StateV, rnd: u8)
    requires
        s.wf(),
        can_tick(s),
        op_d1(op_at(s)) == 3,
    ensures
        ({
            let op = op_at(s);
            let x = op_d2(op) as int;
            &&& (s.v[x] == op_kk(op) ==> step(s, rnd).pc == s.pc + 4)
            &&& (s.v[x] != op_kk(op) ==> step(s, rnd).pc == s.pc + 2)
        }),
{
    let op = op_at(s);
    assert((op >> 12) & 0xF == 3 ==> op != 0x0000 && op != 0x00E0 && op != 0x00EE)
        by (bit_vector);
    assert((op >> 8) & 0xF < 16) by (bit_vector);
}

/// No key pressed at or above `from` means no first pressed key.
proof fn lemma_first_pressed_none(keys: Seq<bool>, from: int)
    requires
        forall|k: int| from <= k < NUM_KEYS ==> !keys[k],
    ensures
        first_pressed(keys, from) == NUM_KEYS,
    decreases NUM_KEYS - from,
{
    if 0 <= from < NUM_KEYS {
        lemma_first_pressed_none(keys, from + 1);
    }
}

/// Block-on-key: with no key pressed, a step on the block-on-key
/// instruction leaves the machine exactly as it was — the fetch advances
/// the program counter and the instruction rewinds it — so any two
/// consecutive steps leave the program counter unchanged and the
/// instruction re-executes forever until a key arrives.
pub proof fn lemma_block_on_key(s: StateV, r1: u8, r2: u8)
    requires
        s.wf(),
        can_tick(s),
        op_d1(op_at(s)) == 0xF,
        op_kk(op_at(s)) == 0x0A,
        forall|k: int| 0 <= k < NUM_KEYS ==> !s.keys[k],
    ensures
        step(s, r1) == s,
        step(step(s, r1), r2) == s,
{
    let op = op_at(s);
    assert((op >> 12) & 0xF == 0xF ==> op != 0x0000 && op != 0x00E0 && op != 0x00EE)
        by (bit_vector);
    assert((op >> 8) & 0xF < 16) by (bit_vector);
    lemma_first_pressed_none(s.keys, 0);
    assert(step(s, r1) =~= s);
    assert(step(s, r2) =~= s);
}

} // verus!
