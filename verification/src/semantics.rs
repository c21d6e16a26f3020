//! The specification of the instruction set: decoding a 16-bit opcode into
//! nibbles, the validity condition under which a step is well-defined, and
//! the state transformer for each instruction form.
use vstd::prelude::*;

use crate::state::StateV;
use crate::state::NUM_KEYS;
use crate::state::NUM_PIXELS;
use crate::state::RAM_SIZE;
use crate::state::SCREEN_HEIGHT;
use crate::state::SCREEN_WIDTH;
use crate::state::STACK_SIZE;

verus! {

/// Highest nibble of an opcode: the instruction family.
pub open spec fn op_d1(op: u16) -> u16 {
    (op >> 12) & 0xF
}

/// Second nibble: usually the register operand x.
pub open spec fn op_d2(op: u16) -> u16 {
    (op >> 8) & 0xF
}

/// Third nibble: usually the register operand y.
pub open spec fn op_d3(op: u16) -> u16 {
    (op >> 4) & 0xF
}

/// Lowest nibble: usually a sub-selector or a row count.
pub open spec fn op_d4(op: u16) -> u16 {
    op & 0xF
}

/// Low twelve bits: an absolute address operand.
pub open spec fn op_nnn(op: u16) -> u16 {
    op & 0xFFF
}

/// Low byte: an immediate operand.
pub open spec fn op_kk(op: u16) -> u8 {
    (op & 0xFF) as u8
}

/// The opcode stored at the program counter: two consecutive bytes combined
/// big-endian.
pub open spec fn op_at(s: StateV) -> u16 {
    ((s.ram[s.pc as int] as u16) << 8) | (s.ram[s.pc as int + 1] as u16)
}

/// The state right after a fetch: the program counter has advanced past the
/// two opcode bytes; nothing else has changed.
pub open spec fn after_fetch(s: StateV) -> StateV {
    StateV { pc: (s.pc + 2) as u16, ..s }
}

/// A fetch is in bounds: both opcode bytes lie inside memory.
pub open spec fn fetch_ok(s: StateV) -> bool {
    s.pc + 1 < RAM_SIZE
}

/// Eight-bit addition with wraparound.
pub open spec fn wrap_add(a: u8, b: u8) -> u8 {
    if a + b > 255 {
        (a + b - 256) as u8
    } else {
        (a + b) as u8
    }
}

/// The carry flag after an eight-bit addition: 1 exactly when the true sum
/// does not fit in a byte.
pub open spec fn carry_flag(a: u8, b: u8) -> u8 {
    if a + b > 255 {
        1u8
    } else {
        0u8
    }
}

/// Eight-bit subtraction with wraparound.
pub open spec fn wrap_sub(a: u8, b: u8) -> u8 {
    if a - b < 0 {
        (a - b + 256) as u8
    } else {
        (a - b) as u8
    }
}

/// The flag after an eight-bit subtraction `a - b`: 0 exactly when a borrow
/// occurred, 1 otherwise. The inverted convention is the machine's own.
pub open spec fn borrow_flag(a: u8, b: u8) -> u8 {
    if a < b {
        0u8
    } else {
        1u8
    }
}

/// Whether sprite row byte `pix` has its bit for column `col` set; bit 7 is
/// the leftmost column.
pub open spec fn sprite_bit(pix: u8, col: int) -> bool {
    pix & (0x80u8 >> (col as u8)) != 0
}

/// Row-major framebuffer index of the pixel a sprite bit lands on:
/// the column wraps around the screen width.
pub open spec fn pix_index(x0: int, y: int, col: int) -> int {
    y * SCREEN_WIDTH + (x0 + col) % (SCREEN_WIDTH as int)
}

/// One sprite row XORed onto the framebuffer, columns `0 .. ncols` in order:
/// returns the updated framebuffer and the collision accumulator, which
/// becomes true as soon as a set sprite bit lands on a lit pixel.
pub open spec fn draw_row(scr: Seq<bool>, fl: bool, pix: u8, x0: int, y: int, ncols: int) -> (
    Seq<bool>,
    bool,
)
    decreases ncols,
{
    if ncols <= 0 {
        (scr, fl)
    } else {
        let prev = draw_row(scr, fl, pix, x0, y, ncols - 1);
        let col = ncols - 1;
        if sprite_bit(pix, col) {
            let idx = pix_index(x0, y, col);
            (prev.0.update(idx, !prev.0[idx]), prev.1 || prev.0[idx])
        } else {
            prev
        }
    }
}

/// A whole sprite XORed onto the framebuffer: rows `0 .. nrows` in order,
/// each row read from memory at `i + row`, its pixels placed at screen row
/// `(y0 + row)` wrapped around the screen height.
pub open spec fn draw_sprite(
    scr: Seq<bool>,
    fl: bool,
    ram: Seq<u8>,
    i: int,
    x0: int,
    y0: int,
    nrows: int,
) -> (Seq<bool>, bool)
    decreases nrows,
{
    if nrows <= 0 {
        (scr, fl)
    } else {
        let prev = draw_sprite(scr, fl, ram, i, x0, y0, nrows - 1);
        let row = nrows - 1;
        draw_row(prev.0, prev.1, ram[i + row], x0, (y0 + row) % (SCREEN_HEIGHT as int), 8)
    }
}

/// Memory after registers `V0 .. V(cnt-1)` are stored at consecutive
/// addresses starting at `addr`.
pub open spec fn store_regs(ram: Seq<u8>, v: Seq<u8>, addr: int, cnt: int) -> Seq<u8>
    decreases cnt,
{
    if cnt <= 0 {
        ram
    } else {
        store_regs(ram, v, addr, cnt - 1).update(addr + cnt - 1, v[cnt - 1])
    }
}

/// Registers after `V0 .. V(cnt-1)` are loaded from consecutive addresses
/// starting at `addr`.
pub open spec fn load_regs(v: Seq<u8>, ram: Seq<u8>, addr: int, cnt: int) -> Seq<u8>
    decreases cnt,
{
    if cnt <= 0 {
        v
    } else {
        load_regs(v, ram, addr, cnt - 1).update(cnt - 1, ram[addr + cnt - 1])
    }
}

/// Index of the lowest-numbered pressed key at or above `from`, or
/// `NUM_KEYS` when none is pressed.
pub open spec fn first_pressed(keys: Seq<bool>, from: int) -> int
    decreases NUM_KEYS - from,
{
    if from < 0 || from >= NUM_KEYS {
        NUM_KEYS as int
    } else if keys[from] {
        from
    } else {
        first_pressed(keys, from + 1)
    }
}

/// Validity of executing opcode `op` on state `s` (the program counter has
/// already advanced past the opcode). This rules out exactly the two fatal
/// fault classes: an access outside memory or the stack's capacity, and an
/// opcode that matches none of the defined forms.
pub open spec fn exec_ok(s: StateV, op: u16) -> bool {
    let d1 = op_d1(op);
    let d3 = op_d3(op);
    let d4 = op_d4(op);
    let x = op_d2(op) as int;
    let kk = op_kk(op);
    if op == 0x0000 {
        true
    } else if op == 0x00E0 {
        true
    } else if op == 0x00EE {
        0 < s.sp <= STACK_SIZE
    } else if d1 == 1 {
        true
    } else if d1 == 2 {
        s.sp < STACK_SIZE
    } else if d1 == 3 || d1 == 4 {
        s.pc + 2 <= u16::MAX
    } else if d1 == 5 {
        d4 == 0 && s.pc + 2 <= u16::MAX
    } else if d1 == 6 || d1 == 7 {
        true
    } else if d1 == 8 {
        d4 == 0 || d4 == 1 || d4 == 2 || d4 == 3 || d4 == 4 || d4 == 5 || d4 == 6 || d4 == 7
            || d4 == 0xE
    } else if d1 == 9 {
        d4 == 0 && s.pc + 2 <= u16::MAX
    } else if d1 == 0xA || d1 == 0xB || d1 == 0xC {
        true
    } else if d1 == 0xD {
        d4 == 0 || s.i + d4 <= RAM_SIZE
    } else if d1 == 0xE {
        ((d3 == 9 && d4 == 0xE) || (d3 == 0xA && d4 == 1)) && s.v[x] < NUM_KEYS && s.pc + 2
            <= u16::MAX
    } else if d1 == 0xF {
        if kk == 0x07 {
            true
        } else if kk == 0x0A {
            s.pc >= 2
        } else if kk == 0x15 || kk == 0x18 {
            true
        } else if kk == 0x1E {
            s.i + s.v[x] <= u16::MAX
        } else if kk == 0x29 {
            true
        } else if kk == 0x33 {
            s.i + 2 < RAM_SIZE
        } else if kk == 0x55 || kk == 0x65 {
            s.i + x < RAM_SIZE
        } else {
            false
        }
    } else {
        false
    }
}

/// The state after executing opcode `op` on state `s` (the program counter
/// has already advanced past the opcode). `rnd` is the byte the random
/// source supplied; only the random-byte instruction reads it. Meaningful
/// only when `exec_ok(s, op)` holds; on an invalid opcode the state is
/// returned unchanged.
pub open spec fn exec_spec(s: StateV, op: u16, rnd: u8) -> StateV {
    let d1 = op_d1(op);
    let d3 = op_d3(op);
    let d4 = op_d4(op);
    let x = op_d2(op) as int;
    let y = op_d3(op) as int;
    let kk = op_kk(op);
    let nnn = op_nnn(op);
    if op == 0x0000 {
        s
    } else if op == 0x00E0 {
        StateV { screen: Seq::new(NUM_PIXELS as nat, |j: int| false), ..s }
    } else if op == 0x00EE {
        StateV { pc: s.stack[s.sp - 1], sp: (s.sp - 1) as u16, ..s }
    } else if d1 == 1 {
        StateV { pc: nnn, ..s }
    } else if d1 == 2 {
        StateV {
            stack: s.stack.update(s.sp as int, s.pc),
            sp: (s.sp + 1) as u16,
            pc: nnn,
            ..s
        }
    } else if d1 == 3 {
        if s.v[x] == kk {
            StateV { pc: (s.pc + 2) as u16, ..s }
        } else {
            s
        }
    } else if d1 == 4 {
        if s.v[x] != kk {
            StateV { pc: (s.pc + 2) as u16, ..s }
        } else {
            s
        }
    } else if d1 == 5 {
        if s.v[x] == s.v[y] {
            StateV { pc: (s.pc + 2) as u16, ..s }
        } else {
            s
        }
    } else if d1 == 6 {
        StateV { v: s.v.update(x, kk), ..s }
    } else if d1 == 7 {
        StateV { v: s.v.update(x, wrap_add(s.v[x], kk)), ..s }
    } else if d1 == 8 {
        if d4 == 0 {
            StateV { v: s.v.update(x, s.v[y]), ..s }
        } else if d4 == 1 {
            StateV { v: s.v.update(x, s.v[x] | s.v[y]), ..s }
        } else if d4 == 2 {
            StateV { v: s.v.update(x, s.v[x] & s.v[y]), ..s }
        } else if d4 == 3 {
            StateV { v: s.v.update(x, s.v[x] ^ s.v[y]), ..s }
        } else if d4 == 4 {
            StateV {
                v: s.v.update(x, wrap_add(s.v[x], s.v[y])).update(
                    15,
                    carry_flag(s.v[x], s.v[y]),
                ),
                ..s
            }
        } else if d4 == 5 {
            StateV {
                v: s.v.update(x, wrap_sub(s.v[x], s.v[y])).update(
                    15,
                    borrow_flag(s.v[x], s.v[y]),
                ),
                ..s
            }
        } else if d4 == 6 {
            let v1 = s.v.update(15, s.v[x] & 1);
            StateV { v: v1.update(x, v1[x] >> 1), ..s }
        } else if d4 == 7 {
            StateV {
                v: s.v.update(x, wrap_sub(s.v[y], s.v[x])).update(
                    15,
                    borrow_flag(s.v[y], s.v[x]),
                ),
                ..s
            }
        } else if d4 == 0xE {
            let v1 = s.v.update(15, (s.v[x] >> 7) & 1);
            StateV { v: v1.update(x, (v1[x] << 1) as u8), ..s }
        } else {
            s
        }
    } else if d1 == 9 {
        if s.v[x] != s.v[y] {
            StateV { pc: (s.pc + 2) as u16, ..s }
        } else {
            s
        }
    } else if d1 == 0xA {
        StateV { i: nnn, ..s }
    } else if d1 == 0xB {
        StateV { pc: (s.v[0] + nnn) as u16, ..s }
    } else if d1 == 0xC {
        StateV { v: s.v.update(x, rnd & kk), ..s }
    } else if d1 == 0xD {
        let r = draw_sprite(s.screen, false, s.ram, s.i as int, s.v[x] as int, s.v[y] as int, d4 as int);
        StateV {
            screen: r.0,
            v: s.v.update(15, if r.1 { 1u8 } else { 0u8 }),
            ..s
        }
    } else if d1 == 0xE {
        if d3 == 9 && d4 == 0xE {
            if s.keys[s.v[x] as int] {
                StateV { pc: (s.pc + 2) as u16, ..s }
            } else {
                s
            }
        } else if d3 == 0xA && d4 == 1 {
            if !s.keys[s.v[x] as int] {
                StateV { pc: (s.pc + 2) as u16, ..s }
            } else {
                s
            }
        } else {
            s
        }
    } else if d1 == 0xF {
        if kk == 0x07 {
            StateV { v: s.v.update(x, s.dt), ..s }
        } else if kk == 0x0A {
            let k = first_pressed(s.keys, 0);
            if k < NUM_KEYS {
                StateV { v: s.v.update(x, k as u8), ..s }
            } else {
                StateV { pc: (s.pc - 2) as u16, ..s }
            }
        } else if kk == 0x15 {
            StateV { dt: s.v[x], ..s }
        } else if kk == 0x18 {
            StateV { st: s.v[x], ..s }
        } else if kk == 0x1E {
            StateV { i: (s.i + s.v[x]) as u16, ..s }
        } else if kk == 0x29 {
            StateV { i: (s.v[x] * 5) as u16, ..s }
        } else if kk == 0x33 {
            StateV {
                ram: s.ram.update(s.i as int, (s.v[x] / 100) as u8).update(
                    s.i as int + 1,
                    ((s.v[x] / 10) % 10) as u8,
                ).update(s.i as int + 2, (s.v[x] % 10) as u8),
                ..s
            }
        } else if kk == 0x55 {
            StateV { ram: store_regs(s.ram, s.v, s.i as int, x + 1), ..s }
        } else if kk == 0x65 {
            StateV { v: load_regs(s.v, s.ram, s.i as int, x + 1), ..s }
        } else {
            s
        }
    } else {
        s
    }
}

/// Validity of one whole interpreter step from state `s`: the fetch is in
/// bounds and the fetched opcode executes without a fault.
pub open spec fn can_tick(s: StateV) -> bool {
    fetch_ok(s) && exec_ok(after_fetch(s), op_at(s))
}

/// One whole interpreter step: fetch the opcode at the program counter,
/// advance past it, then execute it with `rnd` as the byte the random
/// source supplied.
pub open spec fn step(s: StateV, rnd: u8) -> StateV {
    exec_spec(after_fetch(s), op_at(s), rnd)
}

} // verus!
