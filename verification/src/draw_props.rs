//! Laws of the draw instruction: a pointwise characterisation of the
//! sprite XOR, from which follow the two headline properties — drawing the
//! same sprite twice restores the framebuffer, and the collision flag of
//! the second draw reports exactly the sprite bits that fell on dark
//! pixels.
use vstd::prelude::*;

use vstd::arithmetic::div_mod::lemma_fundamental_div_mod;
use vstd::arithmetic::div_mod::lemma_fundamental_div_mod_converse;
use vstd::arithmetic::div_mod::lemma_mod_bound;

use crate::semantics::draw_row;
use crate::semantics::draw_sprite;
use crate::semantics::exec_spec;
use crate::semantics::op_d1;
use crate::semantics::op_d2;
use crate::semantics::op_d3;
use crate::semantics::op_d4;
use crate::semantics::pix_index;
use crate::semantics::sprite_bit;
use crate::state::StateV;
use crate::state::NUM_PIXELS;
use crate::state::SCREEN_HEIGHT;
use crate::state::SCREEN_WIDTH;

verus! {

/// Whether one of the first `ncols` bits of sprite row `pix` is set and
/// lands on framebuffer index `idx`.
pub open spec fn row_flips(pix: u8, x0: int, y: int, ncols: int, idx: int) -> bool {
    exists|c: int| 0 <= c < ncols && #[trigger] sprite_bit(pix, c) && idx == pix_index(x0, y, c)
}

/// Whether some set bit of the sprite of `nrows` rows at `i` lands on
/// framebuffer index `idx`.
pub open spec fn sprite_flips(
    ram: Seq<u8>,
    i: int,
    x0: int,
    y0: int,
    nrows: int,
    idx: int,
) -> bool {
    exists|r: int|
        0 <= r < nrows && #[trigger] row_flips(
            ram[i + r],
            x0,
            (y0 + r) % (SCREEN_HEIGHT as int),
            8,
            idx,
        )
}

/// Whether some set bit of the sprite lands on a pixel of `scr` that is
/// lit: exactly the condition under which a draw reports a collision.
pub open spec fn sprite_hits_lit(
    scr: Seq<bool>,
    ram: Seq<u8>,
    i: int,
    x0: int,
    y0: int,
    nrows: int,
) -> bool {
    exists|r: int, c: int|
        0 <= r < nrows && 0 <= c < 8 && #[trigger] sprite_bit(ram[i + r], c)
            && scr[pix_index(x0, (y0 + r) % (SCREEN_HEIGHT as int), c)]
}

/// Within one row, distinct columns land on distinct framebuffer indices:
/// the column wraps modulo the screen width, and a row spans less than a
/// full screen width.
proof fn lemma_col_injective(x0: int, y: int, c1: int, c2: int)
    requires
        0 <= x0,
        0 <= c1 < 8,
        0 <= c2 < 8,
        pix_index(x0, y, c1) == pix_index(x0, y, c2),
    ensures
        c1 == c2,
{
    let w = SCREEN_WIDTH as int;
    lemma_mod_bound(x0 + c1, w);
    lemma_mod_bound(x0 + c2, w);
    lemma_fundamental_div_mod(x0 + c1, w);
    lemma_fundamental_div_mod(x0 + c2, w);
}

/// Distinct sprite rows land on distinct screen rows: the row wraps modulo
/// the screen height, and a sprite has fewer rows than the screen.
proof fn lemma_row_injective(y0: int, r1: int, r2: int)
    requires
        0 <= y0,
        0 <= r1 < 16,
        0 <= r2 < 16,
        (y0 + r1) % (SCREEN_HEIGHT as int) == (y0 + r2) % (SCREEN_HEIGHT as int),
    ensures
        r1 == r2,
{
    let h = SCREEN_HEIGHT as int;
    lemma_fundamental_div_mod(y0 + r1, h);
    lemma_fundamental_div_mod(y0 + r2, h);
}

/// A landing index is in bounds, and its screen row recovers `y`.
proof fn lemma_pix_index_y(x0: int, y: int, c: int)
    requires
        0 <= x0,
        0 <= y < SCREEN_HEIGHT,
        0 <= c < 8,
    ensures
        0 <= pix_index(x0, y, c) < NUM_PIXELS,
        pix_index(x0, y, c) / (SCREEN_WIDTH as int) == y,
{
    let w = SCREEN_WIDTH as int;
    lemma_mod_bound(x0 + c, w);
    lemma_fundamental_div_mod_converse(pix_index(x0, y, c), w, y, (x0 + c) % w);
}

/// Pointwise characterisation of one drawn row: a pixel is toggled exactly
/// when a set bit of the row lands on it, and the collision accumulator
/// becomes true exactly when a set bit lands on a lit pixel of the incoming
/// framebuffer.
proof fn lemma_draw_row_char(scr: Seq<bool>, fl: bool, pix: u8, x0: int, y: int, ncols: int)
    requires
        scr.len() == NUM_PIXELS,
        0 <= x0,
        0 <= y < SCREEN_HEIGHT,
        0 <= ncols <= 8,
    ensures
        ({
            let r = draw_row(scr, fl, pix, x0, y, ncols);
            &&& r.0.len() == NUM_PIXELS
            &&& forall|idx: int|
                0 <= idx < NUM_PIXELS ==> r.0[idx] == (scr[idx] != row_flips(
                    pix,
                    x0,
                    y,
                    ncols,
                    idx,
                ))
            &&& r.1 == (fl || exists|c: int|
                0 <= c < ncols && #[trigger] sprite_bit(pix, c) && scr[pix_index(x0, y, c)])
        }),
    decreases ncols,
{
    if ncols > 0 {
        lemma_draw_row_char(scr, fl, pix, x0, y, ncols - 1);
        let col = ncols - 1;
        let prev = draw_row(scr, fl, pix, x0, y, ncols - 1);
        let r = draw_row(scr, fl, pix, x0, y, ncols);
        if sprite_bit(pix, col) {
            let idx0 = pix_index(x0, y, col);
            lemma_pix_index_y(x0, y, col);
            assert(!row_flips(pix, x0, y, ncols - 1, idx0)) by {
                if row_flips(pix, x0, y, ncols - 1, idx0) {
                    let c = choose|c: int|
                        0 <= c < ncols - 1 && #[trigger] sprite_bit(pix, c) && idx0 == pix_index(
                            x0,
                            y,
                            c,
                        );
                    lemma_col_injective(x0, y, c, col);
                }
            }
            assert(row_flips(pix, x0, y, ncols, idx0)) by {
                assert(sprite_bit(pix, col) && idx0 == pix_index(x0, y, col));
            }
            assert forall|idx: int| 0 <= idx < NUM_PIXELS implies r.0[idx] == (scr[idx]
                != row_flips(pix, x0, y, ncols, idx)) by {
                if idx != idx0 {
                    if row_flips(pix, x0, y, ncols, idx) {
                        let c = choose|c: int|
                            0 <= c < ncols && #[trigger] sprite_bit(pix, c) && idx == pix_index(
                                x0,
                                y,
                                c,
                            );
                        assert(c != col);
                        assert(row_flips(pix, x0, y, ncols - 1, idx));
                    }
                    if row_flips(pix, x0, y, ncols - 1, idx) {
                        assert(row_flips(pix, x0, y, ncols, idx));
                    }
                }
            }
            assert(prev.0[idx0] == scr[idx0]);
            assert(r.1 == (fl || exists|c: int|
                0 <= c < ncols && #[trigger] sprite_bit(pix, c) && scr[pix_index(x0, y, c)])) by {
                if prev.1 || prev.0[idx0] {
                    if prev.0[idx0] {
                        assert(sprite_bit(pix, col) && scr[pix_index(x0, y, col)]);
                    }
                }
                if exists|c: int|
                    0 <= c < ncols && #[trigger] sprite_bit(pix, c) && scr[pix_index(x0, y, c)] {
                    let c = choose|c: int|
                        0 <= c < ncols && #[trigger] sprite_bit(pix, c) && scr[pix_index(x0, y, c)];
                    if c < ncols - 1 {
                        assert(prev.1);
                    } else {
                        assert(scr[idx0]);
                    }
                }
            }
        } else {
            assert forall|idx: int| 0 <= idx < NUM_PIXELS implies r.0[idx] == (scr[idx]
                != row_flips(pix, x0, y, ncols, idx)) by {
                if row_flips(pix, x0, y, ncols, idx) {
                    let c = choose|c: int|
                        0 <= c < ncols && #[trigger] sprite_bit(pix, c) && idx == pix_index(
                            x0,
                            y,
                            c,
                        );
                    assert(row_flips(pix, x0, y, ncols - 1, idx));
                }
                if row_flips(pix, x0, y, ncols - 1, idx) {
                    assert(row_flips(pix, x0, y, ncols, idx));
                }
            }
            assert(r.1 == (fl || exists|c: int|
                0 <= c < ncols && #[trigger] sprite_bit(pix, c) && scr[pix_index(x0, y, c)])) by {
                if exists|c: int|
                    0 <= c < ncols && #[trigger] sprite_bit(pix, c) && scr[pix_index(x0, y, c)] {
                    let c = choose|c: int|
                        0 <= c < ncols && #[trigger] sprite_bit(pix, c) && scr[pix_index(x0, y, c)];
                    assert(c < ncols - 1);
                }
                if prev.1 && !fl {
                    let c = choose|c: int|
                        0 <= c < ncols - 1 && #[trigger] sprite_bit(pix, c) && scr[pix_index(
                            x0,
                            y,
                            c,
                        )];
                    assert(0 <= c < ncols && sprite_bit(pix, c) && scr[pix_index(x0, y, c)]);
                }
            }
        }
    }
}

/// A set bit of row `r` landing on `idx` pins the screen row of `idx`, so
/// no other sprite row can land there.
proof fn lemma_unique_row(ram: Seq<u8>, i: int, x0: int, y0: int, r1: int, r2: int, idx: int)
    requires
        0 <= x0,
        0 <= y0,
        0 <= r1 < 16,
        0 <= r2 < 16,
        row_flips(ram[i + r1], x0, (y0 + r1) % (SCREEN_HEIGHT as int), 8, idx),
        row_flips(ram[i + r2], x0, (y0 + r2) % (SCREEN_HEIGHT as int), 8, idx),
    ensures
        r1 == r2,
{
    let h = SCREEN_HEIGHT as int;
    let y1 = (y0 + r1) % h;
    let y2 = (y0 + r2) % h;
    lemma_mod_bound(y0 + r1, h);
    lemma_mod_bound(y0 + r2, h);
    let c1 = choose|c: int|
        0 <= c < 8 && #[trigger] sprite_bit(ram[i + r1], c) && idx == pix_index(x0, y1, c);
    let c2 = choose|c: int|
        0 <= c < 8 && #[trigger] sprite_bit(ram[i + r2], c) && idx == pix_index(x0, y2, c);
    lemma_pix_index_y(x0, y1, c1);
    lemma_pix_index_y(x0, y2, c2);
    lemma_row_injective(y0, r1, r2);
}

/// Pointwise characterisation of a whole drawn sprite: a pixel is toggled
/// exactly when some set sprite bit lands on it, and the collision flag is
/// raised exactly when some set sprite bit lands on a lit pixel of the
/// incoming framebuffer.
pub proof fn lemma_draw_sprite_char(
    scr: Seq<bool>,
    fl: bool,
    ram: Seq<u8>,
    i: int,
    x0: int,
    y0: int,
    nrows: int,
)
    requires
        scr.len() == NUM_PIXELS,
        0 <= x0,
        0 <= y0,
        0 <= nrows < 16,
    ensures
        ({
            let r = draw_sprite(scr, fl, ram, i, x0, y0, nrows);
            &&& r.0.len() == NUM_PIXELS
            &&& forall|idx: int|
                0 <= idx < NUM_PIXELS ==> r.0[idx] == (scr[idx] != sprite_flips(
                    ram,
                    i,
                    x0,
                    y0,
                    nrows,
                    idx,
                ))
            &&& r.1 == (fl || sprite_hits_lit(scr, ram, i, x0, y0, nrows))
        }),
    decreases nrows,
{
    let h = SCREEN_HEIGHT as int;
    if nrows > 0 {
        lemma_draw_sprite_char(scr, fl, ram, i, x0, y0, nrows - 1);
        let row = nrows - 1;
        let yy = (y0 + row) % h;
        lemma_mod_bound(y0 + row, h);
        let prev = draw_sprite(scr, fl, ram, i, x0, y0, nrows - 1);
        let r = draw_sprite(scr, fl, ram, i, x0, y0, nrows);
        lemma_draw_row_char(prev.0, prev.1, ram[i + row], x0, yy, 8);

        // The new row reads pixels that no earlier row has touched.
        assert forall|c: int| 0 <= c < 8 && #[trigger] sprite_bit(ram[i + row], c) implies prev.0[
            pix_index(x0, yy, c)
        ] == scr[pix_index(x0, yy, c)] by {
            let p = pix_index(x0, yy, c);
            lemma_pix_index_y(x0, yy, c);
            if sprite_flips(ram, i, x0, y0, nrows - 1, p) {
                let r2 = choose|r2: int|
                    0 <= r2 < nrows - 1 && #[trigger] row_flips(ram[i + r2], x0, (y0 + r2) % h, 8, p);
                assert(row_flips(ram[i + row], x0, yy, 8, p)) by {
                    assert(sprite_bit(ram[i + row], c) && p == pix_index(x0, yy, c));
                }
                lemma_unique_row(ram, i, x0, y0, r2, row, p);
            }
        }

        assert forall|idx: int| 0 <= idx < NUM_PIXELS implies r.0[idx] == (scr[idx]
            != sprite_flips(ram, i, x0, y0, nrows, idx)) by {
            if row_flips(ram[i + row], x0, yy, 8, idx) {
                // This row toggles idx, and no earlier row does.
                assert(sprite_flips(ram, i, x0, y0, nrows, idx)) by {
                    assert(0 <= row < nrows && row_flips(ram[i + row], x0, (y0 + row) % h, 8, idx));
                }
                if sprite_flips(ram, i, x0, y0, nrows - 1, idx) {
                    let r2 = choose|r2: int|
                        0 <= r2 < nrows - 1 && #[trigger] row_flips(
                            ram[i + r2],
                            x0,
                            (y0 + r2) % h,
                            8,
                            idx,
                        );
                    lemma_unique_row(ram, i, x0, y0, r2, row, idx);
                }
            } else {
                // This row leaves idx alone; earlier rows decide.
                if sprite_flips(ram, i, x0, y0, nrows, idx) {
                    let r2 = choose|r2: int|
                        0 <= r2 < nrows && #[trigger] row_flips(
                            ram[i + r2],
                            x0,
                            (y0 + r2) % h,
                            8,
                            idx,
                        );
                    assert(r2 != row);
                    assert(sprite_flips(ram, i, x0, y0, nrows - 1, idx));
                }
                if sprite_flips(ram, i, x0, y0, nrows - 1, idx) {
                    let r2 = choose|r2: int|
                        0 <= r2 < nrows - 1 && #[trigger] row_flips(
                            ram[i + r2],
                            x0,
                            (y0 + r2) % h,
                            8,
                            idx,
                        );
                    assert(sprite_flips(ram, i, x0, y0, nrows, idx));
                }
            }
        }

        assert(r.1 == (fl || sprite_hits_lit(scr, ram, i, x0, y0, nrows))) by {
            if r.1 && !prev.1 {
                // The collision came from the new row, on an untouched pixel.
                let c = choose|c: int|
                    0 <= c < 8 && #[trigger] sprite_bit(ram[i + row], c) && prev.0[pix_index(
                        x0,
                        yy,
                        c,
                    )];
                assert(scr[pix_index(x0, (y0 + row) % h, c)]);
                assert(sprite_hits_lit(scr, ram, i, x0, y0, nrows));
            }
            if prev.1 && !fl {
                let (r2, c2) = choose|r2: int, c2: int|
                    0 <= r2 < nrows - 1 && 0 <= c2 < 8 && #[trigger] sprite_bit(ram[i + r2], c2)
                        && scr[pix_index(x0, (y0 + r2) % h, c2)];
                assert(sprite_hits_lit(scr, ram, i, x0, y0, nrows));
            }
            if sprite_hits_lit(scr, ram, i, x0, y0, nrows) && !fl {
                let (r2, c2) = choose|r2: int, c2: int|
                    0 <= r2 < nrows && 0 <= c2 < 8 && #[trigger] sprite_bit(ram[i + r2], c2)
                        && scr[pix_index(x0, (y0 + r2) % h, c2)];
                if r2 < nrows - 1 {
                    assert(sprite_hits_lit(scr, ram, i, x0, y0, nrows - 1));
                } else {
                    assert(prev.0[pix_index(x0, yy, c2)] == scr[pix_index(x0, yy, c2)]);
                }
            }
        }
    }
}

/// Draw collision: drawing a sprite toggles lit pixels dark, so drawing
/// the same sprite twice at the same location restores the framebuffer
/// exactly, and the second draw reports a collision exactly when the
/// sprite has a set bit that fell on a pixel that was dark before the
/// first draw (those are the pixels the first draw lit and the second
/// toggles off again).
pub proof fn lemma_draw_twice(scr: Seq<bool>, ram: Seq<u8>, i: int, x0: int, y0: int, nrows: int)
    requires
        scr.len() == NUM_PIXELS,
        0 <= x0,
        0 <= y0,
        0 <= nrows < 16,
    ensures
        ({
            let once = draw_sprite(scr, false, ram, i, x0, y0, nrows);
            let twice = draw_sprite(once.0, false, ram, i, x0, y0, nrows);
            &&& twice.0 == scr
            &&& twice.1 == (exists|r: int, c: int|
                0 <= r < nrows && 0 <= c < 8 && #[trigger] sprite_bit(ram[i + r], c) && !scr[
                    pix_index(x0, (y0 + r) % (SCREEN_HEIGHT as int), c)
                ])
        }),
{
    let h = SCREEN_HEIGHT as int;
    let once = draw_sprite(scr, false, ram, i, x0, y0, nrows);
    let twice = draw_sprite(once.0, false, ram, i, x0, y0, nrows);
    lemma_draw_sprite_char(scr, false, ram, i, x0, y0, nrows);
    lemma_draw_sprite_char(once.0, false, ram, i, x0, y0, nrows);
    assert(twice.0 =~= scr);
    assert forall|r: int, c: int|
        0 <= r < nrows && 0 <= c < 8 && #[trigger] sprite_bit(ram[i + r], c) implies (once.0[
        pix_index(x0, (y0 + r) % h, c)
    ] == !scr[pix_index(x0, (y0 + r) % h, c)]) by {
        let yy = (y0 + r) % h;
        let p = pix_index(x0, yy, c);
        lemma_mod_bound(y0 + r, h);
        lemma_pix_index_y(x0, yy, c);
        assert(sprite_flips(ram, i, x0, y0, nrows, p)) by {
            assert(row_flips(ram[i + r], x0, yy, 8, p)) by {
                assert(sprite_bit(ram[i + r], c) && p == pix_index(x0, yy, c));
            }
            assert(0 <= r < nrows && row_flips(ram[i + r], x0, (y0 + r) % h, 8, p));
        }
    }
    assert(twice.1 == (exists|r: int, c: int|
        0 <= r < nrows && 0 <= c < 8 && #[trigger] sprite_bit(ram[i + r], c) && !scr[pix_index(
            x0,
            (y0 + r) % h,
            c,
        )])) by {
        if twice.1 {
            let (r, c) = choose|r: int, c: int|
                0 <= r < nrows && 0 <= c < 8 && #[trigger] sprite_bit(ram[i + r], c) && once.0[
                    pix_index(x0, (y0 + r) % h, c)
                ];
            assert(!scr[pix_index(x0, (y0 + r) % h, c)]);
        }
        if exists|r: int, c: int|
            0 <= r < nrows && 0 <= c < 8 && #[trigger] sprite_bit(ram[i + r], c) && !scr[pix_index(
                x0,
                (y0 + r) % h,
                c,
            )] {
            let (r, c) = choose|r: int, c: int|
                0 <= r < nrows && 0 <= c < 8 && #[trigger] sprite_bit(ram[i + r], c) && !scr[
                    pix_index(x0, (y0 + r) % h, c)
                ];
            assert(once.0[pix_index(x0, (y0 + r) % h, c)]);
            assert(sprite_hits_lit(once.0, ram, i, x0, y0, nrows));
        }
    }
}

/// The same law at the instruction level: executing one draw instruction
/// twice in a row restores the framebuffer, and the second execution sets
/// VF to 1 exactly when the sprite has a set bit that fell on a pixel that
/// was dark at the start (the pixels the first draw lit and the second
/// toggles off). Excluded: a coordinate register x or y of 15, where the
/// first draw's collision flag would change the second draw's position.
pub proof fn lemma_draw_instruction_twice(s: StateV, op: u16, r1: u8, r2: u8)
    requires
        s.wf(),
        op_d1(op) == 0xD,
        op_d2(op) != 15,
        op_d3(op) != 15,
    ensures
        ({
            let x0 = s.v[op_d2(op) as int] as int;
            let y0 = s.v[op_d3(op) as int] as int;
            let n = op_d4(op) as int;
            let s2 = exec_spec(exec_spec(s, op, r1), op, r2);
            &&& s2.screen == s.screen
            &&& (s2.v[15] == 1u8 <==> exists|r: int, c: int|
                0 <= r < n && 0 <= c < 8 && #[trigger] sprite_bit(s.ram[s.i + r], c) && !s.screen[
                    pix_index(x0, (y0 + r) % (SCREEN_HEIGHT as int), c)
                ])
        }),
{
    assert((op >> 12) & 0xF == 0xD ==> op != 0x0000 && op != 0x00E0 && op != 0x00EE)
        by (bit_vector);
    assert((op >> 8) & 0xF < 16 && (op >> 4) & 0xF < 16 && (op & 0xF) < 16) by (bit_vector);
    let x0 = s.v[op_d2(op) as int] as int;
    let y0 = s.v[op_d3(op) as int] as int;
    let n = op_d4(op) as int;
    lemma_draw_twice(s.screen, s.ram, s.i as int, x0, y0, n);
    let s1 = exec_spec(s, op, r1);
    assert(s1.v[op_d2(op) as int] == s.v[op_d2(op) as int]);
    assert(s1.v[op_d3(op) as int] == s.v[op_d3(op) as int]);
}

} // verus!
