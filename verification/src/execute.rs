//! The decode/execute core: one dispatch over the four nibbles of the
//! opcode, each arm proved against the instruction-set specification in
//! [`crate::semantics`].
use vstd::prelude::*;

use rand::Rng;

use crate::machine::Emulator;
use crate::semantics::draw_row;
use crate::semantics::draw_sprite;
use crate::semantics::exec_ok;
use crate::semantics::exec_spec;
use crate::semantics::first_pressed;
use crate::semantics::load_regs;
use crate::semantics::op_d1;
use crate::semantics::pix_index;
use crate::semantics::sprite_bit;
use crate::semantics::store_regs;
use crate::state::StateV;
use crate::state::NUM_KEYS;
use crate::state::NUM_PIXELS;
use crate::state::RAM_SIZE;
use crate::state::SCREEN_HEIGHT;
use crate::state::SCREEN_WIDTH;

verus! {

/// Relies on rand::thread_rng and rand::Rng::gen: a byte drawn uniformly
/// from the thread-local generator. Nothing is promised of the value; the
/// interpreter is verified for every byte this may return.
#[verifier::external_body]
fn random_byte() -> u8 {
    rand::thread_rng().gen()
}

impl Emulator {
    /// The random-byte instruction: mask a random byte with the immediate
    /// operand and store it in Vx. Returns, as ghost information, the byte
    /// the random source supplied.
    fn op_random(&mut self, dx: u16, kk: u8) -> (rnd: Ghost<u8>)
        requires
            dx < 16,
        ensures
            final(self)@ == (StateV {
                v: old(self)@.v.update(dx as int, rnd@ & kk),
                ..old(self)@
            }),
    {
        let rng: u8 = random_byte();
        self.v_regs[dx as usize] = rng & kk;
        Ghost(rng)
    }

    /// The draw instruction: XOR `n` sprite rows read from memory at the
    /// address register onto the framebuffer at (Vx, Vy), wrapping both
    /// coordinates, and set VF exactly when a lit pixel went dark.
    fn op_draw(&mut self, dx: u16, dy: u16, n: u16)
        requires
            dx < 16,
            dy < 16,
            n < 16,
            n == 0 || old(self)@.i + n <= RAM_SIZE,
        ensures
            final(self)@ == ({
                let s = old(self)@;
                let r = draw_sprite(
                    s.screen,
                    false,
                    s.ram,
                    s.i as int,
                    s.v[dx as int] as int,
                    s.v[dy as int] as int,
                    n as int,
                );
                StateV { screen: r.0, v: s.v.update(15, if r.1 { 1u8 } else { 0u8 }), ..s }
            }),
    {
        let ghost s = self@;
        let x_coord = self.v_regs[dx as usize] as u16;
        let y_coord = self.v_regs[dy as usize] as u16;
        let num_rows = n;

        let mut flipped = false;
        let mut row: u16 = 0;
        while row < num_rows
            invariant
                row <= num_rows,
                num_rows < 16,
                num_rows == 0 || s.i + num_rows <= RAM_SIZE,
                x_coord == s.v[dx as int],
                y_coord == s.v[dy as int],
                dx < 16,
                dy < 16,
                self@ == (StateV { screen: self@.screen, ..s }),
                self@.screen == draw_sprite(
                    s.screen,
                    false,
                    s.ram,
                    s.i as int,
                    x_coord as int,
                    y_coord as int,
                    row as int,
                ).0,
                flipped == draw_sprite(
                    s.screen,
                    false,
                    s.ram,
                    s.i as int,
                    x_coord as int,
                    y_coord as int,
                    row as int,
                ).1,
            decreases num_rows - row,
        {
            let addr = (self.i_reg + row) as usize;
            let pixels = self.ram[addr];
            let ghost row_scr = self@.screen;
            let ghost row_fl = flipped;
            let ghost yy = (y_coord as int + row as int) % (SCREEN_HEIGHT as int);
            let mut col: u8 = 0;
            while col < 8
                invariant
                    col <= 8,
                    row < num_rows,
                    num_rows < 16,
                    x_coord <= 255,
                    y_coord <= 255,
                    yy == (y_coord as int + row as int) % (SCREEN_HEIGHT as int),
                    self@ == (StateV { screen: self@.screen, ..s }),
                    self@.screen == draw_row(row_scr, row_fl, pixels, x_coord as int, yy, col as int).0,
                    flipped == draw_row(row_scr, row_fl, pixels, x_coord as int, yy, col as int).1,
                    row_scr.len() == NUM_PIXELS,
                decreases 8 - col,
            {
                if (pixels & (0x80u8 >> col)) != 0 {
                    let xi = ((x_coord + col as u16) as usize) % SCREEN_WIDTH;
                    let yi = ((y_coord + row) as usize) % SCREEN_HEIGHT;
                    let idx = SCREEN_WIDTH * yi + xi;
                    proof {
                        assert(yi == yy);
                        assert(idx == pix_index(x_coord as int, yy, col as int));
                        assert(sprite_bit(pixels, col as int));
                    }
                    let cur = self.screen[idx];
                    flipped = flipped || cur;
                    self.screen[idx] = !cur;
                } else {
                    proof {
                        assert(!sprite_bit(pixels, col as int));
                    }
                }
                col += 1;
            }
            proof {
                assert(draw_sprite(
                    s.screen,
                    false,
                    s.ram,
                    s.i as int,
                    x_coord as int,
                    y_coord as int,
                    row as int + 1,
                ) == draw_row(row_scr, row_fl, s.ram[s.i + row], x_coord as int, yy, 8));
                assert(pixels == s.ram[s.i + row]);
            }
            row += 1;
        }
        if flipped {
            self.v_regs[0xF] = 1;
        } else {
            self.v_regs[0xF] = 0;
        }
    }

    /// The register-store instruction: write V0 through Vx to consecutive
    /// memory cells starting at the address register.
    fn op_store_regs(&mut self, dx: u16)
        requires
            dx < 16,
            old(self)@.i + dx < RAM_SIZE,
        ensures
            final(self)@ == (StateV {
                ram: store_regs(old(self)@.ram, old(self)@.v, old(self)@.i as int, dx as int + 1),
                ..old(self)@
            }),
    {
        let ghost s = self@;
        let x = dx as usize;
        let addr = self.i_reg as usize;
        let mut j: usize = 0;
        while j <= x
            invariant
                j <= x + 1,
                x < 16,
                addr == s.i,
                s.i + x < RAM_SIZE,
                self@ == (StateV { ram: self@.ram, ..s }),
                self@.ram == store_regs(s.ram, s.v, addr as int, j as int),
            decreases x + 1 - j,
        {
            self.ram[addr + j] = self.v_regs[j];
            j += 1;
        }
    }

    /// The register-load instruction: read V0 through Vx from consecutive
    /// memory cells starting at the address register.
    fn op_load_regs(&mut self, dx: u16)
        requires
            dx < 16,
            old(self)@.i + dx < RAM_SIZE,
        ensures
            final(self)@ == (StateV {
                v: load_regs(old(self)@.v, old(self)@.ram, old(self)@.i as int, dx as int + 1),
                ..old(self)@
            }),
    {
        let ghost s = self@;
        let x = dx as usize;
        let addr = self.i_reg as usize;
        let mut j: usize = 0;
        while j <= x
            invariant
                j <= x + 1,
                x < 16,
                addr == s.i,
                s.i + x < RAM_SIZE,
                self@ == (StateV { v: self@.v, ..s }),
                self@.v == load_regs(s.v, s.ram, addr as int, j as int),
            decreases x + 1 - j,
        {
            self.v_regs[j] = self.ram[addr + j];
            j += 1;
        }
    }

    /// The block-on-key instruction: store the lowest-numbered pressed key
    /// in Vx, or rewind the program counter so the instruction re-executes
    /// on the next step.
    fn op_wait_key(&mut self, dx: u16)
        requires
            dx < 16,
            old(self)@.pc >= 2,
        ensures
            final(self)@ == ({
                let s = old(self)@;
                let k = first_pressed(s.keys, 0);
                if k < NUM_KEYS {
                    StateV { v: s.v.update(dx as int, k as u8), ..s }
                } else {
                    StateV { pc: (s.pc - 2) as u16, ..s }
                }
            }),
    {
        let ghost s = self@;
        let mut i: usize = 0;
        while i < NUM_KEYS && !self.keys[i]
            invariant
                i <= NUM_KEYS,
                self@ == s,
                first_pressed(s.keys, 0) == first_pressed(s.keys, i as int),
            decreases NUM_KEYS - i,
        {
            i += 1;
        }
        if i < NUM_KEYS {
            proof {
                assert(first_pressed(s.keys, i as int) == i);
            }
            self.v_regs[dx as usize] = i as u8;
        } else {
            self.pc -= 2;
        }
    }

    /// Decode `op` by its four nibbles and execute it. The caller has
    /// already advanced the program counter past the opcode and must rule
    /// out the two fatal fault classes, stated by `exec_ok`. Returns, as
    /// ghost information, the byte the random source supplied; only the
    /// random-byte instruction reads it, and every other instruction
    /// reports zero.
    pub(crate) fn execute(&mut self, op: u16) -> (rnd: Ghost<u8>)
        requires
            exec_ok(old(self)@, op),
        ensures
            final(self)@ == exec_spec(old(self)@, op, rnd@),
            op_d1(op) != 0xC ==> rnd@ == 0,
    {
        let ghost mut grnd: u8 = 0u8;
        let digit1 = (op >> 12) & 0xF;
        let digit2 = (op >> 8) & 0xF;
        let digit3 = (op >> 4) & 0xF;
        let digit4 = op & 0xF;
        proof {
            assert((op >> 12) & 0xF < 16 && (op >> 8) & 0xF < 16 && (op >> 4) & 0xF < 16 && (op
                & 0xF) < 16 && (op & 0xFF) < 256 && (op & 0xFFF) < 4096) by (bit_vector);
        }

        if op == 0x0000 {
            // NOP
        } else if op == 0x00E0 {
            // CLS
            self.screen = [false; NUM_PIXELS];
            proof {
                assert(self@.screen =~= Seq::new(NUM_PIXELS as nat, |j: int| false));
            }
        } else if op == 0x00EE {
            // RET
            let ret_addr = self.pop();
            self.pc = ret_addr;
        } else if digit1 == 1 {
            // JP addr
            let addr = op & 0xFFF;
            self.pc = addr;
        } else if digit1 == 2 {
            // CALL addr
            let addr = op & 0xFFF;
            let cur = self.pc;
            self.push(cur);
            self.pc = addr;
        } else if digit1 == 3 {
            // SE Vx, byte
            let x = digit2 as usize;
            let kk = (op & 0xFF) as u8;
            if self.v_regs[x] == kk {
                self.pc += 2;
            }
        } else if digit1 == 4 {
            // SNE Vx, byte
            let x = digit2 as usize;
            let kk = (op & 0xFF) as u8;
            if self.v_regs[x] != kk {
                self.pc += 2;
            }
        } else if digit1 == 5 {
            // SE Vx, Vy
            let x = digit2 as usize;
            let y = digit3 as usize;
            if self.v_regs[x] == self.v_regs[y] {
                self.pc += 2;
            }
        } else if digit1 == 6 {
            // LD Vx, byte
            let x = digit2 as usize;
            let kk = (op & 0xFF) as u8;
            self.v_regs[x] = kk;
        } else if digit1 == 7 {
            // ADD Vx, byte
            let x = digit2 as usize;
            let kk = (op & 0xFF) as u8;
            self.v_regs[x] = self.v_regs[x].wrapping_add(kk);
        } else if digit1 == 8 {
            let x = digit2 as usize;
            let y = digit3 as usize;
            if digit4 == 0 {
                // LD Vx, Vy
                self.v_regs[x] = self.v_regs[y];
            } else if digit4 == 1 {
                // OR Vx, Vy
                self.v_regs[x] = self.v_regs[x] | self.v_regs[y];
            } else if digit4 == 2 {
                // AND Vx, Vy
                self.v_regs[x] = self.v_regs[x] & self.v_regs[y];
            } else if digit4 == 3 {
                // XOR Vx, Vy
                self.v_regs[x] = self.v_regs[x] ^ self.v_regs[y];
            } else if digit4 == 4 {
                // ADD Vx, Vy
                let vx = self.v_regs[x];
                let vy = self.v_regs[y];
                let new_vx = vx.wrapping_add(vy);
                let new_vf: u8 = if (vx as u16) + (vy as u16) > 255 {
                    1
                } else {
                    0
                };
                self.v_regs[x] = new_vx;
                self.v_regs[0xF] = new_vf;
            } else if digit4 == 5 {
                // SUB Vx, Vy
                let vx = self.v_regs[x];
                let vy = self.v_regs[y];
                let new_vx = vx.wrapping_sub(vy);
                let new_vf: u8 = if vx < vy {
                    0
                } else {
                    1
                };
                self.v_regs[x] = new_vx;
                self.v_regs[0xF] = new_vf;
            } else if digit4 == 6 {
                // SHR Vx
                self.v_regs[0xF] = self.v_regs[x] & 1;
                let cur = self.v_regs[x];
                self.v_regs[x] = cur >> 1;
            } else if digit4 == 7 {
                // SUBN Vx, Vy
                let vx = self.v_regs[x];
                let vy = self.v_regs[y];
                let new_vx = vy.wrapping_sub(vx);
                let new_vf: u8 = if vy < vx {
                    0
                } else {
                    1
                };
                self.v_regs[x] = new_vx;
                self.v_regs[0xF] = new_vf;
            } else if digit4 == 0xE {
                // SHL Vx
                self.v_regs[0xF] = (self.v_regs[x] >> 7) & 1;
                let cur = self.v_regs[x];
                self.v_regs[x] = cur << 1;
            } else {
                proof {
                    assert(false);
                }
            }
        } else if digit1 == 9 {
            // SNE Vx, Vy
            let x = digit2 as usize;
            let y = digit3 as usize;
            if self.v_regs[x] != self.v_regs[y] {
                self.pc += 2;
            }
        } else if digit1 == 0xA {
            // LD I, addr
            let addr = op & 0xFFF;
            self.i_reg = addr;
        } else if digit1 == 0xB {
            // JP V0, addr
            let addr = op & 0xFFF;
            self.pc = (self.v_regs[0] as u16) + addr;
        } else if digit1 == 0xC {
            // RND Vx, byte
            let kk = (op & 0xFF) as u8;
            let g = self.op_random(digit2, kk);
            proof {
                grnd = g@;
            }
        } else if digit1 == 0xD {
            // DRW Vx, Vy, nibble
            self.op_draw(digit2, digit3, digit4);
        } else if digit1 == 0xE {
            let x = digit2 as usize;
            if digit3 == 9 && digit4 == 0xE {
                // SKP Vx
                let vx = self.v_regs[x];
                if self.keys[vx as usize] {
                    self.pc += 2;
                }
            } else if digit3 == 0xA && digit4 == 1 {
                // SKNP Vx
                let vx = self.v_regs[x];
                if !self.keys[vx as usize] {
                    self.pc += 2;
                }
            } else {
                proof {
                    assert(false);
                }
            }
        } else if digit1 == 0xF {
            let x = digit2 as usize;
            let kk = (op & 0xFF) as u8;
            if kk == 0x07 {
                // LD Vx, DT
                self.v_regs[x] = self.dt;
            } else if kk == 0x0A {
                // LD Vx, K
                self.op_wait_key(digit2);
            } else if kk == 0x15 {
                // LD DT, Vx
                self.dt = self.v_regs[x];
            } else if kk == 0x18 {
                // LD ST, Vx
                self.st = self.v_regs[x];
            } else if kk == 0x1E {
                // ADD I, Vx
                self.i_reg += self.v_regs[x] as u16;
            } else if kk == 0x29 {
                // LD F, Vx
                let c = self.v_regs[x] as u16;
                self.i_reg = c * 5;
            } else if kk == 0x33 {
                // LD B, Vx
                let vx = self.v_regs[x];
                let hundreds = vx / 100;
                let tens = (vx / 10) % 10;
                let ones = vx % 10;
                let i = self.i_reg as usize;
                self.ram[i] = hundreds;
                self.ram[i + 1] = tens;
                self.ram[i + 2] = ones;
            } else if kk == 0x55 {
                // LD [I], Vx
                self.op_store_regs(digit2);
            } else if kk == 0x65 {
                // LD Vx, [I]
                self.op_load_regs(digit2);
            } else {
                proof {
                    assert(false);
                }
            }
        } else {
            proof {
                assert(false);
            }
        }

        proof {
            assert(self@ =~= exec_spec(old(self)@, op, grnd));
        }
        Ghost(grnd)
    }
}

} // verus!
