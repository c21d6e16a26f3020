//! The concrete machine: the state container, its lifecycle, the loader,
//! the timers, the keypad, and the fetch and stack helpers.
use vstd::prelude::*;

use crate::semantics::after_fetch;
use crate::semantics::can_tick;
use crate::semantics::fetch_ok;
use crate::semantics::op_at;
use crate::semantics::op_d1;
use crate::semantics::step;
use crate::state::initial_state;
use crate::state::StateV;
use crate::state::FONTSET;
use crate::state::FONTSET_SIZE;
use crate::state::NUM_KEYS;
use crate::state::NUM_PIXELS;
use crate::state::NUM_REGS;
use crate::state::RAM_SIZE;
use crate::state::STACK_SIZE;
use crate::state::START_ADDR;

verus! {

broadcast use vstd::array::group_array_axioms;

/// The virtual machine: register file, memory, call stack, timers, keypad,
/// and framebuffer, together with the interpreter that executes its
/// instruction set one opcode at a time.
#[derive(PartialEq, Debug)]
pub struct Emulator {
    /// Program counter.
    pub pc: u16,
    /// Flat memory; the glyph atlas occupies the reserved low region.
    pub ram: [u8; RAM_SIZE],
    /// Framebuffer, row-major; true means lit.
    pub screen: [bool; NUM_PIXELS],
    /// Registers V0..VF; VF doubles as the carry/borrow/collision flag.
    pub v_regs: [u8; NUM_REGS],
    /// Address register I.
    pub i_reg: u16,
    /// Stack pointer: the next free slot.
    pub sp: u16,
    /// Call stack of return addresses.
    pub stack: [u16; STACK_SIZE],
    /// Keypad state; true means pressed.
    pub keys: [bool; NUM_KEYS],
    /// Delay timer.
    pub dt: u8,
    /// Sound timer.
    pub st: u8,
}

impl View for Emulator {
    type V = StateV;

    open spec fn view(&self) -> StateV {
        StateV {
            pc: self.pc,
            ram: self.ram@,
            screen: self.screen@,
            v: self.v_regs@,
            i: self.i_reg,
            sp: self.sp,
            stack: self.stack@,
            keys: self.keys@,
            dt: self.dt,
            st: self.st,
        }
    }
}

/// A fresh memory image: the glyph atlas in the reserved region, zeroes
/// everywhere else.
fn initial_ram() -> (r: [u8; RAM_SIZE])
    ensures
        r@ == initial_state().ram,
{
    let mut ram: [u8; RAM_SIZE] = [0; RAM_SIZE];
    let mut j: usize = 0;
    while j < FONTSET_SIZE
        invariant
            j <= FONTSET_SIZE,
            forall|k: int| 0 <= k < j ==> ram@[k] == FONTSET@[k],
            forall|k: int| j <= k < RAM_SIZE ==> ram@[k] == 0u8,
        decreases FONTSET_SIZE - j,
    {
        ram[j] = FONTSET[j];
        j += 1;
    }
    proof {
        assert(ram@ =~= initial_state().ram);
    }
    ram
}

impl Emulator {
    /// Construct a machine in the initial state: program counter at the load
    /// address, glyph atlas preloaded, everything else zeroed.
    pub fn new() -> (r: Self)
        ensures
            r@ == initial_state(),
    {
        let new_emu = Self {
            pc: START_ADDR,
            ram: initial_ram(),
            screen: [false; NUM_PIXELS],
            v_regs: [0; NUM_REGS],
            i_reg: 0,
            sp: 0,
            stack: [0; STACK_SIZE],
            keys: [false; NUM_KEYS],
            dt: 0,
            st: 0,
        };
        proof {
            assert(new_emu@ =~= initial_state());
        }
        new_emu
    }

    /// True exactly when the sound timer is about to reach zero on this tick:
    /// the audio-trigger edge.
    pub fn play_sound(&self) -> (r: bool)
        ensures
            r == (self@.st == 1),
    {
        if self.st == 1 {
            return true;
        }
        false
    }

    /// Restore the initial state in place. Equivalent to discarding the
    /// machine and constructing a fresh one.
    pub fn reset(&mut self)
        ensures
            final(self)@ == initial_state(),
    {
        self.pc = START_ADDR;
        self.ram = initial_ram();
        self.screen = [false; NUM_PIXELS];
        self.v_regs = [0; NUM_REGS];
        self.i_reg = 0;
        self.sp = 0;
        self.stack = [0; STACK_SIZE];
        self.keys = [false; NUM_KEYS];
        self.dt = 0;
        self.st = 0;
        proof {
            assert(self@ =~= initial_state());
        }
    }

    /// Execute exactly one instruction: fetch the opcode at the program
    /// counter, advance past it, decode and execute it. The caller must
    /// rule out the two fatal fault classes, stated by `can_tick`. The
    /// resulting state is `step` of the old one for some byte of the
    /// random source; every instruction except the random-byte one
    /// determines the state outright.
    pub fn tick(&mut self)
        requires
            can_tick(old(self)@),
        ensures
            exists|r: u8| final(self)@ == step(old(self)@, r),
            op_d1(op_at(old(self)@)) != 0xC ==> final(self)@ == step(old(self)@, 0),
    {
        // fetch
        let op = self.fetch();
        // decode & execute
        let rnd = self.execute(op);
        proof {
            assert(self@ == step(old(self)@, rnd@));
        }
    }

    /// Decrement each timer by one, stopping at zero.
    pub fn tick_timers(&mut self)
        ensures
            final(self)@ == (StateV {
                dt: if old(self)@.dt > 0 { (old(self)@.dt - 1) as u8 } else { 0u8 },
                st: if old(self)@.st > 0 { (old(self)@.st - 1) as u8 } else { 0u8 },
                ..old(self)@
            }),
    {
        if self.dt > 0 {
            self.dt -= 1;
        }

        if self.st > 0 {
            self.st -= 1;
        }
    }

    /// Read-only view of the framebuffer, row-major, for rendering.
    pub fn get_display(&self) -> (r: &[bool])
        ensures
            r@ == self@.screen,
    {
        self.screen.as_slice()
    }

    /// Record an external key event: press or release key `idx`.
    pub fn keypress(&mut self, idx: usize, pressed: bool)
        requires
            idx < NUM_KEYS,
        ensures
            final(self)@ == (StateV { keys: old(self)@.keys.update(idx as int, pressed), ..old(self)@ }),
    {
        self.keys[idx] = pressed;
    }

    /// Copy a program image into memory starting at the load address.
    /// The caller must have checked that the image fits.
    pub fn load(&mut self, data: &[u8])
        requires
            data@.len() <= RAM_SIZE - START_ADDR,
        ensures
            final(self)@ == (StateV {
                ram: Seq::new(RAM_SIZE as nat, |j: int|
                    if START_ADDR <= j < START_ADDR + data@.len() {
                        data@[j - START_ADDR]
                    } else {
                        old(self)@.ram[j]
                    }),
                ..old(self)@
            }),
    {
        let start = START_ADDR as usize;
        let mut j: usize = 0;
        while j < data.len()
            invariant
                j <= data@.len(),
                data@.len() <= RAM_SIZE - START_ADDR,
                start == START_ADDR,
                self@ == (StateV {
                    ram: self@.ram,
                    ..old(self)@
                }),
                self@.ram.len() == RAM_SIZE,
                forall|k: int| start <= k < start + j ==> self@.ram[k] == data@[k - start],
                forall|k: int| 0 <= k < RAM_SIZE && !(start <= k < start + j)
                    ==> self@.ram[k] == old(self)@.ram[k],
            decreases data@.len() - j,
    {
            self.ram[start + j] = data[j];
            j += 1;
        }
        proof {
            assert(self@.ram =~= Seq::new(RAM_SIZE as nat, |k: int|
                if START_ADDR <= k < START_ADDR + data@.len() {
                    data@[k - START_ADDR]
                } else {
                    old(self)@.ram[k]
                }));
            assert(self@ =~= (StateV {
                ram: Seq::new(RAM_SIZE as nat, |k: int|
                    if START_ADDR <= k < START_ADDR + data@.len() {
                        data@[k - START_ADDR]
                    } else {
                        old(self)@.ram[k]
                    }),
                ..old(self)@
            }));
        }
    }

    /// Read the two opcode bytes at the program counter, combine them
    /// big-endian, and advance the program counter past them.
    pub(crate) fn fetch(&mut self) -> (op: u16)
        requires
            fetch_ok(old(self)@),
        ensures
            op == op_at(old(self)@),
            final(self)@ == after_fetch(old(self)@),
    {
        let higher_byte = self.ram[self.pc as usize] as u16;
        let lower_byte = self.ram[self.pc as usize + 1] as u16;
        let op = (higher_byte << 8) | lower_byte;
        self.pc += 2;
        op
    }

    /// Push a return address; the stack must have a free slot.
    pub(crate) fn push(&mut self, val: u16)
        requires
            old(self)@.sp < STACK_SIZE,
        ensures
            final(self)@ == (StateV {
                stack: old(self)@.stack.update(old(self)@.sp as int, val),
                sp: (old(self)@.sp + 1) as u16,
                ..old(self)@
            }),
    {
        self.stack[self.sp as usize] = val;
        self.sp += 1;
    }

    /// Pop the most recent return address; the stack must be nonempty.
    pub(crate) fn pop(&mut self) -> (r: u16)
        requires
            0 < old(self)@.sp <= STACK_SIZE,
        ensures
            r == old(self)@.stack[old(self)@.sp as int - 1],
            final(self)@ == (StateV { sp: (old(self)@.sp - 1) as u16, ..old(self)@ }),
    {
        self.sp -= 1;
        self.stack[self.sp as usize]
    }
}

} // verus!
