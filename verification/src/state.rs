//! The mathematical model of the machine: a ghost record of every component
//! of the state, the initial state, and the built-in glyph atlas.
use vstd::prelude::*;

verus! {

/// Width of the monochrome framebuffer in pixels.
pub const SCREEN_WIDTH: usize = 64;

/// Height of the monochrome framebuffer in pixels.
pub const SCREEN_HEIGHT: usize = 32;

/// Total number of framebuffer pixels (`SCREEN_WIDTH * SCREEN_HEIGHT`).
pub const NUM_PIXELS: usize = 2048;

/// Size of the flat memory region in bytes.
pub const RAM_SIZE: usize = 4096;

/// Number of general-purpose registers.
pub const NUM_REGS: usize = 16;

/// Number of keys on the keypad.
pub const NUM_KEYS: usize = 16;

/// Capacity of the call stack.
pub const STACK_SIZE: usize = 16;

/// Size in bytes of the glyph atlas: 16 glyphs of 5 bytes each.
pub const FONTSET_SIZE: usize = 80;

/// Address at which program images are loaded and execution begins.
pub const START_ADDR: u16 = 0x200;

/// The glyph atlas: fixed-width bitmap glyphs for the hexadecimal digits
/// 0 through F, five bytes per glyph, preloaded at address 0 on construction
/// and on reset.
pub const FONTSET: [u8; 80] = [
    0xF0, 0x90, 0x90, 0x90, 0xF0, // 0
    0x20, 0x60, 0x20, 0x20, 0x70, // 1
    0xF0, 0x10, 0xF0, 0x80, 0xF0, // 2
    0xF0, 0x10, 0xF0, 0x10, 0xF0, // 3
    0x90, 0x90, 0xF0, 0x10, 0x10, // 4
    0xF0, 0x80, 0xF0, 0x10, 0xF0, // 5
    0xF0, 0x80, 0xF0, 0x90, 0xF0, // 6
    0xF0, 0x10, 0x20, 0x40, 0x40, // 7
    0xF0, 0x90, 0xF0, 0x90, 0xF0, // 8
    0xF0, 0x90, 0xF0, 0x10, 0xF0, // 9
    0xF0, 0x90, 0xF0, 0x90, 0x90, // A
    0xE0, 0x90, 0xE0, 0x90, 0xE0, // B
    0xF0, 0x80, 0x80, 0x80, 0xF0, // C
    0xE0, 0x90, 0x90, 0x90, 0xE0, // D
    0xF0, 0x80, 0xF0, 0x80, 0xF0, // E
    0xF0, 0x80, 0xF0, 0x80, 0x80, // F
];

/// The abstract state of the machine. `Emulator::view` maps the concrete
/// machine onto this record, and every contract speaks in terms of it.
#[verifier::ext_equal]
pub ghost struct StateV {
    /// Program counter.
    pub pc: u16,
    /// Flat memory, `RAM_SIZE` bytes.
    pub ram: Seq<u8>,
    /// Framebuffer, row-major, `NUM_PIXELS` pixels; true means lit.
    pub screen: Seq<bool>,
    /// General-purpose registers V0..VF; index 15 doubles as the
    /// carry/borrow/collision flag.
    pub v: Seq<u8>,
    /// Address register I.
    pub i: u16,
    /// Stack pointer: the next free slot; 0 means empty.
    pub sp: u16,
    /// Call stack of return addresses, `STACK_SIZE` slots.
    pub stack: Seq<u16>,
    /// Keypad state, one flag per key; true means pressed.
    pub keys: Seq<bool>,
    /// Delay timer.
    pub dt: u8,
    /// Sound timer.
    pub st: u8,
}

impl StateV {
    /// Every component has its fixed size. The concrete machine stores its
    /// components in fixed-size arrays, so every `Emulator` view satisfies
    /// this by construction.
    pub open spec fn wf(self) -> bool {
        &&& self.ram.len() == RAM_SIZE
        &&& self.screen.len() == NUM_PIXELS
        &&& self.v.len() == NUM_REGS
        &&& self.stack.len() == STACK_SIZE
        &&& self.keys.len() == NUM_KEYS
    }
}

/// The initial state: program counter at the load address, the glyph atlas
/// in the first `FONTSET_SIZE` bytes of memory, and everything else zeroed.
pub open spec fn initial_state() -> StateV {
    StateV {
        pc: START_ADDR,
        ram: Seq::new(RAM_SIZE as nat, |j: int| if j < FONTSET_SIZE { FONTSET@[j] } else { 0u8 }),
        screen: Seq::new(NUM_PIXELS as nat, |j: int| false),
        v: Seq::new(NUM_REGS as nat, |j: int| 0u8),
        i: 0,
        sp: 0,
        stack: Seq::new(STACK_SIZE as nat, |j: int| 0u16),
        keys: Seq::new(NUM_KEYS as nat, |j: int| false),
        dt: 0,
        st: 0,
    }
}

} // verus!
