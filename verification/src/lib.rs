//! A verified interpreter for a 1970s-style 16-bit virtual machine: register
//! file, flat memory, call stack, timers, keypad, and a monochrome
//! framebuffer, executed one opcode at a time.
//!
//! The abstract model lives in [`state`], the instruction-set specification
//! in [`semantics`], the concrete machine and its interpreter in [`machine`]
//! and [`execute`], and the proved laws of the instruction set in [`props`]
//! and [`draw_props`].

pub mod draw_props;
pub mod execute;
pub mod machine;
pub mod props;
pub mod semantics;
pub mod state;

pub use machine::Emulator;
pub use state::SCREEN_HEIGHT;
pub use state::SCREEN_WIDTH;
