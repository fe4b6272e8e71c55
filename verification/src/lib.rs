//! Core of a cycle-accurate emulator for the classic 8-bit handheld game
//! console: the memory bus with its cartridge bank controllers, the shared
//! T-cycle scheduler, the timer, the picture processing unit's state machine,
//! the four-channel sound controller, and a stable save-state codec.
//!
//! Every component shares a single monotonic `clock_count` of T-cycles; the
//! bus brokers every access and the scheduler catches the components up after
//! each advance.

pub mod bits;
pub mod cartridge;
pub mod consts;
pub mod cpu;
pub mod gameboy;
pub mod laws;
pub mod ppu;
pub mod rom;
pub mod save_state;
pub mod sound_controller;
pub mod timer;

use vstd::prelude::*;

verus! {

} // verus!
