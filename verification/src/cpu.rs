//! CPU register file: the eight 8-bit registers, the two 16-bit pointers,
//! the interrupt-master-enable pipeline and the run state.
//!
//! The bus and the save-state codec treat these as plain data; the flag bits
//! Z, N, H and C live packed in `f`.

use vstd::prelude::*;

verus! {

/// The interrupt master enable has a one-instruction delay after EI:
/// EI moves it from `Disabled` to `ToBeEnabled`, and the instruction after
/// that moves it to `Enabled`. DI is immediate.
#[derive(Clone, Copy, PartialEq, Eq, Structural, Debug)]
pub enum ImeState {
    Disabled,
    ToBeEnabled,
    Enabled,
}

/// Run state of the CPU. `HaltBug` marks the cycle after a HALT executed
/// with interrupts disabled but pending: the next opcode byte is read
/// without advancing the program counter.
#[derive(Clone, Copy, PartialEq, Eq, Structural, Debug)]
pub enum CpuState {
    Running,
    Halted,
    Stopped,
    HaltBug,
}

/// The F register: Z, N, H and C packed in the upper four bits.
#[derive(Clone, Copy, PartialEq, Eq, Structural, Debug)]
pub struct Flags(pub u8);

/// The register file of the 8-bit CPU.
#[derive(Clone, Copy, PartialEq, Eq, Structural, Debug)]
pub struct Cpu {
    pub a: u8,
    pub f: Flags,
    pub b: u8,
    pub c: u8,
    pub d: u8,
    pub e: u8,
    pub h: u8,
    pub l: u8,
    pub sp: u16,
    pub pc: u16,
    pub ime: ImeState,
    pub state: CpuState,
}

impl Cpu {
    /// Power-on register file: everything cleared, running, interrupts off.
    pub open spec fn spec_default() -> Cpu {
        Cpu {
            a: 0,
            f: Flags(0),
            b: 0,
            c: 0,
            d: 0,
            e: 0,
            h: 0,
            l: 0,
            sp: 0,
            pc: 0,
            ime: ImeState::Disabled,
            state: CpuState::Running,
        }
    }

    /// Register file at the moment the boot ROM hands control to the
    /// cartridge: the documented post-boot fingerprint.
    pub open spec fn spec_after_boot() -> Cpu {
        Cpu {
            a: 0x01,
            f: Flags(0xb0),
            b: 0x00,
            c: 0x13,
            d: 0x00,
            e: 0xd8,
            h: 0x01,
            l: 0x4d,
            sp: 0xfffe,
            pc: 0x0100,
            ime: ImeState::Disabled,
            state: CpuState::Running,
        }
    }

    pub fn after_boot() -> (r: Cpu)
        ensures
            r == Cpu::spec_after_boot(),
    {
        Cpu {
            a: 0x01,
            f: Flags(0xb0),
            b: 0x00,
            c: 0x13,
            d: 0x00,
            e: 0xd8,
            h: 0x01,
            l: 0x4d,
            sp: 0xfffe,
            pc: 0x0100,
            ime: ImeState::Disabled,
            state: CpuState::Running,
        }
    }
}

impl Default for Cpu {
    fn default() -> (r: Cpu)
        ensures
            r == Cpu::spec_default(),
    {
        Cpu {
            a: 0,
            f: Flags(0),
            b: 0,
            c: 0,
            d: 0,
            e: 0,
            h: 0,
            l: 0,
            sp: 0,
            pc: 0,
            ime: ImeState::Disabled,
            state: CpuState::Running,
        }
    }
}

} // verus!
