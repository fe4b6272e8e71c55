//! The machine: every component bound together by the memory bus and the
//! shared T-cycle scheduler.
//!
//! A bus write changes exactly the decoded target. A bus read returns the
//! decoded byte and moves no state but the lazy sound unit, which a read of
//! a sound register first catches up to the shared clock; the catch-up
//! changes what no read returns. `tick` is the single driver: it advances
//! `clock_count` and then catches up, in order, the transfer engine, the
//! picture unit, the timer and the serial port. Addresses 0xE000-0xFDFF mirror 0xC000-0xDDFF, and
//! 0xFEA0-0xFEFF reads 0xFF and swallows writes. While an object-memory
//! transfer is running, only 0xFF80-0xFFFE answers: everything else reads
//! 0xFF and drops writes.
//!
//! Instead of host callbacks the machine keeps two host-visible signals:
//! `v_blank_trigger`, polled and cleared through `call_v_blank_callback`,
//! and `serial_out`, the queue of bytes sent out the serial port.

use vstd::prelude::*;

use crate::cartridge::{cart_wf, spec_cart_read, spec_cart_write, Cartridge, CartridgeV};
use crate::consts::{POST_BOOT_CLOCK, SERIAL_OFFSET};
use crate::cpu::{Cpu, CpuState, Flags, ImeState};
use crate::ppu::{ppu_wf, spec_oam_read, spec_oam_write, spec_ppu_reg_read, spec_ppu_reg_write,
    spec_ppu_run, spec_vram_read, spec_vram_write, Ppu, PpuV};
use crate::sound_controller::{snd_wf, spec_apu_read, spec_apu_update, spec_apu_write,
    SoundController, SoundV};
use crate::timer::{spec_timer_read, spec_timer_run, spec_timer_write, Timer};

verus! {

/// Mathematical model of the whole machine.
#[verifier::ext_equal]
pub ghost struct GameBoyV {
    pub cpu: Cpu,
    pub cartridge: CartridgeV,
    pub wram: Seq<u8>,
    pub hram: Seq<u8>,
    pub boot_rom: Option<Seq<u8>>,
    pub boot_rom_active: bool,
    pub clock_count: u64,
    pub timer: Timer,
    pub sound: SoundV,
    pub ppu: PpuV,
    pub joypad_io: u8,
    pub joypad: u8,
    pub serial_data: u8,
    pub serial_control: u8,
    pub serial_transfer_started: u64,
    pub serial_out: Seq<u8>,
    pub interrupt_flag: u8,
    pub dma: u8,
    pub dma_active: bool,
    pub dma_start_clock: u64,
    pub dma_progress: u8,
    pub interrupt_enabled: u8,
    pub v_blank_trigger: bool,
}

pub struct GameBoy {
    pub cpu: Cpu,
    pub cartridge: Cartridge,
    /// 0xC000-0xDFFF: work RAM.
    pub wram: Vec<u8>,
    /// 0xFF80-0xFFFE: high RAM.
    pub hram: Vec<u8>,
    /// Optional 256-byte boot overlay at 0x0000-0x00FF.
    pub boot_rom: Option<Vec<u8>>,
    pub boot_rom_active: bool,
    /// Monotonic T-cycle counter since power-on.
    pub clock_count: u64,
    pub timer: Timer,
    pub sound: SoundController,
    pub ppu: Ppu,
    /// 0xFF00: last P1 write.
    pub joypad_io: u8,
    /// Host joypad state, one bit per key, 0 meaning pressed. From bit 7
    /// down: Start, Select, B, A, Down, Up, Left, Right.
    pub joypad: u8,
    /// 0xFF01: SB.
    pub serial_data: u8,
    /// 0xFF02: SC.
    pub serial_control: u8,
    /// Start of the running serial transfer in 2^13 Hz ticks; 0 when idle.
    pub serial_transfer_started: u64,
    /// Bytes sent out the serial port, for the host to drain.
    pub serial_out: Vec<u8>,
    /// 0xFF0F: IF. Bits: 0 VBlank, 1 STAT, 2 timer, 3 serial, 4 joypad.
    pub interrupt_flag: u8,
    /// 0xFF46: last written transfer source page.
    pub dma: u8,
    pub dma_active: bool,
    pub dma_start_clock: u64,
    /// Bytes of the running transfer already stored, 0..=160.
    pub dma_progress: u8,
    /// 0xFFFF: IE, same bit layout as IF.
    pub interrupt_enabled: u8,
    /// Set by the tick that entered vertical blank; the host polls and
    /// clears it through `call_v_blank_callback`.
    pub v_blank_trigger: bool,
}

impl View for GameBoy {
    type V = GameBoyV;

    open spec fn view(&self) -> GameBoyV {
        GameBoyV {
            cpu: self.cpu,
            cartridge: self.cartridge@,
            wram: self.wram@,
            hram: self.hram@,
            boot_rom: match self.boot_rom {
                Some(ref b) => Some(b@),
                None => None,
            },
            boot_rom_active: self.boot_rom_active,
            clock_count: self.clock_count,
            timer: self.timer,
            sound: self.sound@,
            ppu: self.ppu@,
            joypad_io: self.joypad_io,
            joypad: self.joypad,
            serial_data: self.serial_data,
            serial_control: self.serial_control,
            serial_transfer_started: self.serial_transfer_started,
            serial_out: self.serial_out@,
            interrupt_flag: self.interrupt_flag,
            dma: self.dma,
            dma_active: self.dma_active,
            dma_start_clock: self.dma_start_clock,
            dma_progress: self.dma_progress,
            interrupt_enabled: self.interrupt_enabled,
            v_blank_trigger: self.v_blank_trigger,
        }
    }
}

/// The machine's structural invariant: memory sizes, component invariants,
/// nobody ahead of the shared clock, and a sane transfer engine.
pub open spec fn gb_wf(s: GameBoyV) -> bool {
    &&& s.wram.len() == 0x2000
    &&& s.hram.len() == 0x7F
    &&& (s.boot_rom is Some ==> s.boot_rom->0.len() == 0x100)
    &&& (s.boot_rom_active ==> s.boot_rom is Some)
    &&& cart_wf(s.cartridge)
    &&& ppu_wf(s.ppu)
    &&& snd_wf(s.sound)
    &&& s.timer.last_clock_count <= s.clock_count
    &&& s.ppu.last_clock <= s.clock_count
    &&& s.sound.last_clock <= s.clock_count
    &&& s.dma_progress <= 160
    &&& (s.dma_active ==> s.dma_start_clock <= s.clock_count && s.dma_progress <= (s.clock_count
        - s.dma_start_clock) / 4)
}

/// The value on the P1 joypad port: the two select bits choose which key
/// nibble is visible; with neither selected all keys read released.
pub open spec fn spec_joypad_read(joypad_io: u8, joypad: u8) -> u8 {
    let v = joypad_io & 0x30;
    let r = v | 0b1100_0000;
    let r1 = if v & 0x10 != 0 {
        r | ((joypad >> 4) & 0x0F)
    } else {
        r
    };
    let r2 = if v & 0x20 != 0 {
        r1 | (joypad & 0x0F)
    } else {
        r1
    };
    if v == 0 {
        r2 | 0x0F
    } else {
        r2
    }
}

/// Whether the low byte of an I/O address decodes to a sound register.
pub open spec fn spec_apu_reg(lo: u8) -> bool {
    (0x10 <= lo && lo <= 0x14) || (0x16 <= lo && lo <= 0x1E) || (0x20 <= lo && lo <= 0x26) || (
    0x30 <= lo && lo <= 0x3F)
}

/// An I/O register read, by the low byte of the address. The lazy sound
/// unit answers as of the shared clock: a sound-register read sees the
/// caught-up registers.
pub open spec fn spec_io_read(s: GameBoyV, lo: u8) -> u8 {
    if lo == 0x00 {
        spec_joypad_read(s.joypad_io, s.joypad)
    } else if lo == 0x01 {
        s.serial_data
    } else if lo == 0x02 {
        s.serial_control
    } else if lo == 0x03 {
        0xFF
    } else if 0x04 <= lo && lo <= 0x07 {
        spec_timer_read(s.timer, lo)
    } else if 0x08 <= lo && lo <= 0x0E {
        0xFF
    } else if lo == 0x0F {
        s.interrupt_flag | 0xE0
    } else if spec_apu_reg(lo) {
        spec_apu_read(spec_apu_update(s.sound, s.clock_count), lo)
    } else if lo == 0x15 || lo == 0x1F || (0x27 <= lo && lo <= 0x2F) {
        0xFF
    } else if (0x40 <= lo && lo <= 0x45) || (0x47 <= lo && lo <= 0x4B) {
        spec_ppu_reg_read(s.ppu, lo)
    } else if lo == 0x46 {
        s.dma
    } else if 0x4C <= lo && lo <= 0x7F {
        0xFF
    } else if 0x80 <= lo && lo <= 0xFE {
        s.hram[lo - 0x80]
    } else {
        s.interrupt_enabled
    }
}

/// A bus read. While a transfer runs, only high RAM answers; the boot
/// overlay shadows the first page while active; 0xE000-0xFDFF folds onto
/// work RAM; 0xFEA0-0xFEFF is open bus.
pub open spec fn spec_gb_read(s: GameBoyV, address: u16) -> u8 {
    if s.dma_active && !(0xFF80 <= address && address <= 0xFFFE) {
        0xFF
    } else if s.boot_rom_active && address < 0x100 {
        match s.boot_rom {
            Some(b) => b[address as int],
            None => 0xFF,
        }
    } else {
        let a = if 0xE000 <= address && address <= 0xFDFF {
            (address - 0x2000) as u16
        } else {
            address
        };
        if a < 0x8000 {
            spec_cart_read(s.cartridge, a)
        } else if a < 0xA000 {
            spec_vram_read(s.ppu, a)
        } else if a < 0xC000 {
            spec_cart_read(s.cartridge, a)
        } else if a < 0xE000 {
            s.wram[a - 0xC000]
        } else if a < 0xFEA0 {
            spec_oam_read(s.ppu, a)
        } else if a < 0xFF00 {
            0xFF
        } else if a < 0xFF80 {
            spec_io_read(s, (a - 0xFF00) as u8)
        } else if a < 0xFFFF {
            s.hram[a - 0xFF80]
        } else {
            spec_io_read(s, 0xFF)
        }
    }
}

/// The machine after an I/O register read: identical, except that a read
/// of a sound register first catches the lazy sound unit up to the shared
/// clock.
pub open spec fn spec_io_read_sync(s: GameBoyV, lo: u8) -> GameBoyV {
    if spec_apu_reg(lo) {
        GameBoyV { sound: spec_apu_update(s.sound, s.clock_count), ..s }
    } else {
        s
    }
}

/// The machine after a bus read: identical, except that a read decoded to
/// a sound register catches the lazy sound unit up to the shared clock.
/// That catch-up changes what no read returns (`lemma_read_sync_read`).
pub open spec fn spec_gb_read_sync(s: GameBoyV, address: u16) -> GameBoyV {
    if s.dma_active && !(0xFF80 <= address && address <= 0xFFFE) {
        s
    } else if s.boot_rom_active && address < 0x100 {
        s
    } else if 0xFF00 <= address && address < 0xFF80 {
        spec_io_read_sync(s, (address - 0xFF00) as u8)
    } else {
        s
    }
}

/// A bus read is observationally pure: the lazy sound catch-up it may
/// perform leaves every byte that any later read returns exactly where the
/// catch-up itself put it, so two machines that differ only by a read's
/// catch-up answer every read alike.
pub proof fn lemma_read_sync_read(s: GameBoyV, a1: u16, a2: u16)
    ensures
        spec_gb_read(spec_gb_read_sync(s, a1), a2) == spec_gb_read(s, a2),
{
    let s1 = spec_gb_read_sync(s, a1);
    if s1 != s {
        assert(s1.sound == spec_apu_update(s.sound, s.clock_count));
        assert(s1.sound.last_clock == s.clock_count);
        if 0xFF00 <= a2 && a2 < 0xFF80 {
            crate::sound_controller::lemma_apu_update_read_stable(
                s1.sound,
                s.clock_count,
                (a2 - 0xFF00) as u8,
            );
        }
    }
}

/// When a write to SC starts a transfer: bit 7 (start) and bit 0
/// (internal clock) both set.
pub open spec fn spec_serial_starts(value: u8) -> bool {
    value & 0x81 == 0x81
}

/// The 2^13 Hz tick on which a transfer starting now is anchored.
pub open spec fn spec_serial_start_tick(clock_count: u64) -> u64 {
    ((clock_count + SERIAL_OFFSET) / 512) as u64
}

/// An I/O register write, by the low byte of the address.
pub open spec fn spec_io_write(s: GameBoyV, lo: u8, value: u8) -> GameBoyV {
    if lo == 0x00 {
        GameBoyV { joypad_io: 0b1100_1111 | (value & 0x30), ..s }
    } else if lo == 0x01 {
        GameBoyV { serial_data: value, ..s }
    } else if lo == 0x02 {
        let s1 = GameBoyV { serial_control: value | 0x7E, ..s };
        if spec_serial_starts(value) {
            GameBoyV {
                serial_transfer_started: spec_serial_start_tick(s.clock_count),
                serial_out: s.serial_out.push(s.serial_data),
                ..s1
            }
        } else {
            s1
        }
    } else if 0x04 <= lo && lo <= 0x07 {
        GameBoyV { timer: spec_timer_write(s.timer, lo, value), ..s }
    } else if lo == 0x0F {
        GameBoyV { interrupt_flag: value, ..s }
    } else if (0x10 <= lo && lo <= 0x14) || (0x16 <= lo && lo <= 0x1E) || (0x20 <= lo && lo
        <= 0x26) || (0x30 <= lo && lo <= 0x3F) {
        GameBoyV { sound: spec_apu_write(s.sound, s.clock_count, lo, value), ..s }
    } else if (0x40 <= lo && lo <= 0x45) || (0x47 <= lo && lo <= 0x4B) {
        GameBoyV { ppu: spec_ppu_reg_write(s.ppu, lo, value), ..s }
    } else if lo == 0x46 {
        GameBoyV { dma: value, dma_active: true, dma_start_clock: s.clock_count, dma_progress: 0, ..s }
    } else if lo == 0x50 {
        if s.boot_rom_active && value & 1 != 0 {
            GameBoyV { boot_rom_active: false, cpu: Cpu { pc: 0x100, ..s.cpu }, ..s }
        } else {
            s
        }
    } else if 0x80 <= lo && lo <= 0xFE {
        GameBoyV { hram: s.hram.update(lo - 0x80, value), ..s }
    } else if lo == 0xFF {
        GameBoyV { interrupt_enabled: value, ..s }
    } else {
        s
    }
}

/// A bus write: dropped outside high RAM while a transfer runs, folded
/// over the 0xE000-0xFDFF mirror, then decoded like a read.
pub open spec fn spec_gb_write(s: GameBoyV, address: u16, value: u8) -> GameBoyV {
    if s.dma_active && !(0xFF80 <= address && address <= 0xFFFE) {
        s
    } else {
        let a = if 0xE000 <= address && address <= 0xFDFF {
            (address - 0x2000) as u16
        } else {
            address
        };
        if a < 0x8000 {
            GameBoyV { cartridge: spec_cart_write(s.cartridge, a, value), ..s }
        } else if a < 0xA000 {
            GameBoyV { ppu: spec_vram_write(s.ppu, a, value), ..s }
        } else if a < 0xC000 {
            GameBoyV { cartridge: spec_cart_write(s.cartridge, a, value), ..s }
        } else if a < 0xE000 {
            GameBoyV { wram: s.wram.update(a - 0xC000, value), ..s }
        } else if a < 0xFEA0 {
            GameBoyV { ppu: spec_oam_write(s.ppu, a, value), ..s }
        } else if a < 0xFF00 {
            s
        } else if a < 0xFF80 {
            spec_io_write(s, (a - 0xFF00) as u8, value)
        } else if a < 0xFFFF {
            GameBoyV { hram: s.hram.update(a - 0xFF80, value), ..s }
        } else {
            spec_io_write(s, 0xFF, value)
        }
    }
}

/// The byte the transfer engine fetches at offset `i` of the source page.
/// The overlays the CPU sees (boot page, mode gating, open bus) do not
/// apply; the mirror fold does.
pub open spec fn spec_dma_source(s: GameBoyV, i: int) -> u8 {
    let a = s.dma * 256 + i;
    if a < 0x8000 {
        spec_cart_read(s.cartridge, a as u16)
    } else if a < 0xA000 {
        s.ppu.vram[a - 0x8000]
    } else if a < 0xC000 {
        spec_cart_read(s.cartridge, a as u16)
    } else if a < 0xE000 {
        s.wram[a - 0xC000]
    } else if a < 0xFE00 {
        s.wram[a - 0xE000]
    } else {
        0xFF
    }
}

/// Catch the transfer engine up to the clock: one source byte lands in
/// object memory per four T-cycles until 160 are done.
pub open spec fn spec_dma_step(s: GameBoyV) -> GameBoyV {
    if !s.dma_active {
        s
    } else {
        let bytes = (s.clock_count - s.dma_start_clock) / 4;
        let m = if bytes >= 160 {
            160int
        } else {
            bytes as int
        };
        let oam2 = Seq::new(
            s.ppu.oam.len(),
            |j: int|
                if s.dma_progress <= j < m {
                    spec_dma_source(s, j)
                } else {
                    s.ppu.oam[j]
                },
        );
        GameBoyV {
            ppu: PpuV { oam: oam2, ..s.ppu },
            dma_progress: m as u8,
            dma_active: m < 160,
            ..s
        }
    }
}

/// The address one past `a`, wrapping around the 16-bit bus.
pub open spec fn spec_addr_next(a: u16) -> u16 {
    if a == 0xFFFF {
        0
    } else {
        (a + 1) as u16
    }
}

/// Whether a running transfer completes strictly before the given tick:
/// eight bit-periods of the 2^13 Hz clock after the start tick.
pub open spec fn spec_serial_done(started: u64, clock_count: u64) -> bool {
    started + 7 < (clock_count + SERIAL_OFFSET) / 512
}

/// Advance the shared clock by `count` T-cycles, then catch up the
/// transfer engine, the picture unit, the timer and the serial port,
/// raising their interrupt flags.
pub open spec fn spec_gb_tick(s: GameBoyV, count: u8) -> GameBoyV {
    let clock = (s.clock_count + count) as u64;
    let s1 = spec_dma_step(GameBoyV { clock_count: clock, ..s });
    let pr = spec_ppu_run(s1.ppu, clock);
    let if1 = if pr.2 {
        s1.interrupt_flag | 2
    } else {
        s1.interrupt_flag
    };
    let if2 = if pr.1 {
        if1 | 1
    } else {
        if1
    };
    let vbt = s1.v_blank_trigger || pr.1;
    let tr = spec_timer_run(s1.timer, clock);
    let if3 = if tr.1 {
        if2 | 4
    } else {
        if2
    };
    let s2 = GameBoyV {
        ppu: pr.0,
        timer: tr.0,
        interrupt_flag: if3,
        v_blank_trigger: vbt,
        ..s1
    };
    if s2.serial_transfer_started != 0 && spec_serial_done(s2.serial_transfer_started, clock) {
        GameBoyV {
            interrupt_flag: s2.interrupt_flag | 8,
            serial_control: s2.serial_control & 0x7F,
            serial_transfer_started: 0,
            ..s2
        }
    } else {
        s2
    }
}

/// High RAM of the post-boot fingerprint: three scratch bytes the boot
/// ROM leaves behind, the rest cleared.
pub open spec fn spec_hram_after_boot() -> Seq<u8> {
    Seq::new(
        0x7F,
        |i: int|
            if i == 0x7a {
                0x39u8
            } else if i == 0x7b {
                0x01u8
            } else if i == 0x7c {
                0x2eu8
            } else {
                0u8
            },
    )
}

/// The post-boot fingerprint applied over a machine: register values,
/// memories and component states as the boot ROM leaves them, with
/// `clock_count` at its documented value.
pub open spec fn spec_after_boot_fields(s: GameBoyV) -> GameBoyV {
    GameBoyV {
        cpu: Cpu::spec_after_boot(),
        wram: Seq::new(0x2000, |i: int| 0u8),
        hram: spec_hram_after_boot(),
        boot_rom_active: false,
        clock_count: POST_BOOT_CLOCK,
        timer: Timer::spec_after_boot(POST_BOOT_CLOCK),
        sound: SoundController::spec_after_boot(POST_BOOT_CLOCK),
        ppu: Ppu::spec_after_boot(POST_BOOT_CLOCK),
        joypad: 0xFF,
        joypad_io: 0xCF,
        serial_data: 0x00,
        serial_control: 0x7E,
        interrupt_flag: 0xE1,
        dma_active: false,
        dma_start_clock: 0,
        dma_progress: 0,
        ..s
    }
}

/// A machine fresh from power-on with the given boot overlay and
/// cartridge; without an overlay it starts at the post-boot fingerprint.
pub open spec fn spec_power_on(boot: Option<Seq<u8>>, cart: CartridgeV) -> GameBoyV {
    let base = GameBoyV {
        cpu: Cpu::spec_default(),
        cartridge: cart,
        wram: Seq::new(0x2000, |i: int| 0u8),
        hram: Seq::new(0x7F, |i: int| 0u8),
        boot_rom: boot,
        boot_rom_active: true,
        clock_count: 0,
        timer: Timer::spec_new(),
        sound: SoundController::spec_default(),
        ppu: Ppu::spec_new(),
        joypad: 0xFF,
        joypad_io: 0x00,
        serial_data: 0,
        serial_control: 0x7E,
        serial_transfer_started: 0,
        serial_out: Seq::empty(),
        interrupt_flag: 0,
        dma: 0xFF,
        dma_active: false,
        dma_start_clock: 0,
        dma_progress: 0,
        interrupt_enabled: 0,
        v_blank_trigger: false,
    };
    if boot is None {
        spec_after_boot_fields(base)
    } else {
        base
    }
}

/// A reset back to the starting state: with a boot overlay the machine
/// restarts at power-on; without one it restarts at the post-boot
/// fingerprint. The cartridge and the host-facing queues keep their state.
pub open spec fn spec_reset(s: GameBoyV) -> GameBoyV {
    if s.boot_rom is None {
        spec_after_boot_fields(s)
    } else {
        GameBoyV {
            cpu: Cpu::spec_default(),
            wram: Seq::new(0x2000, |i: int| 0u8),
            hram: Seq::new(0x7F, |i: int| 0u8),
            boot_rom_active: true,
            clock_count: 0,
            timer: Timer::spec_new(),
            sound: SoundController::spec_default(),
            ppu: Ppu::spec_new(),
            joypad: 0xFF,
            joypad_io: 0x00,
            dma_active: false,
            dma_start_clock: 0,
            dma_progress: 0,
            ..s
        }
    }
}

impl GameBoy {
    /// Power the machine on around a cartridge, with or without a boot
    /// overlay.
    pub fn new(boot_rom: Option<Vec<u8>>, cartridge: Cartridge) -> (r: GameBoy)
        requires
            cart_wf(cartridge@),
            (match boot_rom {
                Some(b) => b@.len() == 0x100,
                None => true,
            }),
        ensures
            r@ == spec_power_on(
                match boot_rom {
                    Some(b) => Some(b@),
                    None => None,
                },
                cartridge@,
            ),
            gb_wf(r@),
    {
        let has_boot = boot_rom.is_some();
        let mut this = GameBoy {
            cpu: Cpu::default(),
            cartridge,
            wram: crate::bits::zero_vec(0x2000),
            hram: crate::bits::zero_vec(0x7F),
            boot_rom,
            boot_rom_active: true,
            clock_count: 0,
            timer: Timer::new(),
            sound: SoundController::default(),
            ppu: Ppu::new(),
            joypad: 0xFF,
            joypad_io: 0x00,
            serial_data: 0,
            serial_control: 0x7E,
            serial_transfer_started: 0,
            serial_out: Vec::new(),
            interrupt_flag: 0,
            dma: 0xFF,
            dma_active: false,
            dma_start_clock: 0,
            dma_progress: 0,
            interrupt_enabled: 0,
            v_blank_trigger: false,
        };
        if !has_boot {
            this.reset_after_boot();
        }
        assert(this@ =~= spec_power_on(
            match boot_rom {
                Some(b) => Some(b@),
                None => None,
            },
            cartridge@,
        ));
        this
    }

    /// Reset to the starting state.
    pub fn reset(&mut self)
        requires
            gb_wf(old(self)@),
        ensures
            final(self)@ == spec_reset(old(self)@),
            gb_wf(final(self)@),
    {
        if self.boot_rom.is_none() {
            self.reset_after_boot();
            return ;
        }
        self.cpu = Cpu::default();
        self.wram = crate::bits::zero_vec(0x2000);
        self.hram = crate::bits::zero_vec(0x7F);
        self.boot_rom_active = true;
        self.clock_count = 0;
        self.timer = Timer::new();
        self.sound = SoundController::default();
        self.ppu = Ppu::new();
        self.joypad = 0xFF;
        self.joypad_io = 0x00;
        self.dma_active = false;
        self.dma_start_clock = 0;
        self.dma_progress = 0;
        assert(self@ =~= spec_reset(old(self)@));
    }

    /// Reset to the post-boot fingerprint: the machine state at the moment
    /// the boot ROM hands control to the cartridge.
    pub fn reset_after_boot(&mut self)
        ensures
            final(self)@ == spec_after_boot_fields(old(self)@),
            gb_wf(final(self)@) == (cart_wf(old(self)@.cartridge) && (old(self)@.boot_rom is Some
                ==> old(self)@.boot_rom->0.len() == 0x100)),
    {
        self.cpu = Cpu::after_boot();
        self.wram = crate::bits::zero_vec(0x2000);
        let mut hram = crate::bits::zero_vec(0x7F);
        hram.set(0x7a, 0x39);
        hram.set(0x7b, 0x01);
        hram.set(0x7c, 0x2e);
        self.hram = hram;
        self.boot_rom_active = false;
        self.clock_count = POST_BOOT_CLOCK;
        self.timer = Timer::after_boot(POST_BOOT_CLOCK);
        self.sound = SoundController::after_boot(POST_BOOT_CLOCK);
        self.ppu.reset_after_boot(POST_BOOT_CLOCK);
        self.joypad = 0xFF;
        self.joypad_io = 0xCF;
        self.serial_data = 0x00;
        self.serial_control = 0x7E;
        self.interrupt_flag = 0xE1;
        self.dma_active = false;
        self.dma_start_clock = 0;
        self.dma_progress = 0;
        assert(self.hram@ =~= spec_hram_after_boot());
        assert(self@ =~= spec_after_boot_fields(old(self)@));
    }

    /// A bus read. The byte returned is the decoded value as of the shared
    /// clock; the only state a read moves is the lazy sound unit, which a
    /// sound-register read first catches up to the clock.
    pub fn read(&mut self, address: u16) -> (r: u8)
        requires
            gb_wf(old(self)@),
        ensures
            r == spec_gb_read(old(self)@, address),
            final(self)@ == spec_gb_read_sync(old(self)@, address),
            gb_wf(final(self)@),
            final(self)@.clock_count == old(self)@.clock_count,
    {
        if self.dma_active && !(0xFF80 <= address && address <= 0xFFFE) {
            return 0xFF;
        }
        if self.boot_rom_active && address < 0x100 {
            return match &self.boot_rom {
                Some(b) => b[address as usize],
                None => 0xFF,
            };
        }
        let a = if 0xE000 <= address && address <= 0xFDFF {
            address - 0x2000
        } else {
            address
        };
        if a < 0x8000 {
            self.cartridge.read(a)
        } else if a < 0xA000 {
            self.ppu.read_vram(a)
        } else if a < 0xC000 {
            self.cartridge.read(a)
        } else if a < 0xE000 {
            self.wram[(a - 0xC000) as usize]
        } else if a < 0xFEA0 {
            self.ppu.read_oam(a)
        } else if a < 0xFF00 {
            0xFF
        } else if a < 0xFF80 {
            self.read_io((a - 0xFF00) as u8)
        } else if a < 0xFFFF {
            self.hram[(a - 0xFF80) as usize]
        } else {
            self.read_io(0xFF)
        }
    }

    /// An I/O register read (low byte of the address). A sound-register
    /// read first catches the lazy sound unit up to the shared clock.
    fn read_io(&mut self, lo: u8) -> (r: u8)
        requires
            gb_wf(old(self)@),
        ensures
            r == spec_io_read(old(self)@, lo),
            final(self)@ == spec_io_read_sync(old(self)@, lo),
            gb_wf(final(self)@),
            final(self)@.clock_count == old(self)@.clock_count,
    {
        if lo == 0x00 {
            let v = self.joypad_io & 0x30;
            let mut r = v | 0b1100_0000;
            if v & 0x10 != 0 {
                r = r | ((self.joypad >> 4) & 0x0F);
            }
            if v & 0x20 != 0 {
                r = r | (self.joypad & 0x0F);
            }
            if v == 0 {
                r = r | 0x0F;
            }
            r
        } else if lo == 0x01 {
            self.serial_data
        } else if lo == 0x02 {
            self.serial_control
        } else if lo == 0x03 {
            0xFF
        } else if 0x04 <= lo && lo <= 0x07 {
            self.timer.read(lo)
        } else if 0x08 <= lo && lo <= 0x0E {
            0xFF
        } else if lo == 0x0F {
            self.interrupt_flag | 0xE0
        } else if (0x10 <= lo && lo <= 0x14) || (0x16 <= lo && lo <= 0x1E) || (0x20 <= lo && lo
            <= 0x26) || (0x30 <= lo && lo <= 0x3F) {
            let clock = self.clock_count;
            let r = self.sound.read(clock, lo);
            assert(self@ =~= spec_io_read_sync(old(self)@, lo));
            r
        } else if lo == 0x15 || lo == 0x1F || (0x27 <= lo && lo <= 0x2F) {
            0xFF
        } else if (0x40 <= lo && lo <= 0x45) || (0x47 <= lo && lo <= 0x4B) {
            self.ppu.reg_read(lo)
        } else if lo == 0x46 {
            self.dma
        } else if 0x4C <= lo && lo <= 0x7F {
            0xFF
        } else if 0x80 <= lo && lo <= 0xFE {
            self.hram[(lo - 0x80) as usize]
        } else {
            self.interrupt_enabled
        }
    }

    /// A bus write. Leaves the clock alone and changes exactly the decoded
    /// target.
    pub fn write(&mut self, address: u16, value: u8)
        requires
            gb_wf(old(self)@),
        ensures
            final(self)@ == spec_gb_write(old(self)@, address, value),
            gb_wf(final(self)@),
            final(self)@.clock_count == old(self)@.clock_count,
    {
        if self.dma_active && !(0xFF80 <= address && address <= 0xFFFE) {
            return ;
        }
        let a = if 0xE000 <= address && address <= 0xFDFF {
            address - 0x2000
        } else {
            address
        };
        if a < 0x8000 {
            self.cartridge.write(a, value);
        } else if a < 0xA000 {
            self.ppu.write_vram(a, value);
        } else if a < 0xC000 {
            self.cartridge.write(a, value);
        } else if a < 0xE000 {
            self.wram.set((a - 0xC000) as usize, value);
        } else if a < 0xFEA0 {
            self.ppu.write_oam(a, value);
        } else if a < 0xFF00 {
        } else if a < 0xFF80 {
            self.write_io((a - 0xFF00) as u8, value);
        } else if a < 0xFFFF {
            self.hram.set((a - 0xFF80) as usize, value);
        } else {
            self.write_io(0xFF, value);
        }
        assert(self@ =~= spec_gb_write(old(self)@, address, value));
    }

    /// An I/O register write (low byte of the address).
    fn write_io(&mut self, lo: u8, value: u8)
        requires
            gb_wf(old(self)@),
        ensures
            final(self)@ == spec_io_write(old(self)@, lo, value),
            gb_wf(final(self)@),
            final(self)@.clock_count == old(self)@.clock_count,
    {
        if lo == 0x00 {
            self.joypad_io = 0b1100_1111 | (value & 0x30);
        } else if lo == 0x01 {
            self.serial_data = value;
        } else if lo == 0x02 {
            self.serial_control = value | 0x7E;
            if value & 0x81 == 0x81 {
                let tick128: u128 = ((self.clock_count as u128) + (SERIAL_OFFSET as u128)) / 512;
                self.serial_transfer_started = tick128 as u64;
                let d = self.serial_data;
                self.serial_out.push(d);
            }
        } else if 0x04 <= lo && lo <= 0x07 {
            self.timer.write(lo, value);
        } else if lo == 0x0F {
            self.interrupt_flag = value;
        } else if (0x10 <= lo && lo <= 0x14) || (0x16 <= lo && lo <= 0x1E) || (0x20 <= lo && lo
            <= 0x26) || (0x30 <= lo && lo <= 0x3F) {
            let clock = self.clock_count;
            self.sound.write(clock, lo, value);
        } else if (0x40 <= lo && lo <= 0x45) || (0x47 <= lo && lo <= 0x4B) {
            self.ppu.reg_write(lo, value);
        } else if lo == 0x46 {
            self.dma = value;
            self.dma_active = true;
            self.dma_start_clock = self.clock_count;
            self.dma_progress = 0;
        } else if lo == 0x50 {
            if self.boot_rom_active && value & 1 != 0 {
                self.boot_rom_active = false;
                self.cpu.pc = 0x100;
            }
        } else if 0x80 <= lo && lo <= 0xFE {
            self.hram.set((lo - 0x80) as usize, value);
        } else if lo == 0xFF {
            self.interrupt_enabled = value;
        }
        assert(self@ =~= spec_io_write(old(self)@, lo, value));
    }

    /// One transfer-engine byte fetch.
    fn dma_source(&self, i: u8) -> (r: u8)
        requires
            gb_wf(self@),
            i < 160,
        ensures
            r == spec_dma_source(self@, i as int),
    {
        let a = (self.dma as u16) * 256 + (i as u16);
        if a < 0x8000 {
            self.cartridge.read(a)
        } else if a < 0xA000 {
            self.ppu.vram[(a - 0x8000) as usize]
        } else if a < 0xC000 {
            self.cartridge.read(a)
        } else if a < 0xE000 {
            self.wram[(a - 0xC000) as usize]
        } else if a < 0xFE00 {
            self.wram[(a - 0xE000) as usize]
        } else {
            0xFF
        }
    }

    /// Catch the transfer engine up to the clock.
    fn dma_step(&mut self)
        requires
            gb_wf(old(self)@),
        ensures
            final(self)@ == spec_dma_step(old(self)@),
            gb_wf(final(self)@),
    {
        if !self.dma_active {
            return ;
        }
        let bytes = (self.clock_count - self.dma_start_clock) / 4;
        let m: u8 = if bytes >= 160 {
            160
        } else {
            bytes as u8
        };
        let ghost g0 = self@;
        let mut j = self.dma_progress;
        while j < m
            invariant
                gb_wf(g0),
                g0.dma_active,
                g0.dma_progress <= j <= m <= 160,
                self@ == (GameBoyV {
                    ppu: PpuV {
                        oam: Seq::new(
                            0xA0,
                            |k: int|
                                if g0.dma_progress <= k < j {
                                    spec_dma_source(g0, k)
                                } else {
                                    g0.ppu.oam[k]
                                },
                        ),
                        ..g0.ppu
                    },
                    ..g0
                }),
            decreases m - j,
        {
            let b = self.dma_source(j);
            proof {
                assert(spec_dma_source(self@, j as int) == spec_dma_source(g0, j as int));
            }
            self.ppu.dma_store(j as usize, b);
            j = j + 1;
            assert(self@ =~= (GameBoyV {
                ppu: PpuV {
                    oam: Seq::new(
                        0xA0,
                        |k: int|
                            if g0.dma_progress <= k < j {
                                spec_dma_source(g0, k)
                            } else {
                                g0.ppu.oam[k]
                            },
                    ),
                    ..g0.ppu
                },
                ..g0
            }));
        }
        self.dma_progress = m;
        self.dma_active = m < 160;
        assert(self@ =~= spec_dma_step(g0));
    }

    /// Advance the clock by `count` T-cycles and catch the components up.
    pub fn tick(&mut self, count: u8)
        requires
            gb_wf(old(self)@),
            old(self)@.clock_count + count <= u64::MAX,
        ensures
            final(self)@ == spec_gb_tick(old(self)@, count),
            gb_wf(final(self)@),
            final(self)@.clock_count == old(self)@.clock_count + count,
    {
        self.clock_count = self.clock_count + count as u64;
        self.dma_step();
        let clock = self.clock_count;
        let pr = self.ppu.update(clock);
        if pr.1 {
            self.interrupt_flag = self.interrupt_flag | 2;
        }
        if pr.0 {
            self.interrupt_flag = self.interrupt_flag | 1;
            self.v_blank_trigger = true;
        }
        let tirq = self.timer.update(clock);
        if tirq {
            self.interrupt_flag = self.interrupt_flag | 4;
        }
        let done128: u128 = ((self.clock_count as u128) + (SERIAL_OFFSET as u128)) / 512;
        if self.serial_transfer_started != 0 && (self.serial_transfer_started as u128) + 7
            < done128 {
            self.interrupt_flag = self.interrupt_flag | 8;
            self.serial_control = self.serial_control & 0x7F;
            self.serial_transfer_started = 0;
        }
        assert(self@ =~= spec_gb_tick(old(self)@, count));
    }

    /// Two bus reads assembled little-endian. Each byte reads as it would
    /// alone: the first read's sound catch-up changes nothing the second
    /// returns.
    pub fn read16(&mut self, address: u16) -> (r: u16)
        requires
            gb_wf(old(self)@),
        ensures
            r == spec_gb_read(old(self)@, address) + 256 * spec_gb_read(
                old(self)@,
                spec_addr_next(address),
            ),
            final(self)@ == spec_gb_read_sync(
                spec_gb_read_sync(old(self)@, address),
                spec_addr_next(address),
            ),
            gb_wf(final(self)@),
            final(self)@.clock_count == old(self)@.clock_count,
    {
        let lo = self.read(address);
        let next = if address == 0xFFFF {
            0
        } else {
            address + 1
        };
        proof {
            lemma_read_sync_read(old(self)@, address, next);
        }
        let hi = self.read(next);
        (lo as u16) + 256 * (hi as u16)
    }

    /// Two bus writes, low byte first.
    pub fn write16(&mut self, address: u16, value: u16)
        requires
            gb_wf(old(self)@),
        ensures
            final(self)@ == spec_gb_write(
                spec_gb_write(old(self)@, address, (value & 0xFF) as u8),
                spec_addr_next(address),
                (value >> 8) as u8,
            ),
            gb_wf(final(self)@),
    {
        self.write(address, (value & 0xFF) as u8);
        let next = if address == 0xFFFF {
            0
        } else {
            address + 1
        };
        self.write(next, (value >> 8) as u8);
    }

    /// Poll and clear the vertical-blank signal. True exactly when a tick
    /// since the last poll entered vertical blank: the host presents a
    /// frame then.
    pub fn call_v_blank_callback(&mut self) -> (r: bool)
        ensures
            r == old(self)@.v_blank_trigger,
            final(self)@ == (GameBoyV { v_blank_trigger: false, ..old(self)@ }),
    {
        let r = self.v_blank_trigger;
        self.v_blank_trigger = false;
        assert(self@ =~= (GameBoyV { v_blank_trigger: false, ..old(self)@ }));
        r
    }

    /// Drain the sound unit's generated samples after catching it up to
    /// the shared clock.
    pub fn audio_drain(&mut self) -> (r: Vec<u16>)
        requires
            gb_wf(old(self)@),
        ensures
            r@ == spec_apu_update(old(self)@.sound, old(self)@.clock_count).output,
            final(self)@ == (GameBoyV {
                sound: SoundV {
                    output: Seq::empty(),
                    ..spec_apu_update(old(self)@.sound, old(self)@.clock_count)
                },
                ..old(self)@
            }),
            gb_wf(final(self)@),
    {
        let clock = self.clock_count;
        let r = self.sound.get_output(clock);
        assert(self@ =~= (GameBoyV {
            sound: SoundV {
                output: Seq::empty(),
                ..spec_apu_update(old(self)@.sound, old(self)@.clock_count)
            },
            ..old(self)@
        }));
        r
    }
}

} // verus!
