//! The save-state codec: a stable byte format for the whole machine.
//!
//! The blob is `magic "GBRS", a big-endian u32 version, then every core
//! field in declared order, big-endian`. The cartridge ROM, the boot
//! overlay, the host sample rate and the two host-facing queues are not
//! part of the state: a blob is restored into a machine holding the same
//! cartridge. Loading validates everything and leaves the machine
//! untouched on any error.

use vstd::prelude::*;

use crate::cartridge::{cart_wf, Cartridge, CartridgeV, Mbc};
use crate::consts::CLOCK_SPEED;
use crate::cpu::{Cpu, CpuState, Flags, ImeState};
use crate::gameboy::{gb_wf, GameBoy, GameBoyV};
use crate::ppu::{Ppu, PpuV};
use crate::sound_controller::{SoundController, SoundV};
use crate::timer::Timer;

verus! {

/// Why a blob was rejected. The machine is unchanged in every case.
#[derive(Clone, Copy, PartialEq, Eq, Structural, Debug)]
pub enum LoadStateError {
    /// The blob does not begin with the magic tag.
    BadMagic,
    /// The version word names a format this codec does not speak.
    UnsupportedVersion,
    /// The blob ends before the state does.
    Truncated,
    /// The blob has trailing bytes, or a field holds an impossible value.
    Corrupt,
}

/// The current format version.
pub const STATE_VERSION: u32 = 1;

/// Fixed length of everything but the cartridge RAM.
pub const STATE_FIXED_LEN: usize = 16859;

pub open spec fn spec_magic() -> Seq<u8> {
    seq![0x47u8, 0x42u8, 0x52u8, 0x53u8]
}

pub open spec fn be16(v: u16) -> Seq<u8> {
    seq![(v / 256) as u8, (v % 256) as u8]
}

pub open spec fn be32(v: u32) -> Seq<u8> {
    be16((v / 0x10000) as u16) + be16((v % 0x10000) as u16)
}

pub open spec fn be64(v: u64) -> Seq<u8> {
    be32((v / 0x1_0000_0000) as u32) + be32((v % 0x1_0000_0000) as u32)
}

pub open spec fn bool_byte(b: bool) -> u8 {
    if b {
        1
    } else {
        0
    }
}

pub open spec fn ime_byte(i: ImeState) -> u8 {
    match i {
        ImeState::Disabled => 0,
        ImeState::ToBeEnabled => 1,
        ImeState::Enabled => 2,
    }
}

pub open spec fn cpu_state_byte(s: CpuState) -> u8 {
    match s {
        CpuState::Running => 0,
        CpuState::Halted => 1,
        CpuState::Stopped => 2,
        CpuState::HaltBug => 3,
    }
}

/// The 16-bit word stored big-endian at `i`.
pub open spec fn spec_u16_at(d: Seq<u8>, i: int) -> u16 {
    (d[i] * 256 + d[i + 1]) as u16
}

/// The 32-bit word stored big-endian at `i`.
pub open spec fn spec_u32_at(d: Seq<u8>, i: int) -> u32 {
    (spec_u16_at(d, i) * 0x10000 + spec_u16_at(d, i + 2)) as u32
}

/// The 64-bit word stored big-endian at `i`.
pub open spec fn spec_u64_at(d: Seq<u8>, i: int) -> u64 {
    (spec_u32_at(d, i) * 0x1_0000_0000 + spec_u32_at(d, i + 4)) as u64
}

pub proof fn lemma_be16_at(d: Seq<u8>, i: int, v: u16)
    requires
        0 <= i,
        i + 2 <= d.len(),
        d.subrange(i, i + 2) == be16(v),
    ensures
        spec_u16_at(d, i) == v,
{
    assert(d[i] == d.subrange(i, i + 2)[0]);
    assert(d[i + 1] == d.subrange(i, i + 2)[1]);
    vstd::arithmetic::div_mod::lemma_fundamental_div_mod(v as int, 256);
}

pub proof fn lemma_be32_at(d: Seq<u8>, i: int, v: u32)
    requires
        0 <= i,
        i + 4 <= d.len(),
        d.subrange(i, i + 4) == be32(v),
    ensures
        spec_u32_at(d, i) == v,
{
    assert(d.subrange(i, i + 2) =~= d.subrange(i, i + 4).subrange(0, 2));
    assert(d.subrange(i + 2, i + 4) =~= d.subrange(i, i + 4).subrange(2, 4));
    assert(d.subrange(i, i + 4).subrange(0, 2) =~= be16((v / 0x10000) as u16));
    assert(d.subrange(i, i + 4).subrange(2, 4) =~= be16((v % 0x10000) as u16));
    lemma_be16_at(d, i, (v / 0x10000) as u16);
    lemma_be16_at(d, i + 2, (v % 0x10000) as u16);
    vstd::arithmetic::div_mod::lemma_fundamental_div_mod(v as int, 0x10000);
}

pub proof fn lemma_be64_at(d: Seq<u8>, i: int, v: u64)
    requires
        0 <= i,
        i + 8 <= d.len(),
        d.subrange(i, i + 8) == be64(v),
    ensures
        spec_u64_at(d, i) == v,
{
    assert(d.subrange(i, i + 4) =~= d.subrange(i, i + 8).subrange(0, 4));
    assert(d.subrange(i + 4, i + 8) =~= d.subrange(i, i + 8).subrange(4, 8));
    assert(d.subrange(i, i + 8).subrange(0, 4) =~= be32((v / 0x1_0000_0000) as u32));
    assert(d.subrange(i, i + 8).subrange(4, 8) =~= be32((v % 0x1_0000_0000) as u32));
    lemma_be32_at(d, i, (v / 0x1_0000_0000) as u32);
    lemma_be32_at(d, i + 4, (v % 0x1_0000_0000) as u32);
    vstd::arithmetic::div_mod::lemma_fundamental_div_mod(v as int, 0x1_0000_0000);
}

fn push_u16(out: &mut Vec<u8>, v: u16)
    ensures
        final(out)@ == old(out)@ + be16(v),
{
    out.push((v / 256) as u8);
    out.push((v % 256) as u8);
    assert(out@ =~= old(out)@ + be16(v));
}

fn push_u32(out: &mut Vec<u8>, v: u32)
    ensures
        final(out)@ == old(out)@ + be32(v),
{
    push_u16(out, (v / 0x10000) as u16);
    push_u16(out, (v % 0x10000) as u16);
    assert(out@ =~= old(out)@ + be32(v));
}

fn push_u64(out: &mut Vec<u8>, v: u64)
    ensures
        final(out)@ == old(out)@ + be64(v),
{
    push_u32(out, (v / 0x1_0000_0000) as u32);
    push_u32(out, (v % 0x1_0000_0000) as u32);
    assert(out@ =~= old(out)@ + be64(v));
}

fn push_bool(out: &mut Vec<u8>, b: bool)
    ensures
        final(out)@ == old(out)@ + seq![bool_byte(b)],
{
    out.push(
        if b {
            1
        } else {
            0
        },
    );
    assert(out@ =~= old(out)@ + seq![bool_byte(b)]);
}

fn push_bytes(out: &mut Vec<u8>, data: &Vec<u8>)
    ensures
        final(out)@ == old(out)@ + data@,
{
    let mut i: usize = 0;
    while i < data.len()
        invariant
            i <= data.len(),
            out@ =~= old(out)@ + data@.subrange(0, i as int),
        decreases data.len() - i,
    {
        out.push(data[i]);
        i = i + 1;
    }
    assert(out@ =~= old(out)@ + data@);
}

/// The big-endian 16-bit word at `i`.
pub fn u16_at(d: &Vec<u8>, i: usize) -> (r: u16)
    requires
        i + 2 <= d@.len(),
    ensures
        r == spec_u16_at(d@, i as int),
{
    let n = d.len();
    (d[i] as u16) * 256 + (d[i + 1] as u16)
}

/// The big-endian 32-bit word at `i`.
pub fn u32_at(d: &Vec<u8>, i: usize) -> (r: u32)
    requires
        i + 4 <= d@.len(),
    ensures
        r == spec_u32_at(d@, i as int),
{
    let n = d.len();
    (u16_at(d, i) as u32) * 0x10000 + (u16_at(d, i + 2) as u32)
}

/// The big-endian 64-bit word at `i`.
pub fn u64_at(d: &Vec<u8>, i: usize) -> (r: u64)
    requires
        i + 8 <= d@.len(),
    ensures
        r == spec_u64_at(d@, i as int),
{
    let n = d.len();
    (u32_at(d, i) as u64) * 0x1_0000_0000 + (u32_at(d, i + 4) as u64)
}

/// A copy of `d[start..start+len]`.
pub fn copy_range(d: &Vec<u8>, start: usize, len: usize) -> (r: Vec<u8>)
    requires
        start + len <= d@.len(),
    ensures
        r@ == d@.subrange(start as int, start as int + len as int),
{
    let n = d.len();
    let mut r: Vec<u8> = Vec::new();
    let mut i: usize = 0;
    while i < len
        invariant
            i <= len,
            start + len <= n == d@.len(),
            r@ =~= d@.subrange(start as int, start as int + i as int),
        decreases len - i,
    {
        r.push(d[start + i]);
        i = i + 1;
    }
    assert(r@ =~= d@.subrange(start as int, start as int + len as int));
    r
}

pub open spec fn blk_cpu(c: Cpu) -> Seq<u8> {
    seq![c.a] + seq![c.f.0] + seq![c.b] + seq![c.c] + seq![c.d] + seq![c.e] + seq![c.h] + seq![c.l] + be16(c.sp) + be16(c.pc) + seq![ime_byte(c.ime)] + seq![cpu_state_byte(c.state)]
}

pub open spec fn blk_cart(c: CartridgeV) -> Seq<u8> {
    c.ram + seq![bool_byte(c.ram_enabled)] + seq![c.bank_lo] + seq![c.bank_hi] + seq![bool_byte(c.mode)] + seq![c.ram_bank] + seq![c.rtc_s] + seq![c.rtc_m] + seq![c.rtc_h] + seq![c.rtc_dl] + seq![c.rtc_dh] + seq![c.lat_s] + seq![c.lat_m] + seq![c.lat_h] + seq![c.lat_dl] + seq![c.lat_dh] + seq![c.rtc_latch]
}

pub open spec fn blk_mem(wram: Seq<u8>, hram: Seq<u8>, clock_count: u64) -> Seq<u8> {
    wram + hram + be64(clock_count)
}

pub open spec fn blk_timer(t: Timer) -> Seq<u8> {
    be16(t.div) + seq![t.tima] + seq![t.tma] + seq![t.tac] + seq![bool_byte(t.last_counter_bit)] + be64(t.last_clock_count) + seq![t.loading]
}

pub open spec fn blk_sound(n: SoundV) -> Seq<u8> {
    seq![n.nr10] + seq![n.nr11] + seq![n.nr12] + seq![n.nr13] + seq![n.nr14] + seq![n.nr21] + seq![n.nr22] + seq![n.nr23] + seq![n.nr24] + seq![n.nr30] + seq![n.nr31] + seq![n.nr32] + seq![n.nr33] + seq![n.nr34] + seq![n.nr41] + seq![n.nr42] + seq![n.nr43] + seq![n.nr44] + seq![n.nr50] + seq![n.nr51] + seq![n.nr52] + n.wave + seq![bool_byte(n.on)] + seq![bool_byte(n.ch1_channel_enable)] + seq![n.ch1_length_timer] + seq![bool_byte(n.ch1_sweep_enabled)] + be16(n.ch1_shadow_freq) + seq![n.ch1_sweep_timer] + be16(n.ch1_frequency_timer) + seq![n.ch1_wave_duty_position] + seq![n.ch1_current_volume] + seq![n.ch1_env_period_timer] + seq![bool_byte(n.ch2_channel_enable)] + seq![n.ch2_length_timer] + be16(n.ch2_frequency_timer) + seq![n.ch2_wave_duty_position] + seq![n.ch2_current_volume] + seq![n.ch2_env_period_timer] + seq![bool_byte(n.ch3_channel_enable)] + be16(n.ch3_length_timer) + be16(n.ch3_frequency_timer) + seq![n.ch3_wave_position] + be64(n.last_clock) + be64(n.sample_mod)
}

pub open spec fn blk_ppu(p: PpuV) -> Seq<u8> {
    p.vram + p.oam + seq![p.lcdc] + seq![p.stat] + seq![p.scy] + seq![p.scx] + seq![p.ly] + seq![p.lyc] + seq![p.bgp] + seq![p.obp0] + seq![p.obp1] + seq![p.wy] + seq![p.wx] + be16(p.dot) + seq![bool_byte(p.stat_line)] + be64(p.last_clock)
}

pub open spec fn blk_misc(s: GameBoyV) -> Seq<u8> {
    seq![s.joypad_io] + seq![s.joypad] + seq![s.serial_data] + seq![s.serial_control] + be64(s.serial_transfer_started) + seq![s.interrupt_flag] + seq![s.dma] + seq![s.interrupt_enabled] + seq![bool_byte(s.dma_active)] + be64(s.dma_start_clock) + seq![s.dma_progress] + seq![bool_byte(s.boot_rom_active)] + seq![bool_byte(s.v_blank_trigger)]
}
/// The whole machine as bytes: the magic tag, the version word, then every
/// field in declared order. The cartridge ROM, the boot overlay, the host
/// sample rate and the host-facing queues are not stored.
#[verifier::opaque]
pub open spec fn spec_save(s: GameBoyV) -> Seq<u8> {
    spec_magic() + be32(STATE_VERSION) + blk_cpu(s.cpu) + blk_cart(s.cartridge) + blk_mem(
        s.wram,
        s.hram,
        s.clock_count,
    ) + blk_timer(s.timer) + blk_sound(s.sound) + blk_ppu(s.ppu) + blk_misc(s)
}


pub open spec fn ime_of_byte(v: u8) -> ImeState {
    if v == 1 {
        ImeState::ToBeEnabled
    } else if v == 2 {
        ImeState::Enabled
    } else {
        ImeState::Disabled
    }
}

pub open spec fn cpu_state_of_byte(v: u8) -> CpuState {
    if v == 1 {
        CpuState::Halted
    } else if v == 2 {
        CpuState::Stopped
    } else if v == 3 {
        CpuState::HaltBug
    } else {
        CpuState::Running
    }
}

/// The machine encoded in a well-formed blob, restored over `g`: the
/// cartridge ROM, the controller kind, the boot overlay, the host sample
/// rate and the host-facing queues stay `g`'s own.
pub open spec fn spec_loaded_state(g: GameBoyV, d: Seq<u8>) -> GameBoyV {
    let li = g.cartridge.ram.len() as int;
    let b = 22 + li;
    GameBoyV {
        cpu: Cpu {
            a: d[8],
            f: Flags(d[9]),
            b: d[10],
            c: d[11],
            d: d[12],
            e: d[13],
            h: d[14],
            l: d[15],
            sp: spec_u16_at(d, 16),
            pc: spec_u16_at(d, 18),
            ime: ime_of_byte(d[20]),
            state: cpu_state_of_byte(d[21]),
        },
        cartridge: CartridgeV {
            rom: g.cartridge.rom,
            mbc: g.cartridge.mbc,
            ram: d.subrange(22, b),
            ram_enabled: d[b + 0] == 1,
            bank_lo: d[b + 1],
            bank_hi: d[b + 2],
            mode: d[b + 3] == 1,
            ram_bank: d[b + 4],
            rtc_s: d[b + 5],
            rtc_m: d[b + 6],
            rtc_h: d[b + 7],
            rtc_dl: d[b + 8],
            rtc_dh: d[b + 9],
            lat_s: d[b + 10],
            lat_m: d[b + 11],
            lat_h: d[b + 12],
            lat_dl: d[b + 13],
            lat_dh: d[b + 14],
            rtc_latch: d[b + 15],
        },
        wram: d.subrange(b + 16, b + 16 + 8192),
        hram: d.subrange(b + 8208, b + 8208 + 127),
        boot_rom: g.boot_rom,
        boot_rom_active: d[b + 16835] == 1,
        clock_count: spec_u64_at(d, b + 8335),
        timer: Timer {
            div: spec_u16_at(d, b + 8343),
            tima: d[b + 8345],
            tma: d[b + 8346],
            tac: d[b + 8347],
            last_counter_bit: d[b + 8348] == 1,
            last_clock_count: spec_u64_at(d, b + 8349),
            loading: d[b + 8357],
        },
        sound: SoundV {
            nr10: d[b + 8358],
            nr11: d[b + 8359],
            nr12: d[b + 8360],
            nr13: d[b + 8361],
            nr14: d[b + 8362],
            nr21: d[b + 8363],
            nr22: d[b + 8364],
            nr23: d[b + 8365],
            nr24: d[b + 8366],
            nr30: d[b + 8367],
            nr31: d[b + 8368],
            nr32: d[b + 8369],
            nr33: d[b + 8370],
            nr34: d[b + 8371],
            nr41: d[b + 8372],
            nr42: d[b + 8373],
            nr43: d[b + 8374],
            nr44: d[b + 8375],
            nr50: d[b + 8376],
            nr51: d[b + 8377],
            nr52: d[b + 8378],
            wave: d.subrange(b + 8379, b + 8379 + 16),
            on: d[b + 8395] == 1,
            ch1_channel_enable: d[b + 8396] == 1,
            ch1_length_timer: d[b + 8397],
            ch1_sweep_enabled: d[b + 8398] == 1,
            ch1_shadow_freq: spec_u16_at(d, b + 8399),
            ch1_sweep_timer: d[b + 8401],
            ch1_frequency_timer: spec_u16_at(d, b + 8402),
            ch1_wave_duty_position: d[b + 8404],
            ch1_current_volume: d[b + 8405],
            ch1_env_period_timer: d[b + 8406],
            ch2_channel_enable: d[b + 8407] == 1,
            ch2_length_timer: d[b + 8408],
            ch2_frequency_timer: spec_u16_at(d, b + 8409),
            ch2_wave_duty_position: d[b + 8411],
            ch2_current_volume: d[b + 8412],
            ch2_env_period_timer: d[b + 8413],
            ch3_channel_enable: d[b + 8414] == 1,
            ch3_length_timer: spec_u16_at(d, b + 8415),
            ch3_frequency_timer: spec_u16_at(d, b + 8417),
            ch3_wave_position: d[b + 8419],
            output: g.sound.output,
            last_clock: spec_u64_at(d, b + 8420),
            sample_frequency: g.sound.sample_frequency,
            sample_mod: spec_u64_at(d, b + 8428),
        },
        ppu: PpuV {
            vram: d.subrange(b + 8436, b + 8436 + 8192),
            oam: d.subrange(b + 16628, b + 16628 + 160),
            lcdc: d[b + 16788],
            stat: d[b + 16789],
            scy: d[b + 16790],
            scx: d[b + 16791],
            ly: d[b + 16792],
            lyc: d[b + 16793],
            bgp: d[b + 16794],
            obp0: d[b + 16795],
            obp1: d[b + 16796],
            wy: d[b + 16797],
            wx: d[b + 16798],
            dot: spec_u16_at(d, b + 16799),
            stat_line: d[b + 16801] == 1,
            last_clock: spec_u64_at(d, b + 16802),
        },
        joypad_io: d[b + 16810],
        joypad: d[b + 16811],
        serial_data: d[b + 16812],
        serial_control: d[b + 16813],
        serial_transfer_started: spec_u64_at(d, b + 16814),
        serial_out: g.serial_out,
        interrupt_flag: d[b + 16822],
        dma: d[b + 16823],
        interrupt_enabled: d[b + 16824],
        dma_active: d[b + 16825] == 1,
        dma_start_clock: spec_u64_at(d, b + 16826),
        dma_progress: d[b + 16834],
        v_blank_trigger: d[b + 16836] == 1,
    }
}

/// A stored field with an impossible value makes the blob corrupt; these
/// checks are exactly the machine's structural invariant.
pub open spec fn spec_fields_valid(g: GameBoyV, d: Seq<u8>) -> bool {
    let li = g.cartridge.ram.len() as int;
    let b = 22 + li;
    let clock = spec_u64_at(d, b + 8335);
    &&& d[20] <= 2
    &&& d[21] <= 3
    &&& d[b + 0] <= 1
    &&& d[b + 3] <= 1
    &&& d[b + 8348] <= 1
    &&& d[b + 8395] <= 1
    &&& d[b + 8396] <= 1
    &&& d[b + 8398] <= 1
    &&& d[b + 8407] <= 1
    &&& d[b + 8414] <= 1
    &&& d[b + 16801] <= 1
    &&& d[b + 16825] <= 1
    &&& d[b + 16835] <= 1
    &&& d[b + 16836] <= 1
    &&& d[b + 2] < 4
    &&& d[b + 4] < 16
    &&& (g.cartridge.mbc == Mbc::Mbc1 ==> d[b + 1] < 32)
    &&& (g.cartridge.mbc == Mbc::Mbc2 ==> d[b + 1] < 16)
    &&& (g.cartridge.mbc == Mbc::Mbc3 ==> d[b + 1] < 128)
    &&& (g.cartridge.mbc == Mbc::Mbc5 ==> d[b + 2] < 2)
    &&& spec_u64_at(d, b + 8349) <= clock
    &&& d[b + 8404] < 8
    &&& d[b + 8411] < 8
    &&& d[b + 8419] < 32
    &&& d[b + 8405] < 16
    &&& d[b + 8412] < 16
    &&& spec_u16_at(d, b + 8399) < 2048
    &&& spec_u64_at(d, b + 8428) < CLOCK_SPEED
    &&& spec_u64_at(d, b + 8420) <= clock
    &&& spec_u16_at(d, b + 16799) < 456
    &&& d[b + 16792] < 154
    &&& d[b + 16789] & 0x78 == d[b + 16789]
    &&& spec_u64_at(d, b + 16802) <= clock
    &&& d[b + 16834] <= 160
    &&& (d[b + 16825] == 1 ==> spec_u64_at(d, b + 16826) <= clock && d[b + 16834] <= (clock - spec_u64_at(d, b + 16826)) / 4)
    &&& (d[b + 16835] == 1 ==> g.boot_rom is Some)
}

/// The first reason a blob is rejected, or `None` when it loads.
pub open spec fn spec_load_err(g: GameBoyV, d: Seq<u8>) -> Option<LoadStateError> {
    let li = g.cartridge.ram.len() as int;
    if d.len() < 4 {
        Some(LoadStateError::Truncated)
    } else if d.subrange(0, 4) != spec_magic() {
        Some(LoadStateError::BadMagic)
    } else if d.len() < 8 {
        Some(LoadStateError::Truncated)
    } else if spec_u32_at(d, 4) != STATE_VERSION {
        Some(LoadStateError::UnsupportedVersion)
    } else if d.len() < li + STATE_FIXED_LEN {
        Some(LoadStateError::Truncated)
    } else if d.len() > li + STATE_FIXED_LEN {
        Some(LoadStateError::Corrupt)
    } else if !spec_fields_valid(g, d) {
        Some(LoadStateError::Corrupt)
    } else {
        None
    }
}

fn push_byte(out: &mut Vec<u8>, v: u8)
    ensures
        final(out)@ == old(out)@ + seq![v],
{
    out.push(v);
    assert(out@ =~= old(out)@ + seq![v]);
}

fn ime_byte_x(i: &ImeState) -> (r: u8)
    ensures
        r == ime_byte(*i),
{
    match i {
        ImeState::Disabled => 0,
        ImeState::ToBeEnabled => 1,
        ImeState::Enabled => 2,
    }
}

fn cpu_state_byte_x(s: &CpuState) -> (r: u8)
    ensures
        r == cpu_state_byte(*s),
{
    match s {
        CpuState::Running => 0,
        CpuState::Halted => 1,
        CpuState::Stopped => 2,
        CpuState::HaltBug => 3,
    }
}

#[verifier::rlimit(100)]
fn save_cpu(out: &mut Vec<u8>, c: &Cpu)
    ensures
        final(out)@ == old(out)@ + blk_cpu(*c),
{
    let ghost base = out@;
    push_byte(out, c.a);
    assert(out@ =~= base + (seq![(*c).a]));
    push_byte(out, c.f.0);
    assert(out@ =~= base + (seq![(*c).a] + seq![(*c).f.0]));
    push_byte(out, c.b);
    assert(out@ =~= base + (seq![(*c).a] + seq![(*c).f.0] + seq![(*c).b]));
    push_byte(out, c.c);
    assert(out@ =~= base + (seq![(*c).a] + seq![(*c).f.0] + seq![(*c).b] + seq![(*c).c]));
    push_byte(out, c.d);
    assert(out@ =~= base + (seq![(*c).a] + seq![(*c).f.0] + seq![(*c).b] + seq![(*c).c] + seq![(*c).d]));
    push_byte(out, c.e);
    assert(out@ =~= base + (seq![(*c).a] + seq![(*c).f.0] + seq![(*c).b] + seq![(*c).c] + seq![(*c).d] + seq![(*c).e]));
    push_byte(out, c.h);
    assert(out@ =~= base + (seq![(*c).a] + seq![(*c).f.0] + seq![(*c).b] + seq![(*c).c] + seq![(*c).d] + seq![(*c).e] + seq![(*c).h]));
    push_byte(out, c.l);
    assert(out@ =~= base + (seq![(*c).a] + seq![(*c).f.0] + seq![(*c).b] + seq![(*c).c] + seq![(*c).d] + seq![(*c).e] + seq![(*c).h] + seq![(*c).l]));
    push_u16(out, c.sp);
    assert(out@ =~= base + (seq![(*c).a] + seq![(*c).f.0] + seq![(*c).b] + seq![(*c).c] + seq![(*c).d] + seq![(*c).e] + seq![(*c).h] + seq![(*c).l] + be16((*c).sp)));
    push_u16(out, c.pc);
    assert(out@ =~= base + (seq![(*c).a] + seq![(*c).f.0] + seq![(*c).b] + seq![(*c).c] + seq![(*c).d] + seq![(*c).e] + seq![(*c).h] + seq![(*c).l] + be16((*c).sp) + be16((*c).pc)));
    push_byte(out, ime_byte_x(&c.ime));
    assert(out@ =~= base + (seq![(*c).a] + seq![(*c).f.0] + seq![(*c).b] + seq![(*c).c] + seq![(*c).d] + seq![(*c).e] + seq![(*c).h] + seq![(*c).l] + be16((*c).sp) + be16((*c).pc) + seq![ime_byte((*c).ime)]));
    push_byte(out, cpu_state_byte_x(&c.state));
    assert(out@ =~= base + (seq![(*c).a] + seq![(*c).f.0] + seq![(*c).b] + seq![(*c).c] + seq![(*c).d] + seq![(*c).e] + seq![(*c).h] + seq![(*c).l] + be16((*c).sp) + be16((*c).pc) + seq![ime_byte((*c).ime)] + seq![cpu_state_byte((*c).state)]));
}

#[verifier::rlimit(100)]
fn save_cart(out: &mut Vec<u8>, c: &Cartridge)
    ensures
        final(out)@ == old(out)@ + blk_cart(c@),
{
    let ghost base = out@;
    push_bytes(out, &c.ram);
    assert(out@ =~= base + (c@.ram));
    push_bool(out, c.ram_enabled);
    assert(out@ =~= base + (c@.ram + seq![bool_byte(c@.ram_enabled)]));
    push_byte(out, c.bank_lo);
    assert(out@ =~= base + (c@.ram + seq![bool_byte(c@.ram_enabled)] + seq![c@.bank_lo]));
    push_byte(out, c.bank_hi);
    assert(out@ =~= base + (c@.ram + seq![bool_byte(c@.ram_enabled)] + seq![c@.bank_lo] + seq![c@.bank_hi]));
    push_bool(out, c.mode);
    assert(out@ =~= base + (c@.ram + seq![bool_byte(c@.ram_enabled)] + seq![c@.bank_lo] + seq![c@.bank_hi] + seq![bool_byte(c@.mode)]));
    push_byte(out, c.ram_bank);
    assert(out@ =~= base + (c@.ram + seq![bool_byte(c@.ram_enabled)] + seq![c@.bank_lo] + seq![c@.bank_hi] + seq![bool_byte(c@.mode)] + seq![c@.ram_bank]));
    push_byte(out, c.rtc_s);
    assert(out@ =~= base + (c@.ram + seq![bool_byte(c@.ram_enabled)] + seq![c@.bank_lo] + seq![c@.bank_hi] + seq![bool_byte(c@.mode)] + seq![c@.ram_bank] + seq![c@.rtc_s]));
    push_byte(out, c.rtc_m);
    assert(out@ =~= base + (c@.ram + seq![bool_byte(c@.ram_enabled)] + seq![c@.bank_lo] + seq![c@.bank_hi] + seq![bool_byte(c@.mode)] + seq![c@.ram_bank] + seq![c@.rtc_s] + seq![c@.rtc_m]));
    push_byte(out, c.rtc_h);
    assert(out@ =~= base + (c@.ram + seq![bool_byte(c@.ram_enabled)] + seq![c@.bank_lo] + seq![c@.bank_hi] + seq![bool_byte(c@.mode)] + seq![c@.ram_bank] + seq![c@.rtc_s] + seq![c@.rtc_m] + seq![c@.rtc_h]));
    push_byte(out, c.rtc_dl);
    assert(out@ =~= base + (c@.ram + seq![bool_byte(c@.ram_enabled)] + seq![c@.bank_lo] + seq![c@.bank_hi] + seq![bool_byte(c@.mode)] + seq![c@.ram_bank] + seq![c@.rtc_s] + seq![c@.rtc_m] + seq![c@.rtc_h] + seq![c@.rtc_dl]));
    push_byte(out, c.rtc_dh);
    assert(out@ =~= base + (c@.ram + seq![bool_byte(c@.ram_enabled)] + seq![c@.bank_lo] + seq![c@.bank_hi] + seq![bool_byte(c@.mode)] + seq![c@.ram_bank] + seq![c@.rtc_s] + seq![c@.rtc_m] + seq![c@.rtc_h] + seq![c@.rtc_dl] + seq![c@.rtc_dh]));
    push_byte(out, c.lat_s);
    assert(out@ =~= base + (c@.ram + seq![bool_byte(c@.ram_enabled)] + seq![c@.bank_lo] + seq![c@.bank_hi] + seq![bool_byte(c@.mode)] + seq![c@.ram_bank] + seq![c@.rtc_s] + seq![c@.rtc_m] + seq![c@.rtc_h] + seq![c@.rtc_dl] + seq![c@.rtc_dh] + seq![c@.lat_s]));
    push_byte(out, c.lat_m);
    assert(out@ =~= base + (c@.ram + seq![bool_byte(c@.ram_enabled)] + seq![c@.bank_lo] + seq![c@.bank_hi] + seq![bool_byte(c@.mode)] + seq![c@.ram_bank] + seq![c@.rtc_s] + seq![c@.rtc_m] + seq![c@.rtc_h] + seq![c@.rtc_dl] + seq![c@.rtc_dh] + seq![c@.lat_s] + seq![c@.lat_m]));
    push_byte(out, c.lat_h);
    assert(out@ =~= base + (c@.ram + seq![bool_byte(c@.ram_enabled)] + seq![c@.bank_lo] + seq![c@.bank_hi] + seq![bool_byte(c@.mode)] + seq![c@.ram_bank] + seq![c@.rtc_s] + seq![c@.rtc_m] + seq![c@.rtc_h] + seq![c@.rtc_dl] + seq![c@.rtc_dh] + seq![c@.lat_s] + seq![c@.lat_m] + seq![c@.lat_h]));
    push_byte(out, c.lat_dl);
    assert(out@ =~= base + (c@.ram + seq![bool_byte(c@.ram_enabled)] + seq![c@.bank_lo] + seq![c@.bank_hi] + seq![bool_byte(c@.mode)] + seq![c@.ram_bank] + seq![c@.rtc_s] + seq![c@.rtc_m] + seq![c@.rtc_h] + seq![c@.rtc_dl] + seq![c@.rtc_dh] + seq![c@.lat_s] + seq![c@.lat_m] + seq![c@.lat_h] + seq![c@.lat_dl]));
    push_byte(out, c.lat_dh);
    assert(out@ =~= base + (c@.ram + seq![bool_byte(c@.ram_enabled)] + seq![c@.bank_lo] + seq![c@.bank_hi] + seq![bool_byte(c@.mode)] + seq![c@.ram_bank] + seq![c@.rtc_s] + seq![c@.rtc_m] + seq![c@.rtc_h] + seq![c@.rtc_dl] + seq![c@.rtc_dh] + seq![c@.lat_s] + seq![c@.lat_m] + seq![c@.lat_h] + seq![c@.lat_dl] + seq![c@.lat_dh]));
    push_byte(out, c.rtc_latch);
    assert(out@ =~= base + (c@.ram + seq![bool_byte(c@.ram_enabled)] + seq![c@.bank_lo] + seq![c@.bank_hi] + seq![bool_byte(c@.mode)] + seq![c@.ram_bank] + seq![c@.rtc_s] + seq![c@.rtc_m] + seq![c@.rtc_h] + seq![c@.rtc_dl] + seq![c@.rtc_dh] + seq![c@.lat_s] + seq![c@.lat_m] + seq![c@.lat_h] + seq![c@.lat_dl] + seq![c@.lat_dh] + seq![c@.rtc_latch]));
}

#[verifier::rlimit(100)]
fn save_mem(out: &mut Vec<u8>, wram: &Vec<u8>, hram: &Vec<u8>, clock_count: u64)
    ensures
        final(out)@ == old(out)@ + blk_mem(wram@, hram@, clock_count),
{
    let ghost base = out@;
    push_bytes(out, &wram);
    assert(out@ =~= base + (wram@));
    push_bytes(out, &hram);
    assert(out@ =~= base + (wram@ + hram@));
    push_u64(out, clock_count);
    assert(out@ =~= base + (wram@ + hram@ + be64(clock_count)));
}

#[verifier::rlimit(100)]
fn save_timer(out: &mut Vec<u8>, t: &Timer)
    ensures
        final(out)@ == old(out)@ + blk_timer(*t),
{
    let ghost base = out@;
    push_u16(out, t.div);
    assert(out@ =~= base + (be16((*t).div)));
    push_byte(out, t.tima);
    assert(out@ =~= base + (be16((*t).div) + seq![(*t).tima]));
    push_byte(out, t.tma);
    assert(out@ =~= base + (be16((*t).div) + seq![(*t).tima] + seq![(*t).tma]));
    push_byte(out, t.tac);
    assert(out@ =~= base + (be16((*t).div) + seq![(*t).tima] + seq![(*t).tma] + seq![(*t).tac]));
    push_bool(out, t.last_counter_bit);
    assert(out@ =~= base + (be16((*t).div) + seq![(*t).tima] + seq![(*t).tma] + seq![(*t).tac] + seq![bool_byte((*t).last_counter_bit)]));
    push_u64(out, t.last_clock_count);
    assert(out@ =~= base + (be16((*t).div) + seq![(*t).tima] + seq![(*t).tma] + seq![(*t).tac] + seq![bool_byte((*t).last_counter_bit)] + be64((*t).last_clock_count)));
    push_byte(out, t.loading);
    assert(out@ =~= base + (be16((*t).div) + seq![(*t).tima] + seq![(*t).tma] + seq![(*t).tac] + seq![bool_byte((*t).last_counter_bit)] + be64((*t).last_clock_count) + seq![(*t).loading]));
}

#[verifier::rlimit(100)]
fn save_sound(out: &mut Vec<u8>, n: &SoundController)
    ensures
        final(out)@ == old(out)@ + blk_sound(n@),
{
    let ghost base = out@;
    push_byte(out, n.nr10);
    assert(out@ =~= base + (seq![n@.nr10]));
    push_byte(out, n.nr11);
    assert(out@ =~= base + (seq![n@.nr10] + seq![n@.nr11]));
    push_byte(out, n.nr12);
    assert(out@ =~= base + (seq![n@.nr10] + seq![n@.nr11] + seq![n@.nr12]));
    push_byte(out, n.nr13);
    assert(out@ =~= base + (seq![n@.nr10] + seq![n@.nr11] + seq![n@.nr12] + seq![n@.nr13]));
    push_byte(out, n.nr14);
    assert(out@ =~= base + (seq![n@.nr10] + seq![n@.nr11] + seq![n@.nr12] + seq![n@.nr13] + seq![n@.nr14]));
    push_byte(out, n.nr21);
    assert(out@ =~= base + (seq![n@.nr10] + seq![n@.nr11] + seq![n@.nr12] + seq![n@.nr13] + seq![n@.nr14] + seq![n@.nr21]));
    push_byte(out, n.nr22);
    assert(out@ =~= base + (seq![n@.nr10] + seq![n@.nr11] + seq![n@.nr12] + seq![n@.nr13] + seq![n@.nr14] + seq![n@.nr21] + seq![n@.nr22]));
    push_byte(out, n.nr23);
    assert(out@ =~= base + (seq![n@.nr10] + seq![n@.nr11] + seq![n@.nr12] + seq![n@.nr13] + seq![n@.nr14] + seq![n@.nr21] + seq![n@.nr22] + seq![n@.nr23]));
    push_byte(out, n.nr24);
    assert(out@ =~= base + (seq![n@.nr10] + seq![n@.nr11] + seq![n@.nr12] + seq![n@.nr13] + seq![n@.nr14] + seq![n@.nr21] + seq![n@.nr22] + seq![n@.nr23] + seq![n@.nr24]));
    push_byte(out, n.nr30);
    assert(out@ =~= base + (seq![n@.nr10] + seq![n@.nr11] + seq![n@.nr12] + seq![n@.nr13] + seq![n@.nr14] + seq![n@.nr21] + seq![n@.nr22] + seq![n@.nr23] + seq![n@.nr24] + seq![n@.nr30]));
    push_byte(out, n.nr31);
    assert(out@ =~= base + (seq![n@.nr10] + seq![n@.nr11] + seq![n@.nr12] + seq![n@.nr13] + seq![n@.nr14] + seq![n@.nr21] + seq![n@.nr22] + seq![n@.nr23] + seq![n@.nr24] + seq![n@.nr30] + seq![n@.nr31]));
    push_byte(out, n.nr32);
    assert(out@ =~= base + (seq![n@.nr10] + seq![n@.nr11] + seq![n@.nr12] + seq![n@.nr13] + seq![n@.nr14] + seq![n@.nr21] + seq![n@.nr22] + seq![n@.nr23] + seq![n@.nr24] + seq![n@.nr30] + seq![n@.nr31] + seq![n@.nr32]));
    push_byte(out, n.nr33);
    assert(out@ =~= base + (seq![n@.nr10] + seq![n@.nr11] + seq![n@.nr12] + seq![n@.nr13] + seq![n@.nr14] + seq![n@.nr21] + seq![n@.nr22] + seq![n@.nr23] + seq![n@.nr24] + seq![n@.nr30] + seq![n@.nr31] + seq![n@.nr32] + seq![n@.nr33]));
    push_byte(out, n.nr34);
    assert(out@ =~= base + (seq![n@.nr10] + seq![n@.nr11] + seq![n@.nr12] + seq![n@.nr13] + seq![n@.nr14] + seq![n@.nr21] + seq![n@.nr22] + seq![n@.nr23] + seq![n@.nr24] + seq![n@.nr30] + seq![n@.nr31] + seq![n@.nr32] + seq![n@.nr33] + seq![n@.nr34]));
    push_byte(out, n.nr41);
    assert(out@ =~= base + (seq![n@.nr10] + seq![n@.nr11] + seq![n@.nr12] + seq![n@.nr13] + seq![n@.nr14] + seq![n@.nr21] + seq![n@.nr22] + seq![n@.nr23] + seq![n@.nr24] + seq![n@.nr30] + seq![n@.nr31] + seq![n@.nr32] + seq![n@.nr33] + seq![n@.nr34] + seq![n@.nr41]));
    push_byte(out, n.nr42);
    assert(out@ =~= base + (seq![n@.nr10] + seq![n@.nr11] + seq![n@.nr12] + seq![n@.nr13] + seq![n@.nr14] + seq![n@.nr21] + seq![n@.nr22] + seq![n@.nr23] + seq![n@.nr24] + seq![n@.nr30] + seq![n@.nr31] + seq![n@.nr32] + seq![n@.nr33] + seq![n@.nr34] + seq![n@.nr41] + seq![n@.nr42]));
    push_byte(out, n.nr43);
    assert(out@ =~= base + (seq![n@.nr10] + seq![n@.nr11] + seq![n@.nr12] + seq![n@.nr13] + seq![n@.nr14] + seq![n@.nr21] + seq![n@.nr22] + seq![n@.nr23] + seq![n@.nr24] + seq![n@.nr30] + seq![n@.nr31] + seq![n@.nr32] + seq![n@.nr33] + seq![n@.nr34] + seq![n@.nr41] + seq![n@.nr42] + seq![n@.nr43]));
    push_byte(out, n.nr44);
    assert(out@ =~= base + (seq![n@.nr10] + seq![n@.nr11] + seq![n@.nr12] + seq![n@.nr13] + seq![n@.nr14] + seq![n@.nr21] + seq![n@.nr22] + seq![n@.nr23] + seq![n@.nr24] + seq![n@.nr30] + seq![n@.nr31] + seq![n@.nr32] + seq![n@.nr33] + seq![n@.nr34] + seq![n@.nr41] + seq![n@.nr42] + seq![n@.nr43] + seq![n@.nr44]));
    push_byte(out, n.nr50);
    assert(out@ =~= base + (seq![n@.nr10] + seq![n@.nr11] + seq![n@.nr12] + seq![n@.nr13] + seq![n@.nr14] + seq![n@.nr21] + seq![n@.nr22] + seq![n@.nr23] + seq![n@.nr24] + seq![n@.nr30] + seq![n@.nr31] + seq![n@.nr32] + seq![n@.nr33] + seq![n@.nr34] + seq![n@.nr41] + seq![n@.nr42] + seq![n@.nr43] + seq![n@.nr44] + seq![n@.nr50]));
    push_byte(out, n.nr51);
    assert(out@ =~= base + (seq![n@.nr10] + seq![n@.nr11] + seq![n@.nr12] + seq![n@.nr13] + seq![n@.nr14] + seq![n@.nr21] + seq![n@.nr22] + seq![n@.nr23] + seq![n@.nr24] + seq![n@.nr30] + seq![n@.nr31] + seq![n@.nr32] + seq![n@.nr33] + seq![n@.nr34] + seq![n@.nr41] + seq![n@.nr42] + seq![n@.nr43] + seq![n@.nr44] + seq![n@.nr50] + seq![n@.nr51]));
    push_byte(out, n.nr52);
    assert(out@ =~= base + (seq![n@.nr10] + seq![n@.nr11] + seq![n@.nr12] + seq![n@.nr13] + seq![n@.nr14] + seq![n@.nr21] + seq![n@.nr22] + seq![n@.nr23] + seq![n@.nr24] + seq![n@.nr30] + seq![n@.nr31] + seq![n@.nr32] + seq![n@.nr33] + seq![n@.nr34] + seq![n@.nr41] + seq![n@.nr42] + seq![n@.nr43] + seq![n@.nr44] + seq![n@.nr50] + seq![n@.nr51] + seq![n@.nr52]));
    push_bytes(out, &n.ch3_wave_pattern);
    assert(out@ =~= base + (seq![n@.nr10] + seq![n@.nr11] + seq![n@.nr12] + seq![n@.nr13] + seq![n@.nr14] + seq![n@.nr21] + seq![n@.nr22] + seq![n@.nr23] + seq![n@.nr24] + seq![n@.nr30] + seq![n@.nr31] + seq![n@.nr32] + seq![n@.nr33] + seq![n@.nr34] + seq![n@.nr41] + seq![n@.nr42] + seq![n@.nr43] + seq![n@.nr44] + seq![n@.nr50] + seq![n@.nr51] + seq![n@.nr52] + n@.wave));
    push_bool(out, n.on);
    assert(out@ =~= base + (seq![n@.nr10] + seq![n@.nr11] + seq![n@.nr12] + seq![n@.nr13] + seq![n@.nr14] + seq![n@.nr21] + seq![n@.nr22] + seq![n@.nr23] + seq![n@.nr24] + seq![n@.nr30] + seq![n@.nr31] + seq![n@.nr32] + seq![n@.nr33] + seq![n@.nr34] + seq![n@.nr41] + seq![n@.nr42] + seq![n@.nr43] + seq![n@.nr44] + seq![n@.nr50] + seq![n@.nr51] + seq![n@.nr52] + n@.wave + seq![bool_byte(n@.on)]));
    push_bool(out, n.ch1_channel_enable);
    assert(out@ =~= base + (seq![n@.nr10] + seq![n@.nr11] + seq![n@.nr12] + seq![n@.nr13] + seq![n@.nr14] + seq![n@.nr21] + seq![n@.nr22] + seq![n@.nr23] + seq![n@.nr24] + seq![n@.nr30] + seq![n@.nr31] + seq![n@.nr32] + seq![n@.nr33] + seq![n@.nr34] + seq![n@.nr41] + seq![n@.nr42] + seq![n@.nr43] + seq![n@.nr44] + seq![n@.nr50] + seq![n@.nr51] + seq![n@.nr52] + n@.wave + seq![bool_byte(n@.on)] + seq![bool_byte(n@.ch1_channel_enable)]));
    push_byte(out, n.ch1_length_timer);
    assert(out@ =~= base + (seq![n@.nr10] + seq![n@.nr11] + seq![n@.nr12] + seq![n@.nr13] + seq![n@.nr14] + seq![n@.nr21] + seq![n@.nr22] + seq![n@.nr23] + seq![n@.nr24] + seq![n@.nr30] + seq![n@.nr31] + seq![n@.nr32] + seq![n@.nr33] + seq![n@.nr34] + seq![n@.nr41] + seq![n@.nr42] + seq![n@.nr43] + seq![n@.nr44] + seq![n@.nr50] + seq![n@.nr51] + seq![n@.nr52] + n@.wave + seq![bool_byte(n@.on)] + seq![bool_byte(n@.ch1_channel_enable)] + seq![n@.ch1_length_timer]));
    push_bool(out, n.ch1_sweep_enabled);
    assert(out@ =~= base + (seq![n@.nr10] + seq![n@.nr11] + seq![n@.nr12] + seq![n@.nr13] + seq![n@.nr14] + seq![n@.nr21] + seq![n@.nr22] + seq![n@.nr23] + seq![n@.nr24] + seq![n@.nr30] + seq![n@.nr31] + seq![n@.nr32] + seq![n@.nr33] + seq![n@.nr34] + seq![n@.nr41] + seq![n@.nr42] + seq![n@.nr43] + seq![n@.nr44] + seq![n@.nr50] + seq![n@.nr51] + seq![n@.nr52] + n@.wave + seq![bool_byte(n@.on)] + seq![bool_byte(n@.ch1_channel_enable)] + seq![n@.ch1_length_timer] + seq![bool_byte(n@.ch1_sweep_enabled)]));
    push_u16(out, n.ch1_shadow_freq);
    assert(out@ =~= base + (seq![n@.nr10] + seq![n@.nr11] + seq![n@.nr12] + seq![n@.nr13] + seq![n@.nr14] + seq![n@.nr21] + seq![n@.nr22] + seq![n@.nr23] + seq![n@.nr24] + seq![n@.nr30] + seq![n@.nr31] + seq![n@.nr32] + seq![n@.nr33] + seq![n@.nr34] + seq![n@.nr41] + seq![n@.nr42] + seq![n@.nr43] + seq![n@.nr44] + seq![n@.nr50] + seq![n@.nr51] + seq![n@.nr52] + n@.wave + seq![bool_byte(n@.on)] + seq![bool_byte(n@.ch1_channel_enable)] + seq![n@.ch1_length_timer] + seq![bool_byte(n@.ch1_sweep_enabled)] + be16(n@.ch1_shadow_freq)));
    push_byte(out, n.ch1_sweep_timer);
    assert(out@ =~= base + (seq![n@.nr10] + seq![n@.nr11] + seq![n@.nr12] + seq![n@.nr13] + seq![n@.nr14] + seq![n@.nr21] + seq![n@.nr22] + seq![n@.nr23] + seq![n@.nr24] + seq![n@.nr30] + seq![n@.nr31] + seq![n@.nr32] + seq![n@.nr33] + seq![n@.nr34] + seq![n@.nr41] + seq![n@.nr42] + seq![n@.nr43] + seq![n@.nr44] + seq![n@.nr50] + seq![n@.nr51] + seq![n@.nr52] + n@.wave + seq![bool_byte(n@.on)] + seq![bool_byte(n@.ch1_channel_enable)] + seq![n@.ch1_length_timer] + seq![bool_byte(n@.ch1_sweep_enabled)] + be16(n@.ch1_shadow_freq) + seq![n@.ch1_sweep_timer]));
    push_u16(out, n.ch1_frequency_timer);
    assert(out@ =~= base + (seq![n@.nr10] + seq![n@.nr11] + seq![n@.nr12] + seq![n@.nr13] + seq![n@.nr14] + seq![n@.nr21] + seq![n@.nr22] + seq![n@.nr23] + seq![n@.nr24] + seq![n@.nr30] + seq![n@.nr31] + seq![n@.nr32] + seq![n@.nr33] + seq![n@.nr34] + seq![n@.nr41] + seq![n@.nr42] + seq![n@.nr43] + seq![n@.nr44] + seq![n@.nr50] + seq![n@.nr51] + seq![n@.nr52] + n@.wave + seq![bool_byte(n@.on)] + seq![bool_byte(n@.ch1_channel_enable)] + seq![n@.ch1_length_timer] + seq![bool_byte(n@.ch1_sweep_enabled)] + be16(n@.ch1_shadow_freq) + seq![n@.ch1_sweep_timer] + be16(n@.ch1_frequency_timer)));
    push_byte(out, n.ch1_wave_duty_position);
    assert(out@ =~= base + (seq![n@.nr10] + seq![n@.nr11] + seq![n@.nr12] + seq![n@.nr13] + seq![n@.nr14] + seq![n@.nr21] + seq![n@.nr22] + seq![n@.nr23] + seq![n@.nr24] + seq![n@.nr30] + seq![n@.nr31] + seq![n@.nr32] + seq![n@.nr33] + seq![n@.nr34] + seq![n@.nr41] + seq![n@.nr42] + seq![n@.nr43] + seq![n@.nr44] + seq![n@.nr50] + seq![n@.nr51] + seq![n@.nr52] + n@.wave + seq![bool_byte(n@.on)] + seq![bool_byte(n@.ch1_channel_enable)] + seq![n@.ch1_length_timer] + seq![bool_byte(n@.ch1_sweep_enabled)] + be16(n@.ch1_shadow_freq) + seq![n@.ch1_sweep_timer] + be16(n@.ch1_frequency_timer) + seq![n@.ch1_wave_duty_position]));
    push_byte(out, n.ch1_current_volume);
    assert(out@ =~= base + (seq![n@.nr10] + seq![n@.nr11] + seq![n@.nr12] + seq![n@.nr13] + seq![n@.nr14] + seq![n@.nr21] + seq![n@.nr22] + seq![n@.nr23] + seq![n@.nr24] + seq![n@.nr30] + seq![n@.nr31] + seq![n@.nr32] + seq![n@.nr33] + seq![n@.nr34] + seq![n@.nr41] + seq![n@.nr42] + seq![n@.nr43] + seq![n@.nr44] + seq![n@.nr50] + seq![n@.nr51] + seq![n@.nr52] + n@.wave + seq![bool_byte(n@.on)] + seq![bool_byte(n@.ch1_channel_enable)] + seq![n@.ch1_length_timer] + seq![bool_byte(n@.ch1_sweep_enabled)] + be16(n@.ch1_shadow_freq) + seq![n@.ch1_sweep_timer] + be16(n@.ch1_frequency_timer) + seq![n@.ch1_wave_duty_position] + seq![n@.ch1_current_volume]));
    push_byte(out, n.ch1_env_period_timer);
    assert(out@ =~= base + (seq![n@.nr10] + seq![n@.nr11] + seq![n@.nr12] + seq![n@.nr13] + seq![n@.nr14] + seq![n@.nr21] + seq![n@.nr22] + seq![n@.nr23] + seq![n@.nr24] + seq![n@.nr30] + seq![n@.nr31] + seq![n@.nr32] + seq![n@.nr33] + seq![n@.nr34] + seq![n@.nr41] + seq![n@.nr42] + seq![n@.nr43] + seq![n@.nr44] + seq![n@.nr50] + seq![n@.nr51] + seq![n@.nr52] + n@.wave + seq![bool_byte(n@.on)] + seq![bool_byte(n@.ch1_channel_enable)] + seq![n@.ch1_length_timer] + seq![bool_byte(n@.ch1_sweep_enabled)] + be16(n@.ch1_shadow_freq) + seq![n@.ch1_sweep_timer] + be16(n@.ch1_frequency_timer) + seq![n@.ch1_wave_duty_position] + seq![n@.ch1_current_volume] + seq![n@.ch1_env_period_timer]));
    push_bool(out, n.ch2_channel_enable);
    assert(out@ =~= base + (seq![n@.nr10] + seq![n@.nr11] + seq![n@.nr12] + seq![n@.nr13] + seq![n@.nr14] + seq![n@.nr21] + seq![n@.nr22] + seq![n@.nr23] + seq![n@.nr24] + seq![n@.nr30] + seq![n@.nr31] + seq![n@.nr32] + seq![n@.nr33] + seq![n@.nr34] + seq![n@.nr41] + seq![n@.nr42] + seq![n@.nr43] + seq![n@.nr44] + seq![n@.nr50] + seq![n@.nr51] + seq![n@.nr52] + n@.wave + seq![bool_byte(n@.on)] + seq![bool_byte(n@.ch1_channel_enable)] + seq![n@.ch1_length_timer] + seq![bool_byte(n@.ch1_sweep_enabled)] + be16(n@.ch1_shadow_freq) + seq![n@.ch1_sweep_timer] + be16(n@.ch1_frequency_timer) + seq![n@.ch1_wave_duty_position] + seq![n@.ch1_current_volume] + seq![n@.ch1_env_period_timer] + seq![bool_byte(n@.ch2_channel_enable)]));
    push_byte(out, n.ch2_length_timer);
    assert(out@ =~= base + (seq![n@.nr10] + seq![n@.nr11] + seq![n@.nr12] + seq![n@.nr13] + seq![n@.nr14] + seq![n@.nr21] + seq![n@.nr22] + seq![n@.nr23] + seq![n@.nr24] + seq![n@.nr30] + seq![n@.nr31] + seq![n@.nr32] + seq![n@.nr33] + seq![n@.nr34] + seq![n@.nr41] + seq![n@.nr42] + seq![n@.nr43] + seq![n@.nr44] + seq![n@.nr50] + seq![n@.nr51] + seq![n@.nr52] + n@.wave + seq![bool_byte(n@.on)] + seq![bool_byte(n@.ch1_channel_enable)] + seq![n@.ch1_length_timer] + seq![bool_byte(n@.ch1_sweep_enabled)] + be16(n@.ch1_shadow_freq) + seq![n@.ch1_sweep_timer] + be16(n@.ch1_frequency_timer) + seq![n@.ch1_wave_duty_position] + seq![n@.ch1_current_volume] + seq![n@.ch1_env_period_timer] + seq![bool_byte(n@.ch2_channel_enable)] + seq![n@.ch2_length_timer]));
    push_u16(out, n.ch2_frequency_timer);
    assert(out@ =~= base + (seq![n@.nr10] + seq![n@.nr11] + seq![n@.nr12] + seq![n@.nr13] + seq![n@.nr14] + seq![n@.nr21] + seq![n@.nr22] + seq![n@.nr23] + seq![n@.nr24] + seq![n@.nr30] + seq![n@.nr31] + seq![n@.nr32] + seq![n@.nr33] + seq![n@.nr34] + seq![n@.nr41] + seq![n@.nr42] + seq![n@.nr43] + seq![n@.nr44] + seq![n@.nr50] + seq![n@.nr51] + seq![n@.nr52] + n@.wave + seq![bool_byte(n@.on)] + seq![bool_byte(n@.ch1_channel_enable)] + seq![n@.ch1_length_timer] + seq![bool_byte(n@.ch1_sweep_enabled)] + be16(n@.ch1_shadow_freq) + seq![n@.ch1_sweep_timer] + be16(n@.ch1_frequency_timer) + seq![n@.ch1_wave_duty_position] + seq![n@.ch1_current_volume] + seq![n@.ch1_env_period_timer] + seq![bool_byte(n@.ch2_channel_enable)] + seq![n@.ch2_length_timer] + be16(n@.ch2_frequency_timer)));
    push_byte(out, n.ch2_wave_duty_position);
    assert(out@ =~= base + (seq![n@.nr10] + seq![n@.nr11] + seq![n@.nr12] + seq![n@.nr13] + seq![n@.nr14] + seq![n@.nr21] + seq![n@.nr22] + seq![n@.nr23] + seq![n@.nr24] + seq![n@.nr30] + seq![n@.nr31] + seq![n@.nr32] + seq![n@.nr33] + seq![n@.nr34] + seq![n@.nr41] + seq![n@.nr42] + seq![n@.nr43] + seq![n@.nr44] + seq![n@.nr50] + seq![n@.nr51] + seq![n@.nr52] + n@.wave + seq![bool_byte(n@.on)] + seq![bool_byte(n@.ch1_channel_enable)] + seq![n@.ch1_length_timer] + seq![bool_byte(n@.ch1_sweep_enabled)] + be16(n@.ch1_shadow_freq) + seq![n@.ch1_sweep_timer] + be16(n@.ch1_frequency_timer) + seq![n@.ch1_wave_duty_position] + seq![n@.ch1_current_volume] + seq![n@.ch1_env_period_timer] + seq![bool_byte(n@.ch2_channel_enable)] + seq![n@.ch2_length_timer] + be16(n@.ch2_frequency_timer) + seq![n@.ch2_wave_duty_position]));
    push_byte(out, n.ch2_current_volume);
    assert(out@ =~= base + (seq![n@.nr10] + seq![n@.nr11] + seq![n@.nr12] + seq![n@.nr13] + seq![n@.nr14] + seq![n@.nr21] + seq![n@.nr22] + seq![n@.nr23] + seq![n@.nr24] + seq![n@.nr30] + seq![n@.nr31] + seq![n@.nr32] + seq![n@.nr33] + seq![n@.nr34] + seq![n@.nr41] + seq![n@.nr42] + seq![n@.nr43] + seq![n@.nr44] + seq![n@.nr50] + seq![n@.nr51] + seq![n@.nr52] + n@.wave + seq![bool_byte(n@.on)] + seq![bool_byte(n@.ch1_channel_enable)] + seq![n@.ch1_length_timer] + seq![bool_byte(n@.ch1_sweep_enabled)] + be16(n@.ch1_shadow_freq) + seq![n@.ch1_sweep_timer] + be16(n@.ch1_frequency_timer) + seq![n@.ch1_wave_duty_position] + seq![n@.ch1_current_volume] + seq![n@.ch1_env_period_timer] + seq![bool_byte(n@.ch2_channel_enable)] + seq![n@.ch2_length_timer] + be16(n@.ch2_frequency_timer) + seq![n@.ch2_wave_duty_position] + seq![n@.ch2_current_volume]));
    push_byte(out, n.ch2_env_period_timer);
    assert(out@ =~= base + (seq![n@.nr10] + seq![n@.nr11] + seq![n@.nr12] + seq![n@.nr13] + seq![n@.nr14] + seq![n@.nr21] + seq![n@.nr22] + seq![n@.nr23] + seq![n@.nr24] + seq![n@.nr30] + seq![n@.nr31] + seq![n@.nr32] + seq![n@.nr33] + seq![n@.nr34] + seq![n@.nr41] + seq![n@.nr42] + seq![n@.nr43] + seq![n@.nr44] + seq![n@.nr50] + seq![n@.nr51] + seq![n@.nr52] + n@.wave + seq![bool_byte(n@.on)] + seq![bool_byte(n@.ch1_channel_enable)] + seq![n@.ch1_length_timer] + seq![bool_byte(n@.ch1_sweep_enabled)] + be16(n@.ch1_shadow_freq) + seq![n@.ch1_sweep_timer] + be16(n@.ch1_frequency_timer) + seq![n@.ch1_wave_duty_position] + seq![n@.ch1_current_volume] + seq![n@.ch1_env_period_timer] + seq![bool_byte(n@.ch2_channel_enable)] + seq![n@.ch2_length_timer] + be16(n@.ch2_frequency_timer) + seq![n@.ch2_wave_duty_position] + seq![n@.ch2_current_volume] + seq![n@.ch2_env_period_timer]));
    push_bool(out, n.ch3_channel_enable);
    assert(out@ =~= base + (seq![n@.nr10] + seq![n@.nr11] + seq![n@.nr12] + seq![n@.nr13] + seq![n@.nr14] + seq![n@.nr21] + seq![n@.nr22] + seq![n@.nr23] + seq![n@.nr24] + seq![n@.nr30] + seq![n@.nr31] + seq![n@.nr32] + seq![n@.nr33] + seq![n@.nr34] + seq![n@.nr41] + seq![n@.nr42] + seq![n@.nr43] + seq![n@.nr44] + seq![n@.nr50] + seq![n@.nr51] + seq![n@.nr52] + n@.wave + seq![bool_byte(n@.on)] + seq![bool_byte(n@.ch1_channel_enable)] + seq![n@.ch1_length_timer] + seq![bool_byte(n@.ch1_sweep_enabled)] + be16(n@.ch1_shadow_freq) + seq![n@.ch1_sweep_timer] + be16(n@.ch1_frequency_timer) + seq![n@.ch1_wave_duty_position] + seq![n@.ch1_current_volume] + seq![n@.ch1_env_period_timer] + seq![bool_byte(n@.ch2_channel_enable)] + seq![n@.ch2_length_timer] + be16(n@.ch2_frequency_timer) + seq![n@.ch2_wave_duty_position] + seq![n@.ch2_current_volume] + seq![n@.ch2_env_period_timer] + seq![bool_byte(n@.ch3_channel_enable)]));
    push_u16(out, n.ch3_length_timer);
    assert(out@ =~= base + (seq![n@.nr10] + seq![n@.nr11] + seq![n@.nr12] + seq![n@.nr13] + seq![n@.nr14] + seq![n@.nr21] + seq![n@.nr22] + seq![n@.nr23] + seq![n@.nr24] + seq![n@.nr30] + seq![n@.nr31] + seq![n@.nr32] + seq![n@.nr33] + seq![n@.nr34] + seq![n@.nr41] + seq![n@.nr42] + seq![n@.nr43] + seq![n@.nr44] + seq![n@.nr50] + seq![n@.nr51] + seq![n@.nr52] + n@.wave + seq![bool_byte(n@.on)] + seq![bool_byte(n@.ch1_channel_enable)] + seq![n@.ch1_length_timer] + seq![bool_byte(n@.ch1_sweep_enabled)] + be16(n@.ch1_shadow_freq) + seq![n@.ch1_sweep_timer] + be16(n@.ch1_frequency_timer) + seq![n@.ch1_wave_duty_position] + seq![n@.ch1_current_volume] + seq![n@.ch1_env_period_timer] + seq![bool_byte(n@.ch2_channel_enable)] + seq![n@.ch2_length_timer] + be16(n@.ch2_frequency_timer) + seq![n@.ch2_wave_duty_position] + seq![n@.ch2_current_volume] + seq![n@.ch2_env_period_timer] + seq![bool_byte(n@.ch3_channel_enable)] + be16(n@.ch3_length_timer)));
    push_u16(out, n.ch3_frequency_timer);
    assert(out@ =~= base + (seq![n@.nr10] + seq![n@.nr11] + seq![n@.nr12] + seq![n@.nr13] + seq![n@.nr14] + seq![n@.nr21] + seq![n@.nr22] + seq![n@.nr23] + seq![n@.nr24] + seq![n@.nr30] + seq![n@.nr31] + seq![n@.nr32] + seq![n@.nr33] + seq![n@.nr34] + seq![n@.nr41] + seq![n@.nr42] + seq![n@.nr43] + seq![n@.nr44] + seq![n@.nr50] + seq![n@.nr51] + seq![n@.nr52] + n@.wave + seq![bool_byte(n@.on)] + seq![bool_byte(n@.ch1_channel_enable)] + seq![n@.ch1_length_timer] + seq![bool_byte(n@.ch1_sweep_enabled)] + be16(n@.ch1_shadow_freq) + seq![n@.ch1_sweep_timer] + be16(n@.ch1_frequency_timer) + seq![n@.ch1_wave_duty_position] + seq![n@.ch1_current_volume] + seq![n@.ch1_env_period_timer] + seq![bool_byte(n@.ch2_channel_enable)] + seq![n@.ch2_length_timer] + be16(n@.ch2_frequency_timer) + seq![n@.ch2_wave_duty_position] + seq![n@.ch2_current_volume] + seq![n@.ch2_env_period_timer] + seq![bool_byte(n@.ch3_channel_enable)] + be16(n@.ch3_length_timer) + be16(n@.ch3_frequency_timer)));
    push_byte(out, n.ch3_wave_position);
    assert(out@ =~= base + (seq![n@.nr10] + seq![n@.nr11] + seq![n@.nr12] + seq![n@.nr13] + seq![n@.nr14] + seq![n@.nr21] + seq![n@.nr22] + seq![n@.nr23] + seq![n@.nr24] + seq![n@.nr30] + seq![n@.nr31] + seq![n@.nr32] + seq![n@.nr33] + seq![n@.nr34] + seq![n@.nr41] + seq![n@.nr42] + seq![n@.nr43] + seq![n@.nr44] + seq![n@.nr50] + seq![n@.nr51] + seq![n@.nr52] + n@.wave + seq![bool_byte(n@.on)] + seq![bool_byte(n@.ch1_channel_enable)] + seq![n@.ch1_length_timer] + seq![bool_byte(n@.ch1_sweep_enabled)] + be16(n@.ch1_shadow_freq) + seq![n@.ch1_sweep_timer] + be16(n@.ch1_frequency_timer) + seq![n@.ch1_wave_duty_position] + seq![n@.ch1_current_volume] + seq![n@.ch1_env_period_timer] + seq![bool_byte(n@.ch2_channel_enable)] + seq![n@.ch2_length_timer] + be16(n@.ch2_frequency_timer) + seq![n@.ch2_wave_duty_position] + seq![n@.ch2_current_volume] + seq![n@.ch2_env_period_timer] + seq![bool_byte(n@.ch3_channel_enable)] + be16(n@.ch3_length_timer) + be16(n@.ch3_frequency_timer) + seq![n@.ch3_wave_position]));
    push_u64(out, n.last_clock);
    assert(out@ =~= base + (seq![n@.nr10] + seq![n@.nr11] + seq![n@.nr12] + seq![n@.nr13] + seq![n@.nr14] + seq![n@.nr21] + seq![n@.nr22] + seq![n@.nr23] + seq![n@.nr24] + seq![n@.nr30] + seq![n@.nr31] + seq![n@.nr32] + seq![n@.nr33] + seq![n@.nr34] + seq![n@.nr41] + seq![n@.nr42] + seq![n@.nr43] + seq![n@.nr44] + seq![n@.nr50] + seq![n@.nr51] + seq![n@.nr52] + n@.wave + seq![bool_byte(n@.on)] + seq![bool_byte(n@.ch1_channel_enable)] + seq![n@.ch1_length_timer] + seq![bool_byte(n@.ch1_sweep_enabled)] + be16(n@.ch1_shadow_freq) + seq![n@.ch1_sweep_timer] + be16(n@.ch1_frequency_timer) + seq![n@.ch1_wave_duty_position] + seq![n@.ch1_current_volume] + seq![n@.ch1_env_period_timer] + seq![bool_byte(n@.ch2_channel_enable)] + seq![n@.ch2_length_timer] + be16(n@.ch2_frequency_timer) + seq![n@.ch2_wave_duty_position] + seq![n@.ch2_current_volume] + seq![n@.ch2_env_period_timer] + seq![bool_byte(n@.ch3_channel_enable)] + be16(n@.ch3_length_timer) + be16(n@.ch3_frequency_timer) + seq![n@.ch3_wave_position] + be64(n@.last_clock)));
    push_u64(out, n.sample_mod);
    assert(out@ =~= base + (seq![n@.nr10] + seq![n@.nr11] + seq![n@.nr12] + seq![n@.nr13] + seq![n@.nr14] + seq![n@.nr21] + seq![n@.nr22] + seq![n@.nr23] + seq![n@.nr24] + seq![n@.nr30] + seq![n@.nr31] + seq![n@.nr32] + seq![n@.nr33] + seq![n@.nr34] + seq![n@.nr41] + seq![n@.nr42] + seq![n@.nr43] + seq![n@.nr44] + seq![n@.nr50] + seq![n@.nr51] + seq![n@.nr52] + n@.wave + seq![bool_byte(n@.on)] + seq![bool_byte(n@.ch1_channel_enable)] + seq![n@.ch1_length_timer] + seq![bool_byte(n@.ch1_sweep_enabled)] + be16(n@.ch1_shadow_freq) + seq![n@.ch1_sweep_timer] + be16(n@.ch1_frequency_timer) + seq![n@.ch1_wave_duty_position] + seq![n@.ch1_current_volume] + seq![n@.ch1_env_period_timer] + seq![bool_byte(n@.ch2_channel_enable)] + seq![n@.ch2_length_timer] + be16(n@.ch2_frequency_timer) + seq![n@.ch2_wave_duty_position] + seq![n@.ch2_current_volume] + seq![n@.ch2_env_period_timer] + seq![bool_byte(n@.ch3_channel_enable)] + be16(n@.ch3_length_timer) + be16(n@.ch3_frequency_timer) + seq![n@.ch3_wave_position] + be64(n@.last_clock) + be64(n@.sample_mod)));
}

#[verifier::rlimit(100)]
fn save_ppu(out: &mut Vec<u8>, p: &Ppu)
    ensures
        final(out)@ == old(out)@ + blk_ppu(p@),
{
    let ghost base = out@;
    push_bytes(out, &p.vram);
    assert(out@ =~= base + (p@.vram));
    push_bytes(out, &p.oam);
    assert(out@ =~= base + (p@.vram + p@.oam));
    push_byte(out, p.lcdc);
    assert(out@ =~= base + (p@.vram + p@.oam + seq![p@.lcdc]));
    push_byte(out, p.stat);
    assert(out@ =~= base + (p@.vram + p@.oam + seq![p@.lcdc] + seq![p@.stat]));
    push_byte(out, p.scy);
    assert(out@ =~= base + (p@.vram + p@.oam + seq![p@.lcdc] + seq![p@.stat] + seq![p@.scy]));
    push_byte(out, p.scx);
    assert(out@ =~= base + (p@.vram + p@.oam + seq![p@.lcdc] + seq![p@.stat] + seq![p@.scy] + seq![p@.scx]));
    push_byte(out, p.ly);
    assert(out@ =~= base + (p@.vram + p@.oam + seq![p@.lcdc] + seq![p@.stat] + seq![p@.scy] + seq![p@.scx] + seq![p@.ly]));
    push_byte(out, p.lyc);
    assert(out@ =~= base + (p@.vram + p@.oam + seq![p@.lcdc] + seq![p@.stat] + seq![p@.scy] + seq![p@.scx] + seq![p@.ly] + seq![p@.lyc]));
    push_byte(out, p.bgp);
    assert(out@ =~= base + (p@.vram + p@.oam + seq![p@.lcdc] + seq![p@.stat] + seq![p@.scy] + seq![p@.scx] + seq![p@.ly] + seq![p@.lyc] + seq![p@.bgp]));
    push_byte(out, p.obp0);
    assert(out@ =~= base + (p@.vram + p@.oam + seq![p@.lcdc] + seq![p@.stat] + seq![p@.scy] + seq![p@.scx] + seq![p@.ly] + seq![p@.lyc] + seq![p@.bgp] + seq![p@.obp0]));
    push_byte(out, p.obp1);
    assert(out@ =~= base + (p@.vram + p@.oam + seq![p@.lcdc] + seq![p@.stat] + seq![p@.scy] + seq![p@.scx] + seq![p@.ly] + seq![p@.lyc] + seq![p@.bgp] + seq![p@.obp0] + seq![p@.obp1]));
    push_byte(out, p.wy);
    assert(out@ =~= base + (p@.vram + p@.oam + seq![p@.lcdc] + seq![p@.stat] + seq![p@.scy] + seq![p@.scx] + seq![p@.ly] + seq![p@.lyc] + seq![p@.bgp] + seq![p@.obp0] + seq![p@.obp1] + seq![p@.wy]));
    push_byte(out, p.wx);
    assert(out@ =~= base + (p@.vram + p@.oam + seq![p@.lcdc] + seq![p@.stat] + seq![p@.scy] + seq![p@.scx] + seq![p@.ly] + seq![p@.lyc] + seq![p@.bgp] + seq![p@.obp0] + seq![p@.obp1] + seq![p@.wy] + seq![p@.wx]));
    push_u16(out, p.dot);
    assert(out@ =~= base + (p@.vram + p@.oam + seq![p@.lcdc] + seq![p@.stat] + seq![p@.scy] + seq![p@.scx] + seq![p@.ly] + seq![p@.lyc] + seq![p@.bgp] + seq![p@.obp0] + seq![p@.obp1] + seq![p@.wy] + seq![p@.wx] + be16(p@.dot)));
    push_bool(out, p.stat_line);
    assert(out@ =~= base + (p@.vram + p@.oam + seq![p@.lcdc] + seq![p@.stat] + seq![p@.scy] + seq![p@.scx] + seq![p@.ly] + seq![p@.lyc] + seq![p@.bgp] + seq![p@.obp0] + seq![p@.obp1] + seq![p@.wy] + seq![p@.wx] + be16(p@.dot) + seq![bool_byte(p@.stat_line)]));
    push_u64(out, p.last_clock);
    assert(out@ =~= base + (p@.vram + p@.oam + seq![p@.lcdc] + seq![p@.stat] + seq![p@.scy] + seq![p@.scx] + seq![p@.ly] + seq![p@.lyc] + seq![p@.bgp] + seq![p@.obp0] + seq![p@.obp1] + seq![p@.wy] + seq![p@.wx] + be16(p@.dot) + seq![bool_byte(p@.stat_line)] + be64(p@.last_clock)));
}

#[verifier::rlimit(100)]
fn save_misc(out: &mut Vec<u8>, s: &GameBoy)
    ensures
        final(out)@ == old(out)@ + blk_misc(s@),
{
    let ghost base = out@;
    push_byte(out, s.joypad_io);
    assert(out@ =~= base + (seq![s@.joypad_io]));
    push_byte(out, s.joypad);
    assert(out@ =~= base + (seq![s@.joypad_io] + seq![s@.joypad]));
    push_byte(out, s.serial_data);
    assert(out@ =~= base + (seq![s@.joypad_io] + seq![s@.joypad] + seq![s@.serial_data]));
    push_byte(out, s.serial_control);
    assert(out@ =~= base + (seq![s@.joypad_io] + seq![s@.joypad] + seq![s@.serial_data] + seq![s@.serial_control]));
    push_u64(out, s.serial_transfer_started);
    assert(out@ =~= base + (seq![s@.joypad_io] + seq![s@.joypad] + seq![s@.serial_data] + seq![s@.serial_control] + be64(s@.serial_transfer_started)));
    push_byte(out, s.interrupt_flag);
    assert(out@ =~= base + (seq![s@.joypad_io] + seq![s@.joypad] + seq![s@.serial_data] + seq![s@.serial_control] + be64(s@.serial_transfer_started) + seq![s@.interrupt_flag]));
    push_byte(out, s.dma);
    assert(out@ =~= base + (seq![s@.joypad_io] + seq![s@.joypad] + seq![s@.serial_data] + seq![s@.serial_control] + be64(s@.serial_transfer_started) + seq![s@.interrupt_flag] + seq![s@.dma]));
    push_byte(out, s.interrupt_enabled);
    assert(out@ =~= base + (seq![s@.joypad_io] + seq![s@.joypad] + seq![s@.serial_data] + seq![s@.serial_control] + be64(s@.serial_transfer_started) + seq![s@.interrupt_flag] + seq![s@.dma] + seq![s@.interrupt_enabled]));
    push_bool(out, s.dma_active);
    assert(out@ =~= base + (seq![s@.joypad_io] + seq![s@.joypad] + seq![s@.serial_data] + seq![s@.serial_control] + be64(s@.serial_transfer_started) + seq![s@.interrupt_flag] + seq![s@.dma] + seq![s@.interrupt_enabled] + seq![bool_byte(s@.dma_active)]));
    push_u64(out, s.dma_start_clock);
    assert(out@ =~= base + (seq![s@.joypad_io] + seq![s@.joypad] + seq![s@.serial_data] + seq![s@.serial_control] + be64(s@.serial_transfer_started) + seq![s@.interrupt_flag] + seq![s@.dma] + seq![s@.interrupt_enabled] + seq![bool_byte(s@.dma_active)] + be64(s@.dma_start_clock)));
    push_byte(out, s.dma_progress);
    assert(out@ =~= base + (seq![s@.joypad_io] + seq![s@.joypad] + seq![s@.serial_data] + seq![s@.serial_control] + be64(s@.serial_transfer_started) + seq![s@.interrupt_flag] + seq![s@.dma] + seq![s@.interrupt_enabled] + seq![bool_byte(s@.dma_active)] + be64(s@.dma_start_clock) + seq![s@.dma_progress]));
    push_bool(out, s.boot_rom_active);
    assert(out@ =~= base + (seq![s@.joypad_io] + seq![s@.joypad] + seq![s@.serial_data] + seq![s@.serial_control] + be64(s@.serial_transfer_started) + seq![s@.interrupt_flag] + seq![s@.dma] + seq![s@.interrupt_enabled] + seq![bool_byte(s@.dma_active)] + be64(s@.dma_start_clock) + seq![s@.dma_progress] + seq![bool_byte(s@.boot_rom_active)]));
    push_bool(out, s.v_blank_trigger);
    assert(out@ =~= base + (seq![s@.joypad_io] + seq![s@.joypad] + seq![s@.serial_data] + seq![s@.serial_control] + be64(s@.serial_transfer_started) + seq![s@.interrupt_flag] + seq![s@.dma] + seq![s@.interrupt_enabled] + seq![bool_byte(s@.dma_active)] + be64(s@.dma_start_clock) + seq![s@.dma_progress] + seq![bool_byte(s@.boot_rom_active)] + seq![bool_byte(s@.v_blank_trigger)]));
}
impl GameBoy {
    /// Serialize the whole core state.
    pub fn save_state(&self) -> (r: Vec<u8>)
        ensures
            r@ == spec_save(self@),
    {
        proof {
            reveal(spec_save);
        }
        let mut out: Vec<u8> = Vec::new();
        push_byte(&mut out, 0x47);
        push_byte(&mut out, 0x42);
        push_byte(&mut out, 0x52);
        push_byte(&mut out, 0x53);
        assert(out@ =~= spec_magic());
        push_u32(&mut out, STATE_VERSION);
        save_cpu(&mut out, &self.cpu);
        save_cart(&mut out, &self.cartridge);
        save_mem(&mut out, &self.wram, &self.hram, self.clock_count);
        save_timer(&mut out, &self.timer);
        save_sound(&mut out, &self.sound);
        save_ppu(&mut out, &self.ppu);
        save_misc(&mut out, self);
        out
    }
}

fn ime_of_byte_x(v: u8) -> (r: ImeState)
    ensures
        r == ime_of_byte(v),
{
    if v == 1 {
        ImeState::ToBeEnabled
    } else if v == 2 {
        ImeState::Enabled
    } else {
        ImeState::Disabled
    }
}

fn cpu_state_of_byte_x(v: u8) -> (r: CpuState)
    ensures
        r == cpu_state_of_byte(v),
{
    if v == 1 {
        CpuState::Halted
    } else if v == 2 {
        CpuState::Stopped
    } else if v == 3 {
        CpuState::HaltBug
    } else {
        CpuState::Running
    }
}

impl GameBoy {
    /// Header and field validation: exactly `spec_load_err`.
    #[verifier::rlimit(100)]
    fn validate_blob(&self, data: &Vec<u8>) -> (r: Option<LoadStateError>)
        requires
            gb_wf(self@),
        ensures
            r == spec_load_err(self@, data@),
    {
        let li = self.cartridge.ram.len();
        let n = data.len();
        if n < 4 {
            return Some(LoadStateError::Truncated);
        }
        if !(data[0] == 0x47 && data[1] == 0x42 && data[2] == 0x52 && data[3] == 0x53) {
            proof {
                assert(data@.subrange(0, 4)[0] == data@[0]);
                assert(data@.subrange(0, 4)[1] == data@[1]);
                assert(data@.subrange(0, 4)[2] == data@[2]);
                assert(data@.subrange(0, 4)[3] == data@[3]);
            }
            return Some(LoadStateError::BadMagic);
        }
        proof {
            assert(data@.subrange(0, 4) =~= spec_magic());
        }
        if n < 8 {
            return Some(LoadStateError::Truncated);
        }
        if u32_at(data, 4) != STATE_VERSION {
            return Some(LoadStateError::UnsupportedVersion);
        }
        if n < li + STATE_FIXED_LEN {
            return Some(LoadStateError::Truncated);
        }
        if n > li + STATE_FIXED_LEN {
            return Some(LoadStateError::Corrupt);
        }
        let b = 22 + li;
        let v_clock = u64_at(data, b + 8335);
        let ok = data[20] <= 2
            && data[21] <= 3
            && data[b + 0] <= 1
            && data[b + 3] <= 1
            && data[b + 8348] <= 1
            && data[b + 8395] <= 1
            && data[b + 8396] <= 1
            && data[b + 8398] <= 1
            && data[b + 8407] <= 1
            && data[b + 8414] <= 1
            && data[b + 16801] <= 1
            && data[b + 16825] <= 1
            && data[b + 16835] <= 1
            && data[b + 16836] <= 1
            && data[b + 2] < 4
            && data[b + 4] < 16
            && (!matches!(self.cartridge.mbc, Mbc::Mbc1) || data[b + 1] < 32)
            && (!matches!(self.cartridge.mbc, Mbc::Mbc2) || data[b + 1] < 16)
            && (!matches!(self.cartridge.mbc, Mbc::Mbc3) || data[b + 1] < 128)
            && (!matches!(self.cartridge.mbc, Mbc::Mbc5) || data[b + 2] < 2)
            && u64_at(data, b + 8349) <= v_clock
            && data[b + 8404] < 8
            && data[b + 8411] < 8
            && data[b + 8419] < 32
            && data[b + 8405] < 16
            && data[b + 8412] < 16
            && u16_at(data, b + 8399) < 2048
            && u64_at(data, b + 8428) < CLOCK_SPEED
            && u64_at(data, b + 8420) <= v_clock
            && u16_at(data, b + 16799) < 456
            && data[b + 16792] < 154
            && data[b + 16789] & 0x78 == data[b + 16789]
            && u64_at(data, b + 16802) <= v_clock
            && data[b + 16834] <= 160
            && (data[b + 16825] != 1 || (u64_at(data, b + 16826) <= v_clock && (data[b + 16834] as u64) <= (v_clock - u64_at(data, b + 16826)) / 4))
            && (data[b + 16835] != 1 || self.boot_rom.is_some());
        if !ok {
            return Some(LoadStateError::Corrupt);
        }
        None
    }

    #[verifier::rlimit(100)]
    fn apply_cpu(&mut self, data: &Vec<u8>)
        requires
            data@.len() == old(self)@.cartridge.ram.len() + STATE_FIXED_LEN,
            old(self)@.cartridge.ram.len() <= 0x2_0000,
        ensures
            final(self)@ == (GameBoyV { cpu: (Cpu {
                a: data@[8],
                f: Flags(data@[9]),
                b: data@[10],
                c: data@[11],
                d: data@[12],
                e: data@[13],
                h: data@[14],
                l: data@[15],
                sp: spec_u16_at(data@, 16),
                pc: spec_u16_at(data@, 18),
                ime: ime_of_byte(data@[20]),
                state: cpu_state_of_byte(data@[21]),
            }), ..old(self)@ }),
    {
        let li = self.cartridge.ram.len();
        let b = 22 + li;
        self.cpu = Cpu {
            a: data[8],
            f: Flags(data[9]),
            b: data[10],
            c: data[11],
            d: data[12],
            e: data[13],
            h: data[14],
            l: data[15],
            sp: u16_at(data, 16),
            pc: u16_at(data, 18),
            ime: ime_of_byte_x(data[20]),
            state: cpu_state_of_byte_x(data[21]),
        };
        assert(self@ =~= (GameBoyV { cpu: (Cpu {
                a: data@[8],
                f: Flags(data@[9]),
                b: data@[10],
                c: data@[11],
                d: data@[12],
                e: data@[13],
                h: data@[14],
                l: data@[15],
                sp: spec_u16_at(data@, 16),
                pc: spec_u16_at(data@, 18),
                ime: ime_of_byte(data@[20]),
                state: cpu_state_of_byte(data@[21]),
            }), ..old(self)@ }));
    }

    #[verifier::rlimit(100)]
    fn apply_cart(&mut self, data: &Vec<u8>)
        requires
            data@.len() == old(self)@.cartridge.ram.len() + STATE_FIXED_LEN,
            old(self)@.cartridge.ram.len() <= 0x2_0000,
        ensures
            final(self)@ == (GameBoyV { cartridge: (CartridgeV {
                rom: old(self)@.cartridge.rom,
                mbc: old(self)@.cartridge.mbc,
                ram: data@.subrange(22, 22 + old(self)@.cartridge.ram.len() as int),
                ram_enabled: data@[22 + old(self)@.cartridge.ram.len() as int + 0] == 1,
                bank_lo: data@[22 + old(self)@.cartridge.ram.len() as int + 1],
                bank_hi: data@[22 + old(self)@.cartridge.ram.len() as int + 2],
                mode: data@[22 + old(self)@.cartridge.ram.len() as int + 3] == 1,
                ram_bank: data@[22 + old(self)@.cartridge.ram.len() as int + 4],
                rtc_s: data@[22 + old(self)@.cartridge.ram.len() as int + 5],
                rtc_m: data@[22 + old(self)@.cartridge.ram.len() as int + 6],
                rtc_h: data@[22 + old(self)@.cartridge.ram.len() as int + 7],
                rtc_dl: data@[22 + old(self)@.cartridge.ram.len() as int + 8],
                rtc_dh: data@[22 + old(self)@.cartridge.ram.len() as int + 9],
                lat_s: data@[22 + old(self)@.cartridge.ram.len() as int + 10],
                lat_m: data@[22 + old(self)@.cartridge.ram.len() as int + 11],
                lat_h: data@[22 + old(self)@.cartridge.ram.len() as int + 12],
                lat_dl: data@[22 + old(self)@.cartridge.ram.len() as int + 13],
                lat_dh: data@[22 + old(self)@.cartridge.ram.len() as int + 14],
                rtc_latch: data@[22 + old(self)@.cartridge.ram.len() as int + 15],
            }), ..old(self)@ }),
    {
        let li = self.cartridge.ram.len();
        let b = 22 + li;
        let rb = copy_range(data, 22, li);
        self.cartridge.ram = rb;
        self.cartridge.ram_enabled = data[b + 0] == 1;
        self.cartridge.bank_lo = data[b + 1];
        self.cartridge.bank_hi = data[b + 2];
        self.cartridge.mode = data[b + 3] == 1;
        self.cartridge.ram_bank = data[b + 4];
        self.cartridge.rtc_s = data[b + 5];
        self.cartridge.rtc_m = data[b + 6];
        self.cartridge.rtc_h = data[b + 7];
        self.cartridge.rtc_dl = data[b + 8];
        self.cartridge.rtc_dh = data[b + 9];
        self.cartridge.lat_s = data[b + 10];
        self.cartridge.lat_m = data[b + 11];
        self.cartridge.lat_h = data[b + 12];
        self.cartridge.lat_dl = data[b + 13];
        self.cartridge.lat_dh = data[b + 14];
        self.cartridge.rtc_latch = data[b + 15];
        assert(self@ =~= (GameBoyV { cartridge: (CartridgeV {
                rom: old(self)@.cartridge.rom,
                mbc: old(self)@.cartridge.mbc,
                ram: data@.subrange(22, 22 + old(self)@.cartridge.ram.len() as int),
                ram_enabled: data@[22 + old(self)@.cartridge.ram.len() as int + 0] == 1,
                bank_lo: data@[22 + old(self)@.cartridge.ram.len() as int + 1],
                bank_hi: data@[22 + old(self)@.cartridge.ram.len() as int + 2],
                mode: data@[22 + old(self)@.cartridge.ram.len() as int + 3] == 1,
                ram_bank: data@[22 + old(self)@.cartridge.ram.len() as int + 4],
                rtc_s: data@[22 + old(self)@.cartridge.ram.len() as int + 5],
                rtc_m: data@[22 + old(self)@.cartridge.ram.len() as int + 6],
                rtc_h: data@[22 + old(self)@.cartridge.ram.len() as int + 7],
                rtc_dl: data@[22 + old(self)@.cartridge.ram.len() as int + 8],
                rtc_dh: data@[22 + old(self)@.cartridge.ram.len() as int + 9],
                lat_s: data@[22 + old(self)@.cartridge.ram.len() as int + 10],
                lat_m: data@[22 + old(self)@.cartridge.ram.len() as int + 11],
                lat_h: data@[22 + old(self)@.cartridge.ram.len() as int + 12],
                lat_dl: data@[22 + old(self)@.cartridge.ram.len() as int + 13],
                lat_dh: data@[22 + old(self)@.cartridge.ram.len() as int + 14],
                rtc_latch: data@[22 + old(self)@.cartridge.ram.len() as int + 15],
            }), ..old(self)@ }));
    }

    #[verifier::rlimit(100)]
    fn apply_mem_timer(&mut self, data: &Vec<u8>)
        requires
            data@.len() == old(self)@.cartridge.ram.len() + STATE_FIXED_LEN,
            old(self)@.cartridge.ram.len() <= 0x2_0000,
        ensures
            final(self)@ == (GameBoyV {
                wram: data@.subrange(22 + old(self)@.cartridge.ram.len() as int + 16, 22 + old(self)@.cartridge.ram.len() as int + 16 + 8192),
                hram: data@.subrange(22 + old(self)@.cartridge.ram.len() as int + 8208, 22 + old(self)@.cartridge.ram.len() as int + 8208 + 127),
                clock_count: spec_u64_at(data@, 22 + old(self)@.cartridge.ram.len() as int + 8335),
                timer: (Timer {
                div: spec_u16_at(data@, 22 + old(self)@.cartridge.ram.len() as int + 8343),
                tima: data@[22 + old(self)@.cartridge.ram.len() as int + 8345],
                tma: data@[22 + old(self)@.cartridge.ram.len() as int + 8346],
                tac: data@[22 + old(self)@.cartridge.ram.len() as int + 8347],
                last_counter_bit: data@[22 + old(self)@.cartridge.ram.len() as int + 8348] == 1,
                last_clock_count: spec_u64_at(data@, 22 + old(self)@.cartridge.ram.len() as int + 8349),
                loading: data@[22 + old(self)@.cartridge.ram.len() as int + 8357],
            }),
                ..old(self)@
            }),
    {
        let li = self.cartridge.ram.len();
        let b = 22 + li;
        self.wram = copy_range(data, b + 16, 8192);
        self.hram = copy_range(data, b + 8208, 127);
        self.clock_count = u64_at(data, b + 8335);
        self.timer = Timer {
            div: u16_at(data, b + 8343),
            tima: data[b + 8345],
            tma: data[b + 8346],
            tac: data[b + 8347],
            last_counter_bit: data[b + 8348] == 1,
            last_clock_count: u64_at(data, b + 8349),
            loading: data[b + 8357],
        };
        assert(self@ =~= (GameBoyV {
            wram: data@.subrange(22 + old(self)@.cartridge.ram.len() as int + 16, 22 + old(self)@.cartridge.ram.len() as int + 16 + 8192),
            hram: data@.subrange(22 + old(self)@.cartridge.ram.len() as int + 8208, 22 + old(self)@.cartridge.ram.len() as int + 8208 + 127),
            clock_count: spec_u64_at(data@, 22 + old(self)@.cartridge.ram.len() as int + 8335),
            timer: (Timer {
                div: spec_u16_at(data@, 22 + old(self)@.cartridge.ram.len() as int + 8343),
                tima: data@[22 + old(self)@.cartridge.ram.len() as int + 8345],
                tma: data@[22 + old(self)@.cartridge.ram.len() as int + 8346],
                tac: data@[22 + old(self)@.cartridge.ram.len() as int + 8347],
                last_counter_bit: data@[22 + old(self)@.cartridge.ram.len() as int + 8348] == 1,
                last_clock_count: spec_u64_at(data@, 22 + old(self)@.cartridge.ram.len() as int + 8349),
                loading: data@[22 + old(self)@.cartridge.ram.len() as int + 8357],
            }),
            ..old(self)@
        }));
    }

    #[verifier::rlimit(100)]
    fn apply_sound(&mut self, data: &Vec<u8>)
        requires
            data@.len() == old(self)@.cartridge.ram.len() + STATE_FIXED_LEN,
            old(self)@.cartridge.ram.len() <= 0x2_0000,
        ensures
            final(self)@ == (GameBoyV { sound: (SoundV {
                nr10: data@[22 + old(self)@.cartridge.ram.len() as int + 8358],
                nr11: data@[22 + old(self)@.cartridge.ram.len() as int + 8359],
                nr12: data@[22 + old(self)@.cartridge.ram.len() as int + 8360],
                nr13: data@[22 + old(self)@.cartridge.ram.len() as int + 8361],
                nr14: data@[22 + old(self)@.cartridge.ram.len() as int + 8362],
                nr21: data@[22 + old(self)@.cartridge.ram.len() as int + 8363],
                nr22: data@[22 + old(self)@.cartridge.ram.len() as int + 8364],
                nr23: data@[22 + old(self)@.cartridge.ram.len() as int + 8365],
                nr24: data@[22 + old(self)@.cartridge.ram.len() as int + 8366],
                nr30: data@[22 + old(self)@.cartridge.ram.len() as int + 8367],
                nr31: data@[22 + old(self)@.cartridge.ram.len() as int + 8368],
                nr32: data@[22 + old(self)@.cartridge.ram.len() as int + 8369],
                nr33: data@[22 + old(self)@.cartridge.ram.len() as int + 8370],
                nr34: data@[22 + old(self)@.cartridge.ram.len() as int + 8371],
                nr41: data@[22 + old(self)@.cartridge.ram.len() as int + 8372],
                nr42: data@[22 + old(self)@.cartridge.ram.len() as int + 8373],
                nr43: data@[22 + old(self)@.cartridge.ram.len() as int + 8374],
                nr44: data@[22 + old(self)@.cartridge.ram.len() as int + 8375],
                nr50: data@[22 + old(self)@.cartridge.ram.len() as int + 8376],
                nr51: data@[22 + old(self)@.cartridge.ram.len() as int + 8377],
                nr52: data@[22 + old(self)@.cartridge.ram.len() as int + 8378],
                wave: data@.subrange(22 + old(self)@.cartridge.ram.len() as int + 8379, 22 + old(self)@.cartridge.ram.len() as int + 8379 + 16),
                on: data@[22 + old(self)@.cartridge.ram.len() as int + 8395] == 1,
                ch1_channel_enable: data@[22 + old(self)@.cartridge.ram.len() as int + 8396] == 1,
                ch1_length_timer: data@[22 + old(self)@.cartridge.ram.len() as int + 8397],
                ch1_sweep_enabled: data@[22 + old(self)@.cartridge.ram.len() as int + 8398] == 1,
                ch1_shadow_freq: spec_u16_at(data@, 22 + old(self)@.cartridge.ram.len() as int + 8399),
                ch1_sweep_timer: data@[22 + old(self)@.cartridge.ram.len() as int + 8401],
                ch1_frequency_timer: spec_u16_at(data@, 22 + old(self)@.cartridge.ram.len() as int + 8402),
                ch1_wave_duty_position: data@[22 + old(self)@.cartridge.ram.len() as int + 8404],
                ch1_current_volume: data@[22 + old(self)@.cartridge.ram.len() as int + 8405],
                ch1_env_period_timer: data@[22 + old(self)@.cartridge.ram.len() as int + 8406],
                ch2_channel_enable: data@[22 + old(self)@.cartridge.ram.len() as int + 8407] == 1,
                ch2_length_timer: data@[22 + old(self)@.cartridge.ram.len() as int + 8408],
                ch2_frequency_timer: spec_u16_at(data@, 22 + old(self)@.cartridge.ram.len() as int + 8409),
                ch2_wave_duty_position: data@[22 + old(self)@.cartridge.ram.len() as int + 8411],
                ch2_current_volume: data@[22 + old(self)@.cartridge.ram.len() as int + 8412],
                ch2_env_period_timer: data@[22 + old(self)@.cartridge.ram.len() as int + 8413],
                ch3_channel_enable: data@[22 + old(self)@.cartridge.ram.len() as int + 8414] == 1,
                ch3_length_timer: spec_u16_at(data@, 22 + old(self)@.cartridge.ram.len() as int + 8415),
                ch3_frequency_timer: spec_u16_at(data@, 22 + old(self)@.cartridge.ram.len() as int + 8417),
                ch3_wave_position: data@[22 + old(self)@.cartridge.ram.len() as int + 8419],
                last_clock: spec_u64_at(data@, 22 + old(self)@.cartridge.ram.len() as int + 8420),
                sample_mod: spec_u64_at(data@, 22 + old(self)@.cartridge.ram.len() as int + 8428),
                output: old(self)@.sound.output,
                sample_frequency: old(self)@.sound.sample_frequency,
            }), ..old(self)@ }),
    {
        let li = self.cartridge.ram.len();
        let b = 22 + li;
        self.sound.nr10 = data[b + 8358];
        self.sound.nr11 = data[b + 8359];
        self.sound.nr12 = data[b + 8360];
        self.sound.nr13 = data[b + 8361];
        self.sound.nr14 = data[b + 8362];
        self.sound.nr21 = data[b + 8363];
        self.sound.nr22 = data[b + 8364];
        self.sound.nr23 = data[b + 8365];
        self.sound.nr24 = data[b + 8366];
        self.sound.nr30 = data[b + 8367];
        self.sound.nr31 = data[b + 8368];
        self.sound.nr32 = data[b + 8369];
        self.sound.nr33 = data[b + 8370];
        self.sound.nr34 = data[b + 8371];
        self.sound.nr41 = data[b + 8372];
        self.sound.nr42 = data[b + 8373];
        self.sound.nr43 = data[b + 8374];
        self.sound.nr44 = data[b + 8375];
        self.sound.nr50 = data[b + 8376];
        self.sound.nr51 = data[b + 8377];
        self.sound.nr52 = data[b + 8378];
        self.sound.ch3_wave_pattern = copy_range(data, b + 8379, 16);
        self.sound.on = data[b + 8395] == 1;
        self.sound.ch1_channel_enable = data[b + 8396] == 1;
        self.sound.ch1_length_timer = data[b + 8397];
        self.sound.ch1_sweep_enabled = data[b + 8398] == 1;
        self.sound.ch1_shadow_freq = u16_at(data, b + 8399);
        self.sound.ch1_sweep_timer = data[b + 8401];
        self.sound.ch1_frequency_timer = u16_at(data, b + 8402);
        self.sound.ch1_wave_duty_position = data[b + 8404];
        self.sound.ch1_current_volume = data[b + 8405];
        self.sound.ch1_env_period_timer = data[b + 8406];
        self.sound.ch2_channel_enable = data[b + 8407] == 1;
        self.sound.ch2_length_timer = data[b + 8408];
        self.sound.ch2_frequency_timer = u16_at(data, b + 8409);
        self.sound.ch2_wave_duty_position = data[b + 8411];
        self.sound.ch2_current_volume = data[b + 8412];
        self.sound.ch2_env_period_timer = data[b + 8413];
        self.sound.ch3_channel_enable = data[b + 8414] == 1;
        self.sound.ch3_length_timer = u16_at(data, b + 8415);
        self.sound.ch3_frequency_timer = u16_at(data, b + 8417);
        self.sound.ch3_wave_position = data[b + 8419];
        self.sound.last_clock = u64_at(data, b + 8420);
        self.sound.sample_mod = u64_at(data, b + 8428);
        assert(self@ =~= (GameBoyV { sound: (SoundV {
                nr10: data@[22 + old(self)@.cartridge.ram.len() as int + 8358],
                nr11: data@[22 + old(self)@.cartridge.ram.len() as int + 8359],
                nr12: data@[22 + old(self)@.cartridge.ram.len() as int + 8360],
                nr13: data@[22 + old(self)@.cartridge.ram.len() as int + 8361],
                nr14: data@[22 + old(self)@.cartridge.ram.len() as int + 8362],
                nr21: data@[22 + old(self)@.cartridge.ram.len() as int + 8363],
                nr22: data@[22 + old(self)@.cartridge.ram.len() as int + 8364],
                nr23: data@[22 + old(self)@.cartridge.ram.len() as int + 8365],
                nr24: data@[22 + old(self)@.cartridge.ram.len() as int + 8366],
                nr30: data@[22 + old(self)@.cartridge.ram.len() as int + 8367],
                nr31: data@[22 + old(self)@.cartridge.ram.len() as int + 8368],
                nr32: data@[22 + old(self)@.cartridge.ram.len() as int + 8369],
                nr33: data@[22 + old(self)@.cartridge.ram.len() as int + 8370],
                nr34: data@[22 + old(self)@.cartridge.ram.len() as int + 8371],
                nr41: data@[22 + old(self)@.cartridge.ram.len() as int + 8372],
                nr42: data@[22 + old(self)@.cartridge.ram.len() as int + 8373],
                nr43: data@[22 + old(self)@.cartridge.ram.len() as int + 8374],
                nr44: data@[22 + old(self)@.cartridge.ram.len() as int + 8375],
                nr50: data@[22 + old(self)@.cartridge.ram.len() as int + 8376],
                nr51: data@[22 + old(self)@.cartridge.ram.len() as int + 8377],
                nr52: data@[22 + old(self)@.cartridge.ram.len() as int + 8378],
                wave: data@.subrange(22 + old(self)@.cartridge.ram.len() as int + 8379, 22 + old(self)@.cartridge.ram.len() as int + 8379 + 16),
                on: data@[22 + old(self)@.cartridge.ram.len() as int + 8395] == 1,
                ch1_channel_enable: data@[22 + old(self)@.cartridge.ram.len() as int + 8396] == 1,
                ch1_length_timer: data@[22 + old(self)@.cartridge.ram.len() as int + 8397],
                ch1_sweep_enabled: data@[22 + old(self)@.cartridge.ram.len() as int + 8398] == 1,
                ch1_shadow_freq: spec_u16_at(data@, 22 + old(self)@.cartridge.ram.len() as int + 8399),
                ch1_sweep_timer: data@[22 + old(self)@.cartridge.ram.len() as int + 8401],
                ch1_frequency_timer: spec_u16_at(data@, 22 + old(self)@.cartridge.ram.len() as int + 8402),
                ch1_wave_duty_position: data@[22 + old(self)@.cartridge.ram.len() as int + 8404],
                ch1_current_volume: data@[22 + old(self)@.cartridge.ram.len() as int + 8405],
                ch1_env_period_timer: data@[22 + old(self)@.cartridge.ram.len() as int + 8406],
                ch2_channel_enable: data@[22 + old(self)@.cartridge.ram.len() as int + 8407] == 1,
                ch2_length_timer: data@[22 + old(self)@.cartridge.ram.len() as int + 8408],
                ch2_frequency_timer: spec_u16_at(data@, 22 + old(self)@.cartridge.ram.len() as int + 8409),
                ch2_wave_duty_position: data@[22 + old(self)@.cartridge.ram.len() as int + 8411],
                ch2_current_volume: data@[22 + old(self)@.cartridge.ram.len() as int + 8412],
                ch2_env_period_timer: data@[22 + old(self)@.cartridge.ram.len() as int + 8413],
                ch3_channel_enable: data@[22 + old(self)@.cartridge.ram.len() as int + 8414] == 1,
                ch3_length_timer: spec_u16_at(data@, 22 + old(self)@.cartridge.ram.len() as int + 8415),
                ch3_frequency_timer: spec_u16_at(data@, 22 + old(self)@.cartridge.ram.len() as int + 8417),
                ch3_wave_position: data@[22 + old(self)@.cartridge.ram.len() as int + 8419],
                last_clock: spec_u64_at(data@, 22 + old(self)@.cartridge.ram.len() as int + 8420),
                sample_mod: spec_u64_at(data@, 22 + old(self)@.cartridge.ram.len() as int + 8428),
                output: old(self)@.sound.output,
                sample_frequency: old(self)@.sound.sample_frequency,
            }), ..old(self)@ }));
    }

    #[verifier::rlimit(100)]
    fn apply_ppu(&mut self, data: &Vec<u8>)
        requires
            data@.len() == old(self)@.cartridge.ram.len() + STATE_FIXED_LEN,
            old(self)@.cartridge.ram.len() <= 0x2_0000,
        ensures
            final(self)@ == (GameBoyV { ppu: (PpuV {
                vram: data@.subrange(22 + old(self)@.cartridge.ram.len() as int + 8436, 22 + old(self)@.cartridge.ram.len() as int + 8436 + 8192),
                oam: data@.subrange(22 + old(self)@.cartridge.ram.len() as int + 16628, 22 + old(self)@.cartridge.ram.len() as int + 16628 + 160),
                lcdc: data@[22 + old(self)@.cartridge.ram.len() as int + 16788],
                stat: data@[22 + old(self)@.cartridge.ram.len() as int + 16789],
                scy: data@[22 + old(self)@.cartridge.ram.len() as int + 16790],
                scx: data@[22 + old(self)@.cartridge.ram.len() as int + 16791],
                ly: data@[22 + old(self)@.cartridge.ram.len() as int + 16792],
                lyc: data@[22 + old(self)@.cartridge.ram.len() as int + 16793],
                bgp: data@[22 + old(self)@.cartridge.ram.len() as int + 16794],
                obp0: data@[22 + old(self)@.cartridge.ram.len() as int + 16795],
                obp1: data@[22 + old(self)@.cartridge.ram.len() as int + 16796],
                wy: data@[22 + old(self)@.cartridge.ram.len() as int + 16797],
                wx: data@[22 + old(self)@.cartridge.ram.len() as int + 16798],
                dot: spec_u16_at(data@, 22 + old(self)@.cartridge.ram.len() as int + 16799),
                stat_line: data@[22 + old(self)@.cartridge.ram.len() as int + 16801] == 1,
                last_clock: spec_u64_at(data@, 22 + old(self)@.cartridge.ram.len() as int + 16802),
            }), ..old(self)@ }),
    {
        let li = self.cartridge.ram.len();
        let b = 22 + li;
        self.ppu.vram = copy_range(data, b + 8436, 8192);
        self.ppu.oam = copy_range(data, b + 16628, 160);
        self.ppu.lcdc = data[b + 16788];
        self.ppu.stat = data[b + 16789];
        self.ppu.scy = data[b + 16790];
        self.ppu.scx = data[b + 16791];
        self.ppu.ly = data[b + 16792];
        self.ppu.lyc = data[b + 16793];
        self.ppu.bgp = data[b + 16794];
        self.ppu.obp0 = data[b + 16795];
        self.ppu.obp1 = data[b + 16796];
        self.ppu.wy = data[b + 16797];
        self.ppu.wx = data[b + 16798];
        self.ppu.dot = u16_at(data, b + 16799);
        self.ppu.stat_line = data[b + 16801] == 1;
        self.ppu.last_clock = u64_at(data, b + 16802);
        assert(self@ =~= (GameBoyV { ppu: (PpuV {
                vram: data@.subrange(22 + old(self)@.cartridge.ram.len() as int + 8436, 22 + old(self)@.cartridge.ram.len() as int + 8436 + 8192),
                oam: data@.subrange(22 + old(self)@.cartridge.ram.len() as int + 16628, 22 + old(self)@.cartridge.ram.len() as int + 16628 + 160),
                lcdc: data@[22 + old(self)@.cartridge.ram.len() as int + 16788],
                stat: data@[22 + old(self)@.cartridge.ram.len() as int + 16789],
                scy: data@[22 + old(self)@.cartridge.ram.len() as int + 16790],
                scx: data@[22 + old(self)@.cartridge.ram.len() as int + 16791],
                ly: data@[22 + old(self)@.cartridge.ram.len() as int + 16792],
                lyc: data@[22 + old(self)@.cartridge.ram.len() as int + 16793],
                bgp: data@[22 + old(self)@.cartridge.ram.len() as int + 16794],
                obp0: data@[22 + old(self)@.cartridge.ram.len() as int + 16795],
                obp1: data@[22 + old(self)@.cartridge.ram.len() as int + 16796],
                wy: data@[22 + old(self)@.cartridge.ram.len() as int + 16797],
                wx: data@[22 + old(self)@.cartridge.ram.len() as int + 16798],
                dot: spec_u16_at(data@, 22 + old(self)@.cartridge.ram.len() as int + 16799),
                stat_line: data@[22 + old(self)@.cartridge.ram.len() as int + 16801] == 1,
                last_clock: spec_u64_at(data@, 22 + old(self)@.cartridge.ram.len() as int + 16802),
            }), ..old(self)@ }));
    }

    #[verifier::rlimit(100)]
    fn apply_misc(&mut self, data: &Vec<u8>)
        requires
            data@.len() == old(self)@.cartridge.ram.len() + STATE_FIXED_LEN,
            old(self)@.cartridge.ram.len() <= 0x2_0000,
        ensures
            final(self)@ == (GameBoyV {
                joypad_io: data@[22 + old(self)@.cartridge.ram.len() as int + 16810],
                joypad: data@[22 + old(self)@.cartridge.ram.len() as int + 16811],
                serial_data: data@[22 + old(self)@.cartridge.ram.len() as int + 16812],
                serial_control: data@[22 + old(self)@.cartridge.ram.len() as int + 16813],
                serial_transfer_started: spec_u64_at(data@, 22 + old(self)@.cartridge.ram.len() as int + 16814),
                interrupt_flag: data@[22 + old(self)@.cartridge.ram.len() as int + 16822],
                dma: data@[22 + old(self)@.cartridge.ram.len() as int + 16823],
                interrupt_enabled: data@[22 + old(self)@.cartridge.ram.len() as int + 16824],
                dma_active: data@[22 + old(self)@.cartridge.ram.len() as int + 16825] == 1,
                dma_start_clock: spec_u64_at(data@, 22 + old(self)@.cartridge.ram.len() as int + 16826),
                dma_progress: data@[22 + old(self)@.cartridge.ram.len() as int + 16834],
                boot_rom_active: data@[22 + old(self)@.cartridge.ram.len() as int + 16835] == 1,
                v_blank_trigger: data@[22 + old(self)@.cartridge.ram.len() as int + 16836] == 1,
                ..old(self)@
            }),
    {
        let li = self.cartridge.ram.len();
        let b = 22 + li;
        self.joypad_io = data[b + 16810];
        self.joypad = data[b + 16811];
        self.serial_data = data[b + 16812];
        self.serial_control = data[b + 16813];
        self.serial_transfer_started = u64_at(data, b + 16814);
        self.interrupt_flag = data[b + 16822];
        self.dma = data[b + 16823];
        self.interrupt_enabled = data[b + 16824];
        self.dma_active = data[b + 16825] == 1;
        self.dma_start_clock = u64_at(data, b + 16826);
        self.dma_progress = data[b + 16834];
        self.boot_rom_active = data[b + 16835] == 1;
        self.v_blank_trigger = data[b + 16836] == 1;
        assert(self@ =~= (GameBoyV {
            joypad_io: data@[22 + old(self)@.cartridge.ram.len() as int + 16810],
                joypad: data@[22 + old(self)@.cartridge.ram.len() as int + 16811],
                serial_data: data@[22 + old(self)@.cartridge.ram.len() as int + 16812],
                serial_control: data@[22 + old(self)@.cartridge.ram.len() as int + 16813],
                serial_transfer_started: spec_u64_at(data@, 22 + old(self)@.cartridge.ram.len() as int + 16814),
                interrupt_flag: data@[22 + old(self)@.cartridge.ram.len() as int + 16822],
                dma: data@[22 + old(self)@.cartridge.ram.len() as int + 16823],
                interrupt_enabled: data@[22 + old(self)@.cartridge.ram.len() as int + 16824],
                dma_active: data@[22 + old(self)@.cartridge.ram.len() as int + 16825] == 1,
                dma_start_clock: spec_u64_at(data@, 22 + old(self)@.cartridge.ram.len() as int + 16826),
                dma_progress: data@[22 + old(self)@.cartridge.ram.len() as int + 16834],
                boot_rom_active: data@[22 + old(self)@.cartridge.ram.len() as int + 16835] == 1,
                v_blank_trigger: data@[22 + old(self)@.cartridge.ram.len() as int + 16836] == 1,
            ..old(self)@
        }));
    }

    /// Restore a blob made by `save_state` into this machine, which must
    /// hold the same cartridge. On any error the machine is unchanged; the
    /// error names the first problem found.
    #[verifier::rlimit(100)]
    pub fn load_state(&mut self, data: &Vec<u8>) -> (r: Result<(), LoadStateError>)
        requires
            gb_wf(old(self)@),
        ensures
            (r is Ok) == (spec_load_err(old(self)@, data@) is None),
            r is Err ==> Some(r->Err_0) == spec_load_err(old(self)@, data@) && final(self)@
                == old(self)@,
            r is Ok ==> final(self)@ == spec_loaded_state(old(self)@, data@),
            r is Ok ==> gb_wf(final(self)@),
    {
        match self.validate_blob(data) {
            Some(e) => Err(e),
            None => {
                self.apply_cpu(data);
                self.apply_cart(data);
                self.apply_mem_timer(data);
                self.apply_sound(data);
                self.apply_ppu(data);
                self.apply_misc(data);
                assert(self@ =~= spec_loaded_state(old(self)@, data@));
                Ok(())
            },
        }
    }
}

#[verifier::rlimit(100)]
proof fn lemma_rt_len(s: GameBoyV)
    requires
        gb_wf(s),
    ensures
        blk_cpu(s.cpu).len() == 14,
        blk_cart(s.cartridge).len() == s.cartridge.ram.len() + 16,
        blk_mem(s.wram, s.hram, s.clock_count).len() == 0x2087,
        blk_timer(s.timer).len() == 15,
        blk_sound(s.sound).len() == 78,
        blk_ppu(s.ppu).len() == 8374,
        blk_misc(s).len() == 27,
        spec_save(s).len() == s.cartridge.ram.len() + STATE_FIXED_LEN,
        spec_save(s).subrange(0, 4) == spec_magic(),
        spec_u32_at(spec_save(s), 4) == STATE_VERSION,
{
    reveal(spec_save);
    let d = spec_save(s);
    assert(d.subrange(0, 4) =~= spec_magic());
    assert(d.subrange(4, 8) =~= be32(STATE_VERSION));
    lemma_be32_at(d, 4, STATE_VERSION);
}

#[verifier::rlimit(100)]
proof fn lemma_rt_cpu(s: GameBoyV)
    requires
        gb_wf(s),
    ensures
        spec_save(s)[8] == s.cpu.a,
        spec_save(s)[9] == s.cpu.f.0,
        spec_save(s)[10] == s.cpu.b,
        spec_save(s)[11] == s.cpu.c,
        spec_save(s)[12] == s.cpu.d,
        spec_save(s)[13] == s.cpu.e,
        spec_save(s)[14] == s.cpu.h,
        spec_save(s)[15] == s.cpu.l,
        spec_u16_at(spec_save(s), 16) == s.cpu.sp,
        spec_u16_at(spec_save(s), 18) == s.cpu.pc,
        spec_save(s)[20] == ime_byte(s.cpu.ime),
        spec_save(s)[21] == cpu_state_byte(s.cpu.state),
{
    reveal(spec_save);
    let d = spec_save(s);
    let li = s.cartridge.ram.len() as int;
    let b = 22 + li;
    lemma_rt_len(s);
    let bb = blk_cpu(s.cpu);
    assert(d.subrange(8int, 22int) =~= bb);
    assert(bb[0int] == s.cpu.a);
    assert(d[8] == bb[0int]);
    assert(bb[1int] == s.cpu.f.0);
    assert(d[9] == bb[1int]);
    assert(bb[2int] == s.cpu.b);
    assert(d[10] == bb[2int]);
    assert(bb[3int] == s.cpu.c);
    assert(d[11] == bb[3int]);
    assert(bb[4int] == s.cpu.d);
    assert(d[12] == bb[4int]);
    assert(bb[5int] == s.cpu.e);
    assert(d[13] == bb[5int]);
    assert(bb[6int] == s.cpu.h);
    assert(d[14] == bb[6int]);
    assert(bb[7int] == s.cpu.l);
    assert(d[15] == bb[7int]);
    assert(bb.subrange(8int, 10int) =~= be16(s.cpu.sp));
    assert(d.subrange(16int, 18int) =~= bb.subrange(8int, 10int));
    lemma_be16_at(d, 16, s.cpu.sp);
    assert(bb.subrange(10int, 12int) =~= be16(s.cpu.pc));
    assert(d.subrange(18int, 20int) =~= bb.subrange(10int, 12int));
    lemma_be16_at(d, 18, s.cpu.pc);
    assert(bb[12int] == ime_byte(s.cpu.ime));
    assert(d[20] == bb[12int]);
    assert(bb[13int] == cpu_state_byte(s.cpu.state));
    assert(d[21] == bb[13int]);
}

#[verifier::rlimit(100)]
proof fn lemma_rt_cart(s: GameBoyV)
    requires
        gb_wf(s),
    ensures
        spec_save(s).subrange(22, 22 + s.cartridge.ram.len() as int) == s.cartridge.ram,
        spec_save(s)[22 + s.cartridge.ram.len() as int + 0] == bool_byte(s.cartridge.ram_enabled),
        spec_save(s)[22 + s.cartridge.ram.len() as int + 1] == s.cartridge.bank_lo,
        spec_save(s)[22 + s.cartridge.ram.len() as int + 2] == s.cartridge.bank_hi,
        spec_save(s)[22 + s.cartridge.ram.len() as int + 3] == bool_byte(s.cartridge.mode),
        spec_save(s)[22 + s.cartridge.ram.len() as int + 4] == s.cartridge.ram_bank,
        spec_save(s)[22 + s.cartridge.ram.len() as int + 5] == s.cartridge.rtc_s,
        spec_save(s)[22 + s.cartridge.ram.len() as int + 6] == s.cartridge.rtc_m,
        spec_save(s)[22 + s.cartridge.ram.len() as int + 7] == s.cartridge.rtc_h,
        spec_save(s)[22 + s.cartridge.ram.len() as int + 8] == s.cartridge.rtc_dl,
        spec_save(s)[22 + s.cartridge.ram.len() as int + 9] == s.cartridge.rtc_dh,
        spec_save(s)[22 + s.cartridge.ram.len() as int + 10] == s.cartridge.lat_s,
        spec_save(s)[22 + s.cartridge.ram.len() as int + 11] == s.cartridge.lat_m,
        spec_save(s)[22 + s.cartridge.ram.len() as int + 12] == s.cartridge.lat_h,
        spec_save(s)[22 + s.cartridge.ram.len() as int + 13] == s.cartridge.lat_dl,
        spec_save(s)[22 + s.cartridge.ram.len() as int + 14] == s.cartridge.lat_dh,
        spec_save(s)[22 + s.cartridge.ram.len() as int + 15] == s.cartridge.rtc_latch,
{
    reveal(spec_save);
    let d = spec_save(s);
    let li = s.cartridge.ram.len() as int;
    let b = 22 + li;
    lemma_rt_len(s);
    let bb = blk_cart(s.cartridge);
    assert(d.subrange(22int, b + 16) =~= bb);
    assert(bb.subrange(0, li) =~= s.cartridge.ram);
    assert(d.subrange(22, b) =~= bb.subrange(0, li));
    assert(bb[li] == bool_byte(s.cartridge.ram_enabled));
    assert(d[b + 0] == bb[li]);
    assert(bb[li + 1] == s.cartridge.bank_lo);
    assert(d[b + 1] == bb[li + 1]);
    assert(bb[li + 2] == s.cartridge.bank_hi);
    assert(d[b + 2] == bb[li + 2]);
    assert(bb[li + 3] == bool_byte(s.cartridge.mode));
    assert(d[b + 3] == bb[li + 3]);
    assert(bb[li + 4] == s.cartridge.ram_bank);
    assert(d[b + 4] == bb[li + 4]);
    assert(bb[li + 5] == s.cartridge.rtc_s);
    assert(d[b + 5] == bb[li + 5]);
    assert(bb[li + 6] == s.cartridge.rtc_m);
    assert(d[b + 6] == bb[li + 6]);
    assert(bb[li + 7] == s.cartridge.rtc_h);
    assert(d[b + 7] == bb[li + 7]);
    assert(bb[li + 8] == s.cartridge.rtc_dl);
    assert(d[b + 8] == bb[li + 8]);
    assert(bb[li + 9] == s.cartridge.rtc_dh);
    assert(d[b + 9] == bb[li + 9]);
    assert(bb[li + 10] == s.cartridge.lat_s);
    assert(d[b + 10] == bb[li + 10]);
    assert(bb[li + 11] == s.cartridge.lat_m);
    assert(d[b + 11] == bb[li + 11]);
    assert(bb[li + 12] == s.cartridge.lat_h);
    assert(d[b + 12] == bb[li + 12]);
    assert(bb[li + 13] == s.cartridge.lat_dl);
    assert(d[b + 13] == bb[li + 13]);
    assert(bb[li + 14] == s.cartridge.lat_dh);
    assert(d[b + 14] == bb[li + 14]);
    assert(bb[li + 15] == s.cartridge.rtc_latch);
    assert(d[b + 15] == bb[li + 15]);
}

#[verifier::rlimit(100)]
proof fn lemma_rt_mem(s: GameBoyV)
    requires
        gb_wf(s),
    ensures
        spec_save(s).subrange(22 + s.cartridge.ram.len() as int + 16, (22 + s.cartridge.ram.len() as int + 16) + 8192) == s.wram,
        spec_save(s).subrange(22 + s.cartridge.ram.len() as int + 8208, (22 + s.cartridge.ram.len() as int + 8208) + 127) == s.hram,
        spec_u64_at(spec_save(s), 22 + s.cartridge.ram.len() as int + 8335) == s.clock_count,
{
    reveal(spec_save);
    let d = spec_save(s);
    let li = s.cartridge.ram.len() as int;
    let b = 22 + li;
    lemma_rt_len(s);
    let bb = blk_mem(s.wram, s.hram, s.clock_count);
    assert(d.subrange(b + 16, b + 8343) =~= bb);
    assert(bb.subrange(0int, 8192int) =~= s.wram);
    assert(d.subrange(b + 16, (b + 16) + 8192) =~= bb.subrange(0int, 8192int));
    assert(bb.subrange(8192int, 8319int) =~= s.hram);
    assert(d.subrange(b + 8208, (b + 8208) + 127) =~= bb.subrange(8192int, 8319int));
    assert(bb.subrange(8319int, 8327int) =~= be64(s.clock_count));
    assert(d.subrange(b + 8335, (b + 8335) + 8) =~= bb.subrange(8319int, 8327int));
    lemma_be64_at(d, b + 8335, s.clock_count);
}

#[verifier::rlimit(100)]
proof fn lemma_rt_timer(s: GameBoyV)
    requires
        gb_wf(s),
    ensures
        spec_u16_at(spec_save(s), 22 + s.cartridge.ram.len() as int + 8343) == s.timer.div,
        spec_save(s)[22 + s.cartridge.ram.len() as int + 8345] == s.timer.tima,
        spec_save(s)[22 + s.cartridge.ram.len() as int + 8346] == s.timer.tma,
        spec_save(s)[22 + s.cartridge.ram.len() as int + 8347] == s.timer.tac,
        spec_save(s)[22 + s.cartridge.ram.len() as int + 8348] == bool_byte(s.timer.last_counter_bit),
        spec_u64_at(spec_save(s), 22 + s.cartridge.ram.len() as int + 8349) == s.timer.last_clock_count,
        spec_save(s)[22 + s.cartridge.ram.len() as int + 8357] == s.timer.loading,
{
    reveal(spec_save);
    let d = spec_save(s);
    let li = s.cartridge.ram.len() as int;
    let b = 22 + li;
    lemma_rt_len(s);
    let bb = blk_timer(s.timer);
    assert(d.subrange(b + 8343, b + 8358) =~= bb);
    assert(bb.subrange(0int, 2int) =~= be16(s.timer.div));
    assert(d.subrange(b + 8343, (b + 8343) + 2) =~= bb.subrange(0int, 2int));
    lemma_be16_at(d, b + 8343, s.timer.div);
    assert(bb[2int] == s.timer.tima);
    assert(d[b + 8345] == bb[2int]);
    assert(bb[3int] == s.timer.tma);
    assert(d[b + 8346] == bb[3int]);
    assert(bb[4int] == s.timer.tac);
    assert(d[b + 8347] == bb[4int]);
    assert(bb[5int] == bool_byte(s.timer.last_counter_bit));
    assert(d[b + 8348] == bb[5int]);
    assert(bb.subrange(6int, 14int) =~= be64(s.timer.last_clock_count));
    assert(d.subrange(b + 8349, (b + 8349) + 8) =~= bb.subrange(6int, 14int));
    lemma_be64_at(d, b + 8349, s.timer.last_clock_count);
    assert(bb[14int] == s.timer.loading);
    assert(d[b + 8357] == bb[14int]);
}

#[verifier::rlimit(100)]
#[verifier::spinoff_prover]
proof fn lemma_rt_sound_regs_a1(s: GameBoyV)
    requires
        gb_wf(s),
    ensures
        spec_save(s)[22 + s.cartridge.ram.len() as int + 8358] == s.sound.nr10,
        spec_save(s)[22 + s.cartridge.ram.len() as int + 8359] == s.sound.nr11,
        spec_save(s)[22 + s.cartridge.ram.len() as int + 8360] == s.sound.nr12,
        spec_save(s)[22 + s.cartridge.ram.len() as int + 8361] == s.sound.nr13,
        spec_save(s)[22 + s.cartridge.ram.len() as int + 8362] == s.sound.nr14,
        spec_save(s)[22 + s.cartridge.ram.len() as int + 8363] == s.sound.nr21,
{
    reveal(spec_save);
    let d = spec_save(s);
    let li = s.cartridge.ram.len() as int;
    let b = 22 + li;
    lemma_rt_len(s);
    let bb = blk_sound(s.sound);
    assert(d.subrange(b + 8358, b + 8436) =~= bb);
    assert(bb[0int] == s.sound.nr10);
    assert(bb[1int] == s.sound.nr11);
    assert(bb[2int] == s.sound.nr12);
    assert(bb[3int] == s.sound.nr13);
    assert(bb[4int] == s.sound.nr14);
    assert(bb[5int] == s.sound.nr21);
}

#[verifier::rlimit(100)]
#[verifier::spinoff_prover]
proof fn lemma_rt_sound_regs_a2(s: GameBoyV)
    requires
        gb_wf(s),
    ensures
        spec_save(s)[22 + s.cartridge.ram.len() as int + 8364] == s.sound.nr22,
        spec_save(s)[22 + s.cartridge.ram.len() as int + 8365] == s.sound.nr23,
        spec_save(s)[22 + s.cartridge.ram.len() as int + 8366] == s.sound.nr24,
        spec_save(s)[22 + s.cartridge.ram.len() as int + 8367] == s.sound.nr30,
        spec_save(s)[22 + s.cartridge.ram.len() as int + 8368] == s.sound.nr31,
        spec_save(s)[22 + s.cartridge.ram.len() as int + 8369] == s.sound.nr32,
{
    reveal(spec_save);
    let d = spec_save(s);
    let li = s.cartridge.ram.len() as int;
    let b = 22 + li;
    lemma_rt_len(s);
    let bb = blk_sound(s.sound);
    assert(d.subrange(b + 8358, b + 8436) =~= bb);
    assert(bb[6int] == s.sound.nr22);
    assert(bb[7int] == s.sound.nr23);
    assert(bb[8int] == s.sound.nr24);
    assert(bb[9int] == s.sound.nr30);
    assert(bb[10int] == s.sound.nr31);
    assert(bb[11int] == s.sound.nr32);
}

#[verifier::rlimit(100)]
#[verifier::spinoff_prover]
proof fn lemma_rt_sound_regs_b1(s: GameBoyV)
    requires
        gb_wf(s),
    ensures
        spec_save(s)[22 + s.cartridge.ram.len() as int + 8370] == s.sound.nr33,
        spec_save(s)[22 + s.cartridge.ram.len() as int + 8371] == s.sound.nr34,
        spec_save(s)[22 + s.cartridge.ram.len() as int + 8372] == s.sound.nr41,
        spec_save(s)[22 + s.cartridge.ram.len() as int + 8373] == s.sound.nr42,
        spec_save(s)[22 + s.cartridge.ram.len() as int + 8374] == s.sound.nr43,
        spec_save(s)[22 + s.cartridge.ram.len() as int + 8375] == s.sound.nr44,
{
    reveal(spec_save);
    let d = spec_save(s);
    let li = s.cartridge.ram.len() as int;
    let b = 22 + li;
    lemma_rt_len(s);
    let bb = blk_sound(s.sound);
    assert(d.subrange(b + 8358, b + 8436) =~= bb);
    assert(bb[12int] == s.sound.nr33);
    assert(bb[13int] == s.sound.nr34);
    assert(bb[14int] == s.sound.nr41);
    assert(bb[15int] == s.sound.nr42);
    assert(bb[16int] == s.sound.nr43);
    assert(bb[17int] == s.sound.nr44);
}

#[verifier::rlimit(100)]
#[verifier::spinoff_prover]
proof fn lemma_rt_sound_regs_b2(s: GameBoyV)
    requires
        gb_wf(s),
    ensures
        spec_save(s)[22 + s.cartridge.ram.len() as int + 8376] == s.sound.nr50,
        spec_save(s)[22 + s.cartridge.ram.len() as int + 8377] == s.sound.nr51,
        spec_save(s)[22 + s.cartridge.ram.len() as int + 8378] == s.sound.nr52,
        spec_save(s).subrange(22 + s.cartridge.ram.len() as int + 8379, (22 + s.cartridge.ram.len() as int + 8379) + 16) == s.sound.wave,
        spec_save(s)[22 + s.cartridge.ram.len() as int + 8404] == s.sound.ch1_wave_duty_position,
        spec_save(s)[22 + s.cartridge.ram.len() as int + 8411] == s.sound.ch2_wave_duty_position,
        spec_save(s)[22 + s.cartridge.ram.len() as int + 8419] == s.sound.ch3_wave_position,
{
    reveal(spec_save);
    let d = spec_save(s);
    let li = s.cartridge.ram.len() as int;
    let b = 22 + li;
    lemma_rt_len(s);
    let bb = blk_sound(s.sound);
    assert(d.subrange(b + 8358, b + 8436) =~= bb);
    assert(bb[18int] == s.sound.nr50);
    assert(bb[19int] == s.sound.nr51);
    assert(bb[20int] == s.sound.nr52);
    assert(bb.subrange(21int, 37int) =~= s.sound.wave);
    assert(bb[46int] == s.sound.ch1_wave_duty_position);
    assert(bb[53int] == s.sound.ch2_wave_duty_position);
    assert(bb[61int] == s.sound.ch3_wave_position);
}

#[verifier::rlimit(100)]
#[verifier::spinoff_prover]
proof fn lemma_rt_sound_state_a1(s: GameBoyV)
    requires
        gb_wf(s),
    ensures

{
    reveal(spec_save);
    let d = spec_save(s);
    let li = s.cartridge.ram.len() as int;
    let b = 22 + li;
    lemma_rt_len(s);
    let bb = blk_sound(s.sound);
    assert(d.subrange(b + 8358, b + 8436) =~= bb);
    assert(d[b + 8358] == bb[0int]);
    assert(d[b + 8359] == bb[1int]);
    assert(d[b + 8360] == bb[2int]);
    assert(d[b + 8361] == bb[3int]);
    assert(d[b + 8362] == bb[4int]);
    assert(d[b + 8363] == bb[5int]);
    assert(d[b + 8364] == bb[6int]);
    assert(d[b + 8365] == bb[7int]);
    assert(d[b + 8366] == bb[8int]);
    assert(d[b + 8367] == bb[9int]);
    assert(d[b + 8368] == bb[10int]);
    assert(d[b + 8369] == bb[11int]);
    assert(d[b + 8370] == bb[12int]);
    assert(d[b + 8371] == bb[13int]);
    assert(d[b + 8372] == bb[14int]);
    assert(d[b + 8373] == bb[15int]);
    assert(d[b + 8374] == bb[16int]);
    assert(d[b + 8375] == bb[17int]);
    assert(d[b + 8376] == bb[18int]);
    assert(d[b + 8377] == bb[19int]);
    assert(d[b + 8378] == bb[20int]);
    assert(d.subrange(b + 8379, (b + 8379) + 16) =~= bb.subrange(21int, 37int));
}

#[verifier::rlimit(100)]
#[verifier::spinoff_prover]
proof fn lemma_rt_sound_state_a2(s: GameBoyV)
    requires
        gb_wf(s),
    ensures
        spec_save(s)[22 + s.cartridge.ram.len() as int + 8395] == bool_byte(s.sound.on),
        spec_save(s)[22 + s.cartridge.ram.len() as int + 8396] == bool_byte(s.sound.ch1_channel_enable),
        spec_save(s)[22 + s.cartridge.ram.len() as int + 8397] == s.sound.ch1_length_timer,
        spec_save(s)[22 + s.cartridge.ram.len() as int + 8398] == bool_byte(s.sound.ch1_sweep_enabled),
        spec_u16_at(spec_save(s), 22 + s.cartridge.ram.len() as int + 8399) == s.sound.ch1_shadow_freq,
        spec_save(s)[22 + s.cartridge.ram.len() as int + 8401] == s.sound.ch1_sweep_timer,
{
    reveal(spec_save);
    let d = spec_save(s);
    let li = s.cartridge.ram.len() as int;
    let b = 22 + li;
    lemma_rt_len(s);
    let bb = blk_sound(s.sound);
    assert(d.subrange(b + 8358, b + 8436) =~= bb);
    assert(bb[37int] == bool_byte(s.sound.on));
    assert(d[b + 8395] == bb[37int]);
    assert(bb[38int] == bool_byte(s.sound.ch1_channel_enable));
    assert(d[b + 8396] == bb[38int]);
    assert(bb[39int] == s.sound.ch1_length_timer);
    assert(d[b + 8397] == bb[39int]);
    assert(bb[40int] == bool_byte(s.sound.ch1_sweep_enabled));
    assert(d[b + 8398] == bb[40int]);
    assert(bb.subrange(41int, 43int) =~= be16(s.sound.ch1_shadow_freq));
    assert(d.subrange(b + 8399, (b + 8399) + 2) =~= bb.subrange(41int, 43int));
    lemma_be16_at(d, b + 8399, s.sound.ch1_shadow_freq);
    assert(bb[43int] == s.sound.ch1_sweep_timer);
    assert(d[b + 8401] == bb[43int]);
}

#[verifier::rlimit(100)]
#[verifier::spinoff_prover]
proof fn lemma_rt_sound_state_b1(s: GameBoyV)
    requires
        gb_wf(s),
    ensures
        spec_u16_at(spec_save(s), 22 + s.cartridge.ram.len() as int + 8402) == s.sound.ch1_frequency_timer,
        spec_save(s)[22 + s.cartridge.ram.len() as int + 8405] == s.sound.ch1_current_volume,
        spec_save(s)[22 + s.cartridge.ram.len() as int + 8406] == s.sound.ch1_env_period_timer,
        spec_save(s)[22 + s.cartridge.ram.len() as int + 8407] == bool_byte(s.sound.ch2_channel_enable),
        spec_save(s)[22 + s.cartridge.ram.len() as int + 8408] == s.sound.ch2_length_timer,
        spec_u16_at(spec_save(s), 22 + s.cartridge.ram.len() as int + 8409) == s.sound.ch2_frequency_timer,
        spec_save(s)[22 + s.cartridge.ram.len() as int + 8412] == s.sound.ch2_current_volume,
{
    reveal(spec_save);
    let d = spec_save(s);
    let li = s.cartridge.ram.len() as int;
    let b = 22 + li;
    lemma_rt_len(s);
    let bb = blk_sound(s.sound);
    assert(d.subrange(b + 8358, b + 8436) =~= bb);
    assert(bb.subrange(44int, 46int) =~= be16(s.sound.ch1_frequency_timer));
    assert(d.subrange(b + 8402, (b + 8402) + 2) =~= bb.subrange(44int, 46int));
    lemma_be16_at(d, b + 8402, s.sound.ch1_frequency_timer);
    assert(d[b + 8404] == bb[46int]);
    assert(bb[47int] == s.sound.ch1_current_volume);
    assert(d[b + 8405] == bb[47int]);
    assert(bb[48int] == s.sound.ch1_env_period_timer);
    assert(d[b + 8406] == bb[48int]);
    assert(bb[49int] == bool_byte(s.sound.ch2_channel_enable));
    assert(d[b + 8407] == bb[49int]);
    assert(bb[50int] == s.sound.ch2_length_timer);
    assert(d[b + 8408] == bb[50int]);
    assert(bb.subrange(51int, 53int) =~= be16(s.sound.ch2_frequency_timer));
    assert(d.subrange(b + 8409, (b + 8409) + 2) =~= bb.subrange(51int, 53int));
    lemma_be16_at(d, b + 8409, s.sound.ch2_frequency_timer);
    assert(d[b + 8411] == bb[53int]);
    assert(bb[54int] == s.sound.ch2_current_volume);
    assert(d[b + 8412] == bb[54int]);
}

#[verifier::rlimit(100)]
#[verifier::spinoff_prover]
proof fn lemma_rt_sound_state_b2(s: GameBoyV)
    requires
        gb_wf(s),
    ensures
        spec_save(s)[22 + s.cartridge.ram.len() as int + 8413] == s.sound.ch2_env_period_timer,
        spec_save(s)[22 + s.cartridge.ram.len() as int + 8414] == bool_byte(s.sound.ch3_channel_enable),
        spec_u16_at(spec_save(s), 22 + s.cartridge.ram.len() as int + 8415) == s.sound.ch3_length_timer,
        spec_u16_at(spec_save(s), 22 + s.cartridge.ram.len() as int + 8417) == s.sound.ch3_frequency_timer,
        spec_u64_at(spec_save(s), 22 + s.cartridge.ram.len() as int + 8420) == s.sound.last_clock,
        spec_u64_at(spec_save(s), 22 + s.cartridge.ram.len() as int + 8428) == s.sound.sample_mod,
{
    reveal(spec_save);
    let d = spec_save(s);
    let li = s.cartridge.ram.len() as int;
    let b = 22 + li;
    lemma_rt_len(s);
    let bb = blk_sound(s.sound);
    assert(d.subrange(b + 8358, b + 8436) =~= bb);
    assert(bb[55int] == s.sound.ch2_env_period_timer);
    assert(d[b + 8413] == bb[55int]);
    assert(bb[56int] == bool_byte(s.sound.ch3_channel_enable));
    assert(d[b + 8414] == bb[56int]);
    assert(bb.subrange(57int, 59int) =~= be16(s.sound.ch3_length_timer));
    assert(d.subrange(b + 8415, (b + 8415) + 2) =~= bb.subrange(57int, 59int));
    lemma_be16_at(d, b + 8415, s.sound.ch3_length_timer);
    assert(bb.subrange(59int, 61int) =~= be16(s.sound.ch3_frequency_timer));
    assert(d.subrange(b + 8417, (b + 8417) + 2) =~= bb.subrange(59int, 61int));
    lemma_be16_at(d, b + 8417, s.sound.ch3_frequency_timer);
    assert(d[b + 8419] == bb[61int]);
    assert(bb.subrange(62int, 70int) =~= be64(s.sound.last_clock));
    assert(d.subrange(b + 8420, (b + 8420) + 8) =~= bb.subrange(62int, 70int));
    lemma_be64_at(d, b + 8420, s.sound.last_clock);
    assert(bb.subrange(70int, 78int) =~= be64(s.sound.sample_mod));
    assert(d.subrange(b + 8428, (b + 8428) + 8) =~= bb.subrange(70int, 78int));
    lemma_be64_at(d, b + 8428, s.sound.sample_mod);
}

#[verifier::rlimit(100)]
proof fn lemma_rt_ppu(s: GameBoyV)
    requires
        gb_wf(s),
    ensures
        spec_save(s).subrange(22 + s.cartridge.ram.len() as int + 8436, (22 + s.cartridge.ram.len() as int + 8436) + 8192) == s.ppu.vram,
        spec_save(s).subrange(22 + s.cartridge.ram.len() as int + 16628, (22 + s.cartridge.ram.len() as int + 16628) + 160) == s.ppu.oam,
        spec_save(s)[22 + s.cartridge.ram.len() as int + 16788] == s.ppu.lcdc,
        spec_save(s)[22 + s.cartridge.ram.len() as int + 16789] == s.ppu.stat,
        spec_save(s)[22 + s.cartridge.ram.len() as int + 16790] == s.ppu.scy,
        spec_save(s)[22 + s.cartridge.ram.len() as int + 16791] == s.ppu.scx,
        spec_save(s)[22 + s.cartridge.ram.len() as int + 16792] == s.ppu.ly,
        spec_save(s)[22 + s.cartridge.ram.len() as int + 16793] == s.ppu.lyc,
        spec_save(s)[22 + s.cartridge.ram.len() as int + 16794] == s.ppu.bgp,
        spec_save(s)[22 + s.cartridge.ram.len() as int + 16795] == s.ppu.obp0,
        spec_save(s)[22 + s.cartridge.ram.len() as int + 16796] == s.ppu.obp1,
        spec_save(s)[22 + s.cartridge.ram.len() as int + 16797] == s.ppu.wy,
        spec_save(s)[22 + s.cartridge.ram.len() as int + 16798] == s.ppu.wx,
        spec_u16_at(spec_save(s), 22 + s.cartridge.ram.len() as int + 16799) == s.ppu.dot,
        spec_save(s)[22 + s.cartridge.ram.len() as int + 16801] == bool_byte(s.ppu.stat_line),
        spec_u64_at(spec_save(s), 22 + s.cartridge.ram.len() as int + 16802) == s.ppu.last_clock,
{
    reveal(spec_save);
    let d = spec_save(s);
    let li = s.cartridge.ram.len() as int;
    let b = 22 + li;
    lemma_rt_len(s);
    let bb = blk_ppu(s.ppu);
    assert(d.subrange(b + 8436, b + 16810) =~= bb);
    assert(bb.subrange(0int, 8192int) =~= s.ppu.vram);
    assert(d.subrange(b + 8436, (b + 8436) + 8192) =~= bb.subrange(0int, 8192int));
    assert(bb.subrange(8192int, 8352int) =~= s.ppu.oam);
    assert(d.subrange(b + 16628, (b + 16628) + 160) =~= bb.subrange(8192int, 8352int));
    assert(bb[8352int] == s.ppu.lcdc);
    assert(d[b + 16788] == bb[8352int]);
    assert(bb[8353int] == s.ppu.stat);
    assert(d[b + 16789] == bb[8353int]);
    assert(bb[8354int] == s.ppu.scy);
    assert(d[b + 16790] == bb[8354int]);
    assert(bb[8355int] == s.ppu.scx);
    assert(d[b + 16791] == bb[8355int]);
    assert(bb[8356int] == s.ppu.ly);
    assert(d[b + 16792] == bb[8356int]);
    assert(bb[8357int] == s.ppu.lyc);
    assert(d[b + 16793] == bb[8357int]);
    assert(bb[8358int] == s.ppu.bgp);
    assert(d[b + 16794] == bb[8358int]);
    assert(bb[8359int] == s.ppu.obp0);
    assert(d[b + 16795] == bb[8359int]);
    assert(bb[8360int] == s.ppu.obp1);
    assert(d[b + 16796] == bb[8360int]);
    assert(bb[8361int] == s.ppu.wy);
    assert(d[b + 16797] == bb[8361int]);
    assert(bb[8362int] == s.ppu.wx);
    assert(d[b + 16798] == bb[8362int]);
    assert(bb.subrange(8363int, 8365int) =~= be16(s.ppu.dot));
    assert(d.subrange(b + 16799, (b + 16799) + 2) =~= bb.subrange(8363int, 8365int));
    lemma_be16_at(d, b + 16799, s.ppu.dot);
    assert(bb[8365int] == bool_byte(s.ppu.stat_line));
    assert(d[b + 16801] == bb[8365int]);
    assert(bb.subrange(8366int, 8374int) =~= be64(s.ppu.last_clock));
    assert(d.subrange(b + 16802, (b + 16802) + 8) =~= bb.subrange(8366int, 8374int));
    lemma_be64_at(d, b + 16802, s.ppu.last_clock);
}

#[verifier::rlimit(100)]
proof fn lemma_rt_misc(s: GameBoyV)
    requires
        gb_wf(s),
    ensures
        spec_save(s)[22 + s.cartridge.ram.len() as int + 16810] == s.joypad_io,
        spec_save(s)[22 + s.cartridge.ram.len() as int + 16811] == s.joypad,
        spec_save(s)[22 + s.cartridge.ram.len() as int + 16812] == s.serial_data,
        spec_save(s)[22 + s.cartridge.ram.len() as int + 16813] == s.serial_control,
        spec_u64_at(spec_save(s), 22 + s.cartridge.ram.len() as int + 16814) == s.serial_transfer_started,
        spec_save(s)[22 + s.cartridge.ram.len() as int + 16822] == s.interrupt_flag,
        spec_save(s)[22 + s.cartridge.ram.len() as int + 16823] == s.dma,
        spec_save(s)[22 + s.cartridge.ram.len() as int + 16824] == s.interrupt_enabled,
        spec_save(s)[22 + s.cartridge.ram.len() as int + 16825] == bool_byte(s.dma_active),
        spec_u64_at(spec_save(s), 22 + s.cartridge.ram.len() as int + 16826) == s.dma_start_clock,
        spec_save(s)[22 + s.cartridge.ram.len() as int + 16834] == s.dma_progress,
        spec_save(s)[22 + s.cartridge.ram.len() as int + 16835] == bool_byte(s.boot_rom_active),
        spec_save(s)[22 + s.cartridge.ram.len() as int + 16836] == bool_byte(s.v_blank_trigger),
{
    reveal(spec_save);
    let d = spec_save(s);
    let li = s.cartridge.ram.len() as int;
    let b = 22 + li;
    lemma_rt_len(s);
    let bb = blk_misc(s);
    assert(d.subrange(b + 16810, b + 16837) =~= bb);
    assert(bb[0int] == s.joypad_io);
    assert(d[b + 16810] == bb[0int]);
    assert(bb[1int] == s.joypad);
    assert(d[b + 16811] == bb[1int]);
    assert(bb[2int] == s.serial_data);
    assert(d[b + 16812] == bb[2int]);
    assert(bb[3int] == s.serial_control);
    assert(d[b + 16813] == bb[3int]);
    assert(bb.subrange(4int, 12int) =~= be64(s.serial_transfer_started));
    assert(d.subrange(b + 16814, (b + 16814) + 8) =~= bb.subrange(4int, 12int));
    lemma_be64_at(d, b + 16814, s.serial_transfer_started);
    assert(bb[12int] == s.interrupt_flag);
    assert(d[b + 16822] == bb[12int]);
    assert(bb[13int] == s.dma);
    assert(d[b + 16823] == bb[13int]);
    assert(bb[14int] == s.interrupt_enabled);
    assert(d[b + 16824] == bb[14int]);
    assert(bb[15int] == bool_byte(s.dma_active));
    assert(d[b + 16825] == bb[15int]);
    assert(bb.subrange(16int, 24int) =~= be64(s.dma_start_clock));
    assert(d.subrange(b + 16826, (b + 16826) + 8) =~= bb.subrange(16int, 24int));
    lemma_be64_at(d, b + 16826, s.dma_start_clock);
    assert(bb[24int] == s.dma_progress);
    assert(d[b + 16834] == bb[24int]);
    assert(bb[25int] == bool_byte(s.boot_rom_active));
    assert(d[b + 16835] == bb[25int]);
    assert(bb[26int] == bool_byte(s.v_blank_trigger));
    assert(d[b + 16836] == bb[26int]);
}

/// Round trip: saving any well-formed machine and loading the blob back
/// into it restores exactly the same machine, with no error.
#[verifier::rlimit(100)]
pub proof fn lemma_save_load_roundtrip(s: GameBoyV)
    requires
        gb_wf(s),
    ensures
        spec_load_err(s, spec_save(s)) is None,
        spec_loaded_state(s, spec_save(s)) == s,
{
    let d = spec_save(s);
    lemma_rt_len(s);
    lemma_rt_cpu(s);
    lemma_rt_cart(s);
    lemma_rt_mem(s);
    lemma_rt_timer(s);
    lemma_rt_sound_regs_a1(s);
    lemma_rt_sound_regs_a2(s);
    lemma_rt_sound_regs_b1(s);
    lemma_rt_sound_regs_b2(s);
    lemma_rt_sound_state_a1(s);
    lemma_rt_sound_state_a2(s);
    lemma_rt_sound_state_b1(s);
    lemma_rt_sound_state_b2(s);
    lemma_rt_ppu(s);
    lemma_rt_misc(s);
    assert(spec_fields_valid(s, d));
    assert(spec_load_err(s, d) is None);
    assert(spec_loaded_state(s, d) =~= s);
}

} // verus!
