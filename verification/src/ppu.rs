//! Picture processing unit: video memory, the LY/mode state machine and the
//! STAT interrupt wire.
//!
//! Each scanline is 456 dots (T-cycles): 80 dots of object search (mode 2),
//! 172 dots of pixel transfer (mode 3) and horizontal blank (mode 0) for the
//! rest. After line 143 come ten lines of vertical blank (mode 1), then LY
//! wraps to 0. The CPU is locked out of VRAM during mode 3 and out of object
//! memory during modes 2 and 3. The STAT conditions share one level-triggered
//! wire: while any condition holds, a newly true one raises no second edge.

use vstd::prelude::*;

verus! {

/// Mathematical model of the picture unit.
#[verifier::ext_equal]
pub ghost struct PpuV {
    pub vram: Seq<u8>,
    pub oam: Seq<u8>,
    pub lcdc: u8,
    /// STAT bits 3-6 as last written; the low three bits are derived.
    pub stat: u8,
    pub scy: u8,
    pub scx: u8,
    pub ly: u8,
    pub lyc: u8,
    pub bgp: u8,
    pub obp0: u8,
    pub obp1: u8,
    pub wy: u8,
    pub wx: u8,
    /// Dot inside the current scanline, 0..456.
    pub dot: u16,
    /// Level of the shared STAT interrupt wire after the last step.
    pub stat_line: bool,
    /// The clock this unit has been caught up to.
    pub last_clock: u64,
}

pub struct Ppu {
    pub vram: Vec<u8>,
    pub oam: Vec<u8>,
    pub lcdc: u8,
    pub stat: u8,
    pub scy: u8,
    pub scx: u8,
    pub ly: u8,
    pub lyc: u8,
    pub bgp: u8,
    pub obp0: u8,
    pub obp1: u8,
    pub wy: u8,
    pub wx: u8,
    pub dot: u16,
    pub stat_line: bool,
    pub last_clock: u64,
}

impl View for Ppu {
    type V = PpuV;

    open spec fn view(&self) -> PpuV {
        PpuV {
            vram: self.vram@,
            oam: self.oam@,
            lcdc: self.lcdc,
            stat: self.stat,
            scy: self.scy,
            scx: self.scx,
            ly: self.ly,
            lyc: self.lyc,
            bgp: self.bgp,
            obp0: self.obp0,
            obp1: self.obp1,
            wy: self.wy,
            wx: self.wx,
            dot: self.dot,
            stat_line: self.stat_line,
            last_clock: self.last_clock,
        }
    }
}

pub open spec fn ppu_wf(p: PpuV) -> bool {
    &&& p.vram.len() == 0x2000
    &&& p.oam.len() == 0xA0
    &&& p.dot < 456
    &&& p.ly < 154
    &&& p.stat & 0x78 == p.stat
}

/// The LCD runs only while LCDC bit 7 is set.
pub open spec fn spec_lcd_on(p: PpuV) -> bool {
    p.lcdc & 0x80 != 0
}

/// Current mode: vertical blank on lines 144-153, else object search for
/// 80 dots, pixel transfer for 172 dots, then horizontal blank. A disabled
/// LCD sits in mode 0. The model fixes pixel transfer at its 172-dot
/// minimum; hardware stretches it per line by fine scroll, window hits
/// and sprite fetches, shortening horizontal blank by the same amount.
pub open spec fn spec_ppu_mode(p: PpuV) -> u8 {
    if !spec_lcd_on(p) {
        0
    } else if p.ly >= 144 {
        1
    } else if p.dot < 80 {
        2
    } else if p.dot < 252 {
        3
    } else {
        0
    }
}

/// Level of the shared STAT wire: any enabled condition that holds.
pub open spec fn spec_stat_condition(p: PpuV) -> bool {
    ||| (spec_ppu_mode(p) == 0 && p.stat & 0x08 != 0 && spec_lcd_on(p))
    ||| (spec_ppu_mode(p) == 1 && p.stat & 0x10 != 0)
    ||| (spec_ppu_mode(p) == 2 && p.stat & 0x20 != 0)
    ||| (p.ly == p.lyc && p.stat & 0x40 != 0 && spec_lcd_on(p))
}

/// One dot. Returns the unit after the dot, whether the vertical blank
/// interrupt fires, and whether the STAT wire rises.
pub open spec fn spec_ppu_cycle(p: PpuV) -> (PpuV, bool, bool) {
    if !spec_lcd_on(p) {
        (PpuV { last_clock: (p.last_clock + 1) as u64, ..p }, false, false)
    } else {
        let (dot2, ly2) = if p.dot == 455 {
            (0u16, if p.ly == 153 {
                0u8
            } else {
                (p.ly + 1) as u8
            })
        } else {
            ((p.dot + 1) as u16, p.ly)
        };
        let p2 = PpuV { dot: dot2, ly: ly2, last_clock: (p.last_clock + 1) as u64, ..p };
        let vblank = ly2 == 144 && dot2 == 0;
        let cond = spec_stat_condition(p2);
        let stat_edge = cond && !p.stat_line;
        (PpuV { stat_line: cond, ..p2 }, vblank, stat_edge)
    }
}

/// Catch the unit up to `clock`, one dot at a time, accumulating the two
/// interrupt edges.
pub open spec fn spec_ppu_run(p: PpuV, clock: u64) -> (PpuV, bool, bool)
    decreases clock - p.last_clock,
{
    if clock <= p.last_clock {
        (p, false, false)
    } else {
        let (p1, v1, s1) = spec_ppu_cycle(p);
        let (p2, v2, s2) = spec_ppu_run(p1, clock);
        (p2, v1 || v2, s1 || s2)
    }
}

/// The state machine's catch-up moves only the dot counter, the line
/// counter, the clock bookkeeping and the STAT wire: video memory, object
/// memory and every register stay put.
pub proof fn lemma_ppu_run_keeps_memory(p: PpuV, clock: u64)
    ensures
        spec_ppu_run(p, clock).0.vram == p.vram,
        spec_ppu_run(p, clock).0.oam == p.oam,
    decreases clock - p.last_clock,
{
    if clock > p.last_clock {
        lemma_ppu_run_keeps_memory(spec_ppu_cycle(p).0, clock);
    }
}

/// A register read at 0xFF40-0xFF4B (low byte of address).
pub open spec fn spec_ppu_reg_read(p: PpuV, address: u8) -> u8 {
    match address {
        0x40 => p.lcdc,
        0x41 => 0x80 | p.stat | (if p.ly == p.lyc {
            4u8
        } else {
            0u8
        }) | spec_ppu_mode(p),
        0x42 => p.scy,
        0x43 => p.scx,
        0x44 => p.ly,
        0x45 => p.lyc,
        0x47 => p.bgp,
        0x48 => p.obp0,
        0x49 => p.obp1,
        0x4A => p.wy,
        0x4B => p.wx,
        _ => 0xFF,
    }
}

/// A register write at 0xFF40-0xFF4B. Turning the LCD off freezes the
/// state machine at line 0, dot 0; LY itself ignores writes.
pub open spec fn spec_ppu_reg_write(p: PpuV, address: u8, value: u8) -> PpuV {
    match address {
        0x40 => if value & 0x80 == 0 {
            PpuV { lcdc: value, ly: 0, dot: 0, stat_line: false, ..p }
        } else {
            PpuV { lcdc: value, ..p }
        },
        0x41 => PpuV { stat: value & 0x78, ..p },
        0x42 => PpuV { scy: value, ..p },
        0x43 => PpuV { scx: value, ..p },
        0x45 => PpuV { lyc: value, ..p },
        0x47 => PpuV { bgp: value, ..p },
        0x48 => PpuV { obp0: value, ..p },
        0x49 => PpuV { obp1: value, ..p },
        0x4A => PpuV { wy: value, ..p },
        0x4B => PpuV { wx: value, ..p },
        _ => p,
    }
}

/// A video-memory read at 0x8000-0x9FFF: blocked during pixel transfer.
pub open spec fn spec_vram_read(p: PpuV, address: u16) -> u8 {
    if spec_ppu_mode(p) == 3 {
        0xFF
    } else {
        p.vram[address - 0x8000]
    }
}

/// A video-memory write at 0x8000-0x9FFF: dropped during pixel transfer.
pub open spec fn spec_vram_write(p: PpuV, address: u16, value: u8) -> PpuV {
    if spec_ppu_mode(p) == 3 {
        p
    } else {
        PpuV { vram: p.vram.update(address - 0x8000, value), ..p }
    }
}

/// An object-memory read at 0xFE00-0xFE9F: blocked during object search
/// and pixel transfer.
pub open spec fn spec_oam_read(p: PpuV, address: u16) -> u8 {
    if spec_ppu_mode(p) == 2 || spec_ppu_mode(p) == 3 {
        0xFF
    } else {
        p.oam[address - 0xFE00]
    }
}

/// An object-memory write at 0xFE00-0xFE9F: dropped during object search
/// and pixel transfer.
pub open spec fn spec_oam_write(p: PpuV, address: u16, value: u8) -> PpuV {
    if spec_ppu_mode(p) == 2 || spec_ppu_mode(p) == 3 {
        p
    } else {
        PpuV { oam: p.oam.update(address - 0xFE00, value), ..p }
    }
}

impl Ppu {
    /// The unit at power-on, boot ROM still running: everything cleared,
    /// LCD off.
    pub open spec fn spec_new() -> PpuV {
        PpuV {
            vram: Seq::new(0x2000, |i: int| 0u8),
            oam: Seq::new(0xA0, |i: int| 0u8),
            lcdc: 0,
            stat: 0,
            scy: 0,
            scx: 0,
            ly: 0,
            lyc: 0,
            bgp: 0,
            obp0: 0,
            obp1: 0,
            wy: 0,
            wx: 0,
            dot: 0,
            stat_line: false,
            last_clock: 0,
        }
    }

    /// The unit of the post-boot fingerprint: LCD and background on,
    /// background palette 0xFC, memories cleared, restarting at line 0.
    pub open spec fn spec_after_boot(clock: u64) -> PpuV {
        PpuV {
            vram: Seq::new(0x2000, |i: int| 0u8),
            oam: Seq::new(0xA0, |i: int| 0u8),
            lcdc: 0x91,
            stat: 0,
            scy: 0,
            scx: 0,
            ly: 0,
            lyc: 0,
            bgp: 0xFC,
            obp0: 0xFF,
            obp1: 0xFF,
            wy: 0,
            wx: 0,
            dot: 0,
            stat_line: false,
            last_clock: clock,
        }
    }

    pub fn new() -> (r: Ppu)
        ensures
            r@ == Ppu::spec_new(),
            ppu_wf(r@),
    {
        let mut p = Ppu {
            vram: crate::bits::zero_vec(0x2000),
            oam: crate::bits::zero_vec(0xA0),
            lcdc: 0,
            stat: 0,
            scy: 0,
            scx: 0,
            ly: 0,
            lyc: 0,
            bgp: 0,
            obp0: 0,
            obp1: 0,
            wy: 0,
            wx: 0,
            dot: 0,
            stat_line: false,
            last_clock: 0,
        };
        assert(p@ =~= Ppu::spec_new());
        proof {
            assert(0u8 & 0x78 == 0u8) by (bit_vector);
        }
        p
    }

    /// Reset to the post-boot fingerprint.
    pub fn reset_after_boot(&mut self, clock: u64)
        ensures
            final(self)@ == Ppu::spec_after_boot(clock),
            ppu_wf(final(self)@),
    {
        self.vram = crate::bits::zero_vec(0x2000);
        self.oam = crate::bits::zero_vec(0xA0);
        self.lcdc = 0x91;
        self.stat = 0;
        self.scy = 0;
        self.scx = 0;
        self.ly = 0;
        self.lyc = 0;
        self.bgp = 0xFC;
        self.obp0 = 0xFF;
        self.obp1 = 0xFF;
        self.wy = 0;
        self.wx = 0;
        self.dot = 0;
        self.stat_line = false;
        self.last_clock = clock;
        assert(self@ =~= Ppu::spec_after_boot(clock));
        proof {
            assert(0u8 & 0x78 == 0u8) by (bit_vector);
        }
    }

    pub fn mode(&self) -> (m: u8)
        ensures
            m == spec_ppu_mode(self@),
    {
        if self.lcdc & 0x80 == 0 {
            0
        } else if self.ly >= 144 {
            1
        } else if self.dot < 80 {
            2
        } else if self.dot < 252 {
            3
        } else {
            0
        }
    }

    fn stat_condition(&self) -> (c: bool)
        ensures
            c == spec_stat_condition(self@),
    {
        let m = self.mode();
        let on = self.lcdc & 0x80 != 0;
        (m == 0 && self.stat & 0x08 != 0 && on) || (m == 1 && self.stat & 0x10 != 0) || (m == 2
            && self.stat & 0x20 != 0) || (self.ly == self.lyc && self.stat & 0x40 != 0 && on)
    }

    /// One dot of the state machine; flags are the vertical-blank
    /// interrupt and the rising STAT edge.
    fn cycle(&mut self) -> (r: (bool, bool))
        requires
            ppu_wf(old(self)@),
            old(self)@.last_clock < u64::MAX,
        ensures
            (final(self)@, r.0, r.1) == spec_ppu_cycle(old(self)@),
            ppu_wf(final(self)@),
    {
        if self.lcdc & 0x80 == 0 {
            self.last_clock = self.last_clock + 1;
            assert(self@ =~= spec_ppu_cycle(old(self)@).0);
            return (false, false);
        }
        if self.dot == 455 {
            self.dot = 0;
            self.ly = if self.ly == 153 {
                0
            } else {
                self.ly + 1
            };
        } else {
            self.dot = self.dot + 1;
        }
        self.last_clock = self.last_clock + 1;
        let vblank = self.ly == 144 && self.dot == 0;
        let cond = self.stat_condition();
        let stat_edge = cond && !self.stat_line;
        self.stat_line = cond;
        assert(self@ =~= spec_ppu_cycle(old(self)@).0);
        (vblank, stat_edge)
    }

    /// Catch up to `clock_count`; flags accumulate the vertical-blank and
    /// STAT edges over the elapsed dots.
    pub fn update(&mut self, clock_count: u64) -> (r: (bool, bool))
        requires
            ppu_wf(old(self)@),
            old(self)@.last_clock <= clock_count,
        ensures
            (final(self)@, r.0, r.1) == spec_ppu_run(old(self)@, clock_count),
            ppu_wf(final(self)@),
            final(self)@.last_clock == clock_count,
    {
        let mut vblank = false;
        let mut stat = false;
        proof {
            lemma_ppu_run_clock(self@, clock_count);
        }
        while self.last_clock < clock_count
            invariant
                ppu_wf(self@),
                self@.last_clock <= clock_count,
                spec_ppu_run(old(self)@, clock_count).0 == spec_ppu_run(self@, clock_count).0,
                spec_ppu_run(old(self)@, clock_count).1 == (vblank || spec_ppu_run(
                    self@,
                    clock_count,
                ).1),
                spec_ppu_run(old(self)@, clock_count).2 == (stat || spec_ppu_run(
                    self@,
                    clock_count,
                ).2),
            decreases clock_count - self@.last_clock,
        {
            let r = self.cycle();
            vblank = vblank || r.0;
            stat = stat || r.1;
        }
        (vblank, stat)
    }

    /// A register read at 0xFF40-0xFF4B (low byte of address).
    pub fn reg_read(&self, address: u8) -> (r: u8)
        ensures
            r == spec_ppu_reg_read(self@, address),
    {
        match address {
            0x40 => self.lcdc,
            0x41 => 0x80 | self.stat | (if self.ly == self.lyc {
                4
            } else {
                0
            }) | self.mode(),
            0x42 => self.scy,
            0x43 => self.scx,
            0x44 => self.ly,
            0x45 => self.lyc,
            0x47 => self.bgp,
            0x48 => self.obp0,
            0x49 => self.obp1,
            0x4A => self.wy,
            0x4B => self.wx,
            _ => 0xFF,
        }
    }

    /// A register write at 0xFF40-0xFF4B (low byte of address).
    pub fn reg_write(&mut self, address: u8, value: u8)
        requires
            ppu_wf(old(self)@),
        ensures
            final(self)@ == spec_ppu_reg_write(old(self)@, address, value),
            ppu_wf(final(self)@),
    {
        match address {
            0x40 => {
                self.lcdc = value;
                if value & 0x80 == 0 {
                    self.ly = 0;
                    self.dot = 0;
                    self.stat_line = false;
                }
            },
            0x41 => {
                self.stat = value & 0x78;
                proof {
                    assert((value & 0x78) & 0x78 == value & 0x78) by (bit_vector);
                }
            },
            0x42 => self.scy = value,
            0x43 => self.scx = value,
            0x45 => self.lyc = value,
            0x47 => self.bgp = value,
            0x48 => self.obp0 = value,
            0x49 => self.obp1 = value,
            0x4A => self.wy = value,
            0x4B => self.wx = value,
            _ => {},
        }
        assert(self@ =~= spec_ppu_reg_write(old(self)@, address, value));
    }

    /// A video-memory read at 0x8000-0x9FFF.
    pub fn read_vram(&self, address: u16) -> (r: u8)
        requires
            ppu_wf(self@),
            0x8000 <= address < 0xA000,
        ensures
            r == spec_vram_read(self@, address),
    {
        if self.mode() == 3 {
            0xFF
        } else {
            self.vram[(address - 0x8000) as usize]
        }
    }

    /// A video-memory write at 0x8000-0x9FFF.
    pub fn write_vram(&mut self, address: u16, value: u8)
        requires
            ppu_wf(old(self)@),
            0x8000 <= address < 0xA000,
        ensures
            final(self)@ == spec_vram_write(old(self)@, address, value),
            ppu_wf(final(self)@),
    {
        if self.mode() != 3 {
            self.vram.set((address - 0x8000) as usize, value);
        }
        assert(self@ =~= spec_vram_write(old(self)@, address, value));
    }

    /// An object-memory read at 0xFE00-0xFE9F.
    pub fn read_oam(&self, address: u16) -> (r: u8)
        requires
            ppu_wf(self@),
            0xFE00 <= address < 0xFEA0,
        ensures
            r == spec_oam_read(self@, address),
    {
        let m = self.mode();
        if m == 2 || m == 3 {
            0xFF
        } else {
            self.oam[(address - 0xFE00) as usize]
        }
    }

    /// An object-memory write at 0xFE00-0xFE9F.
    pub fn write_oam(&mut self, address: u16, value: u8)
        requires
            ppu_wf(old(self)@),
            0xFE00 <= address < 0xFEA0,
        ensures
            final(self)@ == spec_oam_write(old(self)@, address, value),
            ppu_wf(final(self)@),
    {
        let m = self.mode();
        if m != 2 && m != 3 {
            self.oam.set((address - 0xFE00) as usize, value);
        }
        assert(self@ =~= spec_oam_write(old(self)@, address, value));
    }

    /// Store a byte into object memory unconditionally: the transfer
    /// engine is not mode-gated.
    pub fn dma_store(&mut self, index: usize, value: u8)
        requires
            ppu_wf(old(self)@),
            index < 0xA0,
        ensures
            final(self)@ == (PpuV { oam: old(self)@.oam.update(index as int, value), ..old(self)@ }),
            ppu_wf(final(self)@),
    {
        self.oam.set(index, value);
        assert(self@ =~= (PpuV { oam: old(self)@.oam.update(index as int, value), ..old(self)@ }));
    }
}

/// A caught-up picture unit reports the clock it was run to.
pub proof fn lemma_ppu_run_clock(p: PpuV, clock: u64)
    requires
        p.last_clock <= clock,
    ensures
        spec_ppu_run(p, clock).0.last_clock == clock,
    decreases clock - p.last_clock,
{
    if clock > p.last_clock {
        lemma_ppu_run_clock(spec_ppu_cycle(p).0, clock);
    }
}

} // verus!
