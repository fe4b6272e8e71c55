//! Cartridge memory: the header decoder and the memory-bank controllers.
//!
//! The cartridge answers bus accesses in 0x0000-0x7FFF (ROM banks) and
//! 0xA000-0xBFFF (RAM bank or real-time-clock register). Bank registers are
//! written through ROM-range writes, decoded per controller.

use vstd::prelude::*;

verus! {

/// The memory-bank controller soldered on the cartridge.
#[derive(Clone, Copy, PartialEq, Eq, Structural, Debug)]
pub enum Mbc {
    /// Plain 32 KiB ROM, optional RAM.
    NoMbc,
    Mbc1,
    Mbc2,
    Mbc3,
    Mbc5,
}

/// Why a ROM image was rejected at load.
#[derive(Clone, Copy, PartialEq, Eq, Structural, Debug)]
pub enum HeaderError {
    /// Shorter than the 0x150-byte header.
    TooShort,
    /// The checksum over 0x134-0x14C does not match byte 0x14D.
    BadChecksum,
    /// Byte 0x147 names a bank controller this core does not model.
    UnsupportedMbc,
}

/// Mathematical model of a cartridge.
#[verifier::ext_equal]
pub ghost struct CartridgeV {
    pub rom: Seq<u8>,
    pub ram: Seq<u8>,
    pub mbc: Mbc,
    pub ram_enabled: bool,
    /// Low ROM-bank register (5 bits on MBC1, 4 on MBC2, 7 on MBC3, 8 on MBC5).
    pub bank_lo: u8,
    /// Upper bank register (2 bits on MBC1, ninth ROM-bank bit on MBC5).
    pub bank_hi: u8,
    /// MBC1 banking mode: false selects ROM mode, true RAM mode.
    pub mode: bool,
    /// RAM bank select; on MBC3 values 0x08-0x0C select an RTC register.
    pub ram_bank: u8,
    pub rtc_s: u8,
    pub rtc_m: u8,
    pub rtc_h: u8,
    pub rtc_dl: u8,
    pub rtc_dh: u8,
    pub lat_s: u8,
    pub lat_m: u8,
    pub lat_h: u8,
    pub lat_dl: u8,
    pub lat_dh: u8,
    /// Last value written to the MBC3 latch register.
    pub rtc_latch: u8,
}

pub struct Cartridge {
    pub rom: Vec<u8>,
    pub ram: Vec<u8>,
    pub mbc: Mbc,
    pub ram_enabled: bool,
    pub bank_lo: u8,
    pub bank_hi: u8,
    pub mode: bool,
    pub ram_bank: u8,
    pub rtc_s: u8,
    pub rtc_m: u8,
    pub rtc_h: u8,
    pub rtc_dl: u8,
    pub rtc_dh: u8,
    pub lat_s: u8,
    pub lat_m: u8,
    pub lat_h: u8,
    pub lat_dl: u8,
    pub lat_dh: u8,
    pub rtc_latch: u8,
}

impl View for Cartridge {
    type V = CartridgeV;

    open spec fn view(&self) -> CartridgeV {
        CartridgeV {
            rom: self.rom@,
            ram: self.ram@,
            mbc: self.mbc,
            ram_enabled: self.ram_enabled,
            bank_lo: self.bank_lo,
            bank_hi: self.bank_hi,
            mode: self.mode,
            ram_bank: self.ram_bank,
            rtc_s: self.rtc_s,
            rtc_m: self.rtc_m,
            rtc_h: self.rtc_h,
            rtc_dl: self.rtc_dl,
            rtc_dh: self.rtc_dh,
            lat_s: self.lat_s,
            lat_m: self.lat_m,
            lat_h: self.lat_h,
            lat_dl: self.lat_dl,
            lat_dh: self.lat_dh,
            rtc_latch: self.rtc_latch,
        }
    }
}

/// Register ranges the bank registers stay in, per controller.
pub open spec fn cart_wf(c: CartridgeV) -> bool {
    &&& c.bank_hi < 4
    &&& c.ram_bank < 16
    &&& (c.mbc == Mbc::Mbc1 ==> c.bank_lo < 32)
    &&& (c.mbc == Mbc::Mbc2 ==> c.bank_lo < 16)
    &&& (c.mbc == Mbc::Mbc3 ==> c.bank_lo < 128)
    &&& (c.mbc == Mbc::Mbc5 ==> c.bank_hi < 2)
    &&& c.rom.len() <= 0x80_0000
    &&& c.ram.len() <= 0x2_0000
}

/// The ROM bank mapped at 0x0000-0x3FFF.
pub open spec fn spec_rom_bank_low(c: CartridgeV) -> int {
    match c.mbc {
        Mbc::Mbc1 => if c.mode {
            c.bank_hi * 32
        } else {
            0
        },
        _ => 0,
    }
}

/// The ROM bank mapped at 0x4000-0x7FFF; a zero low register selects bank 1
/// on every controller except MBC5.
pub open spec fn spec_rom_bank_high(c: CartridgeV) -> int {
    match c.mbc {
        Mbc::NoMbc => 1,
        Mbc::Mbc1 => c.bank_hi * 32 + if c.bank_lo == 0 {
            1int
        } else {
            c.bank_lo as int
        },
        Mbc::Mbc2 => if c.bank_lo == 0 {
            1
        } else {
            c.bank_lo as int
        },
        Mbc::Mbc3 => if c.bank_lo == 0 {
            1
        } else {
            c.bank_lo as int
        },
        Mbc::Mbc5 => c.bank_hi * 256 + c.bank_lo,
    }
}

/// The RAM bank mapped at 0xA000-0xBFFF.
pub open spec fn spec_ram_bank(c: CartridgeV) -> int {
    match c.mbc {
        Mbc::Mbc1 => if c.mode {
            c.bank_hi as int
        } else {
            0
        },
        Mbc::Mbc3 => c.ram_bank as int,
        Mbc::Mbc5 => c.ram_bank as int,
        _ => 0,
    }
}

/// A ROM byte, or 0xFF where the selected bank lies beyond the image.
pub open spec fn spec_rom_byte(c: CartridgeV, index: int) -> u8 {
    if 0 <= index < c.rom.len() {
        c.rom[index]
    } else {
        0xFF
    }
}

/// A cartridge-RAM or RTC read at 0xA000-0xBFFF.
pub open spec fn spec_cart_ram_read(c: CartridgeV, address: u16) -> u8 {
    if !c.ram_enabled && c.mbc != Mbc::NoMbc {
        0xFF
    } else if c.mbc == Mbc::Mbc2 {
        let idx = (address - 0xA000) % 512;
        if idx < c.ram.len() {
            c.ram[idx as int] | 0xF0
        } else {
            0xFF
        }
    } else if c.mbc == Mbc::Mbc3 && c.ram_bank >= 8 {
        match c.ram_bank {
            0x08 => c.lat_s,
            0x09 => c.lat_m,
            0x0A => c.lat_h,
            0x0B => c.lat_dl,
            0x0C => c.lat_dh,
            _ => 0xFF,
        }
    } else {
        let idx = spec_ram_bank(c) * 0x2000 + (address - 0xA000);
        if idx < c.ram.len() {
            c.ram[idx]
        } else {
            0xFF
        }
    }
}

/// A cartridge read: ROM banks at 0x0000-0x7FFF, RAM or RTC at
/// 0xA000-0xBFFF, open bus (0xFF) anywhere else.
pub open spec fn spec_cart_read(c: CartridgeV, address: u16) -> u8 {
    if address < 0x4000 {
        spec_rom_byte(c, spec_rom_bank_low(c) * 0x4000 + address)
    } else if address < 0x8000 {
        spec_rom_byte(c, spec_rom_bank_high(c) * 0x4000 + (address - 0x4000))
    } else if 0xA000 <= address < 0xC000 {
        spec_cart_ram_read(c, address)
    } else {
        0xFF
    }
}

/// A write into the ROM range: bank-register decode per controller.
pub open spec fn spec_cart_reg_write(c: CartridgeV, address: u16, value: u8) -> CartridgeV {
    match c.mbc {
        Mbc::NoMbc => c,
        Mbc::Mbc1 => if address < 0x2000 {
            CartridgeV { ram_enabled: value & 0x0F == 0x0A, ..c }
        } else if address < 0x4000 {
            CartridgeV { bank_lo: value & 0x1F, ..c }
        } else if address < 0x6000 {
            CartridgeV { bank_hi: value & 0x03, ..c }
        } else {
            CartridgeV { mode: value & 1 == 1, ..c }
        },
        Mbc::Mbc2 => if address < 0x4000 {
            if address & 0x100 == 0 {
                CartridgeV { ram_enabled: value & 0x0F == 0x0A, ..c }
            } else {
                CartridgeV { bank_lo: value & 0x0F, ..c }
            }
        } else {
            c
        },
        Mbc::Mbc3 => if address < 0x2000 {
            CartridgeV { ram_enabled: value & 0x0F == 0x0A, ..c }
        } else if address < 0x4000 {
            CartridgeV { bank_lo: value & 0x7F, ..c }
        } else if address < 0x6000 {
            CartridgeV { ram_bank: value & 0x0F, ..c }
        } else {
            let latched = c.rtc_latch == 0 && value == 1;
            let c2 = if latched {
                CartridgeV {
                    lat_s: c.rtc_s,
                    lat_m: c.rtc_m,
                    lat_h: c.rtc_h,
                    lat_dl: c.rtc_dl,
                    lat_dh: c.rtc_dh,
                    ..c
                }
            } else {
                c
            };
            CartridgeV { rtc_latch: value, ..c2 }
        },
        Mbc::Mbc5 => if address < 0x2000 {
            CartridgeV { ram_enabled: value & 0x0F == 0x0A, ..c }
        } else if address < 0x3000 {
            CartridgeV { bank_lo: value, ..c }
        } else if address < 0x4000 {
            CartridgeV { bank_hi: value & 0x01, ..c }
        } else if address < 0x6000 {
            CartridgeV { ram_bank: value & 0x0F, ..c }
        } else {
            c
        },
    }
}

/// A write into 0xA000-0xBFFF: RAM data or an RTC register.
pub open spec fn spec_cart_ram_write(c: CartridgeV, address: u16, value: u8) -> CartridgeV {
    if !c.ram_enabled && c.mbc != Mbc::NoMbc {
        c
    } else if c.mbc == Mbc::Mbc2 {
        let idx = (address - 0xA000) % 512;
        if idx < c.ram.len() {
            CartridgeV { ram: c.ram.update(idx as int, value & 0x0F), ..c }
        } else {
            c
        }
    } else if c.mbc == Mbc::Mbc3 && c.ram_bank >= 8 {
        match c.ram_bank {
            0x08 => CartridgeV { rtc_s: value, ..c },
            0x09 => CartridgeV { rtc_m: value, ..c },
            0x0A => CartridgeV { rtc_h: value, ..c },
            0x0B => CartridgeV { rtc_dl: value, ..c },
            0x0C => CartridgeV { rtc_dh: value, ..c },
            _ => c,
        }
    } else {
        let idx = spec_ram_bank(c) * 0x2000 + (address - 0xA000);
        if idx < c.ram.len() {
            CartridgeV { ram: c.ram.update(idx, value), ..c }
        } else {
            c
        }
    }
}

/// Any cartridge write: register decode below 0x8000, data above 0xA000.
pub open spec fn spec_cart_write(c: CartridgeV, address: u16, value: u8) -> CartridgeV {
    if address < 0x8000 {
        spec_cart_reg_write(c, address, value)
    } else if 0xA000 <= address < 0xC000 {
        spec_cart_ram_write(c, address, value)
    } else {
        c
    }
}

/// Header checksum: the byte that makes the folded subtraction over
/// 0x134-0x14C come out equal to byte 0x14D.
pub open spec fn spec_header_checksum(rom: Seq<u8>, i: int) -> u8
    decreases 0x14D - i,
{
    if i < 0x134 || i >= 0x14D {
        0
    } else {
        (spec_header_checksum(rom, i + 1) - rom[i] - 1) as u8
    }
}

/// The bank controller selected by header byte 0x147, if modeled.
pub open spec fn spec_mbc_of_type_byte(b: u8) -> Option<Mbc> {
    if b == 0x00 || b == 0x08 || b == 0x09 {
        Some(Mbc::NoMbc)
    } else if 0x01 <= b <= 0x03 {
        Some(Mbc::Mbc1)
    } else if b == 0x05 || b == 0x06 {
        Some(Mbc::Mbc2)
    } else if 0x0F <= b <= 0x13 {
        Some(Mbc::Mbc3)
    } else if 0x19 <= b <= 0x1E {
        Some(Mbc::Mbc5)
    } else {
        None
    }
}

/// Bytes of cartridge RAM granted by header byte 0x149; MBC2 carries its
/// built-in 512 half-byte cells instead.
pub open spec fn spec_ram_size_of_code(b: u8) -> int {
    match b {
        2 => 0x2000,
        3 => 0x8000,
        4 => 0x2_0000,
        5 => 0x1_0000,
        _ => 0,
    }
}

/// ROM bytes promised by header byte 0x148: 32 KiB doubled per step.
pub open spec fn spec_rom_size_of_code(b: u8) -> Option<int> {
    match b {
        0 => Some(0x8000),
        1 => Some(0x1_0000),
        2 => Some(0x2_0000),
        3 => Some(0x4_0000),
        4 => Some(0x8_0000),
        5 => Some(0x10_0000),
        6 => Some(0x20_0000),
        7 => Some(0x40_0000),
        8 => Some(0x80_0000),
        _ => None,
    }
}

impl Cartridge {
    /// Decode the header of `rom` and build the cartridge around it.
    ///
    /// Fails exactly when the image is shorter than the 0x150-byte header,
    /// when byte 0x147 names an unmodeled controller, or when the header
    /// checksum does not match byte 0x14D.
    pub fn new(rom: Vec<u8>) -> (r: Result<Cartridge, HeaderError>)
        requires
            rom.len() <= 0x80_0000,
        ensures
            rom@.len() < 0x150 ==> r is Err && r->Err_0 == HeaderError::TooShort,
            rom@.len() >= 0x150 && spec_mbc_of_type_byte(rom@[0x147]) is None ==> r is Err
                && r->Err_0 == HeaderError::UnsupportedMbc,
            rom@.len() >= 0x150 && spec_mbc_of_type_byte(rom@[0x147]) is Some
                && spec_header_checksum(rom@, 0x134) != rom@[0x14D] ==> r is Err && r->Err_0
                == HeaderError::BadChecksum,
            rom@.len() >= 0x150 && spec_mbc_of_type_byte(rom@[0x147]) is Some
                && spec_header_checksum(rom@, 0x134) == rom@[0x14D] ==> r is Ok,
            r is Ok ==> {
                &&& rom@.len() >= 0x150
                &&& spec_mbc_of_type_byte(rom@[0x147]) == Some(r->Ok_0.mbc)
                &&& spec_header_checksum(rom@, 0x134) == rom@[0x14D]
                &&& r->Ok_0@ == Cartridge::spec_fresh(
                    rom@,
                    r->Ok_0.mbc,
                    r->Ok_0@.ram.len() as int,
                )
                &&& r->Ok_0@.ram.len() == if r->Ok_0.mbc == Mbc::Mbc2 {
                    512int
                } else {
                    spec_ram_size_of_code(rom@[0x149])
                }
                &&& cart_wf(r->Ok_0@)
            },
    {
        if rom.len() < 0x150 {
            return Err(HeaderError::TooShort);
        }
        let mbc = match decode_mbc(rom[0x147]) {
            Some(m) => m,
            None => {
                return Err(HeaderError::UnsupportedMbc);
            },
        };
        if header_checksum(&rom) != rom[0x14D] {
            return Err(HeaderError::BadChecksum);
        }
        let ram_size: usize = if matches!(mbc, Mbc::Mbc2) {
            512
        } else {
            match rom[0x149] {
                2 => 0x2000,
                3 => 0x8000,
                4 => 0x2_0000,
                5 => 0x1_0000,
                _ => 0,
            }
        };
        let mut ram: Vec<u8> = Vec::new();
        let mut i: usize = 0;
        while i < ram_size
            invariant
                i <= ram_size,
                ram@ =~= Seq::new(i as nat, |j: int| 0u8),
            decreases ram_size - i,
        {
            ram.push(0);
            i = i + 1;
        }
        let c = Cartridge {
            rom,
            ram,
            mbc,
            ram_enabled: false,
            bank_lo: 0,
            bank_hi: 0,
            mode: false,
            ram_bank: 0,
            rtc_s: 0,
            rtc_m: 0,
            rtc_h: 0,
            rtc_dl: 0,
            rtc_dh: 0,
            lat_s: 0,
            lat_m: 0,
            lat_h: 0,
            lat_dl: 0,
            lat_dh: 0,
            rtc_latch: 0,
        };
        assert(c@ =~= Cartridge::spec_fresh(c.rom@, c.mbc, c.ram@.len() as int));
        Ok(c)
    }

    /// A freshly powered cartridge: bank registers cleared, RAM zeroed.
    pub open spec fn spec_fresh(rom: Seq<u8>, mbc: Mbc, ram_len: int) -> CartridgeV {
        CartridgeV {
            rom: rom,
            ram: Seq::new(ram_len as nat, |j: int| 0u8),
            mbc: mbc,
            ram_enabled: false,
            bank_lo: 0,
            bank_hi: 0,
            mode: false,
            ram_bank: 0,
            rtc_s: 0,
            rtc_m: 0,
            rtc_h: 0,
            rtc_dl: 0,
            rtc_dh: 0,
            lat_s: 0,
            lat_m: 0,
            lat_h: 0,
            lat_dl: 0,
            lat_dh: 0,
            rtc_latch: 0,
        }
    }

    /// A cartridge read at 0x0000-0x7FFF or 0xA000-0xBFFF.
    pub fn read(&self, address: u16) -> (r: u8)
        requires
            cart_wf(self@),
        ensures
            r == spec_cart_read(self@, address),
    {
        if address < 0x4000 {
            let bank: usize = match self.mbc {
                Mbc::Mbc1 => if self.mode {
                    self.bank_hi as usize * 32
                } else {
                    0
                },
                _ => 0,
            };
            self.rom_byte(bank * 0x4000 + address as usize)
        } else if address < 0x8000 {
            let bank: usize = match self.mbc {
                Mbc::NoMbc => 1,
                Mbc::Mbc1 => self.bank_hi as usize * 32 + if self.bank_lo == 0 {
                    1
                } else {
                    self.bank_lo as usize
                },
                Mbc::Mbc2 | Mbc::Mbc3 => if self.bank_lo == 0 {
                    1
                } else {
                    self.bank_lo as usize
                },
                Mbc::Mbc5 => self.bank_hi as usize * 256 + self.bank_lo as usize,
            };
            self.rom_byte(bank * 0x4000 + (address as usize - 0x4000))
        } else if 0xA000 <= address && address < 0xC000 {
            self.ram_read(address)
        } else {
            0xFF
        }
    }

    fn rom_byte(&self, index: usize) -> (r: u8)
        ensures
            r == spec_rom_byte(self@, index as int),
    {
        if index < self.rom.len() {
            self.rom[index]
        } else {
            0xFF
        }
    }

    fn ram_read(&self, address: u16) -> (r: u8)
        requires
            cart_wf(self@),
            0xA000 <= address < 0xC000,
        ensures
            r == spec_cart_ram_read(self@, address),
    {
        if !self.ram_enabled && !matches!(self.mbc, Mbc::NoMbc) {
            return 0xFF;
        }
        if matches!(self.mbc, Mbc::Mbc2) {
            let idx = (address as usize - 0xA000) % 512;
            if idx < self.ram.len() {
                return self.ram[idx] | 0xF0;
            }
            return 0xFF;
        }
        if matches!(self.mbc, Mbc::Mbc3) && self.ram_bank >= 8 {
            return match self.ram_bank {
                0x08 => self.lat_s,
                0x09 => self.lat_m,
                0x0A => self.lat_h,
                0x0B => self.lat_dl,
                0x0C => self.lat_dh,
                _ => 0xFF,
            };
        }
        let bank: usize = match self.mbc {
            Mbc::Mbc1 => if self.mode {
                self.bank_hi as usize
            } else {
                0
            },
            Mbc::Mbc3 | Mbc::Mbc5 => self.ram_bank as usize,
            _ => 0,
        };
        let idx = bank * 0x2000 + (address as usize - 0xA000);
        if idx < self.ram.len() {
            self.ram[idx]
        } else {
            0xFF
        }
    }

    /// A cartridge write at 0x0000-0x7FFF (bank registers) or
    /// 0xA000-0xBFFF (RAM or RTC).
    pub fn write(&mut self, address: u16, value: u8)
        requires
            cart_wf(old(self)@),
        ensures
            final(self)@ == spec_cart_write(old(self)@, address, value),
            cart_wf(final(self)@),
    {
        if address < 0x8000 {
            self.reg_write(address, value);
        } else if 0xA000 <= address && address < 0xC000 {
            self.ram_write(address, value);
        }
    }

    fn reg_write(&mut self, address: u16, value: u8)
        requires
            cart_wf(old(self)@),
            address < 0x8000,
        ensures
            final(self)@ == spec_cart_reg_write(old(self)@, address, value),
            cart_wf(final(self)@),
    {
        match self.mbc {
            Mbc::NoMbc => {},
            Mbc::Mbc1 => {
                if address < 0x2000 {
                    self.ram_enabled = value & 0x0F == 0x0A;
                } else if address < 0x4000 {
                    self.bank_lo = value & 0x1F;
                    proof {
                        crate::bits::lemma_u8_and_bound();
                    }
                } else if address < 0x6000 {
                    self.bank_hi = value & 0x03;
                    proof {
                        crate::bits::lemma_u8_and_bound();
                    }
                } else {
                    self.mode = value & 1 == 1;
                }
            },
            Mbc::Mbc2 => {
                if address < 0x4000 {
                    if address & 0x100 == 0 {
                        self.ram_enabled = value & 0x0F == 0x0A;
                    } else {
                        self.bank_lo = value & 0x0F;
                        proof {
                            crate::bits::lemma_u8_and_bound();
                        }
                    }
                }
            },
            Mbc::Mbc3 => {
                if address < 0x2000 {
                    self.ram_enabled = value & 0x0F == 0x0A;
                } else if address < 0x4000 {
                    self.bank_lo = value & 0x7F;
                    proof {
                        crate::bits::lemma_u8_and_bound();
                    }
                } else if address < 0x6000 {
                    self.ram_bank = value & 0x0F;
                    proof {
                        crate::bits::lemma_u8_and_bound();
                    }
                } else {
                    if self.rtc_latch == 0 && value == 1 {
                        self.lat_s = self.rtc_s;
                        self.lat_m = self.rtc_m;
                        self.lat_h = self.rtc_h;
                        self.lat_dl = self.rtc_dl;
                        self.lat_dh = self.rtc_dh;
                    }
                    self.rtc_latch = value;
                }
            },
            Mbc::Mbc5 => {
                if address < 0x2000 {
                    self.ram_enabled = value & 0x0F == 0x0A;
                } else if address < 0x3000 {
                    self.bank_lo = value;
                } else if address < 0x4000 {
                    self.bank_hi = value & 0x01;
                    proof {
                        crate::bits::lemma_u8_and_bound();
                    }
                } else if address < 0x6000 {
                    self.ram_bank = value & 0x0F;
                    proof {
                        crate::bits::lemma_u8_and_bound();
                    }
                }
            },
        }
    }

    fn ram_write(&mut self, address: u16, value: u8)
        requires
            cart_wf(old(self)@),
            0xA000 <= address < 0xC000,
        ensures
            final(self)@ == spec_cart_ram_write(old(self)@, address, value),
            cart_wf(final(self)@),
    {
        if !self.ram_enabled && !matches!(self.mbc, Mbc::NoMbc) {
            return ;
        }
        if matches!(self.mbc, Mbc::Mbc2) {
            let idx = (address as usize - 0xA000) % 512;
            if idx < self.ram.len() {
                self.ram.set(idx, value & 0x0F);
            }
            return ;
        }
        if matches!(self.mbc, Mbc::Mbc3) && self.ram_bank >= 8 {
            match self.ram_bank {
                0x08 => self.rtc_s = value,
                0x09 => self.rtc_m = value,
                0x0A => self.rtc_h = value,
                0x0B => self.rtc_dl = value,
                0x0C => self.rtc_dh = value,
                _ => {},
            }
            return ;
        }
        let bank: usize = match self.mbc {
            Mbc::Mbc1 => if self.mode {
                self.bank_hi as usize
            } else {
                0
            },
            Mbc::Mbc3 | Mbc::Mbc5 => self.ram_bank as usize,
            _ => 0,
        };
        let idx = bank * 0x2000 + (address as usize - 0xA000);
        if idx < self.ram.len() {
            self.ram.set(idx, value);
        }
    }

    /// The battery-backed bytes, for the host to persist.
    pub fn ram_data(&self) -> (r: &Vec<u8>)
        ensures
            r@ == self@.ram,
    {
        &self.ram
    }

    /// Restore battery-backed bytes saved earlier; rejected unless the
    /// length matches the header's RAM size.
    pub fn load_ram_data(&mut self, data: &Vec<u8>) -> (r: bool)
        ensures
            r == (data@.len() == old(self)@.ram.len()),
            r ==> final(self)@ == (CartridgeV { ram: data@, ..old(self)@ }),
            !r ==> final(self)@ == old(self)@,
    {
        if data.len() != self.ram.len() {
            return false;
        }
        let mut new_ram: Vec<u8> = Vec::new();
        let mut i: usize = 0;
        while i < data.len()
            invariant
                i <= data.len(),
                new_ram@ =~= data@.subrange(0, i as int),
            decreases data.len() - i,
        {
            new_ram.push(data[i]);
            i = i + 1;
        }
        assert(new_ram@ =~= data@);
        self.ram = new_ram;
        assert(self@ =~= CartridgeV { ram: data@, ..old(self)@ });
        true
    }
}

/// Fold the header-checksum subtraction over 0x134-0x14C.
pub fn header_checksum(rom: &Vec<u8>) -> (r: u8)
    requires
        rom@.len() >= 0x150,
    ensures
        r == spec_header_checksum(rom@, 0x134),
{
    let mut x: u8 = 0;
    let mut i: usize = 0x14D;
    while i > 0x134
        invariant
            0x134 <= i <= 0x14D,
            rom@.len() >= 0x150,
            x == spec_header_checksum(rom@, i as int),
        decreases i,
    {
        i = i - 1;
        let ghost x0 = x;
        let b = rom[i];
        x = sub_wrap(sub_wrap(x, b), 1);
        proof {
            assert((((x0 - b) as u8) - 1) as u8 == (x0 - b - 1) as u8) by (bit_vector);
        }
    }
    x
}

/// Wrapping 8-bit subtraction.
fn sub_wrap(a: u8, b: u8) -> (r: u8)
    ensures
        r == (a - b) as u8,
{
    if a >= b {
        a - b
    } else {
        let w: u16 = a as u16 + 256 - b as u16;
        proof {
            assert((a as u16 + 256 - b as u16) as u8 == (a - b) as u8) by (bit_vector)
                requires
                    a < b,
            ;
        }
        w as u8
    }
}

fn decode_mbc(b: u8) -> (r: Option<Mbc>)
    ensures
        r == spec_mbc_of_type_byte(b),
{
    if b == 0x00 || b == 0x08 || b == 0x09 {
        Some(Mbc::NoMbc)
    } else if 0x01 <= b && b <= 0x03 {
        Some(Mbc::Mbc1)
    } else if b == 0x05 || b == 0x06 {
        Some(Mbc::Mbc2)
    } else if 0x0F <= b && b <= 0x13 {
        Some(Mbc::Mbc3)
    } else if 0x19 <= b && b <= 0x1E {
        Some(Mbc::Mbc5)
    } else {
        None
    }
}

} // verus!
