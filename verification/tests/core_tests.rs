use gameroy::cartridge::{Cartridge, HeaderError, Mbc};
use gameroy::gameboy::GameBoy;
use gameroy::save_state::LoadStateError;
use gameroy::sound_controller::SoundController;

/// A minimal valid ROM image: `banks` 16 KiB banks, the given type byte,
/// RAM size code, and a correct header checksum. Each bank starts with its
/// own index as a marker byte.
fn make_rom(banks: usize, type_byte: u8, ram_code: u8) -> Vec<u8> {
    let mut rom = vec![0u8; banks * 0x4000];
    for b in 0..banks {
        rom[b * 0x4000] = b as u8;
    }
    rom[0x147] = type_byte;
    let code = match banks {
        2 => 0u8,
        4 => 1,
        8 => 2,
        16 => 3,
        _ => panic!("unsupported bank count"),
    };
    rom[0x148] = code;
    rom[0x149] = ram_code;
    let mut x: u8 = 0;
    for i in 0x134..0x14D {
        x = x.wrapping_sub(rom[i]).wrapping_sub(1);
    }
    rom[0x14D] = x;
    rom
}

fn boot_gb() -> GameBoy {
    let cart = Cartridge::new(make_rom(2, 0x08, 2)).unwrap();
    GameBoy::new(None, cart)
}

#[test]
fn header_too_short() {
    match Cartridge::new(vec![0u8; 0x100]) {
        Err(e) => assert_eq!(e, HeaderError::TooShort),
        Ok(_) => panic!("short rom accepted"),
    }
}

#[test]
fn header_unsupported_mbc() {
    let mut rom = make_rom(2, 0x20, 0);
    // recompute checksum so only the type byte is at fault
    let mut x: u8 = 0;
    for i in 0x134..0x14D {
        x = x.wrapping_sub(rom[i]).wrapping_sub(1);
    }
    rom[0x14D] = x;
    match Cartridge::new(rom) {
        Err(e) => assert_eq!(e, HeaderError::UnsupportedMbc),
        Ok(_) => panic!("unknown controller accepted"),
    }
}

#[test]
fn header_bad_checksum() {
    let mut rom = make_rom(2, 0x00, 0);
    rom[0x14D] = rom[0x14D].wrapping_add(1);
    match Cartridge::new(rom) {
        Err(e) => assert_eq!(e, HeaderError::BadChecksum),
        Ok(_) => panic!("bad checksum accepted"),
    }
}

#[test]
fn post_boot_fingerprint() {
    let mut gb = boot_gb();
    assert_eq!(gb.clock_count, 23_440_324);
    assert_eq!(gb.cpu.a, 0x01);
    assert_eq!(gb.cpu.f.0, 0xb0);
    assert_eq!(gb.cpu.c, 0x13);
    assert_eq!(gb.cpu.e, 0xd8);
    assert_eq!(gb.cpu.h, 0x01);
    assert_eq!(gb.cpu.l, 0x4d);
    assert_eq!(gb.cpu.sp, 0xfffe);
    assert_eq!(gb.cpu.pc, 0x0100);
    assert!(!gb.boot_rom_active);
    assert_eq!(gb.interrupt_flag, 0xE1);
    // DIV visible byte of the post-boot counter 0xabcc
    assert_eq!(gb.read(0xFF04), 0xab);
    // the three scratch bytes the boot ROM leaves in high RAM
    assert_eq!(gb.read(0xFFFA), 0x39);
    assert_eq!(gb.read(0xFFFB), 0x01);
    assert_eq!(gb.read(0xFFFC), 0x2e);
}

#[test]
fn echo_mirrors_wram() {
    let mut gb = boot_gb();
    gb.write(0xC123, 0x55);
    assert_eq!(gb.read(0xE123), 0x55);
    assert_eq!(gb.read(0xC123), 0x55);
    gb.write(0xE124, 0x66);
    assert_eq!(gb.read(0xC124), 0x66);
    assert_eq!(gb.read(0xE124), 0x66);
}

#[test]
fn wram_hram_write_then_read() {
    let mut gb = boot_gb();
    gb.write(0xC000, 0x11);
    gb.write(0xDFFF, 0x22);
    gb.write(0xFF80, 0x33);
    gb.write(0xFFFE, 0x44);
    assert_eq!(gb.read(0xC000), 0x11);
    assert_eq!(gb.read(0xDFFF), 0x22);
    assert_eq!(gb.read(0xFF80), 0x33);
    assert_eq!(gb.read(0xFFFE), 0x44);
}

#[test]
fn unusable_region_reads_ff() {
    let mut gb = boot_gb();
    gb.write(0xFEA5, 0x12);
    assert_eq!(gb.read(0xFEA5), 0xFF);
}

#[test]
fn clock_advances_by_ticks() {
    let mut gb = boot_gb();
    let c0 = gb.clock_count;
    gb.read(0xC000);
    assert_eq!(gb.clock_count, c0);
    gb.write(0xC000, 1);
    assert_eq!(gb.clock_count, c0);
    gb.tick(4);
    gb.tick(4);
    assert_eq!(gb.clock_count, c0 + 8);
}

#[test]
fn div_write_increments_tima() {
    let mut gb = boot_gb();
    // post-boot: div == 0xabcc, timer disabled. Enable at 262144 Hz
    // (counter bit 3, set in 0xabcc): the write itself sees a rising edge.
    gb.write(0xFF07, 0x05);
    assert_eq!(gb.timer.tima, 0);
    assert!(gb.timer.last_counter_bit);
    // clearing the counter makes the selected bit fall: TIMA increments
    gb.write(0xFF04, 0);
    assert_eq!(gb.timer.div, 0);
    assert_eq!(gb.timer.tima, 1);
}

#[test]
fn tima_overflow_reloads_after_four_cycles() {
    let mut gb = boot_gb();
    gb.write(0xFF07, 0x05);
    gb.write(0xFF06, 0x42);
    gb.write(0xFF05, 0xFF);
    gb.write(0xFF0F, 0x00);
    // force the falling-edge increment: TIMA overflows to 0
    gb.write(0xFF04, 0);
    assert_eq!(gb.timer.tima, 0);
    assert_eq!(gb.timer.loading, 4);
    assert_eq!(gb.read(0xFF05), 0);
    gb.tick(4);
    assert_eq!(gb.timer.tima, 0x42);
    assert_ne!(gb.interrupt_flag & 0x04, 0);
}

#[test]
fn tima_write_cancels_reload() {
    let mut gb = boot_gb();
    gb.write(0xFF07, 0x05);
    gb.write(0xFF06, 0x42);
    gb.write(0xFF05, 0xFF);
    gb.write(0xFF0F, 0x00);
    gb.write(0xFF04, 0);
    assert_eq!(gb.timer.loading, 4);
    // a TIMA write inside the window cancels the reload and the interrupt
    gb.write(0xFF05, 0x07);
    gb.tick(4);
    assert_eq!(gb.timer.tima, 0x07);
    assert_eq!(gb.interrupt_flag & 0x04, 0);
}

#[test]
fn dma_copies_wram_to_oam() {
    let mut gb = boot_gb();
    // LCD off so object memory is freely readable afterwards
    gb.write(0xFF40, 0x11);
    for i in 0..160u16 {
        gb.write(0xC100 + i, (i as u8).wrapping_add(3));
    }
    gb.write(0xFF46, 0xC1);
    // during the window, reads outside high RAM answer 0xFF
    assert_eq!(gb.read(0xC100), 0xFF);
    assert_eq!(gb.read(0x0000), 0xFF);
    gb.write(0xFF80, 0x5A);
    assert_eq!(gb.read(0xFF80), 0x5A);
    // 160 machine cycles = 640 T-cycles finish the transfer
    for _ in 0..160 {
        gb.tick(4);
    }
    assert!(!gb.dma_active);
    for i in 0..160u16 {
        assert_eq!(gb.read(0xFE00 + i), (i as u8).wrapping_add(3));
    }
}

#[test]
fn boot_rom_overlay_and_unmap() {
    let cart = Cartridge::new(make_rom(2, 0x00, 0)).unwrap();
    let mut boot = vec![0u8; 0x100];
    for i in 0..0x100 {
        boot[i] = i as u8;
    }
    let mut gb = GameBoy::new(Some(boot), cart);
    assert!(gb.boot_rom_active);
    assert_eq!(gb.clock_count, 0);
    assert_eq!(gb.read(0x0050), 0x50);
    // writing bit 0 to 0xFF50 unmaps the overlay for good
    gb.write(0xFF50, 0x01);
    assert!(!gb.boot_rom_active);
    assert_eq!(gb.cpu.pc, 0x100);
    assert_eq!(gb.read(0x0000), 0x00);
}

#[test]
fn mbc1_bank_switching() {
    let cart = Cartridge::new(make_rom(8, 0x01, 0)).unwrap();
    assert_eq!(cart.mbc, Mbc::Mbc1);
    let mut gb = GameBoy::new(None, cart);
    // bank 0 fixed low, bank 1 mapped high by default (0 selects 1)
    assert_eq!(gb.read(0x0000), 0);
    assert_eq!(gb.read(0x4000), 1);
    gb.write(0x2000, 5);
    assert_eq!(gb.read(0x4000), 5);
    gb.write(0x2000, 0);
    assert_eq!(gb.read(0x4000), 1);
}

#[test]
fn cartridge_ram_gated_by_enable() {
    let cart = Cartridge::new(make_rom(2, 0x02, 2)).unwrap();
    let mut gb = GameBoy::new(None, cart);
    gb.write(0xA000, 0x77);
    assert_eq!(gb.read(0xA000), 0xFF);
    gb.write(0x0000, 0x0A);
    gb.write(0xA000, 0x77);
    assert_eq!(gb.read(0xA000), 0x77);
    gb.write(0x0000, 0x00);
    assert_eq!(gb.read(0xA000), 0xFF);
}

#[test]
fn serial_transfer_raises_interrupt() {
    let mut gb = boot_gb();
    gb.write(0xFF0F, 0x00);
    gb.write(0xFF01, 0x41);
    gb.write(0xFF02, 0x81);
    assert_eq!(gb.serial_out, vec![0x41]);
    assert_ne!(gb.serial_transfer_started, 0);
    // eight periods of the 2^13 Hz clock later the transfer completes
    let mut steps = 0;
    while gb.serial_transfer_started != 0 {
        gb.tick(4);
        steps += 1;
        assert!(steps < 2000, "serial transfer never completed");
    }
    assert_ne!(gb.interrupt_flag & 0x08, 0);
    assert_eq!(gb.serial_control & 0x80, 0);
}

#[test]
fn vblank_trigger_polled_once() {
    let mut gb = boot_gb();
    // LCD is on after boot at line 0: a full frame reaches line 144
    let mut saw = false;
    for _ in 0..(154 * 456 / 4 + 10) {
        gb.tick(4);
        if gb.v_blank_trigger {
            saw = true;
            break;
        }
    }
    assert!(saw);
    assert!(gb.call_v_blank_callback());
    assert!(!gb.v_blank_trigger);
    assert!(!gb.call_v_blank_callback());
    assert_ne!(gb.interrupt_flag & 0x01, 0);
}

#[test]
fn sound_off_branch_sample_count() {
    let mut snd = SoundController::default();
    assert!(!snd.on);
    // a whole second of silence at 48 kHz: 48000 slots plus the one at the
    // anchor, two values each
    let out = snd.get_output(4_194_304);
    assert_eq!(out.len(), 2 * 48001);
    assert!(out.iter().all(|&v| v == 0));
}

#[test]
fn sound_register_write_read() {
    let mut gb = boot_gb();
    gb.write(0xFF26, 0x80);
    gb.write(0xFF11, 0x80);
    assert_eq!(gb.read(0xFF11), 0x80);
    assert_eq!(gb.sound.ch1_length_timer, 64);
    gb.write(0xFF30, 0xAB);
    assert_eq!(gb.read(0xFF30), 0xAB);
    // power off clears every register
    gb.write(0xFF26, 0x00);
    assert_eq!(gb.read(0xFF11), 0x00);
    assert_eq!(gb.read(0xFF30), 0x00);
}

#[test]
fn sweep_overflow_silences_channel_one() {
    let mut gb = boot_gb();
    gb.write(0xFF26, 0x80);
    // sweep period 7, shift 7; full starting volume; frequency 2000
    gb.write(0xFF10, 0x77);
    gb.write(0xFF12, 0xF0);
    gb.write(0xFF13, (2000u16 & 0xFF) as u8);
    gb.write(0xFF14, 0x80 | ((2000u16 >> 8) as u8));
    assert!(gb.sound.ch1_channel_enable);
    // the period-7 sweep recomputes every seven 128 Hz ticks; the third
    // recomputation overflows past 2047 and silences the channel
    let clock = gb.clock_count + 24 * 32768 + 32768;
    gb.sound.update(clock);
    assert!(!gb.sound.ch1_channel_enable);
}

#[test]
fn sound_read_catches_unit_up() {
    let mut gb = boot_gb();
    gb.write(0xFF26, 0x80);
    gb.write(0xFF10, 0x77);
    gb.write(0xFF12, 0xF0);
    gb.write(0xFF13, (2000u16 & 0xFF) as u8);
    gb.write(0xFF14, 0x80 | ((2000u16 >> 8) as u8));
    assert!(gb.sound.ch1_channel_enable);
    // run well past several sweep recomputations without touching a
    // sound register: the lazy unit falls behind the shared clock
    for _ in 0..(25 * 32768 / 4) {
        gb.tick(4);
    }
    assert!(gb.sound.last_clock < gb.clock_count);
    // the bus read alone catches the unit up: the swept frequency has
    // landed in NR13 and the overflow has silenced channel 1
    let v = gb.read(0xFF13);
    assert_eq!(gb.sound.last_clock, gb.clock_count);
    assert!(!gb.sound.ch1_channel_enable);
    assert_ne!(v, (2000u16 & 0xFF) as u8);
    assert_eq!(v, gb.sound.nr13);
}

#[test]
fn save_load_round_trip() {
    let mut gb = boot_gb();
    gb.write(0xC234, 0xAB);
    gb.write(0xFF80, 0xCD);
    gb.write(0xFF26, 0x80);
    gb.write(0xFF11, 0x93);
    gb.tick(40);
    let blob = gb.save_state();
    // load into a second machine around the same cartridge
    let cart = Cartridge::new(make_rom(2, 0x08, 2)).unwrap();
    let mut gb2 = GameBoy::new(None, cart);
    gb2.load_state(&blob).unwrap();
    // saving the restored machine reproduces the identical blob (before
    // any sound-register read catches the lazy sound unit up)
    assert_eq!(gb2.save_state(), blob);
    assert_eq!(gb2.clock_count, gb.clock_count);
    assert_eq!(gb2.read(0xC234), 0xAB);
    assert_eq!(gb2.read(0xFF80), 0xCD);
    assert_eq!(gb2.read(0xFF11), 0x93);
}

#[test]
fn load_state_error_cases() {
    let mut gb = boot_gb();
    let good = gb.save_state();

    let mut bad_magic = good.clone();
    bad_magic[0] = b'X';
    assert_eq!(gb.load_state(&bad_magic).unwrap_err(), LoadStateError::BadMagic);

    let mut bad_version = good.clone();
    bad_version[7] = 0x99;
    assert_eq!(gb.load_state(&bad_version).unwrap_err(), LoadStateError::UnsupportedVersion);

    let truncated = good[..good.len() - 1].to_vec();
    assert_eq!(gb.load_state(&truncated).unwrap_err(), LoadStateError::Truncated);

    let mut trailing = good.clone();
    trailing.push(0);
    assert_eq!(gb.load_state(&trailing).unwrap_err(), LoadStateError::Corrupt);

    let clock_before = gb.clock_count;
    let mut corrupt = good.clone();
    // the CPU interrupt-state byte only admits 0, 1 or 2
    corrupt[20] = 9;
    assert_eq!(gb.load_state(&corrupt).unwrap_err(), LoadStateError::Corrupt);
    assert_eq!(gb.clock_count, clock_before);
}

#[test]
fn audio_drain_empties_queue() {
    let mut gb = boot_gb();
    gb.write(0xFF26, 0x00);
    for _ in 0..1000 {
        gb.tick(4);
    }
    let out = gb.audio_drain();
    assert!(out.len() > 0);
    assert_eq!(out.len() % 2, 0);
    let again = gb.audio_drain();
    assert_eq!(again.len(), 0);
}

#[test]
fn joypad_select_lines() {
    let mut gb = boot_gb();
    // press Down (bit 4 low among the direction keys? bit layout: upper
    // nibble buttons, lower nibble directions) - press Right: bit 0
    gb.joypad = 0xFE;
    gb.write(0xFF00, 0x20);
    let v = gb.read(0xFF00);
    assert_eq!(v & 0x0F, 0x0E);
    gb.write(0xFF00, 0x10);
    let v2 = gb.read(0xFF00);
    assert_eq!(v2 & 0x0F, 0x0F);
}

#[test]
fn reset_returns_to_start() {
    let cart = Cartridge::new(make_rom(2, 0x00, 0)).unwrap();
    let boot = vec![0u8; 0x100];
    let mut gb = GameBoy::new(Some(boot), cart);
    gb.write(0xC000, 9);
    gb.tick(8);
    gb.reset();
    assert!(gb.boot_rom_active);
    assert_eq!(gb.clock_count, 0);
    assert_eq!(gb.cpu.pc, 0);
    assert_eq!(gb.read(0xC000), 0);
}

#[test]
fn read16_write16_little_endian() {
    let mut gb = boot_gb();
    gb.write16(0xC010, 0xBEEF);
    assert_eq!(gb.read(0xC010), 0xEF);
    assert_eq!(gb.read(0xC011), 0xBE);
    assert_eq!(gb.read16(0xC010), 0xBEEF);
}

#[test]
fn load_boot_rom_is_absent() {
    assert!(gameroy::rom::load_boot_rom().is_none());
}
