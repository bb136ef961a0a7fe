//! Tests of the iNES parser and the NES-mapped bus.

use rust_nes_emu::bus::Bus;
use rust_nes_emu::bus::NesBus;
use rust_nes_emu::cpu::CPU;
use rust_nes_emu::rom::Mirroring;
use rust_nes_emu::rom::Rom;
use rust_nes_emu::rom::RomError;

/// An iNES file with the given header flags; the program ROM is
/// filled with `prg_fill` and the character ROM with `chr_fill`.
fn ines_file(prg_banks: u8, chr_banks: u8, flag6: u8, flag7: u8, prg_fill: u8, chr_fill: u8) -> Vec<u8> {
    let mut bytes = vec![0x4E, 0x45, 0x53, 0x1A, prg_banks, chr_banks, flag6, flag7];
    bytes.resize(16, 0);
    if flag6 & 0b100 != 0 {
        bytes.resize(16 + 512, 0);
    }
    let len = bytes.len();
    bytes.resize(len + prg_banks as usize * 0x4000, prg_fill);
    let len = bytes.len();
    bytes.resize(len + chr_banks as usize * 0x2000, chr_fill);
    bytes
}

#[test]
fn test_rom_parse_ok() {
    let file = ines_file(2, 1, 0, 0, 0xAB, 0xCD);
    let rom = Rom::parse(&file).unwrap();
    assert_eq!(rom.prg_rom.len(), 0x8000);
    assert_eq!(rom.chr_rom.len(), 0x2000);
    assert_eq!(rom.prg_rom[0], 0xAB);
    assert_eq!(rom.chr_rom[0], 0xCD);
    assert_eq!(rom.mapper, 0);
    assert_eq!(rom.screen_mirroring, Mirroring::Horizontal);
}

#[test]
fn test_rom_bad_magic() {
    let mut file = ines_file(1, 1, 0, 0, 0, 0);
    file[0] = 0x4D;
    let err = Rom::parse(&file).unwrap_err();
    assert_eq!(err, RomError::NotInes);
    assert_eq!(err.message(), "File is not in iNES format");
}

#[test]
fn test_rom_ines2_rejected() {
    let file = ines_file(1, 1, 0, 0b0000_1000, 0, 0);
    let err = Rom::parse(&file).unwrap_err();
    assert_eq!(err, RomError::Ines2NotSupported);
    assert_eq!(err.message(), "iNES 2.0 is not supported");
}

#[test]
fn test_rom_vertical_mirroring_bit() {
    let file = ines_file(1, 1, 0b0001, 0, 0, 0);
    let rom = Rom::parse(&file).unwrap();
    assert_eq!(rom.screen_mirroring, Mirroring::Vertical);
}

#[test]
fn test_rom_four_screen_bit_wins() {
    let file = ines_file(1, 1, 0b1001, 0, 0, 0);
    let rom = Rom::parse(&file).unwrap();
    assert_eq!(rom.screen_mirroring, Mirroring::FourScreen);
}

#[test]
fn test_rom_trainer_offsets_prg() {
    let mut file = ines_file(1, 0, 0b0100, 0, 0x77, 0);
    // Mark the first program byte after the 512-byte trainer.
    file[16 + 512] = 0x11;
    let rom = Rom::parse(&file).unwrap();
    assert_eq!(rom.prg_rom[0], 0x11);
    assert_eq!(rom.prg_rom[1], 0x77);
}

#[test]
fn test_rom_mapper_nibbles() {
    let file = ines_file(1, 1, 0x40, 0x20, 0, 0);
    let rom = Rom::parse(&file).unwrap();
    assert_eq!(rom.mapper, 0x24);
}

fn nes_bus_with_prg(prg_banks: u8) -> NesBus {
    let mut file = ines_file(prg_banks, 1, 0, 0, 0, 0);
    // Give the first program byte a recognisable value.
    file[16] = 0x42;
    let rom = Rom::parse(&file).unwrap();
    NesBus::new(rom)
}

#[test]
fn test_nes_bus_reads_prg_rom() {
    let bus = nes_bus_with_prg(2);
    assert_eq!(bus.mem_read(0x8000), 0x42);
    assert_eq!(bus.mem_read(0xC000), 0x00);
}

#[test]
fn test_nes_bus_mirrors_16k_prg() {
    let bus = nes_bus_with_prg(1);
    assert_eq!(bus.mem_read(0x8000), 0x42);
    // The single 16 KiB bank appears again in the upper half.
    assert_eq!(bus.mem_read(0xC000), 0x42);
}

#[test]
fn test_nes_bus_ram_mirrors() {
    let mut bus = nes_bus_with_prg(1);
    bus.mem_write(0x0005, 7);
    assert_eq!(bus.mem_read(0x0005), 7);
    assert_eq!(bus.mem_read(0x0805), 7);
    assert_eq!(bus.mem_read(0x1805), 7);
    bus.mem_write(0x0805, 9);
    assert_eq!(bus.mem_read(0x0005), 9);
}

#[test]
fn test_nes_bus_ppu_ports() {
    let mut file = ines_file(1, 1, 0, 0, 0, 0);
    // The character ROM starts after the 16 KiB program bank.
    file[16 + 0x4000] = 0x77;
    let rom = Rom::parse(&file).unwrap();
    let mut bus = NesBus::new(rom);
    bus.ppu_write_addr(0x00);
    bus.ppu_write_addr(0x00);
    // Data-port reads of character ROM are buffered by one access.
    assert_eq!(bus.ppu_read_data(), 0x00);
    assert_eq!(bus.ppu_read_data(), 0x77);
}

#[test]
fn test_cpu_runs_from_nes_rom() {
    // A 32 KiB cartridge: LDA #$05; STA $20; BRK at 0x8000, reset
    // vector at 0xFFFC pointing there.
    let mut file = ines_file(2, 1, 0, 0, 0, 0);
    let program = [0xA9, 0x05, 0x85, 0x20, 0x00];
    for (i, b) in program.iter().enumerate() {
        file[16 + i] = *b;
    }
    // 0xFFFC maps to offset 16 + 0x7FFC in the file.
    file[16 + 0x7FFC] = 0x00;
    file[16 + 0x7FFD] = 0x80;
    let rom = Rom::parse(&file).unwrap();
    let bus = NesBus::new(rom);
    let mut cpu = CPU::new(bus);
    cpu.reset();
    assert_eq!(cpu.program_counter, 0x8000);
    cpu.next();
    cpu.next();
    let r = cpu.next();
    assert!(r.end_of_program);
    assert_eq!(cpu.register_a, 0x05);
    assert_eq!(cpu.mem_read(0x20), 0x05);
}
