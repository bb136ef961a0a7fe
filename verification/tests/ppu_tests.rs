//! Tests of the PPU register interface and the opcode table.

use rust_nes_emu::opcodes::AddressingMode;
use rust_nes_emu::opcodes::Mnemonic;
use rust_nes_emu::opcodes::opcode_lookup;
use rust_nes_emu::ppu::AddrRegister;
use rust_nes_emu::ppu::PPU;
use rust_nes_emu::rom::Mirroring;

fn ppu_with_chr(chr: Vec<u8>, mirroring: Mirroring) -> PPU {
    PPU::new(chr, mirroring)
}

#[test]
fn test_addr_register_two_writes() {
    let mut reg = AddrRegister::new();
    reg.update(0x12);
    reg.update(0x34);
    assert_eq!(reg.get(), 0x1234);
}

#[test]
fn test_addr_register_masks_to_14_bits() {
    let mut reg = AddrRegister::new();
    reg.update(0x7F);
    reg.update(0xFF);
    assert_eq!(reg.get(), 0x3FFF);
}

#[test]
fn test_addr_register_increment_carries_into_high_byte() {
    let mut reg = AddrRegister::new();
    reg.update(0x20);
    reg.update(0xFF);
    reg.increment(1);
    assert_eq!(reg.get(), 0x2100);
}

#[test]
fn test_addr_register_increment_wraps_at_top() {
    let mut reg = AddrRegister::new();
    reg.update(0x3F);
    reg.update(0xFF);
    reg.increment(1);
    assert_eq!(reg.get(), 0x0000);
}

#[test]
fn test_addr_register_reset_latch() {
    let mut reg = AddrRegister::new();
    reg.update(0x12);
    reg.reset_latch();
    reg.update(0x21);
    reg.update(0x08);
    assert_eq!(reg.get(), 0x2108);
}

#[test]
fn test_ctrl_vram_increment() {
    let mut ppu = ppu_with_chr(vec![0; 0x2000], Mirroring::Horizontal);
    assert_eq!(ppu.ctrl.vram_addr_increment(), 1);
    ppu.write_to_ctrl(0b100);
    assert_eq!(ppu.ctrl.vram_addr_increment(), 32);
}

#[test]
fn test_read_data_is_buffered_for_chr() {
    let mut chr = vec![0; 0x2000];
    chr[0] = 0x11;
    chr[1] = 0x22;
    let mut ppu = ppu_with_chr(chr, Mirroring::Horizontal);
    ppu.write_to_ppu_addr(0x00);
    ppu.write_to_ppu_addr(0x00);
    // The first read returns the stale buffer and loads chr[0].
    assert_eq!(ppu.read_data(), 0x00);
    assert_eq!(ppu.read_data(), 0x11);
    assert_eq!(ppu.read_data(), 0x22);
}

#[test]
fn test_read_data_vram_with_mirroring() {
    let mut ppu = ppu_with_chr(vec![0; 0x2000], Mirroring::Horizontal);
    ppu.vram[5] = 0x42;
    ppu.write_to_ppu_addr(0x20);
    ppu.write_to_ppu_addr(0x05);
    ppu.read_data();
    assert_eq!(ppu.read_data(), 0x42);
}

#[test]
fn test_read_data_palette_is_immediate() {
    let mut ppu = ppu_with_chr(vec![0; 0x2000], Mirroring::Horizontal);
    ppu.palette_table[3] = 0x21;
    ppu.write_to_ppu_addr(0x3F);
    ppu.write_to_ppu_addr(0x03);
    assert_eq!(ppu.read_data(), 0x21);
}

#[test]
fn test_read_data_uses_ctrl_increment() {
    let mut ppu = ppu_with_chr(vec![0; 0x2000], Mirroring::Horizontal);
    ppu.write_to_ctrl(0b100);
    ppu.write_to_ppu_addr(0x00);
    ppu.write_to_ppu_addr(0x00);
    ppu.read_data();
    assert_eq!(ppu.addr.get(), 32);
}

#[test]
fn test_mirror_vram_addr_vertical() {
    let ppu = ppu_with_chr(vec![0; 0x2000], Mirroring::Vertical);
    assert_eq!(ppu.mirror_vram_addr(0x2005), 0x005);
    assert_eq!(ppu.mirror_vram_addr(0x2405), 0x405);
    assert_eq!(ppu.mirror_vram_addr(0x2805), 0x005);
    assert_eq!(ppu.mirror_vram_addr(0x2C05), 0x405);
}

#[test]
fn test_mirror_vram_addr_horizontal() {
    let ppu = ppu_with_chr(vec![0; 0x2000], Mirroring::Horizontal);
    assert_eq!(ppu.mirror_vram_addr(0x2005), 0x005);
    assert_eq!(ppu.mirror_vram_addr(0x2405), 0x005);
    assert_eq!(ppu.mirror_vram_addr(0x2805), 0x405);
    assert_eq!(ppu.mirror_vram_addr(0x2C05), 0x405);
}

#[test]
fn test_opcode_table_has_151_entries() {
    let mut count = 0;
    for code in 0..=255u8 {
        if opcode_lookup(code).is_some() {
            count += 1;
        }
    }
    assert_eq!(count, 151);
}

#[test]
fn test_opcode_lookup_entry() {
    let entry = opcode_lookup(0xA9).unwrap();
    assert_eq!(entry.mnemonic, Mnemonic::Lda);
    assert_eq!(entry.cycles, 2);
    assert_eq!(entry.mode, AddressingMode::Immediate);
    assert!(opcode_lookup(0x02).is_none());
}
