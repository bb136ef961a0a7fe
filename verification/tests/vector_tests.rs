//! Tests of the verified single-step test-vector replay.

use rust_nes_emu::vectors::replay_case;
use rust_nes_emu::vectors::CpuSnapshot;

fn snap(pc: u16, sp: u8, a: u8, x: u8, y: u8, p: u8) -> CpuSnapshot {
    CpuSnapshot { pc, sp, a, x, y, p }
}

#[test]
fn test_replay_lda_immediate_case() {
    let init = snap(0x8000, 0, 0, 0, 0, 0);
    let init_ram = vec![(0x8000u16, 0xA9u8), (0x8001, 0x05)];
    let fin = snap(0x8002, 0, 0x05, 0, 0, 0);
    let fin_ram = vec![(0x8000u16, 0xA9u8), (0x8001, 0x05)];
    assert!(replay_case(&init, &init_ram, &fin, &fin_ram));
}

#[test]
fn test_replay_detects_wrong_register() {
    let init = snap(0x8000, 0, 0, 0, 0, 0);
    let init_ram = vec![(0x8000u16, 0xA9u8), (0x8001, 0x05)];
    let fin = snap(0x8002, 0, 0x06, 0, 0, 0);
    assert!(!replay_case(&init, &init_ram, &fin, &vec![]));
}

#[test]
fn test_replay_sta_writes_memory() {
    let init = snap(0x8000, 0, 0x07, 0, 0, 0);
    let init_ram = vec![(0x8000u16, 0x85u8), (0x8001, 0x20)];
    let fin = snap(0x8002, 0, 0x07, 0, 0, 0);
    let fin_ram = vec![(0x0020u16, 0x07u8)];
    assert!(replay_case(&init, &init_ram, &fin, &fin_ram));
    let wrong_ram = vec![(0x0020u16, 0x08u8)];
    assert!(!replay_case(&init, &init_ram, &fin, &wrong_ram));
}

#[test]
fn test_replay_rejects_undefined_opcode() {
    let init = snap(0x8000, 0, 0, 0, 0, 0);
    let init_ram = vec![(0x8000u16, 0xFFu8)];
    let fin = snap(0x8001, 0, 0, 0, 0, 0);
    assert!(!replay_case(&init, &init_ram, &fin, &vec![]));
}

#[test]
fn test_replay_later_ram_entry_wins() {
    // Two initial entries hit the same address; the later one is the
    // byte the instruction sees.
    let init = snap(0x8000, 0, 0, 0, 0, 0);
    let init_ram = vec![(0x8000u16, 0xA9u8), (0x8001, 0x11), (0x8001, 0x22)];
    let fin = snap(0x8002, 0, 0x22, 0, 0, 0);
    assert!(replay_case(&init, &init_ram, &fin, &vec![]));
}
