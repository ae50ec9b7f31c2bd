use xp_layer::cpu::{CpuState, Emulator, StopReason};
use xp_layer::pe::LoadedImage;

fn put16(b: &mut [u8], off: usize, v: u16) {
    b[off..off + 2].copy_from_slice(&v.to_le_bytes());
}

fn put32(b: &mut [u8], off: usize, v: u32) {
    b[off..off + 4].copy_from_slice(&v.to_le_bytes());
}

/// An i386 PE32 image whose only section, at RVA 0x1000, holds `code`.
fn image_with(code: &[u8]) -> LoadedImage {
    let mut b = vec![0u8; 0x400];
    put16(&mut b, 0, 0x5A4D);
    put32(&mut b, 60, 64);
    b[64..68].copy_from_slice(b"PE\0\0");
    put16(&mut b, 68, 0x014c);
    put16(&mut b, 70, 1);
    let o = 88;
    put16(&mut b, o, 0x10B);
    put32(&mut b, o + 16, 0x1000);
    put32(&mut b, o + 28, 0x0040_0000);
    put32(&mut b, o + 56, 0x1000 + code.len() as u32);
    put32(&mut b, o + 60, 0x200);
    put32(&mut b, o + 92, 0);
    let s = o + 96;
    b[s..s + 5].copy_from_slice(b".text");
    put32(&mut b, s + 12, 0x1000);
    put32(&mut b, s + 16, code.len() as u32);
    put32(&mut b, s + 20, 0x200);
    b[0x200..0x200 + code.len()].copy_from_slice(code);
    LoadedImage::load(&b).unwrap()
}

#[test]
fn default_state() {
    let s = CpuState::default();
    assert_eq!(s.eflags, 0x202);
    assert_eq!(s.cs, 0x23);
    assert_eq!((s.ds, s.es, s.ss), (0x2B, 0x2B, 0x2B));
    assert_eq!((s.eax, s.esp, s.eip, s.fs, s.gs), (0, 0, 0, 0, 0));
}

#[test]
fn starts_at_entry_point() {
    let img = image_with(&[0x90, 0xC3]);
    let emu = Emulator::from_image(&img);
    assert_eq!(emu.image_base, 0x0040_0000);
    assert_eq!(emu.state.eip, 0x0040_1000);
    assert_eq!(emu.state.esp, 0x0040_0000 + 0x1002 + 0x10000);
    assert_eq!(emu.state.ebp, emu.state.esp);
    assert_eq!(emu.state.eflags, 0x202);
}

#[test]
fn runs_nop_mov_ret() {
    let img = image_with(&[0x90, 0x90, 0xB8, 0x78, 0x56, 0x34, 0x12, 0xC3]);
    let mut emu = Emulator::from_image(&img);
    let report = emu.run(10);
    assert_eq!(report.steps, 3);
    assert_eq!(report.eax, 0x1234_5678);
    assert_eq!(report.eip, 0x0040_1007);
    assert_eq!(report.stopped_reason, "RET at EIP=0x00401007");
    assert_eq!(emu.state.eip, 0x0040_1007);
}

#[test]
fn step_limit() {
    let img = image_with(&[0x90, 0x90, 0x90, 0xC3]);
    let mut emu = Emulator::from_image(&img);
    let report = emu.run(2);
    assert_eq!(report.steps, 2);
    assert_eq!(report.stopped_reason, "step limit reached");
    assert_eq!(report.eip, 0x0040_1002);
    let zero = emu.run(0);
    assert_eq!(zero.steps, 0);
    assert_eq!(zero.stopped_reason, "step limit reached");
}

#[test]
fn split_runs_match_one_run() {
    let code = [0x90, 0xB8, 1, 2, 3, 4, 0x90, 0x90, 0xCC];
    let img = image_with(&code);
    let mut whole = Emulator::from_image(&img);
    let all = whole.run(5);
    let mut parts = Emulator::from_image(&img);
    let first = parts.run(2);
    assert_eq!(first.stopped_reason, "step limit reached");
    let second = parts.run(3);
    assert_eq!(first.steps + second.steps, all.steps);
    assert_eq!(second.eip, all.eip);
    assert_eq!(second.eax, all.eax);
    assert_eq!(all.stopped_reason, "INT3 at EIP=0x00401008");
    assert_eq!(all.steps, 4);
}

#[test]
fn int3_and_unknown_opcode() {
    let img = image_with(&[0xCC]);
    let mut emu = Emulator::from_image(&img);
    let r = emu.run(5);
    assert_eq!((r.steps, r.stopped_reason.as_str()), (0, "INT3 at EIP=0x00401000"));
    let img = image_with(&[0x90, 0x0F]);
    let mut emu = Emulator::from_image(&img);
    let r = emu.run(5);
    assert_eq!(r.steps, 1);
    assert_eq!(r.stopped_reason, "unimplemented opcode 0x0F at EIP=0x00401001");
}

#[test]
fn truncated_mov_and_fetch_failure() {
    let img = image_with(&[0xB8, 1, 2]);
    let mut emu = Emulator::from_image(&img);
    let r = emu.run(5);
    assert_eq!(r.steps, 0);
    assert_eq!(r.stopped_reason, "truncated MOV EAX,imm32 at 0x00401000");
    let img = image_with(&[0x90]);
    let mut emu = Emulator::from_image(&img);
    let r = emu.run(5);
    assert_eq!(r.steps, 1);
    assert_eq!(r.stopped_reason, "fetch failed at EIP=0x00401001 (outside image)");
}

#[test]
fn memory_reads() {
    let img = image_with(&[0xB8, 0x78, 0x56, 0x34, 0x12]);
    let emu = Emulator::from_image(&img);
    assert_eq!(emu.read_u8(0x0040_0000), Some(0x4D));
    assert_eq!(emu.read_u8(0x0040_1000), Some(0xB8));
    assert_eq!(emu.read_u8(0x0040_1005), None);
    assert_eq!(emu.read_u8(0x003F_FFFF), None);
    assert_eq!(emu.read_u32(0x0040_1001), Some(0x1234_5678));
    assert_eq!(emu.read_u32(0x0040_1002), None);
}

#[test]
fn stop_messages() {
    assert_eq!(StopReason::Ret.message(0xDEAD_BEEF), "RET at EIP=0xDEADBEEF");
    assert_eq!(StopReason::Unimplemented(0xA).message(0), "unimplemented opcode 0x0A at EIP=0x00000000");
}
