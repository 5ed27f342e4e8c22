use ruboy::cart::CartHeader;
use ruboy::cpu::{Cpu, CpuError};
use ruboy::mem::{MemError, Memory};
use ruboy::regs::RegPair;

/// A 32 KiB image with an accepted header and `code` placed at `at`.
fn image_with(at: usize, code: &[u8]) -> Vec<u8> {
    let mut rom = vec![0u8; 0x8000];
    rom[at..at + code.len()].copy_from_slice(code);
    rom
}

fn cpu_with(at: usize, code: &[u8]) -> Cpu {
    let mut mem = Memory::default();
    mem.load_rom(image_with(at, code)).unwrap();
    Cpu::new(mem)
}

#[test]
fn nop() {
    let mem = Memory::default();
    let mut cpu = Cpu::new(mem);
    assert!(cpu.execute(0x0).is_ok());
    assert!(cpu.af == RegPair::from(0));
    assert!(cpu.bc == RegPair::from(0));
    assert!(cpu.de == RegPair::from(0));
    assert!(cpu.hl == RegPair::from(0));
    assert!(cpu.sp == 0);
    assert!(cpu.pc == 1);
    assert!(cpu.cycle == 4);
}

#[test]
fn nop_keeps_memory_and_flags() {
    let mut cpu = Cpu::new(Memory::default());
    cpu.af = RegPair::from(0x12f0);
    cpu.pc = 0x0100;
    cpu.cycle = 100;
    assert!(cpu.mem.write(0xc000, 0x5a).is_ok());
    assert!(cpu.execute(0x00).is_ok());
    assert_eq!(cpu.af, RegPair::from(0x12f0));
    assert_eq!(cpu.pc, 0x0101);
    assert_eq!(cpu.cycle, 104);
    assert_eq!(cpu.mem.read8(0xc000), Ok(0x5a));
}

#[test]
fn ld_bc_d16() {
    let mut cpu = cpu_with(0, &[0x1u8, 0xfu8, 0xeu8]);
    assert!(cpu.execute(0x1).is_ok());
    assert!(cpu.af == RegPair::from(0));
    assert!(cpu.bc == RegPair::from((0xf << 8) | 0xe));
    assert!(cpu.de == RegPair::from(0));
    assert!(cpu.hl == RegPair::from(0));
    assert!(cpu.sp == 0);
    assert!(cpu.pc == 3);
    assert!(cpu.cycle == 12);
}

#[test]
fn load_immediate_other_pairs() {
    let mut cpu = cpu_with(0, &[0x11, 0x12, 0x34, 0x21, 0x56, 0x78, 0x31, 0xfe, 0xff]);
    assert!(cpu.execute(0x11).is_ok());
    assert!(cpu.execute(0x21).is_ok());
    assert!(cpu.execute(0x31).is_ok());
    assert_eq!(cpu.de.get(), 0x1234);
    assert_eq!(cpu.hl.get(), 0x5678);
    assert_eq!(cpu.sp, 0xfffe);
    assert_eq!(cpu.pc, 9);
    assert_eq!(cpu.cycle, 36);
}

#[test]
fn store_a_at_bc() {
    let mut cpu = Cpu::new(Memory::default());
    cpu.bc = RegPair::from(0xc000);
    cpu.af.0 = 0xf;
    assert!(cpu.execute(0x02).is_ok());
    assert_eq!(cpu.af, RegPair::from(0xf00));
    assert_eq!(cpu.bc, RegPair::from(0xc000));
    assert_eq!(cpu.pc, 1);
    assert_eq!(cpu.cycle, 8);
    assert_eq!(cpu.mem.read8(0xc000), Ok(0xf));
}

#[test]
fn store_a_at_de_into_video_ram_fails() {
    let mut cpu = Cpu::new(Memory::default());
    cpu.de = RegPair::from(0x8010);
    assert_eq!(
        cpu.execute(0x12),
        Err(CpuError::Memory(MemError::VideoNotImplemented { offset: 0x10 }))
    );
}

#[test]
fn add_hl_de_half_carry_only() {
    let mut cpu = Cpu::new(Memory::default());
    cpu.hl = RegPair::from(0x0fff);
    cpu.de = RegPair::from(0x0001);
    cpu.af = RegPair::from(0x0040);
    assert!(cpu.execute(0x19).is_ok());
    assert_eq!(cpu.hl.get(), 0x1000);
    assert!(cpu.get_flag_half_carry());
    assert!(!cpu.get_flag_carry());
    assert!(!cpu.get_flag_substract());
    assert!(!cpu.get_flag_zero());
    assert_eq!(cpu.cycle, 8);
    assert_eq!(cpu.pc, 1);
}

#[test]
fn add_hl_de_full_carry_wraps() {
    let mut cpu = Cpu::new(Memory::default());
    cpu.hl = RegPair::from(0xffff);
    cpu.de = RegPair::from(0x0001);
    assert!(cpu.execute(0x19).is_ok());
    assert_eq!(cpu.hl.get(), 0x0000);
    assert!(cpu.get_flag_half_carry());
    assert!(cpu.get_flag_carry());
    assert_eq!(cpu.de.get(), 0x0001);
}

#[test]
fn add_hl_low_byte_carry_is_not_half_carry() {
    let mut cpu = Cpu::new(Memory::default());
    cpu.hl = RegPair::from(0x00ff);
    cpu.de = RegPair::from(0x0001);
    assert!(cpu.execute(0x19).is_ok());
    assert_eq!(cpu.hl.get(), 0x0100);
    assert!(!cpu.get_flag_half_carry());
    assert!(!cpu.get_flag_carry());
}

#[test]
fn add_hl_keeps_zero_flag() {
    let mut cpu = Cpu::new(Memory::default());
    cpu.af = RegPair::from(0x0080);
    cpu.hl = RegPair::from(0x1000);
    assert!(cpu.execute(0x29).is_ok());
    assert_eq!(cpu.hl.get(), 0x2000);
    assert!(cpu.get_flag_zero());
    assert_eq!(cpu.af.1, 0x80);
}

#[test]
fn jump_absolute() {
    let mut cpu = cpu_with(0, &[0xc3, 0x34, 0x12]);
    assert!(cpu.execute(0xc3).is_ok());
    assert_eq!(cpu.pc, 0x1234);
    assert_eq!(cpu.cycle, 16);
}

#[test]
fn call_pushes_return_address() {
    let mut cpu = cpu_with(0x150, &[0xcd, 0x00, 0x02]);
    cpu.pc = 0x150;
    cpu.sp = 0xfffe;
    assert!(cpu.execute(0xcd).is_ok());
    assert_eq!(cpu.pc, 0x0200);
    assert_eq!(cpu.sp, 0xfffc);
    assert_eq!(cpu.mem.read16(0xfffc), Ok(0x0153));
    assert_eq!(cpu.cycle, 24);
}

#[test]
fn high_page_store_and_load() {
    let mut cpu = cpu_with(0, &[0xe0, 0x80, 0xf0, 0x80]);
    cpu.af.0 = 0x42;
    assert!(cpu.execute(0xe0).is_ok());
    assert_eq!(cpu.mem.read8(0xff80), Ok(0x42));
    assert_eq!(cpu.pc, 2);
    cpu.af.0 = 0;
    assert!(cpu.execute(0xf0).is_ok());
    assert_eq!(cpu.af.0, 0x42);
    assert_eq!(cpu.pc, 4);
    assert_eq!(cpu.cycle, 24);
}

#[test]
fn unsupported_opcode_changes_nothing() {
    let mut cpu = Cpu::new(Memory::default());
    cpu.pc = 0x0123;
    cpu.cycle = 40;
    cpu.bc = RegPair::from(0xbeef);
    assert_eq!(
        cpu.execute(0xd3),
        Err(CpuError::UnsupportedOpcode { op: 0xd3, pc: 0x0123 })
    );
    assert_eq!(cpu.pc, 0x0123);
    assert_eq!(cpu.cycle, 40);
    assert_eq!(cpu.bc, RegPair::from(0xbeef));
    assert_eq!(cpu.af, RegPair::from(0));
}

#[test]
fn run_stops_at_unsupported_opcode() {
    let mut rom = image_with(0x100, &[0x00, 0x21, 0xc0, 0x00, 0xd3]);
    rom[0x143] = 0x80;
    let mut mem = Memory::default();
    let cart = mem.load_rom(rom).unwrap();
    let mut cpu = Cpu::new(mem);
    let err = cpu.run(cart);
    assert_eq!(err, CpuError::UnsupportedOpcode { op: 0xd3, pc: 0x0104 });
    assert_eq!(cpu.pc, 0x0104);
    assert_eq!(cpu.cycle, 16);
    assert_eq!(cpu.hl.get(), 0xc000);
    assert_eq!(cpu.af.get(), 0x1180);
    assert_eq!(cpu.sp, 0xfffe);
}

#[test]
fn run_stops_at_cycle_limit() {
    let mut mem = Memory::default();
    let cart = mem.load_rom(image_with(0x100, &[0x00])).unwrap();
    let mut cpu = Cpu::new(mem);
    cpu.cycle = u64::MAX - 10;
    assert_eq!(cpu.run(cart), CpuError::CycleLimit);
}

#[test]
fn initialize_plain_and_color() {
    let rom = image_with(0, &[]);
    let plain = CartHeader::new(&rom).unwrap();
    let mut cpu = Cpu::new(Memory::default());
    cpu.initialize(&plain);
    assert_eq!(cpu.af.get(), 0x01b0);
    assert_eq!(cpu.bc.get(), 0x0013);
    assert_eq!(cpu.de.get(), 0x00d8);
    assert_eq!(cpu.hl.get(), 0x014d);
    assert_eq!(cpu.sp, 0xfffe);
    assert_eq!(cpu.pc, 0x0100);
    assert!(cpu.get_flag_zero());
    assert!(!cpu.get_flag_substract());
    assert!(cpu.get_flag_half_carry());
    assert!(cpu.get_flag_carry());

    let mut color = rom.clone();
    color[0x143] = 0xc0;
    let color = CartHeader::new(&color).unwrap();
    cpu.initialize(&color);
    assert_eq!(cpu.af.get(), 0x1180);
    assert_eq!(cpu.bc.get(), 0x0000);
    assert_eq!(cpu.de.get(), 0xff56);
    assert_eq!(cpu.hl.get(), 0x000d);
}

#[test]
fn register_pair_set_and_get() {
    let mut p = RegPair::from(0);
    p.set(0xabcd);
    assert_eq!(p, RegPair(0xab, 0xcd));
    assert_eq!(p.get(), 0xabcd);
}

#[test]
fn xor_a_clears_a_and_sets_zero() {
    let mut cpu = Cpu::new(Memory::default());
    cpu.af = RegPair::from(0x7730);
    assert!(cpu.execute(0xaf).is_ok());
    assert_eq!(cpu.af.0, 0);
    assert!(cpu.get_flag_zero());
    assert!(!cpu.get_flag_substract());
    assert!(!cpu.get_flag_half_carry());
    assert!(!cpu.get_flag_carry());
    assert_eq!(cpu.cycle, 4);
}

#[test]
fn add_immediate_sets_eight_bit_flags() {
    let mut cpu = cpu_with(0, &[0xc6, 0x01, 0xc6, 0x01, 0xc6, 0xf0]);
    cpu.af.0 = 0x0f;
    assert!(cpu.execute(0xc6).is_ok());
    assert_eq!(cpu.af.0, 0x10);
    assert!(cpu.get_flag_half_carry());
    assert!(!cpu.get_flag_carry());
    assert!(!cpu.get_flag_zero());
    cpu.af.0 = 0xff;
    assert!(cpu.execute(0xc6).is_ok());
    assert_eq!(cpu.af.0, 0x00);
    assert!(cpu.get_flag_zero());
    assert!(cpu.get_flag_half_carry());
    assert!(cpu.get_flag_carry());
    cpu.af.0 = 0x20;
    assert!(cpu.execute(0xc6).is_ok());
    assert_eq!(cpu.af.0, 0x10);
    assert!(!cpu.get_flag_half_carry());
    assert!(cpu.get_flag_carry());
    assert_eq!(cpu.pc, 6);
    assert_eq!(cpu.cycle, 24);
    assert_eq!(cpu.af.1 & 0x0f, 0);
}

#[test]
fn subtract_immediate_sets_borrow_flags() {
    let mut cpu = cpu_with(0, &[0xd6, 0x01, 0xd6, 0x05]);
    cpu.af.0 = 0x10;
    assert!(cpu.execute(0xd6).is_ok());
    assert_eq!(cpu.af.0, 0x0f);
    assert!(cpu.get_flag_substract());
    assert!(cpu.get_flag_half_carry());
    assert!(!cpu.get_flag_carry());
    assert!(!cpu.get_flag_zero());
    cpu.af.0 = 0x05;
    assert!(cpu.execute(0xd6).is_ok());
    assert_eq!(cpu.af.0, 0x00);
    assert!(cpu.get_flag_zero());
    assert!(!cpu.get_flag_half_carry());
    assert!(!cpu.get_flag_carry());
    cpu.af.0 = 0x00;
    cpu.pc = 0;
    assert!(cpu.execute(0xd6).is_ok());
    assert_eq!(cpu.af.0, 0xff);
    assert!(cpu.get_flag_carry());
    assert!(cpu.get_flag_half_carry());
}

#[test]
fn relative_jump_both_directions() {
    let mut cpu = cpu_with(0x200, &[0x18, 0x10]);
    cpu.pc = 0x200;
    assert!(cpu.execute(0x18).is_ok());
    assert_eq!(cpu.pc, 0x212);
    assert_eq!(cpu.cycle, 12);
    let mut cpu = cpu_with(0x200, &[0x18, 0xfe]);
    cpu.pc = 0x200;
    assert!(cpu.execute(0x18).is_ok());
    assert_eq!(cpu.pc, 0x200);
}

#[test]
fn call_then_return() {
    let mut cpu = cpu_with(0x150, &[0xcd, 0x00, 0x02]);
    cpu.pc = 0x150;
    cpu.sp = 0xfffe;
    assert!(cpu.execute(0xcd).is_ok());
    assert!(cpu.execute(0xc9).is_ok());
    assert_eq!(cpu.pc, 0x0153);
    assert_eq!(cpu.sp, 0xfffe);
    assert_eq!(cpu.cycle, 40);
}

#[test]
fn fetch_from_video_ram_fails() {
    let mut cpu = Cpu::new(Memory::default());
    cpu.pc = 0x8000;
    assert_eq!(
        cpu.execute(0x01),
        Err(CpuError::Memory(MemError::VideoNotImplemented { offset: 1 }))
    );
    assert_eq!(cpu.pc, 0x8001);
    assert_eq!(cpu.cycle, 12);
}

#[test]
fn run_stops_at_video_ram() {
    let mut mem = Memory::default();
    let cart = mem.load_rom(image_with(0x100, &[0xc3, 0x00, 0x80])).unwrap();
    let mut cpu = Cpu::new(mem);
    assert_eq!(
        cpu.run(cart),
        CpuError::Memory(MemError::VideoNotImplemented { offset: 0 })
    );
    assert_eq!(cpu.pc, 0x8000);
    assert_eq!(cpu.cycle, 16);
}

#[test]
fn step_reads_and_executes_one_instruction() {
    let mut cpu = cpu_with(0x100, &[0x21, 0x12, 0x34, 0xd3]);
    cpu.pc = 0x100;
    assert!(cpu.step().is_ok());
    assert_eq!(cpu.hl.get(), 0x1234);
    assert_eq!(cpu.pc, 0x103);
    assert_eq!(cpu.cycle, 12);
    assert_eq!(cpu.step(), Err(CpuError::UnsupportedOpcode { op: 0xd3, pc: 0x103 }));
    assert_eq!(cpu.pc, 0x103);
    assert_eq!(cpu.cycle, 12);
}

#[test]
fn step_refuses_near_cycle_limit() {
    let mut cpu = Cpu::new(Memory::default());
    cpu.cycle = u64::MAX - 20;
    assert_eq!(cpu.step(), Err(CpuError::CycleLimit));
    assert_eq!(cpu.pc, 0);
}

#[test]
fn execute_nop_near_counter_limit() {
    let mut cpu = Cpu::new(Memory::default());
    cpu.cycle = u64::MAX - 4;
    assert!(cpu.execute(0x00).is_ok());
    assert_eq!(cpu.cycle, u64::MAX);
    assert_eq!(cpu.pc, 1);
}
