use touchhle::abi::{
    extend_stack_for_args, finish_call_without_frame, finish_host_call, read_next_arg,
    write_next_arg, DotDotDot,
    GuestArg, GuestFunction, GuestRet, VaList, FRAME_POINTER, MAX_ARG_REGS,
};
use touchhle::cpu::{decode_run_result, Cpu, CpuError, CpuState, REG_COUNT};
use touchhle::frameworks::foundation::NSRange;
use touchhle::mem::{read_le_u32, Mem, Ptr};

#[test]
fn mem_write_read_u32_roundtrip() {
    let mut mem = Mem::new(64, 16);
    mem.write_u32(4, 0xdead_beef);
    assert_eq!(mem.read_u32(4), 0xdead_beef);
    assert_eq!(mem.read_u8(4), 0xef);
    assert_eq!(mem.read_u8(7), 0xde);
    // Neighbouring bytes are untouched.
    assert_eq!(mem.read_u8(3), 0);
    assert_eq!(mem.read_u8(8), 0);
}

#[test]
fn mem_write_read_u64_roundtrip() {
    let mut mem = Mem::new(64, 16);
    mem.write_u64(8, 0x0123_4567_89ab_cdef);
    assert_eq!(mem.read_u64(8), 0x0123_4567_89ab_cdef);
    assert_eq!(mem.read_u32(8), 0x89ab_cdef);
    assert_eq!(mem.read_u32(12), 0x0123_4567);
}

#[test]
fn mem_allocate_rounds_to_eight() {
    let mut mem = Mem::new(128, 8);
    assert_eq!(mem.allocate(3), 8);
    assert_eq!(mem.next_alloc(), 16);
    assert_eq!(mem.allocate(8), 16);
    assert_eq!(mem.next_alloc(), 24);
    assert_eq!(mem.allocate(0), 24);
    assert_eq!(mem.next_alloc(), 24);
}

#[test]
fn mem_bytes_roundtrip() {
    let mut mem = Mem::new(32, 0);
    mem.write_bytes(10, &vec![1, 2, 3]);
    assert_eq!(mem.bytes_at(9, 5), vec![0, 1, 2, 3, 0]);
    assert_eq!(mem.bytes_slice(10, 3), &[1, 2, 3]);
    assert_eq!(read_le_u32(&[1, 2, 3, 4, 5], 1), 0x0504_0302);
}

#[test]
fn ptr_bits_roundtrip() {
    let p = Ptr::from_bits(0x1234);
    assert_eq!(p.to_bits(), 0x1234);
    assert!(!p.is_null());
    assert!(Ptr::null().is_null());
}

#[test]
fn cpu_branch_with_link_restores() {
    let mut cpu = Cpu::new();
    cpu.set_reg(Cpu::PC, 0x1000);
    cpu.set_reg(Cpu::LR, 0x2000);
    let (old_pc, old_lr) = cpu.branch_with_link(0x3000, 0x4000);
    assert_eq!((old_pc, old_lr), (0x1000, 0x2000));
    assert_eq!(cpu.reg(Cpu::PC), 0x3000);
    assert_eq!(cpu.reg(Cpu::LR), 0x4000);
    finish_call_without_frame(&mut cpu, (old_pc, old_lr));
    assert_eq!(cpu.reg(Cpu::PC), 0x1000);
    assert_eq!(cpu.reg(Cpu::LR), 0x2000);
    assert_eq!(cpu.regs().len(), REG_COUNT);
}

#[test]
fn cpu_run_results() {
    assert_eq!(decode_run_result(-1), CpuState::Normal);
    assert_eq!(decode_run_result(-2), CpuState::Error(CpuError::MemoryError));
    assert_eq!(decode_run_result(-3), CpuState::Error(CpuError::UndefinedInstruction));
    assert_eq!(decode_run_result(-4), CpuState::Error(CpuError::Breakpoint));
    assert_eq!(decode_run_result(0), CpuState::Svc(0));
    assert_eq!(decode_run_result(0x80_0003), CpuState::Svc(0x80_0003));
}

#[test]
fn guest_function_has_no_thumb_bit() {
    let f = GuestFunction::from_addr_with_thumb_bit(0x1001);
    assert!(!f.is_thumb());
    assert_eq!(f.addr_with_thumb_bit(), 0x1001);
    assert_eq!(f.addr_without_thumb_bit(), 0x1001);
    assert_eq!(f.to_ptr().to_bits(), 0x1001);
    let g = GuestFunction::from_addr_and_thumb_flag(0x2000, true);
    assert_eq!(g.addr_without_thumb_bit(), 0x2000);
    assert_eq!(GuestFunction::null_ptr().addr_with_thumb_bit(), 0);
    assert_eq!(GuestFunction::THUMB_BIT, 0);
}

#[test]
fn args_beyond_registers_go_on_the_stack() {
    let mut mem = Mem::new(0x1000, 0x800);
    let mut cpu = Cpu::new();
    cpu.set_reg(Cpu::SP, 0x400);
    let old_sp = {
        let regs = cpu.regs_mut();
        extend_stack_for_args(10, regs)
    };
    assert_eq!(old_sp, 0x400);
    assert_eq!(cpu.reg(Cpu::SP), 0x400 - 16);
    let mut offset: usize = 0;
    for i in 0..10u32 {
        let regs = cpu.regs_mut();
        write_next_arg(&mut offset, regs, &mut mem, 100 + i);
    }
    assert_eq!(offset, 10);
    for i in 0..MAX_ARG_REGS {
        assert_eq!(cpu.reg(i), 100 + i as u64);
    }
    assert_eq!(mem.read_u64(0x400 - 16), 108);
    assert_eq!(mem.read_u64(0x400 - 8), 109);
    // Reading them back as variadic arguments.
    let mut va = VaList::new(0, 0x400 - 16);
    for i in 0..10u32 {
        let v: u32 = va.next(&cpu, &mem);
        assert_eq!(v, 100 + i);
    }
    let dots = DotDotDot::new(VaList::new(3, 0x400 - 16));
    let mut start = dots.start();
    let fourth: u32 = start.next(&cpu, &mem);
    assert_eq!(fourth, 103);
    // Starting again reads the same first argument.
    let mut again = dots.start();
    let fourth_again: u32 = again.next(&cpu, &mem);
    assert_eq!(fourth_again, 103);
    // The plain reader gives back what was written, and ends where the
    // writer ended.
    let mut read_offset: usize = 0;
    for i in 0..10u32 {
        let v: u32 = read_next_arg(&mut read_offset, cpu.regs(), 0x400 - 16, &mem);
        assert_eq!(v, 100 + i);
    }
    assert_eq!(read_offset, offset);
}

#[test]
fn signed_args_roundtrip_through_registers() {
    let mut regs = vec![0u64; 1];
    <i32 as GuestArg>::to_regs(-5, &mut regs);
    assert_eq!(regs[0], 0xffff_fffb);
    assert_eq!(<i32 as GuestArg>::from_regs(&regs), -5);
    <bool as GuestArg>::to_regs(true, &mut regs);
    assert_eq!(regs[0], 1);
    assert!(<bool as GuestArg>::from_regs(&regs));
}

#[test]
fn ns_range_takes_two_words() {
    assert_eq!(<NSRange as GuestArg>::reg_count(), 2);
    let mut regs = vec![0u64; 2];
    <NSRange as GuestArg>::to_regs(NSRange { location: 3, length: 7 }, &mut regs);
    assert_eq!(regs, vec![3, 7]);
    assert_eq!(<NSRange as GuestArg>::from_regs(&regs), NSRange { location: 3, length: 7 });
}

#[test]
fn return_values_in_x0() {
    let mut regs = vec![0u64; REG_COUNT];
    <u32 as GuestRet>::to_regs(42, &mut regs);
    assert_eq!(regs[0], 42);
    let back: u32 = <u32 as GuestRet>::from_regs(&regs);
    assert_eq!(back, 42);
}

#[test]
fn host_call_frame_is_pushed_and_restored() {
    let mut mem = Mem::new(0x1000, 0x800);
    let mut cpu = Cpu::new();
    cpu.set_reg(Cpu::PC, 0x111);
    cpu.set_reg(Cpu::LR, 0x222);
    cpu.set_reg(Cpu::SP, 0x400);
    cpu.set_reg(FRAME_POINTER, 0x333);
    let f = GuestFunction::from_addr_with_thumb_bit(0x5000);
    let rth = GuestFunction::from_addr_with_thumb_bit(0x6000);
    let frame = f.begin_host_call(&mut cpu, &mut mem, rth);
    assert_eq!(cpu.reg(Cpu::PC), 0x5000);
    assert_eq!(cpu.reg(Cpu::LR), 0x6000);
    assert_eq!(cpu.reg(Cpu::SP), 0x3f0);
    assert_eq!(cpu.reg(FRAME_POINTER), 0x3f0);
    assert_eq!(mem.read_u64(0x3f0), 0x333);
    assert_eq!(mem.read_u64(0x3f8), 0x222);
    // The guest code clobbers registers, then returns to the host.
    cpu.set_reg(Cpu::SP, 0x100);
    cpu.set_reg(0, 77);
    finish_host_call(&mut cpu, frame);
    assert_eq!(cpu.reg(Cpu::PC), 0x111);
    assert_eq!(cpu.reg(Cpu::LR), 0x222);
    assert_eq!(cpu.reg(Cpu::SP), 0x400);
    assert_eq!(cpu.reg(FRAME_POINTER), 0x333);
    assert_eq!(cpu.reg(0), 77);
}

#[test]
fn call_without_frame_restores_pc_and_lr() {
    let mut cpu = Cpu::new();
    cpu.set_reg(Cpu::PC, 0x10);
    cpu.set_reg(Cpu::LR, 0x20);
    let f = GuestFunction::from_addr_with_thumb_bit(0x5000);
    let rth = GuestFunction::from_addr_with_thumb_bit(0x6000);
    let saved = f.begin_call_without_frame(&mut cpu, rth);
    assert_eq!(cpu.reg(Cpu::PC), 0x5000);
    assert_eq!(cpu.reg(Cpu::LR), 0x6000);
    finish_call_without_frame(&mut cpu, saved);
    assert_eq!(cpu.reg(Cpu::PC), 0x10);
    assert_eq!(cpu.reg(Cpu::LR), 0x20);
}
