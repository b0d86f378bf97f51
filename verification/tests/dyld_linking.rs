use touchhle::abi::GuestFunction;
use touchhle::cpu::Cpu;
use touchhle::dyld::{
    apply_class_link, check_lazy_linking_ready, find_fallback, handle_inline_svc,
    search_host_dylibs, ClassLink, Dyld, Export, ExportKind, HostConstant, HostDylib,
    HostFunction, RelocationOutcome, SvcHandler, INLINE_SVC_VM_ALLOCATE, STACK_CHK_GUARD_CANARY,
};
use touchhle::mach_o::{DyldIndirectSymbolInfo, MachO, Section};
use touchhle::mem::Mem;

const BYTES_CONSTANT: &[u8] = &[1, 2, 3];

fn no_fallbacks() -> Vec<(&'static str, HostFunction)> {
    vec![]
}

fn dylibs() -> Vec<HostDylib> {
    vec![
        HostDylib {
            path: "/usr/lib/libSystem.B.dylib",
            aliases: vec![],
            class_exports: vec![],
            constant_exports: vec![vec![
                ("_const", HostConstant::NSString("hello")),
                ("_null", HostConstant::NullPtr),
                ("_bytes", HostConstant::Bytes(BYTES_CONSTANT)),
            ]],
            function_exports: vec![
                vec![("_hostfn", HostFunction(7)), ("_other", HostFunction(8))],
                vec![("_hostfn", HostFunction(9))],
            ],
        },
        HostDylib {
            path: "/System/Library/Frameworks/Foundation.framework/Foundation",
            aliases: vec![],
            class_exports: vec![],
            constant_exports: vec![],
            function_exports: vec![vec![("_hostfn", HostFunction(10)), ("_late", HostFunction(11))]],
        },
    ]
}

fn syms(names: &[&str]) -> Vec<Option<Vec<u8>>> {
    names
        .iter()
        .map(|n| if n.is_empty() { None } else { Some(n.as_bytes().to_vec()) })
        .collect()
}

/// A binary with two 12-byte symbol stubs at 0x1000, lazy pointers at
/// 0x2000, six external relocations at 0x3000 and six non-lazy pointers at
/// 0x4000; it exports `_exported` at 0x5000.
fn binary() -> MachO {
    MachO {
        name: b"App".to_vec(),
        symbol_stubs: Some(Section {
            addr: 0x1000,
            size: 24,
            dyld_indirect_symbol_info: Some(DyldIndirectSymbolInfo {
                entry_size: 12,
                indirect_undef_symbols: syms(&["_hostfn", "_exported"]),
            }),
        }),
        lazy_symbol_pointers: Some(Section { addr: 0x2000, size: 8, dyld_indirect_symbol_info: None }),
        non_lazy_symbol_pointers: Some(Section {
            addr: 0x4000,
            size: 24,
            dyld_indirect_symbol_info: Some(DyldIndirectSymbolInfo {
                entry_size: 4,
                indirect_undef_symbols: syms(&[
                    "_exported",
                    "_hostfn",
                    "_const",
                    "___stack_chk_guard",
                    "_nothing",
                    "",
                ]),
            }),
        }),
        exported_symbols: vec![(b"_exported".to_vec(), 0x5000)],
        external_relocations: vec![
            (0x3000, b"_exported".to_vec()),
            (0x3004, b"_OBJC_CLASS_$_Foo".to_vec()),
            (0x3008, b"___CFConstantStringClassReference".to_vec()),
            (0x300c, b"_hostfn".to_vec()),
            (0x3010, b"_const".to_vec()),
            (0x3014, b"_missing".to_vec()),
        ],
    }
}

fn memory() -> Mem {
    let mut mem = Mem::new(0x10000, 0x8000);
    for i in 0..2u64 {
        let stub = 0x1000 + 12 * i;
        mem.write_u32(stub, 0xe59f_c000);
        mem.write_u32(stub + 4, 0xe59c_f000);
        mem.write_u32(stub + 8, 0x2000 + 4 * i as u32);
    }
    // Relocation offsets.
    mem.write_u32(0x3000, 4);
    mem.write_u32(0x3008, 0x10);
    mem
}

#[test]
fn search_finds_first_export_in_order() {
    let d = dylibs();
    match search_host_dylibs(&d, ExportKind::Function, b"_hostfn") {
        Some(Export::Function(name, f)) => {
            assert_eq!(name, "_hostfn");
            assert_eq!(f, HostFunction(7));
        }
        _ => panic!("not found"),
    }
    match search_host_dylibs(&d, ExportKind::Function, b"_late") {
        Some(Export::Function(_, f)) => assert_eq!(f, HostFunction(11)),
        _ => panic!("not found"),
    }
    assert!(search_host_dylibs(&d, ExportKind::Function, b"_const").is_none());
    match search_host_dylibs(&d, ExportKind::Constant, b"_const") {
        Some(Export::Constant(name, HostConstant::NSString(s))) => {
            assert_eq!(name, "_const");
            assert_eq!(s, "hello");
        }
        _ => panic!("not found"),
    }
    assert!(search_host_dylibs(&d, ExportKind::Constant, b"_nope").is_none());
}

#[test]
fn guest_function_stub_a32() {
    let mut dyld = Dyld::new();
    let mut mem = Mem::new(0x1000, 0x100);
    let f = dyld.create_guest_function(&mut mem, "_f", HostFunction(1));
    assert_eq!(f.addr_with_thumb_bit(), 0x100);
    // SVC #3; BX LR
    assert_eq!(mem.read_u32(0x100), 0xef00_0003);
    assert_eq!(mem.read_u32(0x104), 0xe12f_ff1e);
    assert_eq!(mem.next_alloc(), 0x108);
    let g = dyld.create_guest_function(&mut mem, "_g", HostFunction(2));
    assert_eq!(g.addr_with_thumb_bit(), 0x108);
    assert_eq!(mem.read_u32(0x108), 0xef00_0004);
}

#[test]
fn guest_function_stub_a64() {
    let mut dyld = Dyld::new();
    dyld.is_64_bit = true;
    let mut mem = Mem::new(0x1000, 0x100);
    let _ = dyld.create_guest_function(&mut mem, "_f", HostFunction(1));
    // SVC #3; RET
    assert_eq!(mem.read_u32(0x100), 0xd400_0001 | (3 << 5));
    assert_eq!(mem.read_u32(0x104), 0xd65f_03c0);
}

#[test]
fn created_function_svc_dispatches_to_it() {
    let mut dyld = Dyld::new();
    let mut mem = Mem::new(0x1000, 0x100);
    let mut cpu = Cpu::new();
    let bins: Vec<MachO> = vec![];
    let d = dylibs();
    let _ = dyld.create_guest_function(&mut mem, "_f", HostFunction(42));
    let svc = mem.read_u32(0x100) & 0x00ff_ffff;
    let (handler, inval) = dyld.get_svc_handler(&bins, &mut mem, &mut cpu, &d, &no_fallbacks(), 0x100, svc);
    assert!(matches!(handler, SvcHandler::Call(HostFunction(42))));
    assert!(inval.is_none());
}

#[test]
fn unknown_svc_in_null_page_resumes_there() {
    let mut dyld = Dyld::new();
    let mut mem = Mem::new(0x1000, 0x100);
    let mut cpu = Cpu::new();
    dyld.do_initial_linking_with_no_bins(&mut mem);
    cpu.set_reg(Cpu::PC, 0x10);
    let bins: Vec<MachO> = vec![];
    let d = dylibs();
    let (handler, inval) = dyld.get_svc_handler(&bins, &mut mem, &mut cpu, &d, &no_fallbacks(), 0x10, 99);
    assert!(matches!(handler, SvcHandler::Resume));
    assert!(inval.is_none());
    assert_eq!(cpu.reg(Cpu::PC), 0x10);
}

#[test]
fn routines_without_binaries() {
    let mut dyld = Dyld::new();
    let mut mem = Mem::new(0x1000, 0x200);
    dyld.do_initial_linking_with_no_bins(&mut mem);
    let rth = dyld.return_to_host_routine();
    let te = dyld.thread_exit_routine();
    assert_eq!(rth.addr_with_thumb_bit(), 0x200);
    assert_eq!(te.addr_with_thumb_bit(), 0x208);
    assert_eq!(mem.read_u32(0x200), 0xef00_0000 | Dyld::SVC_RETURN_TO_HOST);
    assert_eq!(mem.read_u32(0x204), 0xe7ff_defe);
    assert_eq!(mem.read_u32(0x208), 0xef00_0000 | Dyld::SVC_THREAD_EXIT);
    assert_eq!(mem.read_u32(0x20c), 0xe7ff_defe);
}

#[test]
fn initial_linking_links_everything_it_can() {
    let bins = vec![binary()];
    let d = dylibs();
    let mut mem = memory();
    let mut dyld = Dyld::new();
    assert!(check_lazy_linking_ready(&bins[0], &mem));
    let reports = dyld.do_initial_linking(&bins, &mut mem, &d).ok().unwrap();
    assert_eq!(dyld.return_to_host_routine().addr_with_thumb_bit(), 0x8000);
    assert_eq!(dyld.thread_exit_routine().addr_with_thumb_bit(), 0x8008);

    // Lazy linking set up: SVC #0, BX LR, pointer left alone.
    assert_eq!(mem.read_u32(0x1000), 0xef00_0000);
    assert_eq!(mem.read_u32(0x1004), 0xe12f_ff1e);
    assert_eq!(mem.read_u32(0x1008), 0x2000);
    assert_eq!(mem.read_u32(0x100c), 0xef00_0000);

    // External relocations.
    assert_eq!(mem.read_u32(0x3000), 0x5004);
    assert_eq!(mem.read_u32(0x3008), 0x10);
    let hostfn = mem.read_u32(0x300c);
    assert_eq!(hostfn, 0x8010);
    assert_eq!(mem.read_u32(0x8010), 0xef00_0003);
    assert_eq!(mem.read_u32(0x3010), 0);
    assert_eq!(mem.read_u32(0x3014), 0);

    // Non-lazy pointers.
    assert_eq!(mem.read_u32(0x4000), 0x5000);
    assert_eq!(mem.read_u32(0x4004), hostfn);
    assert_eq!(mem.read_u32(0x4008), 0);
    let canary_ptr = mem.read_u32(0x400c);
    assert_eq!(canary_ptr, 0x8018);
    assert_eq!(mem.read_u32(canary_ptr as u64), STACK_CHK_GUARD_CANARY);

    let report = &reports[0];
    assert_eq!(report.class_links.len(), 1);
    assert_eq!(report.class_links[0].ptr_ptr, 0x3004);
    assert_eq!(report.class_links[0].class_name, b"Foo".to_vec());
    assert!(!report.class_links[0].is_metaclass);
    assert_eq!(report.unhandled_relocations, vec![(0x3014, b"_missing".to_vec())]);
    assert_eq!(report.unhandled_symbols, vec![(0x4010, b"_nothing".to_vec())]);
    let pending = dyld.constants_to_link_later();
    assert_eq!(pending.len(), 1);
    assert_eq!(pending[0].0, 0x4008);
    assert!(matches!(pending[0].1, HostConstant::NSString("hello")));

    // The runtime resolves the class, then the constants are linked.
    apply_class_link(&mut mem, &report.class_links[0], 0x6000);
    assert_eq!(mem.read_u32(0x3004), 0x6000);
    dyld.do_late_linking(&mut mem, &vec![0x7777]);
    let string_ptr = mem.read_u32(0x4008);
    assert_eq!(string_ptr, 0x8020);
    assert_eq!(mem.read_u32(string_ptr as u64), 0x7777);
    assert!(dyld.constants_to_link_later().is_empty());
}

#[test]
fn initial_linking_refuses_unexpected_stubs() {
    let bins = vec![binary()];
    let d = dylibs();
    let mut mem = memory();
    mem.write_u32(0x100c, 0x1234_5678);
    assert!(!check_lazy_linking_ready(&bins[0], &mem));
    let mut dyld = Dyld::new();
    assert_eq!(dyld.do_initial_linking(&bins, &mut mem, &d).err(), Some(0));
}

#[test]
fn lazy_link_through_stubs() {
    let bins = vec![binary()];
    let d = dylibs();
    let mut mem = memory();
    let mut cpu = Cpu::new();
    let mut dyld = Dyld::new();
    let _ = dyld.do_initial_linking(&bins, &mut mem, &d).ok().unwrap();

    // `_hostfn` already has a guest function: the stub is restored and its
    // pointer set to that function.
    let (handler, inval) = dyld.get_svc_handler(&bins, &mut mem, &mut cpu, &d, &no_fallbacks(), 0x1000, 0);
    assert!(matches!(handler, SvcHandler::Resume));
    assert_eq!(inval, Some((0x1000, 8)));
    assert_eq!(mem.read_u32(0x1000), 0xe59f_c000);
    assert_eq!(mem.read_u32(0x1004), 0xe59c_f000);
    assert_eq!(mem.read_u32(0x2000), 0x8010);

    // `_exported` comes from the binary itself.
    let (handler, _) = dyld.get_svc_handler(&bins, &mut mem, &mut cpu, &d, &no_fallbacks(), 0x100c, 0);
    assert!(matches!(handler, SvcHandler::Resume));
    assert_eq!(mem.read_u32(0x2004), 0x5000);

    // An SVC outside any stub is an inline system call.
    let (handler, inval) = dyld.get_svc_handler(&bins, &mut mem, &mut cpu, &d, &no_fallbacks(), 0x7000, 0);
    assert!(matches!(handler, SvcHandler::InlineSvc));
    assert!(inval.is_none());
}

#[test]
fn lazy_link_to_fresh_host_function_rewrites_stub() {
    let mut bin = binary();
    if let Some(stubs) = bin.symbol_stubs.as_mut() {
        stubs.dyld_indirect_symbol_info.as_mut().unwrap().indirect_undef_symbols =
            syms(&["_late", "_nothing"]);
    }
    bin.external_relocations.clear();
    bin.non_lazy_symbol_pointers = None;
    let bins = vec![bin];
    let d = dylibs();
    let mut mem = memory();
    let mut cpu = Cpu::new();
    let mut dyld = Dyld::new();
    let _ = dyld.do_initial_linking(&bins, &mut mem, &d).ok().unwrap();
    let (handler, inval) = dyld.get_svc_handler(&bins, &mut mem, &mut cpu, &d, &no_fallbacks(), 0x1000, 0);
    assert!(matches!(handler, SvcHandler::Call(HostFunction(11))));
    assert_eq!(inval, Some((0x1000, 4)));
    assert_eq!(mem.read_u32(0x1000), 0xef00_0003);
    // The next call through the stub raises that SVC directly.
    let (handler, _) = dyld.get_svc_handler(&bins, &mut mem, &mut cpu, &d, &no_fallbacks(), 0x1000, 3);
    assert!(matches!(handler, SvcHandler::Call(HostFunction(11))));
    // A symbol nobody exports is reported.
    let (handler, _) = dyld.get_svc_handler(&bins, &mut mem, &mut cpu, &d, &no_fallbacks(), 0x100c, 0);
    match handler {
        SvcHandler::Unresolved(name) => assert_eq!(name, b"_nothing".to_vec()),
        other => panic!("{:?}", other),
    }
}

#[test]
fn proc_address_is_created_once() {
    let mut dyld = Dyld::new();
    let mut mem = Mem::new(0x1000, 0x100);
    let d = dylibs();
    let (f, range) = dyld.create_proc_address(&mut mem, &d, b"_other").ok().unwrap();
    assert_eq!(f.addr_with_thumb_bit(), 0x100);
    assert_eq!(range, (0x100, 8));
    let (g, _) = dyld.create_proc_address(&mut mem, &d, b"_other").ok().unwrap();
    assert_eq!(g.addr_with_thumb_bit(), 0x100);
    assert_eq!(mem.next_alloc(), 0x108);
    assert!(dyld.create_proc_address(&mut mem, &d, b"_const").is_err());
}

#[test]
fn late_linking_builds_constants() {
    let mut bin = binary();
    bin.external_relocations.clear();
    bin.symbol_stubs = None;
    bin.non_lazy_symbol_pointers = Some(Section {
        addr: 0x4000,
        size: 8,
        dyld_indirect_symbol_info: Some(DyldIndirectSymbolInfo {
            entry_size: 4,
            indirect_undef_symbols: syms(&["_null", "_bytes"]),
        }),
    });
    let bins = vec![bin];
    let d = dylibs();
    let mut mem = memory();
    let mut dyld = Dyld::new();
    let _ = dyld.do_initial_linking(&bins, &mut mem, &d).ok().unwrap();
    assert_eq!(dyld.constants_to_link_later().len(), 2);
    dyld.do_late_linking(&mut mem, &vec![0, 0]);
    let null_ptr = mem.read_u32(0x4000);
    assert_eq!(mem.read_u32(null_ptr as u64), 0);
    let bytes_ptr = mem.read_u32(0x4004);
    assert_eq!(mem.bytes_at(bytes_ptr as u64, 3), vec![1, 2, 3]);
}

#[test]
fn relocation_outcomes() {
    let bins = vec![binary()];
    let d = dylibs();
    let mut mem = memory();
    let mut dyld = Dyld::new();
    match dyld.link_external_relocation(&bins, &mut mem, &d, 0x3010, &b"_OBJC_METACLASS_$_Bar".to_vec()) {
        RelocationOutcome::Class(ClassLink { class_name, is_metaclass, .. }) => {
            assert_eq!(class_name, b"Bar".to_vec());
            assert!(is_metaclass);
        }
        _ => panic!("expected a class"),
    }
    assert!(matches!(
        dyld.link_external_relocation(&bins, &mut mem, &d, 0x3010, &b"_null".to_vec()),
        RelocationOutcome::Constant
    ));
    assert!(matches!(
        dyld.link_external_relocation(&bins, &mut mem, &d, 0x3010, &b"_zzz".to_vec()),
        RelocationOutcome::Unhandled
    ));
    let f = GuestFunction::null_ptr();
    assert_eq!(f.addr_with_thumb_bit(), 0);
}

#[test]
fn built_in_replacement_is_called_without_linking() {
    let mut bin = binary();
    if let Some(stubs) = bin.symbol_stubs.as_mut() {
        stubs.dyld_indirect_symbol_info.as_mut().unwrap().indirect_undef_symbols =
            syms(&["_gethostbyname", "_nothing"]);
    }
    bin.external_relocations.clear();
    bin.non_lazy_symbol_pointers = None;
    let bins = vec![bin];
    let d = dylibs();
    let fallbacks = vec![("_connect", HostFunction(70)), ("_gethostbyname", HostFunction(71))];
    let mut mem = memory();
    let mut cpu = Cpu::new();
    let mut dyld = Dyld::new();
    let _ = dyld.do_initial_linking(&bins, &mut mem, &d).ok().unwrap();
    let before = mem.bytes_at(0, mem.len() as u64);
    let (handler, inval) = dyld.get_svc_handler(&bins, &mut mem, &mut cpu, &d, &fallbacks, 0x1000, 0);
    assert!(matches!(handler, SvcHandler::Call(HostFunction(71))));
    assert!(inval.is_none());
    // Nothing is linked: the stub still raises the lazy-link SVC.
    assert_eq!(mem.bytes_at(0, mem.len() as u64), before);
    assert_eq!(mem.read_u32(0x1000), 0xef00_0000);
    let (handler, _) = dyld.get_svc_handler(&bins, &mut mem, &mut cpu, &d, &fallbacks, 0x100c, 0);
    assert!(matches!(handler, SvcHandler::Unresolved(_)));
}

#[test]
fn fallback_lookup_takes_the_first_match() {
    let table = vec![("_a", HostFunction(1)), ("_b", HostFunction(2)), ("_a", HostFunction(3))];
    assert_eq!(find_fallback(&table, b"_a"), Some(HostFunction(1)));
    assert_eq!(find_fallback(&table, b"_b"), Some(HostFunction(2)));
    assert_eq!(find_fallback(&table, b"_c"), None);
}

#[test]
fn inline_vm_allocate_stores_the_new_address() {
    let mut cpu = Cpu::new();
    let mut mem = Mem::new(0x1000, 0x100);
    cpu.set_reg(12, INLINE_SVC_VM_ALLOCATE);
    cpu.set_reg(1, 0x40);
    cpu.set_reg(2, 0x13);
    cpu.set_reg(0, 5);
    handle_inline_svc(&mut cpu, &mut mem);
    assert_eq!(mem.read_u32(0x40), 0x100);
    assert_eq!(mem.next_alloc(), 0x118);
    assert_eq!(cpu.reg(0), 0);

    // Any other call just returns 0.
    cpu.set_reg(12, 3);
    cpu.set_reg(0, 9);
    handle_inline_svc(&mut cpu, &mut mem);
    assert_eq!(cpu.reg(0), 0);
    assert_eq!(mem.next_alloc(), 0x118);
}

#[test]
fn late_linking_with_nothing_pending_changes_nothing() {
    let mut dyld = Dyld::new();
    let mut mem = Mem::new(0x100, 0x20);
    mem.write_u32(0x10, 0xabcd);
    let before = mem.bytes_at(0, 0x100);
    dyld.do_late_linking(&mut mem, &vec![]);
    assert_eq!(mem.bytes_at(0, 0x100), before);
    assert_eq!(mem.next_alloc(), 0x20);
}

#[test]
fn initial_linking_writes_both_routines() {
    let bins = vec![binary()];
    let d = dylibs();
    let mut mem = memory();
    let mut dyld = Dyld::new();
    let _ = dyld.do_initial_linking(&bins, &mut mem, &d).ok().unwrap();
    assert_eq!(mem.read_u32(0x8000), 0xef00_0002);
    assert_eq!(mem.read_u32(0x8004), 0xe7ff_defe);
    assert_eq!(mem.read_u32(0x8008), 0xef00_0001);
    assert_eq!(mem.read_u32(0x800c), 0xe7ff_defe);
}
