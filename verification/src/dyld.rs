//! Dynamic linker.
//!
//! The guest app references functions and constants from the system's
//! dynamic libraries. Rather than loading those libraries, the linker makes
//! the references reach host implementations: each host function gets a
//! small guest stub that raises an SVC exception with a number that
//! identifies it, and the symbol stubs in the app are rewritten so that their
//! first use asks the linker to resolve them ("lazy linking").
use vstd::prelude::*;
use vstd::string::StringSliceAdditionalSpecFns;

use crate::abi::GuestFunction;
use crate::cpu::Cpu;
use crate::mach_o::{
    bins_lookup, bytes_eq, lookup_in_bins, spec_strip_prefix, str_is, strip_prefix, MachO,
    SectionType,
};
use crate::mem::{le_u32, u32_le_bytes, write_bytes, Mem};

verus! {

/// Identifies a host implementation of a function; the table of
/// implementations is kept by the emulator around this library.
#[derive(Copy, Clone, Debug, PartialEq, Eq, Structural)]
pub struct HostFunction(pub u64);

/// Identifies a host routine that builds a constant on demand.
#[derive(Copy, Clone, Debug, PartialEq, Eq, Structural)]
pub struct CustomConstant(pub u64);

/// A constant (C `extern const` symbol) that the linker creates if the
/// guest app references it.
#[derive(Copy, Clone, Debug)]
pub enum HostConstant {
    NSString(&'static str),
    NullPtr,
    Custom(CustomConstant),
    Bytes(&'static [u8]),
}

/// A host implementation of a dynamic library: where it lives and what it
/// exports. Export lists are searched in order, and the first match wins.
pub struct HostDylib {
    pub path: &'static str,
    pub aliases: Vec<&'static str>,
    pub class_exports: Vec<Vec<&'static str>>,
    pub constant_exports: Vec<Vec<(&'static str, HostConstant)>>,
    pub function_exports: Vec<Vec<(&'static str, HostFunction)>>,
}

// ----------------------------------------------------
// Searching export lists
// ----------------------------------------------------

pub open spec fn is_entry<T>(lists: Seq<Vec<(&'static str, T)>>, i: int, j: int) -> bool {
    0 <= i < lists.len() && 0 <= j < lists[i]@.len()
}

pub open spec fn entry_name<T>(lists: Seq<Vec<(&'static str, T)>>, i: int, j: int) -> Seq<u8> {
    lists[i]@[j].0.spec_bytes()
}

/// Whether some entry of `lists` is named `sym`.
pub open spec fn lists_have<T>(lists: Seq<Vec<(&'static str, T)>>, sym: Seq<u8>) -> bool {
    exists|i: int, j: int| is_entry(lists, i, j) && entry_name(lists, i, j) == sym
}

/// Whether entry `(i, j)` is the first one named `sym`, in list order.
pub open spec fn is_first_match<T>(
    lists: Seq<Vec<(&'static str, T)>>,
    sym: Seq<u8>,
    i: int,
    j: int,
) -> bool {
    &&& is_entry(lists, i, j)
    &&& entry_name(lists, i, j) == sym
    &&& forall|i2: int, j2: int|
        is_entry(lists, i2, j2) && (i2 < i || (i2 == i && j2 < j)) ==> entry_name(lists, i2, j2)
            != sym
}

/// Finds the first entry named `symbol` in a list of export lists.
fn search_lists<T: Copy>(lists: &Vec<Vec<(&'static str, T)>>, symbol: &[u8]) -> (found: Option<
    (&'static str, T),
>)
    ensures
        match found {
            Some(e) => exists|i: int, j: int|
                is_first_match(lists@, symbol@, i, j) && e == lists@[i]@[j],
            None => !lists_have(lists@, symbol@),
        },
{
    let mut i: usize = 0;
    while i < lists.len()
        invariant
            i <= lists@.len(),
            forall|i2: int, j2: int|
                is_entry(lists@, i2, j2) && i2 < i ==> entry_name(lists@, i2, j2) != symbol@,
        decreases lists@.len() - i,
    {
        let list = &lists[i];
        let mut j: usize = 0;
        while j < list.len()
            invariant
                i < lists@.len(),
                list@ == lists@[i as int]@,
                j <= list@.len(),
                forall|i2: int, j2: int|
                    is_entry(lists@, i2, j2) && (i2 < i || (i2 == i && j2 < j)) ==> entry_name(
                        lists@,
                        i2,
                        j2,
                    ) != symbol@,
            decreases list@.len() - j,
        {
            let entry = list[j];
            if str_is(entry.0, symbol) {
                assert(is_first_match(lists@, symbol@, i as int, j as int));
                return Some(entry);
            }
            j = j + 1;
        }
        i = i + 1;
    }
    None
}

/// Which kind of export to look for.
#[derive(Copy, Clone, PartialEq, Eq, Structural)]
pub enum ExportKind {
    Constant,
    Function,
}

/// An export found by [search_host_dylibs].
#[derive(Copy, Clone, Debug)]
pub enum Export {
    Constant(&'static str, HostConstant),
    Function(&'static str, HostFunction),
}

/// Whether dylib `d` is the first of `dylibs` whose function exports name
/// `sym`.
pub open spec fn first_function_dylib(dylibs: Seq<HostDylib>, sym: Seq<u8>, d: int) -> bool {
    &&& 0 <= d < dylibs.len()
    &&& lists_have(dylibs[d].function_exports@, sym)
    &&& forall|d2: int| 0 <= d2 < d ==> !lists_have(dylibs[d2].function_exports@, sym)
}

/// Whether dylib `d` is the first of `dylibs` whose constant exports name
/// `sym`.
pub open spec fn first_constant_dylib(dylibs: Seq<HostDylib>, sym: Seq<u8>, d: int) -> bool {
    &&& 0 <= d < dylibs.len()
    &&& lists_have(dylibs[d].constant_exports@, sym)
    &&& forall|d2: int| 0 <= d2 < d ==> !lists_have(dylibs[d2].constant_exports@, sym)
}

/// Whether some dylib exports a function named `sym`.
pub open spec fn has_host_function(dylibs: Seq<HostDylib>, sym: Seq<u8>) -> bool {
    exists|d: int| 0 <= d < dylibs.len() && lists_have(dylibs[d].function_exports@, sym)
}

/// Whether some dylib exports a constant named `sym`.
pub open spec fn has_host_constant(dylibs: Seq<HostDylib>, sym: Seq<u8>) -> bool {
    exists|d: int| 0 <= d < dylibs.len() && lists_have(dylibs[d].constant_exports@, sym)
}

/// The function export that a search for `sym` finds: the first match in
/// the first dylib that has one.
pub open spec fn host_function_lookup(dylibs: Seq<HostDylib>, sym: Seq<u8>) -> Option<
    (&'static str, HostFunction),
> {
    if has_host_function(dylibs, sym) {
        let (d, i, j) = choose|d: int, i: int, j: int|
            first_function_dylib(dylibs, sym, d) && is_first_match(
                dylibs[d].function_exports@,
                sym,
                i,
                j,
            );
        Some(dylibs[d].function_exports@[i]@[j])
    } else {
        None
    }
}

/// The constant export that a search for `sym` finds.
pub open spec fn host_constant_lookup(dylibs: Seq<HostDylib>, sym: Seq<u8>) -> Option<
    (&'static str, HostConstant),
> {
    if has_host_constant(dylibs, sym) {
        let (d, i, j) = choose|d: int, i: int, j: int|
            first_constant_dylib(dylibs, sym, d) && is_first_match(
                dylibs[d].constant_exports@,
                sym,
                i,
                j,
            );
        Some(dylibs[d].constant_exports@[i]@[j])
    } else {
        None
    }
}

proof fn lemma_first_match_unique<T>(lists: Seq<Vec<(&'static str, T)>>, sym: Seq<u8>, i: int, j: int, i2: int, j2: int)
    requires
        is_first_match(lists, sym, i, j),
        is_first_match(lists, sym, i2, j2),
    ensures
        i == i2 && j == j2,
{
}

/// Finds the function export named `symbol`.
pub fn search_host_functions(dylibs: &Vec<HostDylib>, symbol: &[u8]) -> (found: Option<
    (&'static str, HostFunction),
>)
    ensures
        found == host_function_lookup(dylibs@, symbol@),
        found is Some <==> has_host_function(dylibs@, symbol@),
        found matches Some(e) ==> e.0.spec_bytes() == symbol@,
{
    let mut d: usize = 0;
    while d < dylibs.len()
        invariant
            d <= dylibs@.len(),
            forall|d2: int| 0 <= d2 < d ==> !lists_have(dylibs@[d2].function_exports@, symbol@),
        decreases dylibs@.len() - d,
    {
        let found = search_lists(&dylibs[d].function_exports, symbol);
        if let Some(e) = found {
            proof {
                let (i, j) = choose|i: int, j: int|
                    is_first_match(dylibs@[d as int].function_exports@, symbol@, i, j) && e
                        == dylibs@[d as int].function_exports@[i]@[j];
                assert(first_function_dylib(dylibs@, symbol@, d as int));
                assert(has_host_function(dylibs@, symbol@));
                let (d3, i3, j3) = choose|d3: int, i3: int, j3: int|
                    first_function_dylib(dylibs@, symbol@, d3) && is_first_match(
                        dylibs@[d3].function_exports@,
                        symbol@,
                        i3,
                        j3,
                    );
                assert(d3 == d);
                lemma_first_match_unique(dylibs@[d as int].function_exports@, symbol@, i, j, i3, j3);
            }
            return Some(e);
        }
        d = d + 1;
    }
    None
}

/// Finds the constant export named `symbol`.
pub fn search_host_constants(dylibs: &Vec<HostDylib>, symbol: &[u8]) -> (found: Option<
    (&'static str, HostConstant),
>)
    ensures
        found == host_constant_lookup(dylibs@, symbol@),
        found is Some <==> has_host_constant(dylibs@, symbol@),
        found matches Some(e) ==> e.0.spec_bytes() == symbol@,
{
    let mut d: usize = 0;
    while d < dylibs.len()
        invariant
            d <= dylibs@.len(),
            forall|d2: int| 0 <= d2 < d ==> !lists_have(dylibs@[d2].constant_exports@, symbol@),
        decreases dylibs@.len() - d,
    {
        let found = search_lists(&dylibs[d].constant_exports, symbol);
        if let Some(e) = found {
            proof {
                let (i, j) = choose|i: int, j: int|
                    is_first_match(dylibs@[d as int].constant_exports@, symbol@, i, j) && e
                        == dylibs@[d as int].constant_exports@[i]@[j];
                assert(first_constant_dylib(dylibs@, symbol@, d as int));
                assert(has_host_constant(dylibs@, symbol@));
                let (d3, i3, j3) = choose|d3: int, i3: int, j3: int|
                    first_constant_dylib(dylibs@, symbol@, d3) && is_first_match(
                        dylibs@[d3].constant_exports@,
                        symbol@,
                        i3,
                        j3,
                    );
                assert(d3 == d);
                lemma_first_match_unique(dylibs@[d as int].constant_exports@, symbol@, i, j, i3, j3);
            }
            return Some(e);
        }
        d = d + 1;
    }
    None
}

/// Searches the host dylibs for an export of the given kind named `symbol`.
pub fn search_host_dylibs(dylibs: &Vec<HostDylib>, kind: ExportKind, symbol: &[u8]) -> (found:
    Option<Export>)
    ensures
        match kind {
            ExportKind::Function => match found {
                Some(Export::Function(name, f)) => host_function_lookup(dylibs@, symbol@) == Some(
                    (name, f),
                ),
                Some(Export::Constant(..)) => false,
                None => host_function_lookup(dylibs@, symbol@) is None,
            },
            ExportKind::Constant => match found {
                Some(Export::Constant(name, c)) => host_constant_lookup(dylibs@, symbol@) == Some(
                    (name, c),
                ),
                Some(Export::Function(..)) => false,
                None => host_constant_lookup(dylibs@, symbol@) is None,
            },
        },
{
    match kind {
        ExportKind::Function => match search_host_functions(dylibs, symbol) {
            Some((name, f)) => Some(Export::Function(name, f)),
            None => None,
        },
        ExportKind::Constant => match search_host_constants(dylibs, symbol) {
            Some((name, c)) => Some(Export::Constant(name, c)),
            None => None,
        },
    }
}


// ----------------------------------------------------
// Instruction encodings
// ----------------------------------------------------

/// A32 `SVC #imm`.
pub open spec fn spec_a32_svc(imm: u32) -> u32 {
    imm | 0xef00_0000u32
}

/// A32 `BX LR`.
pub open spec fn spec_a32_ret() -> u32 {
    0xe12f_ff1eu32
}

/// A32 permanently undefined instruction, used as a trap.
pub open spec fn spec_a32_trap() -> u32 {
    0xe7ff_defeu32
}

/// The SVC number encoded in an A32 `SVC` instruction.
pub open spec fn a32_svc_number(instr: u32) -> u32 {
    instr & 0x00ff_ffffu32
}

/// The SVC number encoded in an A64 `SVC` instruction.
pub open spec fn a64_svc_number(instr: u32) -> u32 {
    (instr >> 5u32) & 0xffffu32
}

fn encode_a32_svc(imm: u32) -> (instr: u32)
    requires
        imm & 0xff00_0000u32 == 0,
    ensures
        instr == spec_a32_svc(imm),
        a32_svc_number(instr) == imm,
{
    assert((imm | 0xef00_0000u32) & 0x00ff_ffffu32 == imm) by (bit_vector)
        requires
            imm & 0xff00_0000u32 == 0,
    ;
    imm | 0xef00_0000u32
}

fn encode_a32_ret() -> (instr: u32)
    ensures
        instr == spec_a32_ret(),
{
    0xe12f_ff1eu32
}

fn encode_a32_trap() -> (instr: u32)
    ensures
        instr == spec_a32_trap(),
{
    0xe7ff_defeu32
}

/// The two instructions of the guest stub that calls the host function with
/// SVC number `svc`: the SVC and a return.
pub open spec fn host_stub_words(is_64_bit: bool, svc: u32) -> (u32, u32) {
    if is_64_bit {
        (0xd400_0001u32 | ((svc & 0xffffu32) << 5u32), 0xd65f_03c0u32)
    } else {
        (0xef00_0000u32 | (svc & 0x00ff_ffffu32), 0xe12f_ff1eu32)
    }
}

/// The SVC number the first instruction of a host stub raises.
pub open spec fn stub_svc_number(is_64_bit: bool, instr: u32) -> u32 {
    if is_64_bit {
        a64_svc_number(instr)
    } else {
        a32_svc_number(instr)
    }
}

/// Bytes of `after` that differ from `before` lie in `addr..addr + len`.
pub open spec fn only_changed(before: Seq<u8>, after: Seq<u8>, addr: int, len: int) -> bool {
    &&& after.len() == before.len()
    &&& forall|a: int| 0 <= a < before.len() && !(addr <= a < addr + len) ==> #[trigger] after[a] == before[a]
}

/// Writes a two-instruction routine: an SVC with number `svc`, then a trap
/// (the host resets the PC after handling the SVC, so the trap must never
/// run).
fn write_return_to_host_routine(mem: &mut Mem, svc: u32) -> (f: GuestFunction)
    requires
        old(mem).wf(),
        old(mem).can_allocate(8),
        svc & 0xff00_0000u32 == 0,
    ensures
        final(mem).wf(),
        f.spec_addr() == old(mem).spec_next_alloc(),
        final(mem).spec_next_alloc() == f.spec_addr() + 8,
        le_u32(final(mem)@, f.spec_addr() as int) == spec_a32_svc(svc),
        le_u32(final(mem)@, f.spec_addr() + 4) == spec_a32_trap(),
        only_changed(old(mem)@, final(mem)@, f.spec_addr() as int, 8),
{
    let w0 = encode_a32_svc(svc);
    let w1 = encode_a32_trap();
    let ptr = mem.allocate(8);
    let ghost m0 = mem@;
    mem.write_u32(ptr, w0);
    let ghost m1 = mem@;
    mem.write_u32(ptr + 4, w1);
    proof {
        crate::mem::lemma_le_u32_frame(m1, ptr + 4, u32_le_bytes(w1), ptr as int);
    }
    let f = GuestFunction::from_addr_with_thumb_bit(ptr);
    let thumb = f.is_thumb();
    assert(!thumb);
    f
}

// ----------------------------------------------------
// The linker's state
// ----------------------------------------------------

/// First match for `sym` among the guest functions already created for host
/// functions.
pub open spec fn cache_lookup(cache: Seq<(&'static str, GuestFunction)>, sym: Seq<u8>) -> Option<
    GuestFunction,
>
    decreases cache.len(),
{
    if cache.len() == 0 {
        None
    } else if cache[0].0.spec_bytes() == sym {
        Some(cache[0].1)
    } else {
        cache_lookup(cache.drop_first(), sym)
    }
}

/// The guest functions in `a` are the first ones of `b`: `b` was made from
/// `a` by creating more.
pub open spec fn cache_prefix(a: Seq<(&'static str, GuestFunction)>, b: Seq<(&'static str, GuestFunction)>) -> bool {
    a.len() <= b.len() && forall|i: int| 0 <= i < a.len() ==> #[trigger] b[i] == a[i]
}

proof fn lemma_cache_prefix_lookup(
    a: Seq<(&'static str, GuestFunction)>,
    b: Seq<(&'static str, GuestFunction)>,
    sym: Seq<u8>,
)
    requires
        cache_prefix(a, b),
        cache_lookup(a, sym) is Some,
    ensures
        cache_lookup(b, sym) == cache_lookup(a, sym),
    decreases a.len(),
{
    assert(b[0] == a[0]);
    if a[0].0.spec_bytes() != sym {
        assert forall|i: int| 0 <= i < a.drop_first().len() implies #[trigger] b.drop_first()[i] == a.drop_first()[i] by {
            assert(b[i + 1] == a[i + 1]);
        }
        lemma_cache_prefix_lookup(a.drop_first(), b.drop_first(), sym);
    }
}

proof fn lemma_cache_prefix_trans(
    a: Seq<(&'static str, GuestFunction)>,
    b: Seq<(&'static str, GuestFunction)>,
    c: Seq<(&'static str, GuestFunction)>,
)
    requires
        cache_prefix(a, b),
        cache_prefix(b, c),
    ensures
        cache_prefix(a, c),
{
    assert forall|i: int| 0 <= i < a.len() implies #[trigger] c[i] == a[i] by {
        assert(c[i] == b[i]);
    }
}

/// The host function that an SVC with number `svc` (from a stub for a linked
/// function) calls, if any.
pub open spec fn svc_dispatch(linked: Seq<(&'static str, HostFunction)>, svc: u32) -> Option<
    HostFunction,
> {
    let idx = (svc & !Dyld::SVC_LAZY_LINK_RET_FLAG) as int - Dyld::SVC_LINKED_FUNCTIONS_BASE;
    if 0 <= idx < linked.len() {
        Some(linked[idx].1)
    } else {
        None
    }
}

pub struct Dyld {
    pub is_64_bit: bool,
    linked_host_functions: Vec<(&'static str, HostFunction)>,
    return_to_host_routine: Option<GuestFunction>,
    thread_exit_routine: Option<GuestFunction>,
    constants_to_link_later: Vec<(u32, HostConstant)>,
    non_lazy_host_functions: Vec<(&'static str, GuestFunction)>,
}

impl Dyld {
    /// We reserve this SVC ID for invoking the lazy linker.
    pub const SVC_LAZY_LINK: u32 = 0;
    /// We reserve this SVC ID for the exit routine for spawned threads.
    pub const SVC_THREAD_EXIT: u32 = 1;
    /// We reserve this SVC ID for the special return-to-host routine.
    pub const SVC_RETURN_TO_HOST: u32 = 2;
    /// The range of SVC IDs `SVC_LINKED_FUNCTIONS_BASE..` is used to reference
    /// linked host functions.
    pub const SVC_LINKED_FUNCTIONS_BASE: u32 = 3;
    /// We reserve this SVC ID for lazy linking and returning right after.
    /// It is also a mask for the linked functions to indicate that an
    /// additional return instruction needs to be manually executed after
    /// handling the SVC.
    pub const SVC_LAZY_LINK_RET_FLAG: u32 = 0x80_0000;

    pub closed spec fn spec_is_64_bit(&self) -> bool {
        self.is_64_bit
    }

    pub closed spec fn spec_linked(&self) -> Seq<(&'static str, HostFunction)> {
        self.linked_host_functions@
    }

    pub closed spec fn spec_return_to_host(&self) -> Option<GuestFunction> {
        self.return_to_host_routine
    }

    pub closed spec fn spec_thread_exit(&self) -> Option<GuestFunction> {
        self.thread_exit_routine
    }

    pub closed spec fn spec_pending_constants(&self) -> Seq<(u32, HostConstant)> {
        self.constants_to_link_later@
    }

    pub closed spec fn spec_cache(&self) -> Seq<(&'static str, GuestFunction)> {
        self.non_lazy_host_functions@
    }

    pub fn new() -> (d: Dyld)
        ensures
            !d.spec_is_64_bit(),
            d.spec_linked() == Seq::<(&'static str, HostFunction)>::empty(),
            d.spec_return_to_host() is None,
            d.spec_thread_exit() is None,
            d.spec_pending_constants() == Seq::<(u32, HostConstant)>::empty(),
            d.spec_cache() == Seq::<(&'static str, GuestFunction)>::empty(),
    {
        Dyld {
            is_64_bit: false,
            linked_host_functions: Vec::new(),
            return_to_host_routine: None,
            thread_exit_routine: None,
            constants_to_link_later: Vec::new(),
            non_lazy_host_functions: Vec::new(),
        }
    }

    /// The routine that guest code returns to in order to give control back
    /// to the host.
    pub fn return_to_host_routine(&self) -> (f: GuestFunction)
        requires
            self.spec_return_to_host() is Some,
        ensures
            Some(f) == self.spec_return_to_host(),
    {
        self.return_to_host_routine.unwrap()
    }

    /// The routine that spawned threads return to when they finish.
    pub fn thread_exit_routine(&self) -> (f: GuestFunction)
        requires
            self.spec_thread_exit() is Some,
        ensures
            Some(f) == self.spec_thread_exit(),
    {
        self.thread_exit_routine.unwrap()
    }

    /// The constants waiting for [Self::do_late_linking]: where to write a
    /// pointer to each, and what it is.
    pub fn constants_to_link_later(&self) -> (c: &Vec<(u32, HostConstant)>)
        ensures
            c@ == self.spec_pending_constants(),
    {
        &self.constants_to_link_later
    }

    /// The guest function already created for the host function named
    /// `symbol`, if any.
    fn cached_function(&self, symbol: &[u8]) -> (f: Option<GuestFunction>)
        ensures
            f == cache_lookup(self.spec_cache(), symbol@),
    {
        let mut i: usize = 0;
        assert(self.non_lazy_host_functions@.subrange(0, self.non_lazy_host_functions@.len() as int)
            =~= self.non_lazy_host_functions@);
        while i < self.non_lazy_host_functions.len()
            invariant
                i <= self.non_lazy_host_functions@.len(),
                cache_lookup(self.spec_cache(), symbol@) == cache_lookup(
                    self.non_lazy_host_functions@.subrange(
                        i as int,
                        self.non_lazy_host_functions@.len() as int,
                    ),
                    symbol@,
                ),
            decreases self.non_lazy_host_functions@.len() - i,
        {
            let ghost rest = self.non_lazy_host_functions@.subrange(
                i as int,
                self.non_lazy_host_functions@.len() as int,
            );
            assert(rest.drop_first() =~= self.non_lazy_host_functions@.subrange(
                i + 1,
                self.non_lazy_host_functions@.len() as int,
            ));
            let entry = self.non_lazy_host_functions[i];
            if str_is(entry.0, symbol) {
                return Some(entry.1);
            }
            i = i + 1;
        }
        None
    }

    /// Creates a guest function that calls the host function `f`: allocates
    /// the next SVC number for it and writes a stub that raises that SVC and
    /// returns.
    pub fn create_guest_function(&mut self, mem: &mut Mem, symbol: &'static str, f: HostFunction) -> (gf:
        GuestFunction)
        requires
            old(mem).wf(),
            old(mem).can_allocate(8),
            old(self).spec_linked().len() + Dyld::SVC_LINKED_FUNCTIONS_BASE <= u32::MAX,
        ensures
            final(mem).wf(),
            final(self).spec_linked() == old(self).spec_linked().push((symbol, f)),
            final(self).spec_is_64_bit() == old(self).spec_is_64_bit(),
            final(self).spec_return_to_host() == old(self).spec_return_to_host(),
            final(self).spec_thread_exit() == old(self).spec_thread_exit(),
            final(self).spec_pending_constants() == old(self).spec_pending_constants(),
            final(self).spec_cache() == old(self).spec_cache(),
            gf.spec_addr() == old(mem).spec_next_alloc(),
            final(mem).spec_next_alloc() == gf.spec_addr() + 8,
            ({
                let svc = (old(self).spec_linked().len() + Dyld::SVC_LINKED_FUNCTIONS_BASE) as u32;
                &&& le_u32(final(mem)@, gf.spec_addr() as int) == host_stub_words(
                    old(self).spec_is_64_bit(),
                    svc,
                ).0
                &&& le_u32(final(mem)@, gf.spec_addr() + 4) == host_stub_words(
                    old(self).spec_is_64_bit(),
                    svc,
                ).1
            }),
            only_changed(old(mem)@, final(mem)@, gf.spec_addr() as int, 8),
    {
        let idx = self.linked_host_functions.len() as u32;
        let svc = idx + Dyld::SVC_LINKED_FUNCTIONS_BASE;
        self.linked_host_functions.push((symbol, f));
        let function_ptr = mem.allocate(8);
        let (w0, w1) = if self.is_64_bit {
            (0xd400_0001u32 | ((svc & 0xffffu32) << 5u32), 0xd65f_03c0u32)
        } else {
            (0xef00_0000u32 | (svc & 0x00ff_ffffu32), 0xe12f_ff1eu32)
        };
        mem.write_u32(function_ptr, w0);
        let ghost m1 = mem@;
        mem.write_u32(function_ptr + 4, w1);
        proof {
            crate::mem::lemma_le_u32_frame(m1, function_ptr + 4, u32_le_bytes(w1), function_ptr as int);
        }
        GuestFunction::from_addr_with_thumb_bit(function_ptr)
    }

    /// The guest function that calls the host function named `symbol`,
    /// created on first request; every later request for the same symbol gets
    /// the same function. Fails if no host dylib exports such a function.
    fn create_proc_address_no_inval(
        &mut self,
        mem: &mut Mem,
        dylibs: &Vec<HostDylib>,
        symbol: &[u8],
    ) -> (res: Result<GuestFunction, ()>)
        requires
            old(mem).wf(),
            old(mem).can_allocate(8),
            old(self).spec_linked().len() + Dyld::SVC_LINKED_FUNCTIONS_BASE <= u32::MAX,
        ensures
            final(mem).wf(),
            res is Err <==> !has_host_function(dylibs@, symbol@),
            res matches Ok(g) ==> cache_lookup(final(self).spec_cache(), symbol@) == Some(g),
            (res is Err || cache_lookup(old(self).spec_cache(), symbol@) is Some) ==> {
                &&& *final(self) == *old(self)
                &&& *final(mem) == *old(mem)
            },
            cache_lookup(old(self).spec_cache(), symbol@) matches Some(c) ==> res == Ok::<
                GuestFunction,
                (),
            >(c) || res is Err,
            (res is Ok && cache_lookup(old(self).spec_cache(), symbol@) is None) ==> {
                let (name, f) = host_function_lookup(dylibs@, symbol@).unwrap();
                &&& final(self).spec_linked() == old(self).spec_linked().push((name, f))
                &&& res.unwrap().spec_addr() == old(mem).spec_next_alloc()
                &&& final(mem).spec_next_alloc() == old(mem).spec_next_alloc() + 8
                &&& only_changed(old(mem)@, final(mem)@, old(mem).spec_next_alloc() as int, 8)
            },
            final(self).spec_is_64_bit() == old(self).spec_is_64_bit(),
            final(self).spec_return_to_host() == old(self).spec_return_to_host(),
            final(self).spec_thread_exit() == old(self).spec_thread_exit(),
            final(self).spec_pending_constants() == old(self).spec_pending_constants(),
            final(self).spec_linked().len() <= old(self).spec_linked().len() + 1,
            final(mem)@.len() == old(mem)@.len(),
            cache_prefix(old(self).spec_cache(), final(self).spec_cache()),
    {
        let found = search_host_functions(dylibs, symbol);
        let (name, f) = match found {
            Some(e) => e,
            None => {
                return Err(());
            },
        };
        if let Some(cached) = self.cached_function(symbol) {
            return Ok(cached);
        }
        let function_ptr = self.create_guest_function(mem, name, f);
        self.non_lazy_host_functions.push((name, function_ptr));
        proof {
            lemma_cache_push(old(self).non_lazy_host_functions@, name, function_ptr, symbol@);
            assert forall|i: int| 0 <= i < old(self).spec_cache().len() implies #[trigger] self.spec_cache()[i] == old(self).spec_cache()[i] by {
            }
        }
        Ok(function_ptr)
    }
}

proof fn lemma_cache_push(
    cache: Seq<(&'static str, GuestFunction)>,
    name: &'static str,
    g: GuestFunction,
    sym: Seq<u8>,
)
    requires
        cache_lookup(cache, sym) is None,
        name.spec_bytes() == sym,
    ensures
        cache_lookup(cache.push((name, g)), sym) == Some(g),
    decreases cache.len(),
{
    if cache.len() == 0 {
    } else {
        assert(cache.push((name, g)).drop_first() =~= cache.drop_first().push((name, g)));
        lemma_cache_push(cache.drop_first(), name, g, sym);
    }
}

/// A guest function created for a host function calls that host function:
/// the SVC its stub raises dispatches back to it (as long as the SVC number
/// fits the encoding and stays clear of the lazy-link flag).
pub proof fn law_created_function_dispatches(
    linked: Seq<(&'static str, HostFunction)>,
    is_64_bit: bool,
    symbol: &'static str,
    f: HostFunction,
)
    requires
        linked.len() + Dyld::SVC_LINKED_FUNCTIONS_BASE < if is_64_bit {
            0x1_0000int
        } else {
            Dyld::SVC_LAZY_LINK_RET_FLAG as int
        },
    ensures
        ({
            let svc = (linked.len() + Dyld::SVC_LINKED_FUNCTIONS_BASE) as u32;
            let raised = stub_svc_number(is_64_bit, host_stub_words(is_64_bit, svc).0);
            &&& raised == svc
            &&& svc_dispatch(linked.push((symbol, f)), raised) == Some(f)
        }),
{
    let svc = (linked.len() + Dyld::SVC_LINKED_FUNCTIONS_BASE) as u32;
    if is_64_bit {
        assert((((0xd400_0001u32 | ((svc & 0xffffu32) << 5u32)) >> 5u32) & 0xffffu32) == svc)
            by (bit_vector)
            requires
                svc < 0x1_0000u32,
        ;
    } else {
        assert(((0xef00_0000u32 | (svc & 0x00ff_ffffu32)) & 0x00ff_ffffu32) == svc) by (bit_vector)
            requires
                svc < 0x80_0000u32,
        ;
    }
    assert((svc & !0x80_0000u32) == svc) by (bit_vector)
        requires
            svc < 0x80_0000u32,
    ;
}


// ----------------------------------------------------
// Lazy linking
// ----------------------------------------------------

/// The instructions that a symbol stub of `entry_size` bytes holds before
/// the linker rewrites it (checked when the stubs are set up).
pub open spec fn expected_stub(entry_size: u32) -> Seq<u32> {
    if entry_size == 4 {
        seq![]
    } else if entry_size == 12 {
        seq![0xe59f_c000u32, 0xe59c_f000u32]
    } else {
        seq![0xe59f_c004u32, 0xe08f_c00cu32, 0xe59c_f000u32]
    }
}

/// The instructions a stub is restored to when it is linked to guest code.
/// A 4-byte stub's single instruction is completed with a PC-relative offset.
pub open spec fn unlinked_stub(entry_size: u32) -> Seq<u32> {
    if entry_size == 4 {
        seq![0xe59f_f000u32]
    } else {
        expected_stub(entry_size)
    }
}

/// How many bytes at the start of each stub the lazy-linking setup rewrites.
pub open spec fn rewritten_len(entry_size: u32) -> int {
    if entry_size == 4 {
        4
    } else if entry_size == 12 {
        8
    } else {
        12
    }
}

/// A well-formed symbol stub section that lies in memory of `mem_len` bytes
/// and has a symbol slot for every stub.
pub open spec fn stubs_well_formed(stubs: crate::mach_o::Section, mem_len: nat) -> bool {
    &&& stubs.dyld_indirect_symbol_info matches Some(info) && {
        let es = info.entry_size;
        &&& (es == 4 || es == 12 || es == 16)
        &&& stubs.size % es == 0
        &&& stubs.size / es <= info.indirect_undef_symbols@.len()
    }
    &&& stubs.addr + stubs.size <= u32::MAX
    &&& stubs.addr + stubs.size <= mem_len
}

pub open spec fn stub_entry_size(stubs: crate::mach_o::Section) -> u32 {
    stubs.dyld_indirect_symbol_info.unwrap().entry_size
}

/// Address of stub `i`.
pub open spec fn stub_addr(stubs: crate::mach_o::Section, i: int) -> int {
    stubs.addr + i * stub_entry_size(stubs)
}

/// The stubs hold the instructions the linker expects.
pub open spec fn stubs_as_expected(stubs: crate::mach_o::Section, mem: Seq<u8>) -> bool {
    let es = stub_entry_size(stubs);
    forall|i: int, j: int|
        0 <= i < stubs.size / es && 0 <= j < expected_stub(es).len() ==> #[trigger] le_u32(
            mem,
            stub_addr(stubs, i) + 4 * j,
        ) == expected_stub(es)[j]
}

proof fn lemma_stub_order(i2: int, i: int, es: int)
    requires
        0 <= i2 < i,
        es > 0,
    ensures
        i2 * es + es <= i * es,
{
    assert(i2 * es + es <= i * es) by (nonlinear_arith)
        requires
            0 <= i2 < i,
            es > 0,
    ;
}

proof fn lemma_stub_in_section(i: int, size: int, es: int)
    requires
        0 <= i < size / es,
        es > 0,
        size >= 0,
    ensures
        i * es + es <= size,
        0 <= i * es,
{
    assert(i * es + es <= size) by (nonlinear_arith)
        requires
            0 <= i < size / es,
            es > 0,
            size >= 0,
    ;
    assert(0 <= i * es) by (nonlinear_arith)
        requires
            0 <= i,
            es > 0,
    ;
}

/// Stub `i` has been rewritten to call the lazy linker: an SVC (with the
/// return flag for 4-byte stubs), then a return and, in 16-byte stubs, a trap.
pub open spec fn stub_rewritten(mem: Seq<u8>, stubs: crate::mach_o::Section, i: int) -> bool {
    let es = stub_entry_size(stubs);
    &&& le_u32(mem, stub_addr(stubs, i)) == if es == 4 {
        spec_a32_svc(Dyld::SVC_LAZY_LINK_RET_FLAG)
    } else {
        spec_a32_svc(Dyld::SVC_LAZY_LINK)
    }
    &&& es != 4 ==> le_u32(mem, stub_addr(stubs, i) + 4) == spec_a32_ret()
    &&& es == 16 ==> le_u32(mem, stub_addr(stubs, i) + 8) == spec_a32_trap()
}

impl Dyld {
    /// Sets up lazy linking for a loaded binary: every symbol stub is
    /// rewritten to raise the lazy-link SVC and return, so that its first
    /// call asks the linker to resolve it. A 4-byte stub has room for one
    /// instruction only, so it raises the SVC with the return flag set. The
    /// rest of each stub (the address or offset of its lazy symbol pointer)
    /// is left intact.
    #[verifier::spinoff_prover]
    fn setup_lazy_linking(&self, bin: &MachO, mem: &mut Mem)
        requires
            bin.symbol_stubs matches Some(stubs) ==> {
                &&& stubs_well_formed(stubs, old(mem)@.len())
                &&& stubs_as_expected(stubs, old(mem)@)
            },
        ensures
            final(mem)@.len() == old(mem)@.len(),
            final(mem).spec_next_alloc() == old(mem).spec_next_alloc(),
            old(mem).wf() ==> final(mem).wf(),
            bin.symbol_stubs is None ==> final(mem)@ == old(mem)@,
            bin.symbol_stubs matches Some(stubs) ==> {
                let es = stub_entry_size(stubs);
                &&& forall|a: int|
                    0 <= a < old(mem)@.len() && !(stubs.addr <= a < stubs.addr + stubs.size)
                        ==> #[trigger] final(mem)@[a] == old(mem)@[a]
                &&& forall|i: int| 0 <= i < stubs.size / es ==> #[trigger] stub_rewritten(final(mem)@, stubs, i)
                &&& es != 4 ==> forall|i: int|
                    0 <= i < stubs.size / es ==> #[trigger] le_u32(
                        final(mem)@,
                        stub_addr(stubs, i) + rewritten_len(es),
                    ) == le_u32(old(mem)@, stub_addr(stubs, i) + rewritten_len(es))
            },
    {
        let stubs = match bin.get_section(SectionType::SymbolStubs) {
            Some(s) => s,
            None => {
                return;
            },
        };
        let entry_size = stubs.dyld_indirect_symbol_info.as_ref().unwrap().entry_size;
        let stub_count = stubs.size / entry_size;
        let ret = encode_a32_ret();
        let trap = encode_a32_trap();
        assert(0x80_0000u32 & 0xff00_0000u32 == 0) by (bit_vector);
        assert(0u32 & 0xff00_0000u32 == 0) by (bit_vector);
        let first = if entry_size == 4 {
            encode_a32_svc(Dyld::SVC_LAZY_LINK_RET_FLAG)
        } else {
            encode_a32_svc(Dyld::SVC_LAZY_LINK)
        };
        let ghost es = entry_size as int;
        let ghost rl = rewritten_len(entry_size);
        let _len = mem.len();
        let mut i: u32 = 0;
        let mut ptr: u64 = stubs.addr as u64;
        while i < stub_count
            invariant
                *stubs == bin.symbol_stubs.unwrap(),
                stubs_well_formed(*stubs, old(mem)@.len()),
                entry_size == stub_entry_size(*stubs),
                es == entry_size,
                rl == rewritten_len(entry_size),
                stub_count == stubs.size / entry_size,
                ret == spec_a32_ret(),
                trap == spec_a32_trap(),
                first == if entry_size == 4 {
                    spec_a32_svc(Dyld::SVC_LAZY_LINK_RET_FLAG)
                } else {
                    spec_a32_svc(Dyld::SVC_LAZY_LINK)
                },
                i <= stub_count,
                ptr == stubs.addr + i * es,
                mem@.len() == old(mem)@.len(),
                mem@.len() <= usize::MAX,
                mem.spec_next_alloc() == old(mem).spec_next_alloc(),
                old(mem).wf() ==> mem.wf(),
                forall|a: int|
                    0 <= a < old(mem)@.len() && !(stubs.addr <= a < stubs.addr + stubs.size)
                        ==> #[trigger] mem@[a] == old(mem)@[a],
                forall|i2: int| 0 <= i2 < i ==> #[trigger] stub_rewritten(mem@, *stubs, i2),
                es != 4 ==> forall|i2: int|
                    0 <= i2 < stub_count ==> #[trigger] le_u32(mem@, stub_addr(*stubs, i2) + rl)
                        == le_u32(old(mem)@, stub_addr(*stubs, i2) + rl),
            decreases stub_count - i,
        {
            proof {
                lemma_stub_in_section(i as int, stubs.size as int, es);
            }
            let ghost before = mem@;
            let ghost cur = i as int;
            mem.write_u32(ptr, first);
            let ghost m1 = mem@;
            if entry_size != 4 {
                mem.write_u32(ptr + 4, ret);
            }
            let ghost m2 = mem@;
            if entry_size == 16 {
                mem.write_u32(ptr + 8, trap);
            }
            proof {
                assert(only_changed(before, mem@, ptr as int, rl));
                // Earlier stubs lie entirely below this one.
                assert forall|i2: int| 0 <= i2 < cur + 1 implies #[trigger] stub_rewritten(mem@, *stubs, i2) by {
                    if i2 < cur {
                        assert(stub_rewritten(before, *stubs, i2));
                        lemma_stub_order(i2, cur, es);
                        crate::mem::lemma_le_u32_frame(before, ptr as int, u32_le_bytes(first), stub_addr(*stubs, i2));
                        lemma_le_u32_unchanged(before, mem@, ptr as int, rl, stub_addr(*stubs, i2));
                        if es != 4 {
                            lemma_le_u32_unchanged(before, mem@, ptr as int, rl, stub_addr(*stubs, i2) + 4);
                        }
                        if es == 16 {
                            lemma_le_u32_unchanged(before, mem@, ptr as int, rl, stub_addr(*stubs, i2) + 8);
                        }
                    } else {
                        if es != 4 {
                            crate::mem::lemma_le_u32_frame(m1, ptr + 4, u32_le_bytes(ret), ptr as int);
                        }
                        if es == 16 {
                            crate::mem::lemma_le_u32_frame(m2, ptr + 8, u32_le_bytes(trap), ptr as int);
                            crate::mem::lemma_le_u32_frame(m2, ptr + 8, u32_le_bytes(trap), ptr + 4);
                        }
                    }
                }
                if es != 4 {
                    assert forall|i2: int| 0 <= i2 < stub_count implies #[trigger] le_u32(
                        mem@,
                        stub_addr(*stubs, i2) + rl,
                    ) == le_u32(old(mem)@, stub_addr(*stubs, i2) + rl) by {
                        assert(le_u32(before, stub_addr(*stubs, i2) + rl) == le_u32(old(mem)@, stub_addr(*stubs, i2) + rl));
                        if i2 < cur {
                            lemma_stub_order(i2, cur, es);
                        } else if i2 > cur {
                            lemma_stub_order(cur, i2, es);
                        }
                        lemma_stub_in_section(i2, stubs.size as int, es);
                        lemma_le_u32_unchanged(before, mem@, ptr as int, rl, stub_addr(*stubs, i2) + rl);
                    }
                }
            }
            i = i + 1;
            ptr = ptr + entry_size as u64;
            proof {
                assert(ptr == stubs.addr + i * es) by (nonlinear_arith)
                    requires
                        ptr == stubs.addr + (i - 1) * es + es,
                ;
            }
        }
    }
}

proof fn lemma_stub_offset(offset: int, size: int, es: int)
    requires
        0 <= offset < size,
        es > 0,
        offset % es == 0,
        size % es == 0,
    ensures
        offset / es < size / es,
        offset + es <= size,
{
    let q1 = offset / es;
    let q2 = size / es;
    vstd::arithmetic::div_mod::lemma_fundamental_div_mod(offset, es);
    vstd::arithmetic::div_mod::lemma_fundamental_div_mod(size, es);
    assert(q1 < q2) by (nonlinear_arith)
        requires
            offset == es * q1,
            size == es * q2,
            offset < size,
            es > 0,
    ;
    assert(es * q1 + es <= es * q2) by (nonlinear_arith)
        requires
            q1 + 1 <= q2,
            es > 0,
    ;
}

proof fn lemma_le_u32_unchanged(before: Seq<u8>, after: Seq<u8>, addr: int, len: int, a2: int)
    requires
        only_changed(before, after, addr, len),
        0 <= a2,
        a2 + 4 <= before.len(),
        a2 + 4 <= addr || addr + len <= a2,
    ensures
        le_u32(after, a2) == le_u32(before, a2),
{
    assert(after[a2] == before[a2]);
    assert(after[a2 + 1] == before[a2 + 1]);
    assert(after[a2 + 2] == before[a2 + 2]);
    assert(after[a2 + 3] == before[a2 + 3]);
}


// ----------------------------------------------------
// Resolving a lazy-link request
// ----------------------------------------------------

/// Address of the lazy symbol pointer that the stub at `pc` (of
/// `entry_size` bytes, in a binary whose lazy pointers are `pic_offset` bytes
/// past its stubs) loads its target from. A 12-byte stub holds the address;
/// a 16-byte stub holds an offset from its third instruction; a 4-byte stub
/// encodes a 12-bit offset in its only instruction.
pub open spec fn la_symbol_ptr_of(mem: Seq<u8>, pc: u32, entry_size: u32, pic_offset: u32) -> int {
    if entry_size == 12 {
        le_u32(mem, pc + 8) as int
    } else if entry_size == 4 {
        pc + ((0xe59f_f000u32 | pic_offset) & 0xfffu32) + 8
    } else {
        pc + le_u32(mem, pc + 12) + 12
    }
}

/// The stub at `pc` can be restored: it lies in memory, and so does its
/// lazy symbol pointer, whose 32-bit address does not overflow.
pub open spec fn restore_ok(mem: Seq<u8>, pc: u32, entry_size: u32, pic_offset: u32) -> bool {
    &&& entry_size == 4 || entry_size == 12 || entry_size == 16
    &&& pc + entry_size <= mem.len()
    &&& la_symbol_ptr_of(mem, pc, entry_size, pic_offset) <= u32::MAX
    &&& la_symbol_ptr_of(mem, pc, entry_size, pic_offset) + 4 <= mem.len()
}

/// The first word of a restored stub.
pub open spec fn restored_first_word(entry_size: u32, pic_offset: u32) -> u32 {
    if entry_size == 4 {
        0xe59f_f000u32 | pic_offset
    } else {
        unlinked_stub(entry_size)[0]
    }
}

/// The stub at `pc` holds its unlinked instructions again.
pub open spec fn stub_restored(mem: Seq<u8>, pc: u32, entry_size: u32, pic_offset: u32) -> bool {
    &&& le_u32(mem, pc as int) == restored_first_word(entry_size, pic_offset)
    &&& entry_size != 4 ==> le_u32(mem, pc + 4) == unlinked_stub(entry_size)[1]
    &&& entry_size == 16 ==> le_u32(mem, pc + 8) == unlinked_stub(entry_size)[2]
}

/// Links the stub at `svc_pc` to guest code at `linked_function`: restores
/// the stub's unlinked instructions, which jump through its lazy symbol
/// pointer, and points that pointer at `linked_function`. Returns the
/// addresses of the stub and of the pointer.
fn link_by_restoring_stub(
    mem: &mut Mem,
    linked_function: u32,
    svc_pc: u32,
    entry_size: u32,
    pic_offset: u32,
) -> (ptrs: (u32, u32))
    requires
        restore_ok(old(mem)@, svc_pc, entry_size, pic_offset),
    ensures
        ptrs.0 == svc_pc,
        ptrs.1 == la_symbol_ptr_of(old(mem)@, svc_pc, entry_size, pic_offset),
        le_u32(final(mem)@, ptrs.1 as int) == linked_function,
        (ptrs.1 + 4 <= svc_pc || ptrs.1 >= svc_pc + 4 * unlinked_stub(entry_size).len())
            ==> stub_restored(final(mem)@, svc_pc, entry_size, pic_offset),
        final(mem)@.len() == old(mem)@.len(),
        final(mem).spec_next_alloc() == old(mem).spec_next_alloc(),
        old(mem).wf() ==> final(mem).wf(),
        forall|a: int|
            0 <= a < old(mem)@.len() && !(svc_pc <= a < svc_pc + 4 * unlinked_stub(entry_size).len())
                && !(ptrs.1 <= a < ptrs.1 + 4) ==> #[trigger] final(mem)@[a] == old(mem)@[a],
{
    let _len = mem.len();
    let pc = svc_pc as u64;
    let ghost m0 = mem@;
    let ghost rl: int = (4 * unlinked_stub(entry_size).len()) as int;
    let la: u32;
    if entry_size == 4 {
        let w0 = 0xe59f_f000u32 | pic_offset;
        mem.write_u32(pc, w0);
        let word = mem.read_u32(pc);
        let offset = word & 0xfffu32;
        assert(offset <= 0xfffu32) by (bit_vector)
            requires
                offset == word & 0xfffu32,
        ;
        la = svc_pc + offset + 8;
    } else if entry_size == 12 {
        mem.write_u32(pc, 0xe59f_c000u32);
        let ghost m1 = mem@;
        mem.write_u32(pc + 4, 0xe59c_f000u32);
        proof {
            crate::mem::lemma_le_u32_frame(m1, pc + 4, u32_le_bytes(0xe59c_f000u32), pc as int);
            lemma_le_u32_unchanged(m0, mem@, pc as int, 8, pc + 8);
        }
        la = mem.read_u32(pc + 8);
    } else {
        mem.write_u32(pc, 0xe59f_c004u32);
        let ghost m1 = mem@;
        mem.write_u32(pc + 4, 0xe08f_c00cu32);
        let ghost m2 = mem@;
        mem.write_u32(pc + 8, 0xe59c_f000u32);
        proof {
            crate::mem::lemma_le_u32_frame(m1, pc + 4, u32_le_bytes(0xe08f_c00cu32), pc as int);
            crate::mem::lemma_le_u32_frame(m2, pc + 8, u32_le_bytes(0xe59c_f000u32), pc as int);
            crate::mem::lemma_le_u32_frame(m2, pc + 8, u32_le_bytes(0xe59c_f000u32), pc + 4);
            lemma_le_u32_unchanged(m0, mem@, pc as int, 12, pc + 12);
        }
        let offset = mem.read_u32(pc + 12);
        la = svc_pc + offset + 12;
    }
    let ghost m3 = mem@;
    assert(only_changed(m0, m3, pc as int, rl));
    assert(stub_restored(m3, svc_pc, entry_size, pic_offset));
    mem.write_u32(la as u64, linked_function);
    proof {
        if la + 4 <= svc_pc || la >= svc_pc + rl {
            lemma_le_u32_unchanged(m3, mem@, la as int, 4, pc as int);
            if entry_size != 4 {
                lemma_le_u32_unchanged(m3, mem@, la as int, 4, pc + 4);
            }
            if entry_size == 16 {
                lemma_le_u32_unchanged(m3, mem@, la as int, 4, pc + 8);
            }
        }
    }
    (svc_pc, la)
}

/// What the emulator does about an SVC exception.
#[derive(Debug)]
pub enum SvcHandler {
    /// Call this host function now.
    Call(HostFunction),
    /// Resume guest execution at the address of the SVC.
    Resume,
    /// The SVC was not raised by a symbol stub: it is an inline system call,
    /// which [handle_inline_svc] carries out.
    InlineSvc,
    /// The stub refers to a symbol that no binary, no host dylib and no
    /// built-in replacement provides; the emulator has to give up.
    Unresolved(Vec<u8>),
}

/// Whether `bin`'s symbol stubs contain the address `pc`.
pub open spec fn stubs_contain(bin: MachO, pc: u32) -> bool {
    bin.symbol_stubs matches Some(stubs) && stubs.addr <= pc < stubs.addr + stubs.size
}

/// Whether `b` is the first of `bins` whose symbol stubs contain `pc`.
pub open spec fn first_stub_bin(bins: Seq<MachO>, pc: u32, b: int) -> bool {
    &&& 0 <= b < bins.len()
    &&& stubs_contain(bins[b], pc)
    &&& forall|b2: int| 0 <= b2 < b ==> !stubs_contain(bins[b2], pc)
}

/// Offset of a binary's lazy symbol pointers from its stubs.
pub open spec fn pic_offset_of(bin: MachO) -> u32 {
    match bin.lazy_symbol_pointers {
        Some(lazy) => (lazy.addr - bin.symbol_stubs.unwrap().addr) as u32,
        None => 0,
    }
}

/// The symbol that the stub at `pc` in `bin` refers to.
pub open spec fn stub_symbol(bin: MachO, pc: u32) -> Seq<u8> {
    let stubs = bin.symbol_stubs.unwrap();
    let info = stubs.dyld_indirect_symbol_info.unwrap();
    info.indirect_undef_symbols@[(pc - stubs.addr) / (info.entry_size as int)].unwrap()@
}

/// The SVC number that lazy linking gives the next host function linked
/// through a stub of `entry_size` bytes.
pub open spec fn next_stub_svc(linked_len: nat, entry_size: u32) -> u32 {
    let svc = (linked_len + Dyld::SVC_LINKED_FUNCTIONS_BASE) as u32;
    if entry_size == 4 {
        svc | Dyld::SVC_LAZY_LINK_RET_FLAG
    } else {
        svc
    }
}

/// Relinking the stub at `pc` through its lazy pointer at `la` changed
/// nothing but the stub's words and the pointer, and the stub holds its
/// unlinked instructions again unless the pointer overlaps it.
pub open spec fn stub_relinked(m0: Seq<u8>, m1: Seq<u8>, pc: u32, es: u32, pic: u32, la: int) -> bool {
    &&& (la + 4 <= pc || la >= pc + 4 * unlinked_stub(es).len()) ==> stub_restored(m1, pc, es, pic)
    &&& forall|a: int|
        0 <= a < m0.len() && !(pc <= a < pc + 4 * unlinked_stub(es).len()) && !(la <= a < la + 4)
            ==> #[trigger] m1[a] == m0[a]
}

/// First match for `sym` in a table of built-in replacement functions,
/// which stand in for symbols that nothing else provides.
pub open spec fn fallback_lookup(table: Seq<(&'static str, HostFunction)>, sym: Seq<u8>) -> Option<
    HostFunction,
>
    decreases table.len(),
{
    if table.len() == 0 {
        None
    } else if table[0].0.spec_bytes() == sym {
        Some(table[0].1)
    } else {
        fallback_lookup(table.drop_first(), sym)
    }
}

/// The built-in replacement for `symbol`, if the table has one.
pub fn find_fallback(table: &Vec<(&'static str, HostFunction)>, symbol: &[u8]) -> (f: Option<
    HostFunction,
>)
    ensures
        f == fallback_lookup(table@, symbol@),
{
    let mut i: usize = 0;
    assert(table@.subrange(0, table@.len() as int) =~= table@);
    while i < table.len()
        invariant
            i <= table@.len(),
            fallback_lookup(table@, symbol@) == fallback_lookup(
                table@.subrange(i as int, table@.len() as int),
                symbol@,
            ),
        decreases table@.len() - i,
    {
        let ghost rest = table@.subrange(i as int, table@.len() as int);
        assert(rest.drop_first() =~= table@.subrange(i + 1, table@.len() as int));
        let entry = table[i];
        if str_is(entry.0, symbol) {
            return Some(entry.1);
        }
        i = i + 1;
    }
    None
}

/// The system call number that asks for memory (`mach_vm_allocate`).
pub const INLINE_SVC_VM_ALLOCATE: u64 = 10;

/// Carries out an SVC raised outside any symbol stub, an inline system call
/// whose number is in R12. `mach_vm_allocate` allocates R2 bytes and stores
/// their address at the address in R1; every call returns 0 in R0.
pub fn handle_inline_svc(cpu: &mut Cpu, mem: &mut Mem)
    requires
        old(cpu).wf(),
        old(mem).wf(),
        old(cpu).view_regs()[12] == INLINE_SVC_VM_ALLOCATE ==> {
            &&& old(mem).can_allocate(old(cpu).view_regs()[2] as nat)
            &&& old(mem).spec_next_alloc() <= u32::MAX
            &&& old(mem).in_bounds(old(cpu).view_regs()[1], 4)
        },
    ensures
        final(cpu).wf(),
        final(mem).wf(),
        final(cpu).view_regs() == old(cpu).view_regs().update(0, 0),
        old(cpu).view_regs()[12] == INLINE_SVC_VM_ALLOCATE ==> {
            let size = old(cpu).view_regs()[2];
            let ptr = old(mem).spec_next_alloc();
            &&& final(mem)@ == write_bytes(
                old(mem)@,
                old(cpu).view_regs()[1] as int,
                u32_le_bytes(ptr as u32),
            )
            &&& final(mem).spec_next_alloc() == ptr + size + (8 - size % 8) % 8
        },
        old(cpu).view_regs()[12] != INLINE_SVC_VM_ALLOCATE ==> *final(mem) == *old(mem),
{
    let number = cpu.reg(12);
    if number == INLINE_SVC_VM_ALLOCATE {
        let dest = cpu.reg(1);
        let size = cpu.reg(2);
        let ptr = mem.allocate(size);
        mem.write_u32(dest, ptr as u32);
    }
    cpu.set_reg(0, 0);
}

impl Dyld {
    /// What lazy linking needs of the stub at `pc` in `bin`, given how its
    /// symbol will be resolved.
    pub open spec fn lazy_link_ready(
        &self,
        bins: Seq<MachO>,
        dylibs: Seq<HostDylib>,
        mem: Seq<u8>,
        bin: MachO,
        pc: u32,
    ) -> bool {
        let stubs = bin.symbol_stubs.unwrap();
        let es = stub_entry_size(stubs);
        let pic = pic_offset_of(bin);
        let info = stubs.dyld_indirect_symbol_info.unwrap();
        &&& stubs_well_formed(stubs, mem.len())
        &&& bin.lazy_symbol_pointers matches Some(lazy) ==> lazy.addr >= stubs.addr
        &&& (pc - stubs.addr) % (es as int) == 0
        &&& info.indirect_undef_symbols@[(pc - stubs.addr) / (es as int)] is Some
        &&& {
            let sym = stub_symbol(bin, pc);
            &&& (cache_lookup(self.spec_cache(), sym) is Some || (!has_host_function(dylibs, sym)
                && bins_lookup(bins, sym) is Some)) ==> restore_ok(mem, pc, es, pic)
            &&& (cache_lookup(self.spec_cache(), sym) is None && has_host_function(dylibs, sym))
                ==> {
                &&& self.spec_linked().len() + Dyld::SVC_LINKED_FUNCTIONS_BASE
                    < Dyld::SVC_LAZY_LINK_RET_FLAG
                &&& es != 4 ==> le_u32(mem, pc + 4) == spec_a32_ret()
            }
        }
    }

    /// What resolving the lazy-link SVC raised at `svc_pc` does, from this
    /// linker and memory `m0` to the linker `after` and memory `m1`, with
    /// result `res`. The stub is found in the first binary whose stubs hold
    /// `svc_pc`; an SVC outside every binary's stubs is an inline system
    /// call. Its symbol is linked to the guest function already created for
    /// that host function, if any; else to the host function itself (the
    /// stub is rewritten to raise its new SVC number, and the function is
    /// called now); else to the first binary that exports it; else to a
    /// built-in replacement, called now without linking.
    pub open spec fn lazy_link_outcome(
        &self,
        after: Dyld,
        bins: Seq<MachO>,
        dylibs: Seq<HostDylib>,
        fallbacks: Seq<(&'static str, HostFunction)>,
        m0: Seq<u8>,
        m1: Seq<u8>,
        svc_pc: u32,
        res: (SvcHandler, Option<(u32, u32)>),
    ) -> bool {
        &&& after.spec_is_64_bit() == self.spec_is_64_bit()
        &&& after.spec_return_to_host() == self.spec_return_to_host()
        &&& after.spec_thread_exit() == self.spec_thread_exit()
        &&& after.spec_pending_constants() == self.spec_pending_constants()
        &&& after.spec_cache() == self.spec_cache()
        &&& (forall|b: int| 0 <= b < bins.len() ==> !stubs_contain(#[trigger] bins[b], svc_pc))
            ==> {
            &&& res.0 is InlineSvc
            &&& res.1 is None
            &&& after.spec_linked() == self.spec_linked()
            &&& m1 == m0
        }
        &&& forall|b: int|
            #[trigger] first_stub_bin(bins, svc_pc, b) ==> {
                let bin = bins[b];
                let stubs = bin.symbol_stubs.unwrap();
                let es = stub_entry_size(stubs);
                let pic = pic_offset_of(bin);
                let sym = stub_symbol(bin, svc_pc);
                let la = la_symbol_ptr_of(m0, svc_pc, es, pic);
                if cache_lookup(self.spec_cache(), sym) is Some {
                    &&& res.0 is Resume
                    &&& res.1 == Some((svc_pc, (4 * unlinked_stub(es).len()) as u32))
                    &&& after.spec_linked() == self.spec_linked()
                    &&& le_u32(m1, la) == cache_lookup(self.spec_cache(), sym).unwrap().spec_addr() as u32
                    &&& stub_relinked(m0, m1, svc_pc, es, pic, la)
                } else if has_host_function(dylibs, sym) {
                    let (name, f) = host_function_lookup(dylibs, sym).unwrap();
                    &&& res.0 == SvcHandler::Call(f)
                    &&& res.1 == Some((svc_pc, 4u32))
                    &&& after.spec_linked() == self.spec_linked().push((name, f))
                    &&& le_u32(m1, svc_pc as int) == spec_a32_svc(
                        next_stub_svc(self.spec_linked().len(), es),
                    )
                    &&& only_changed(m0, m1, svc_pc as int, 4)
                } else if bins_lookup(bins, sym) is Some {
                    &&& res.0 is Resume
                    &&& res.1 == Some((svc_pc, (4 * unlinked_stub(es).len()) as u32))
                    &&& after.spec_linked() == self.spec_linked()
                    &&& le_u32(m1, la) == bins_lookup(bins, sym).unwrap()
                    &&& stub_relinked(m0, m1, svc_pc, es, pic, la)
                } else if fallback_lookup(fallbacks, sym) is Some {
                    &&& res.0 == SvcHandler::Call(fallback_lookup(fallbacks, sym).unwrap())
                    &&& res.1 is None
                    &&& after.spec_linked() == self.spec_linked()
                    &&& m1 == m0
                } else {
                    &&& res.0 matches SvcHandler::Unresolved(s) && s@ == sym
                    &&& res.1 is None
                    &&& after.spec_linked() == self.spec_linked()
                    &&& m1 == m0
                }
            }
    }

    /// Resolves the stub whose lazy-link SVC was raised at `svc_pc`, as
    /// [Dyld::lazy_link_outcome] says. Also returns the range of guest code
    /// that was rewritten, if any.
    #[verifier::spinoff_prover]
    fn do_lazy_link(
        &mut self,
        bins: &Vec<MachO>,
        mem: &mut Mem,
        dylibs: &Vec<HostDylib>,
        fallbacks: &Vec<(&'static str, HostFunction)>,
        svc_pc: u32,
    ) -> (res: (SvcHandler, Option<(u32, u32)>))
        requires
            forall|b: int|
                first_stub_bin(bins@, svc_pc, b) ==> old(self).lazy_link_ready(
                    bins@,
                    dylibs@,
                    old(mem)@,
                    bins@[b],
                    svc_pc,
                ),
            forall|b: int|
                0 <= b < bins@.len() && bins@[b].symbol_stubs is Some ==> bins@[b].symbol_stubs.unwrap().addr
                    + bins@[b].symbol_stubs.unwrap().size <= u32::MAX,
        ensures
            final(mem)@.len() == old(mem)@.len(),
            final(mem).spec_next_alloc() == old(mem).spec_next_alloc(),
            old(mem).wf() ==> final(mem).wf(),
            old(self).lazy_link_outcome(
                *final(self),
                bins@,
                dylibs@,
                fallbacks@,
                old(mem)@,
                final(mem)@,
                svc_pc,
                res,
            ),
    {
        let mut b: usize = 0;
        let mut hit = false;
        while !hit && b < bins.len()
            invariant
                b <= bins@.len(),
                hit ==> b < bins@.len() && stubs_contain(bins@[b as int], svc_pc),
                forall|b2: int| 0 <= b2 < b ==> !stubs_contain(#[trigger] bins@[b2], svc_pc),
                forall|b: int|
                    0 <= b < bins@.len() && bins@[b].symbol_stubs is Some ==> bins@[b].symbol_stubs.unwrap().addr
                        + bins@[b].symbol_stubs.unwrap().size <= u32::MAX,
            decreases bins@.len() - b, if hit { 0int } else { 1int },
        {
            let mut contains = false;
            if let Some(stubs) = bins[b].get_section(SectionType::SymbolStubs) {
                if stubs.addr <= svc_pc && svc_pc < stubs.addr + stubs.size {
                    contains = true;
                }
            }
            if contains {
                hit = true;
            } else {
                b = b + 1;
            }
        }
        if !hit {
            return (SvcHandler::InlineSvc, None);
        }
        let bin = &bins[b];
        assert(first_stub_bin(bins@, svc_pc, b as int));
        let stubs = bin.symbol_stubs.as_ref().unwrap();
        let pic_offset = match bin.lazy_symbol_pointers.as_ref() {
            Some(lazy) => lazy.addr - stubs.addr,
            None => 0,
        };
        let info = stubs.dyld_indirect_symbol_info.as_ref().unwrap();
        let entry_size = info.entry_size;
        let offset = svc_pc - stubs.addr;
        proof {
            lemma_stub_offset(offset as int, stubs.size as int, entry_size as int);
        }
        let idx = (offset / entry_size) as usize;
        let symbol = info.indirect_undef_symbols[idx].as_ref().unwrap();
        let ghost sym = symbol@;
        assert(sym == stub_symbol(bins@[b as int], svc_pc));

        if let Some(cached) = self.cached_function(symbol.as_slice()) {
            let linked = cached.addr_with_thumb_bit() as u32;
            let _ = link_by_restoring_stub(mem, linked, svc_pc, entry_size, pic_offset);
            let count = if entry_size == 4 {
                1u32
            } else if entry_size == 12 {
                2u32
            } else {
                3u32
            };
            return (SvcHandler::Resume, Some((svc_pc, count * 4)));
        }
        if let Some((name, f)) = search_host_functions(dylibs, symbol.as_slice()) {
            let idx = self.linked_host_functions.len() as u32;
            let base = idx + Dyld::SVC_LINKED_FUNCTIONS_BASE;
            let mut svc = base;
            if entry_size == 4 {
                svc = base | Dyld::SVC_LAZY_LINK_RET_FLAG;
            }
            assert(svc & 0xff00_0000u32 == 0) by (bit_vector)
                requires
                    svc == base || svc == base | 0x80_0000u32,
                    base < 0x80_0000u32,
            ;
            self.linked_host_functions.push((name, f));
            let instr = encode_a32_svc(svc);
            mem.write_u32(svc_pc as u64, instr);
            return (SvcHandler::Call(f), Some((svc_pc, 4)));
        }
        if let Some(addr) = lookup_in_bins(bins, symbol.as_slice()) {
            let _ = link_by_restoring_stub(mem, addr, svc_pc, entry_size, pic_offset);
            let count = if entry_size == 4 {
                1u32
            } else if entry_size == 12 {
                2u32
            } else {
                3u32
            };
            return (SvcHandler::Resume, Some((svc_pc, count * 4)));
        }
        if let Some(f) = find_fallback(fallbacks, symbol.as_slice()) {
            return (SvcHandler::Call(f), None);
        }
        let mut unresolved: Vec<u8> = Vec::new();
        let mut k: usize = 0;
        while k < symbol.len()
            invariant
                k <= symbol@.len(),
                unresolved@ == symbol@.subrange(0, k as int),
            decreases symbol@.len() - k,
        {
            unresolved.push(symbol[k]);
            k = k + 1;
            assert(unresolved@ =~= symbol@.subrange(0, k as int));
        }
        assert(unresolved@ =~= symbol@);
        (SvcHandler::Unresolved(unresolved), None)
    }
}


impl Dyld {
    /// Decides how to handle an SVC exception raised at `svc_pc` with number
    /// `svc`: lazy-link requests resolve the stub that raised them (see
    /// [Dyld::lazy_link_outcome]); numbers of linked host functions call
    /// those functions. When no function is to be called, execution resumes
    /// at `svc_pc`; this includes an unknown number raised in the null page
    /// (the guest jumped through a bad pointer), which the emulator then deals
    /// with. The CPU's registers are never changed. The thread-exit and
    /// return-to-host numbers are handled by the emulator itself and never
    /// come here.
    #[verifier::spinoff_prover]
    pub fn get_svc_handler(
        &mut self,
        bins: &Vec<MachO>,
        mem: &mut Mem,
        cpu: &mut Cpu,
        dylibs: &Vec<HostDylib>,
        fallbacks: &Vec<(&'static str, HostFunction)>,
        svc_pc: u32,
        svc: u32,
    ) -> (res: (SvcHandler, Option<(u32, u32)>))
        requires
            old(cpu).wf(),
            svc != Dyld::SVC_THREAD_EXIT && svc != Dyld::SVC_RETURN_TO_HOST,
            (svc == Dyld::SVC_LAZY_LINK || svc == Dyld::SVC_LAZY_LINK_RET_FLAG) ==> {
                &&& forall|b: int|
                    first_stub_bin(bins@, svc_pc, b) ==> old(self).lazy_link_ready(
                        bins@,
                        dylibs@,
                        old(mem)@,
                        bins@[b],
                        svc_pc,
                    )
                &&& forall|b: int|
                    0 <= b < bins@.len() && bins@[b].symbol_stubs is Some
                        ==> bins@[b].symbol_stubs.unwrap().addr + bins@[b].symbol_stubs.unwrap().size
                        <= u32::MAX
            },
            !(svc == Dyld::SVC_LAZY_LINK || svc == Dyld::SVC_LAZY_LINK_RET_FLAG) ==> {
                &&& (svc & !Dyld::SVC_LAZY_LINK_RET_FLAG) >= Dyld::SVC_LINKED_FUNCTIONS_BASE
                &&& svc_dispatch(old(self).spec_linked(), svc) is None ==> svc_pc < 0x2000
            },
        ensures
            final(cpu).wf(),
            final(mem)@.len() == old(mem)@.len(),
            old(mem).wf() ==> final(mem).wf(),
            !(svc == Dyld::SVC_LAZY_LINK || svc == Dyld::SVC_LAZY_LINK_RET_FLAG) ==> {
                &&& *final(self) == *old(self)
                &&& *final(mem) == *old(mem)
                &&& res.1 is None
                &&& final(cpu).view_regs() == old(cpu).view_regs()
                &&& match svc_dispatch(old(self).spec_linked(), svc) {
                    Some(f) => res.0 == SvcHandler::Call(f),
                    None => res.0 is Resume,
                }
            },
            (svc == Dyld::SVC_LAZY_LINK || svc == Dyld::SVC_LAZY_LINK_RET_FLAG) ==> {
                &&& final(cpu).view_regs() == old(cpu).view_regs()
                &&& final(mem).spec_next_alloc() == old(mem).spec_next_alloc()
                &&& old(self).lazy_link_outcome(
                    *final(self),
                    bins@,
                    dylibs@,
                    fallbacks@,
                    old(mem)@,
                    final(mem)@,
                    svc_pc,
                    res,
                )
            },
    {
        if svc == Dyld::SVC_LAZY_LINK || svc == Dyld::SVC_LAZY_LINK_RET_FLAG {
            return self.do_lazy_link(bins, mem, dylibs, fallbacks, svc_pc);
        }
        let idx = ((svc & !Dyld::SVC_LAZY_LINK_RET_FLAG) - Dyld::SVC_LINKED_FUNCTIONS_BASE) as usize;
        if idx < self.linked_host_functions.len() {
            let (_symbol, f) = self.linked_host_functions[idx];
            return (SvcHandler::Call(f), None);
        }
        (SvcHandler::Resume, None)
    }
}

// ----------------------------------------------------
// Late linking of constants
// ----------------------------------------------------

/// What the pointer slot of a pending constant ends up holding, given the
/// value the emulator resolved for it and memory after linking: the
/// resolved pointer itself for a custom constant, else the address of a
/// fresh allocation holding the resolved string object, a null pointer or
/// the constant's bytes.
pub open spec fn late_linked(c: HostConstant, resolved: u32, mem: Seq<u8>, slot_value: u32) -> bool {
    match c {
        HostConstant::Custom(_) => slot_value == resolved,
        HostConstant::NSString(_) => le_u32(mem, slot_value as int) == resolved,
        HostConstant::NullPtr => le_u32(mem, slot_value as int) == 0,
        HostConstant::Bytes(bytes) => mem.subrange(slot_value as int, slot_value + bytes@.len())
            == bytes@,
    }
}

/// Bytes that late linking of `c` allocates.
pub open spec fn late_link_size(c: HostConstant) -> nat {
    match c {
        HostConstant::Bytes(bytes) => bytes@.len(),
        HostConstant::Custom(_) => 0,
        _ => 4,
    }
}

pub open spec fn late_link_total(pending: Seq<(u32, HostConstant)>) -> nat
    decreases pending.len(),
{
    if pending.len() == 0 {
        0
    } else {
        late_link_total(pending.drop_last()) + late_link_size(pending.last().1) + 8
    }
}

proof fn lemma_late_link_total_mono(pending: Seq<(u32, HostConstant)>, i: int)
    requires
        0 <= i <= pending.len(),
    ensures
        late_link_total(pending.subrange(0, i)) + (if i < pending.len() {
            late_link_size(pending[i].1) + 8
        } else {
            0
        }) <= late_link_total(pending),
    decreases pending.len() - i,
{
    if i < pending.len() {
        lemma_late_link_total_mono(pending, i + 1);
        assert(pending.subrange(0, i + 1).drop_last() =~= pending.subrange(0, i));
    } else {
        assert(pending.subrange(0, i) =~= pending);
    }
}

/// Builds the data of one pending constant and returns what its pointer
/// slot should hold.
fn build_late_constant(mem: &mut Mem, constant: HostConstant, resolved: u32) -> (value: u32)
    requires
        old(mem).wf(),
        old(mem).can_allocate(late_link_size(constant)),
        old(mem).spec_next_alloc() + late_link_size(constant) + 8 <= u32::MAX,
    ensures
        final(mem).wf(),
        final(mem)@.len() == old(mem)@.len(),
        late_linked(constant, resolved, final(mem)@, value),
        only_changed(old(mem)@, final(mem)@, old(mem).spec_next_alloc() as int, late_link_size(constant) as int),
        constant is Custom ==> *final(mem) == *old(mem),
        !(constant is Custom) ==> {
            &&& value == old(mem).spec_next_alloc()
            &&& value + late_link_size(constant) <= final(mem).spec_next_alloc()
        },
        old(mem).spec_next_alloc() <= final(mem).spec_next_alloc() <= old(mem).spec_next_alloc() + late_link_size(constant) + 8,
{
    let _len = mem.len();
    match constant {
        HostConstant::NSString(_) => {
            let p = mem.allocate(4);
            mem.write_u32(p, resolved);
            p as u32
        },
        HostConstant::NullPtr => {
            let p = mem.allocate(4);
            mem.write_u32(p, 0);
            p as u32
        },
        HostConstant::Custom(_) => resolved,
        HostConstant::Bytes(bytes) => {
            let p = mem.allocate(bytes.len() as u64);
            let mut data: Vec<u8> = Vec::new();
            let mut k: usize = 0;
            while k < bytes.len()
                invariant
                    k <= bytes@.len(),
                    data@ == bytes@.subrange(0, k as int),
                decreases bytes@.len() - k,
            {
                data.push(bytes[k]);
                k = k + 1;
                assert(data@ =~= bytes@.subrange(0, k as int));
            }
            assert(data@ =~= bytes@);
            mem.write_bytes(p, &data);
            assert(mem@.subrange(p as int, p + bytes@.len()) =~= bytes@);
            p as u32
        },
    }
}

proof fn lemma_late_linked_frame(
    c: HostConstant,
    resolved: u32,
    m1: Seq<u8>,
    m2: Seq<u8>,
    v: u32,
    addr: int,
    len: int,
)
    requires
        late_linked(c, resolved, m1, v),
        only_changed(m1, m2, addr, len),
        c is Custom || ((v + late_link_size(c) <= addr || addr + len <= v) && v + late_link_size(c)
            <= m1.len()),
    ensures
        late_linked(c, resolved, m2, v),
{
    match c {
        HostConstant::Custom(_) => {},
        HostConstant::NSString(_) => {
            lemma_le_u32_unchanged(m1, m2, addr, len, v as int);
        },
        HostConstant::NullPtr => {
            lemma_le_u32_unchanged(m1, m2, addr, len, v as int);
        },
        HostConstant::Bytes(bytes) => {
            assert(m2.subrange(v as int, v + bytes@.len()) =~= m1.subrange(v as int, v + bytes@.len()));
        },
    }
}

/// Whether the byte at `a` lies in the pointer slot of one of `pending`.
pub open spec fn in_pending_slot(pending: Seq<(u32, HostConstant)>, a: int) -> bool {
    exists|i: int| 0 <= i < pending.len() && #[trigger] pending[i].0 <= a < pending[i].0 + 4
}

impl Dyld {
    /// Links the constants that non-lazy linking put aside, once the
    /// emulator can build them. `resolved[i]` is, for the `i`-th pending
    /// constant, the string object built for an NSString constant or the
    /// pointer a custom constant's routine returned (other kinds ignore it).
    /// Each pointer slot gets the address of the constant's data, which is
    /// freshly allocated; nothing else below the allocation limit changes,
    /// and with nothing pending memory is left as it was.
    #[verifier::spinoff_prover]
    pub fn do_late_linking(&mut self, mem: &mut Mem, resolved: &Vec<u32>)
        requires
            old(mem).wf(),
            resolved@.len() == old(self).spec_pending_constants().len(),
            old(mem).spec_next_alloc() + late_link_total(old(self).spec_pending_constants()) + 8
                <= old(mem)@.len(),
            old(mem).spec_next_alloc() + late_link_total(old(self).spec_pending_constants()) + 8
                <= u32::MAX,
            forall|i: int|
                0 <= i < old(self).spec_pending_constants().len() ==> #[trigger] old(
                    self,
                ).spec_pending_constants()[i].0 + 4 <= old(mem).spec_next_alloc(),
            forall|i: int, j: int|
                0 <= i < j < old(self).spec_pending_constants().len() ==> #[trigger] old(
                    self,
                ).spec_pending_constants()[i].0 + 4 <= #[trigger] old(
                    self,
                ).spec_pending_constants()[j].0 || old(self).spec_pending_constants()[j].0 + 4
                    <= old(self).spec_pending_constants()[i].0,
        ensures
            final(mem).wf(),
            final(mem)@.len() == old(mem)@.len(),
            final(self).spec_pending_constants().len() == 0,
            final(self).spec_linked() == old(self).spec_linked(),
            final(self).spec_cache() == old(self).spec_cache(),
            final(self).spec_is_64_bit() == old(self).spec_is_64_bit(),
            final(self).spec_return_to_host() == old(self).spec_return_to_host(),
            final(self).spec_thread_exit() == old(self).spec_thread_exit(),
            forall|i: int|
                0 <= i < old(self).spec_pending_constants().len() ==> late_linked(
                    #[trigger] old(self).spec_pending_constants()[i].1,
                    resolved@[i],
                    final(mem)@,
                    le_u32(final(mem)@, old(self).spec_pending_constants()[i].0 as int),
                ),
            old(mem).spec_next_alloc() <= final(mem).spec_next_alloc() <= old(mem).spec_next_alloc()
                + late_link_total(old(self).spec_pending_constants()),
            forall|a: int|
                0 <= a < old(mem).spec_next_alloc() && !in_pending_slot(
                    old(self).spec_pending_constants(),
                    a,
                ) ==> #[trigger] final(mem)@[a] == old(mem)@[a],
            old(self).spec_pending_constants().len() == 0 ==> *final(mem) == *old(mem),
    {
        let mut to_link: Vec<(u32, HostConstant)> = Vec::new();
        std::mem::swap(&mut to_link, &mut self.constants_to_link_later);
        let ghost pending = to_link@;
        let ghost start = mem.spec_next_alloc();
        let _len = mem.len();
        let mut i: usize = 0;
        while i < to_link.len()
            invariant
                to_link@ == pending,
                pending == old(self).spec_pending_constants(),
                resolved@.len() == pending.len(),
                self.spec_pending_constants().len() == 0,
                self.spec_linked() == old(self).spec_linked(),
                self.spec_cache() == old(self).spec_cache(),
                self.spec_is_64_bit() == old(self).spec_is_64_bit(),
                self.spec_return_to_host() == old(self).spec_return_to_host(),
                self.spec_thread_exit() == old(self).spec_thread_exit(),
                start + late_link_total(pending) + 8 <= old(mem)@.len(),
                start + late_link_total(pending) + 8 <= u32::MAX,
                forall|k: int| 0 <= k < pending.len() ==> #[trigger] pending[k].0 + 4 <= start,
                forall|k: int, j: int|
                    0 <= k < j < pending.len() ==> #[trigger] pending[k].0 + 4 <= #[trigger] pending[j].0
                        || pending[j].0 + 4 <= pending[k].0,
                i <= pending.len(),
                mem.wf(),
                mem@.len() == old(mem)@.len(),
                start <= mem.spec_next_alloc() <= start + late_link_total(pending.subrange(0, i as int)),
                forall|k: int|
                    0 <= k < i ==> #[trigger] linked_entry_ok(pending[k], resolved@[k], mem@, start as int, mem.spec_next_alloc() as int),
                forall|a: int|
                    0 <= a < start && !in_pending_slot(pending, a) ==> #[trigger] mem@[a] == old(mem)@[a],
                i == 0 ==> *mem == *old(mem),
            decreases pending.len() - i,
        {
            proof {
                lemma_late_link_total_mono(pending, i as int);
            }
            let (slot, constant) = to_link[i];
            let ghost before = mem@;
            let ghost next_before = mem.spec_next_alloc();
            let value = build_late_constant(mem, constant, resolved[i]);
            let ghost mid = mem@;
            mem.write_u32(slot as u64, value);
            proof {
                assert(pending.subrange(0, i + 1).drop_last() =~= pending.subrange(0, i as int));
                assert forall|k: int| 0 <= k < i + 1 implies #[trigger] linked_entry_ok(pending[k], resolved@[k], mem@, start as int, mem.spec_next_alloc() as int) by {
                    if k < i {
                        assert(linked_entry_ok(pending[k], resolved@[k], before, start as int, next_before as int));
                        let v = le_u32(before, pending[k].0 as int);
                        lemma_le_u32_unchanged(before, mid, next_before as int, late_link_size(constant) as int, pending[k].0 as int);
                        lemma_le_u32_unchanged(mid, mem@, slot as int, 4, pending[k].0 as int);
                        lemma_late_linked_frame(pending[k].1, resolved@[k], before, mid, v, next_before as int, late_link_size(constant) as int);
                        lemma_late_linked_frame(pending[k].1, resolved@[k], mid, mem@, v, slot as int, 4);
                    } else {
                        lemma_late_linked_frame(constant, resolved@[i as int], mid, mem@, value, slot as int, 4);
                    }
                }
                assert forall|a: int|
                    0 <= a < start && !in_pending_slot(pending, a) implies #[trigger] mem@[a] == old(mem)@[a] by {
                    if slot <= a < slot + 4 {
                        assert(pending[i as int].0 <= a < pending[i as int].0 + 4);
                    }
                    assert(mid[a] == before[a]);
                }
            }
            i = i + 1;
        }
        proof {
            assert(pending.subrange(0, pending.len() as int) =~= pending);
            assert forall|i: int| 0 <= i < pending.len() implies late_linked(
                #[trigger] pending[i].1,
                resolved@[i],
                mem@,
                le_u32(mem@, pending[i].0 as int),
            ) by {
                assert(linked_entry_ok(pending[i], resolved@[i], mem@, start as int, mem.spec_next_alloc() as int));
            }
        }
    }
}

/// A linked constant's slot holds what [late_linked] describes, and its data
/// was allocated between `start` and `next`.
pub open spec fn linked_entry_ok(entry: (u32, HostConstant), resolved: u32, mem: Seq<u8>, start: int, next: int) -> bool {
    let v = le_u32(mem, entry.0 as int);
    &&& late_linked(entry.1, resolved, mem, v)
    &&& (entry.1 is Custom || (start <= v && v + late_link_size(entry.1) <= next))
}


// ----------------------------------------------------
// Non-lazy linking
// ----------------------------------------------------

pub open spec fn objc_class_prefix() -> Seq<u8> {
    seq![95u8, 79u8, 66u8, 74u8, 67u8, 95u8, 67u8, 76u8, 65u8, 83u8, 83u8, 95u8, 36u8, 95u8]
}

pub open spec fn objc_metaclass_prefix() -> Seq<u8> {
    seq![95u8, 79u8, 66u8, 74u8, 67u8, 95u8, 77u8, 69u8, 84u8, 65u8, 67u8, 76u8, 65u8, 83u8, 83u8, 95u8, 36u8, 95u8]
}

pub open spec fn cf_constant_string_class_reference() -> Seq<u8> {
    seq![95u8, 95u8, 95u8, 67u8, 70u8, 67u8, 111u8, 110u8, 115u8, 116u8, 97u8, 110u8, 116u8, 83u8, 116u8, 114u8, 105u8, 110u8, 103u8, 67u8, 108u8, 97u8, 115u8, 115u8, 82u8, 101u8, 102u8, 101u8, 114u8, 101u8, 110u8, 99u8, 101u8]
}

pub open spec fn stack_chk_guard() -> Seq<u8> {
    seq![95u8, 95u8, 95u8, 115u8, 116u8, 97u8, 99u8, 107u8, 95u8, 99u8, 104u8, 107u8, 95u8, 103u8, 117u8, 97u8, 114u8, 100u8]
}

fn objc_class_prefix_bytes() -> (v: Vec<u8>)
    ensures
        v@ == objc_class_prefix(),
{
    vec![95u8, 79u8, 66u8, 74u8, 67u8, 95u8, 67u8, 76u8, 65u8, 83u8, 83u8, 95u8, 36u8, 95u8]
}

fn objc_metaclass_prefix_bytes() -> (v: Vec<u8>)
    ensures
        v@ == objc_metaclass_prefix(),
{
    vec![95u8, 79u8, 66u8, 74u8, 67u8, 95u8, 77u8, 69u8, 84u8, 65u8, 67u8, 76u8, 65u8, 83u8, 83u8, 95u8, 36u8, 95u8]
}

fn cf_constant_string_class_reference_bytes() -> (v: Vec<u8>)
    ensures
        v@ == cf_constant_string_class_reference(),
{
    vec![95u8, 95u8, 95u8, 67u8, 70u8, 67u8, 111u8, 110u8, 115u8, 116u8, 97u8, 110u8, 116u8, 83u8, 116u8, 114u8, 105u8, 110u8, 103u8, 67u8, 108u8, 97u8, 115u8, 115u8, 82u8, 101u8, 102u8, 101u8, 114u8, 101u8, 110u8, 99u8, 101u8]
}

fn stack_chk_guard_bytes() -> (v: Vec<u8>)
    ensures
        v@ == stack_chk_guard(),
{
    vec![95u8, 95u8, 95u8, 115u8, 116u8, 97u8, 99u8, 107u8, 95u8, 99u8, 104u8, 107u8, 95u8, 103u8, 117u8, 97u8, 114u8, 100u8]
}

/// `a + b` modulo 2^32.
pub open spec fn wrap_add(a: u32, b: u32) -> u32 {
    if a + b > u32::MAX {
        (a + b - 0x1_0000_0000) as u32
    } else {
        (a + b) as u32
    }
}

/// The value of the `___stack_chk_guard` sentinel: stack-protected guest
/// functions only need it to be non-zero.
pub const STACK_CHK_GUARD_CANARY: u32 = 0xDEAD_C0DE;

/// A relocation against an Objective-C class, which the Objective-C runtime
/// has to resolve: the slot at `ptr_ptr` gets the class's address plus
/// `offset`.
pub struct ClassLink {
    pub ptr_ptr: u32,
    pub class_name: Vec<u8>,
    pub is_metaclass: bool,
    pub offset: u32,
}

/// What became of one external relocation.
pub enum RelocationOutcome {
    /// The slot now holds this value.
    Written(u32),
    /// The slot refers to an Objective-C class.
    Class(ClassLink),
    /// The symbol is a host constant, which is linked through the non-lazy
    /// symbol pointers instead.
    Constant,
    /// Nothing exports the symbol.
    Unhandled,
}

/// Writes the address of a resolved Objective-C class into a relocation
/// slot, applying the slot's offset.
pub fn apply_class_link(mem: &mut Mem, link: &ClassLink, class_addr: u32)
    requires
        link.ptr_ptr + 4 <= old(mem)@.len(),
    ensures
        le_u32(final(mem)@, link.ptr_ptr as int) == wrap_add(class_addr, link.offset),
        only_changed(old(mem)@, final(mem)@, link.ptr_ptr as int, 4),
        final(mem).spec_next_alloc() == old(mem).spec_next_alloc(),
        old(mem).wf() ==> final(mem).wf(),
{
    mem.write_u32(link.ptr_ptr as u64, class_addr.wrapping_add(link.offset));
}

impl Dyld {
    /// Links one external relocation: the slot at `ptr_ptr`, which holds an
    /// offset, gets the address of the symbol `name` plus that offset. The
    /// symbol may be an Objective-C class (left to the runtime), the
    /// constant-string class (null), a symbol exported by one of the binaries
    /// or a host function (reached through its guest function, so the same
    /// symbol always gets the same address).
    #[verifier::spinoff_prover]
    pub fn link_external_relocation(
        &mut self,
        bins: &Vec<MachO>,
        mem: &mut Mem,
        dylibs: &Vec<HostDylib>,
        ptr_ptr: u32,
        name: &Vec<u8>,
    ) -> (out: RelocationOutcome)
        requires
            old(mem).wf(),
            old(mem).can_allocate(8),
            ptr_ptr + 4 <= old(mem)@.len(),
            old(self).spec_linked().len() + Dyld::SVC_LINKED_FUNCTIONS_BASE <= u32::MAX,
        ensures
            final(mem).wf(),
            final(mem)@.len() == old(mem)@.len(),
            old(mem).spec_next_alloc() <= final(mem).spec_next_alloc() <= old(mem).spec_next_alloc() + 8,
            final(self).spec_linked().len() <= old(self).spec_linked().len() + 1,
            final(self).spec_is_64_bit() == old(self).spec_is_64_bit(),
            final(self).spec_return_to_host() == old(self).spec_return_to_host(),
            final(self).spec_thread_exit() == old(self).spec_thread_exit(),
            final(self).spec_pending_constants() == old(self).spec_pending_constants(),
            cache_prefix(old(self).spec_cache(), final(self).spec_cache()),
            forall|a: int|
                0 <= a < old(mem).spec_next_alloc() && !(ptr_ptr <= a < ptr_ptr + 4)
                    ==> #[trigger] final(mem)@[a] == old(mem)@[a],
            ({
                let offset = le_u32(old(mem)@, ptr_ptr as int);
                if spec_strip_prefix(name@, objc_class_prefix()) is Some {
                    &&& out matches RelocationOutcome::Class(link) && link.ptr_ptr == ptr_ptr
                        && Some(link.class_name@) == spec_strip_prefix(name@, objc_class_prefix())
                        && !link.is_metaclass && link.offset == offset
                    &&& *final(mem) == *old(mem)
                    &&& *final(self) == *old(self)
                } else if spec_strip_prefix(name@, objc_metaclass_prefix()) is Some {
                    &&& out matches RelocationOutcome::Class(link) && link.ptr_ptr == ptr_ptr
                        && Some(link.class_name@) == spec_strip_prefix(name@, objc_metaclass_prefix())
                        && link.is_metaclass && link.offset == offset
                    &&& *final(mem) == *old(mem)
                    &&& *final(self) == *old(self)
                } else if name@ == cf_constant_string_class_reference() {
                    &&& out matches RelocationOutcome::Written(v) && v == offset
                    &&& le_u32(final(mem)@, ptr_ptr as int) == offset
                    &&& *final(self) == *old(self)
                } else if bins_lookup(bins@, name@) is Some {
                    let v = wrap_add(bins_lookup(bins@, name@).unwrap(), offset);
                    &&& out matches RelocationOutcome::Written(w) && w == v
                    &&& le_u32(final(mem)@, ptr_ptr as int) == v
                    &&& *final(self) == *old(self)
                } else if has_host_function(dylibs@, name@) {
                    let g = cache_lookup(final(self).spec_cache(), name@);
                    &&& g is Some
                    &&& (cache_lookup(old(self).spec_cache(), name@) is Some ==> g == cache_lookup(
                        old(self).spec_cache(),
                        name@,
                    ))
                    &&& out matches RelocationOutcome::Written(w) && w == wrap_add(
                        g.unwrap().spec_addr() as u32,
                        offset,
                    )
                    &&& le_u32(final(mem)@, ptr_ptr as int) == wrap_add(
                        g.unwrap().spec_addr() as u32,
                        offset,
                    )
                } else if has_host_constant(dylibs@, name@) {
                    &&& out is Constant
                    &&& *final(mem) == *old(mem)
                    &&& *final(self) == *old(self)
                } else {
                    &&& out is Unhandled
                    &&& *final(mem) == *old(mem)
                    &&& *final(self) == *old(self)
                }
            }),
    {
        let _len = mem.len();
        let offset = mem.read_u32(ptr_ptr as u64);
        let class_prefix = objc_class_prefix_bytes();
        if let Some(class_name) = strip_prefix(name.as_slice(), class_prefix.as_slice()) {
            return RelocationOutcome::Class(
                ClassLink { ptr_ptr, class_name, is_metaclass: false, offset },
            );
        }
        let metaclass_prefix = objc_metaclass_prefix_bytes();
        if let Some(class_name) = strip_prefix(name.as_slice(), metaclass_prefix.as_slice()) {
            return RelocationOutcome::Class(
                ClassLink { ptr_ptr, class_name, is_metaclass: true, offset },
            );
        }
        let cf_ref = cf_constant_string_class_reference_bytes();
        let target: u32 = if bytes_eq(name.as_slice(), cf_ref.as_slice()) {
            // The constant strings' class pointer: see the registration of
            // constant strings, which doesn't use it.
            0
        } else if let Some(addr) = lookup_in_bins(bins, name.as_slice()) {
            addr
        } else {
            match self.create_proc_address_no_inval(mem, dylibs, name.as_slice()) {
                Ok(f) => f.addr_with_thumb_bit() as u32,
                Err(()) => {
                    if search_host_constants(dylibs, name.as_slice()).is_some() {
                        return RelocationOutcome::Constant;
                    }
                    return RelocationOutcome::Unhandled;
                },
            }
        };
        let value = target.wrapping_add(offset);
        let ghost before = mem@;
        mem.write_u32(ptr_ptr as u64, value);
        RelocationOutcome::Written(value)
    }
}


impl Dyld {
    /// Links one non-lazy symbol pointer: the slot at `ptr_ptr` gets the
    /// address of `symbol`, looked up first in the binaries, then among the
    /// host functions (reached through their guest functions). A host
    /// constant is left for [Self::do_late_linking]. `___stack_chk_guard`
    /// gets a fresh word holding a non-zero canary.
    #[verifier::spinoff_prover]
    pub fn link_non_lazy_pointer(
        &mut self,
        bins: &Vec<MachO>,
        mem: &mut Mem,
        dylibs: &Vec<HostDylib>,
        ptr_ptr: u32,
        symbol: &Vec<u8>,
    ) -> (out: RelocationOutcome)
        requires
            old(mem).wf(),
            old(mem).can_allocate(8),
            ptr_ptr + 4 <= old(mem)@.len(),
            old(self).spec_linked().len() + Dyld::SVC_LINKED_FUNCTIONS_BASE <= u32::MAX,
        ensures
            final(mem).wf(),
            final(mem)@.len() == old(mem)@.len(),
            old(mem).spec_next_alloc() <= final(mem).spec_next_alloc() <= old(mem).spec_next_alloc() + 8,
            final(self).spec_linked().len() <= old(self).spec_linked().len() + 1,
            final(self).spec_is_64_bit() == old(self).spec_is_64_bit(),
            final(self).spec_return_to_host() == old(self).spec_return_to_host(),
            final(self).spec_thread_exit() == old(self).spec_thread_exit(),
            cache_prefix(old(self).spec_cache(), final(self).spec_cache()),
            forall|a: int|
                0 <= a < old(mem).spec_next_alloc() && !(ptr_ptr <= a < ptr_ptr + 4)
                    ==> #[trigger] final(mem)@[a] == old(mem)@[a],
            if bins_lookup(bins@, symbol@) is Some {
                let v = bins_lookup(bins@, symbol@).unwrap();
                &&& out matches RelocationOutcome::Written(w) && w == v
                &&& le_u32(final(mem)@, ptr_ptr as int) == v
                &&& *final(self) == *old(self)
            } else if has_host_function(dylibs@, symbol@) {
                let g = cache_lookup(final(self).spec_cache(), symbol@);
                &&& g is Some
                &&& (cache_lookup(old(self).spec_cache(), symbol@) is Some ==> g == cache_lookup(
                    old(self).spec_cache(),
                    symbol@,
                ))
                &&& out matches RelocationOutcome::Written(w) && w == g.unwrap().spec_addr() as u32
                &&& le_u32(final(mem)@, ptr_ptr as int) == g.unwrap().spec_addr() as u32
                &&& final(self).spec_pending_constants() == old(self).spec_pending_constants()
            } else if has_host_constant(dylibs@, symbol@) {
                &&& out is Constant
                &&& *final(mem) == *old(mem)
                &&& final(self).spec_pending_constants() == old(self).spec_pending_constants().push(
                    (ptr_ptr, host_constant_lookup(dylibs@, symbol@).unwrap().1),
                )
                &&& final(self).spec_linked() == old(self).spec_linked()
                &&& final(self).spec_cache() == old(self).spec_cache()
            } else if symbol@ == stack_chk_guard() {
                let canary_ptr = old(mem).spec_next_alloc();
                &&& out matches RelocationOutcome::Written(w) && w == canary_ptr as u32
                &&& ptr_ptr + 4 <= canary_ptr ==> le_u32(final(mem)@, canary_ptr as int)
                    == STACK_CHK_GUARD_CANARY
                &&& le_u32(final(mem)@, ptr_ptr as int) == canary_ptr as u32
                &&& final(mem).spec_next_alloc() == canary_ptr + 8
                &&& *final(self) == *old(self)
            } else {
                &&& out is Unhandled
                &&& *final(mem) == *old(mem)
                &&& *final(self) == *old(self)
            },
    {
        let _len = mem.len();
        if let Some(addr) = lookup_in_bins(bins, symbol.as_slice()) {
            mem.write_u32(ptr_ptr as u64, addr);
            return RelocationOutcome::Written(addr);
        }
        // The same symbol always gets the same guest function.
        if let Ok(f) = self.create_proc_address_no_inval(mem, dylibs, symbol.as_slice()) {
            let addr = f.addr_with_thumb_bit() as u32;
            mem.write_u32(ptr_ptr as u64, addr);
            return RelocationOutcome::Written(addr);
        }
        if let Some((_, constant)) = search_host_constants(dylibs, symbol.as_slice()) {
            // Building a constant can need the whole emulator (an NSString,
            // say), so it waits for late linking.
            self.constants_to_link_later.push((ptr_ptr, constant));
            return RelocationOutcome::Constant;
        }
        let guard = stack_chk_guard_bytes();
        if bytes_eq(symbol.as_slice(), guard.as_slice()) {
            // Stack-protected functions compare against this word, so it
            // only needs to be non-zero.
            let canary_ptr = mem.allocate(4);
            mem.write_u32(canary_ptr, STACK_CHK_GUARD_CANARY);
            let ghost m1 = mem@;
            mem.write_u32(ptr_ptr as u64, canary_ptr as u32);
            proof {
                if ptr_ptr + 4 <= canary_ptr {
                    crate::mem::lemma_le_u32_frame(
                        m1,
                        ptr_ptr as int,
                        u32_le_bytes(canary_ptr as u32),
                        canary_ptr as int,
                    );
                }
            }
            return RelocationOutcome::Written(canary_ptr as u32);
        }
        RelocationOutcome::Unhandled
    }
}


/// A copy of a byte string.
pub fn copy_bytes(v: &Vec<u8>) -> (r: Vec<u8>)
    ensures
        r@ == v@,
{
    let r = v.clone();
    assert(r@ =~= v@);
    r
}

/// What [Dyld::do_non_lazy_linking] leaves to others: the Objective-C class
/// references, which the Objective-C runtime resolves, and the symbols
/// nothing exports (`(slot address, name)`).
pub struct NonLazyLinkReport {
    pub class_links: Vec<ClassLink>,
    pub unhandled_relocations: Vec<(u32, Vec<u8>)>,
    pub unhandled_symbols: Vec<(u32, Vec<u8>)>,
}

/// Whether an external relocation names an Objective-C class or metaclass.
pub open spec fn is_class_relocation(name: Seq<u8>) -> bool {
    spec_strip_prefix(name, objc_class_prefix()) is Some || spec_strip_prefix(
        name,
        objc_metaclass_prefix(),
    ) is Some
}

/// Whether nothing resolves the external relocation `name`.
pub open spec fn relocation_unhandled(bins: Seq<MachO>, dylibs: Seq<HostDylib>, name: Seq<u8>) -> bool {
    &&& !is_class_relocation(name)
    &&& name != cf_constant_string_class_reference()
    &&& bins_lookup(bins, name) is None
    &&& !has_host_function(dylibs, name)
    &&& !has_host_constant(dylibs, name)
}

/// Whether nothing resolves the non-lazy symbol `name`.
pub open spec fn symbol_unhandled(bins: Seq<MachO>, dylibs: Seq<HostDylib>, name: Seq<u8>) -> bool {
    &&& bins_lookup(bins, name) is None
    &&& !has_host_function(dylibs, name)
    &&& !has_host_constant(dylibs, name)
    &&& name != stack_chk_guard()
}

/// Whether the non-lazy symbol `name` is a host constant (and nothing that
/// comes before constants in the search exports it).
pub open spec fn symbol_is_constant(bins: Seq<MachO>, dylibs: Seq<HostDylib>, name: Seq<u8>) -> bool {
    &&& bins_lookup(bins, name) is None
    &&& !has_host_function(dylibs, name)
    &&& has_host_constant(dylibs, name)
}

/// The class references among `relocs`, in order: slot, class name and
/// whether it is the metaclass.
pub open spec fn class_relocations(relocs: Seq<(u32, Vec<u8>)>) -> Seq<(u32, Seq<u8>, bool)>
    decreases relocs.len(),
{
    if relocs.len() == 0 {
        Seq::empty()
    } else {
        let prev = class_relocations(relocs.drop_last());
        let (slot, name) = relocs.last();
        match spec_strip_prefix(name@, objc_class_prefix()) {
            Some(class) => prev.push((slot, class, false)),
            None => match spec_strip_prefix(name@, objc_metaclass_prefix()) {
                Some(class) => prev.push((slot, class, true)),
                None => prev,
            },
        }
    }
}

/// The unresolved relocations among `relocs`, in order.
pub open spec fn unhandled_relocations(
    bins: Seq<MachO>,
    dylibs: Seq<HostDylib>,
    relocs: Seq<(u32, Vec<u8>)>,
) -> Seq<(u32, Seq<u8>)>
    decreases relocs.len(),
{
    if relocs.len() == 0 {
        Seq::empty()
    } else {
        let prev = unhandled_relocations(bins, dylibs, relocs.drop_last());
        let (slot, name) = relocs.last();
        if relocation_unhandled(bins, dylibs, name@) {
            prev.push((slot, name@))
        } else {
            prev
        }
    }
}

/// The unresolved symbols among the first `n` non-lazy pointers of a
/// section at `addr`, in order.
pub open spec fn unhandled_symbols(
    bins: Seq<MachO>,
    dylibs: Seq<HostDylib>,
    addr: u32,
    syms: Seq<Option<Vec<u8>>>,
    n: nat,
) -> Seq<(u32, Seq<u8>)>
    decreases n,
{
    if n == 0 {
        Seq::empty()
    } else {
        let prev = unhandled_symbols(bins, dylibs, addr, syms, (n - 1) as nat);
        match syms[n - 1] {
            Some(name) => if symbol_unhandled(bins, dylibs, name@) {
                prev.push(((addr + 4 * (n - 1)) as u32, name@))
            } else {
                prev
            },
            None => prev,
        }
    }
}

/// The constants that the first `n` non-lazy pointers of a section at
/// `addr` leave for late linking, in order.
pub open spec fn pending_symbols(
    bins: Seq<MachO>,
    dylibs: Seq<HostDylib>,
    addr: u32,
    syms: Seq<Option<Vec<u8>>>,
    n: nat,
) -> Seq<(u32, HostConstant)>
    decreases n,
{
    if n == 0 {
        Seq::empty()
    } else {
        let prev = pending_symbols(bins, dylibs, addr, syms, (n - 1) as nat);
        match syms[n - 1] {
            Some(name) => if symbol_is_constant(bins, dylibs, name@) {
                prev.push(
                    ((addr + 4 * (n - 1)) as u32, host_constant_lookup(dylibs, name@).unwrap().1),
                )
            } else {
                prev
            },
            None => prev,
        }
    }
}

pub open spec fn slot_pairs(v: Seq<(u32, Vec<u8>)>) -> Seq<(u32, Seq<u8>)> {
    v.map_values(|e: (u32, Vec<u8>)| (e.0, e.1@))
}

pub open spec fn class_link_views(v: Seq<ClassLink>) -> Seq<(u32, Seq<u8>, bool)> {
    v.map_values(|l: ClassLink| (l.ptr_ptr, l.class_name@, l.is_metaclass))
}

/// Number of non-lazy symbol pointers in a binary.
pub open spec fn non_lazy_count(bin: MachO) -> nat {
    match bin.non_lazy_symbol_pointers {
        Some(sec) => (sec.size / 4) as nat,
        None => 0,
    }
}

/// The binary's non-lazy pointer section, if any, is well formed: four-byte
/// entries, each with its symbol entry, inside memory of `mem_len` bytes.
pub open spec fn non_lazy_section_ok(bin: MachO, mem_len: nat) -> bool {
    match bin.non_lazy_symbol_pointers {
        Some(sec) => {
            &&& sec.dyld_indirect_symbol_info is Some
            &&& sec.dyld_indirect_symbol_info.unwrap().entry_size == 4
            &&& sec.size % 4 == 0
            &&& sec.addr + sec.size <= mem_len
            &&& sec.addr + sec.size <= u32::MAX
            &&& sec.dyld_indirect_symbol_info.unwrap().indirect_undef_symbols@.len() >= sec.size / 4
        },
        None => true,
    }
}

/// The binary's relocation slots and non-lazy pointers lie below `below`
/// and do not overlap one another.
pub open spec fn slots_separate(bin: MachO, below: int) -> bool {
    let relocs = bin.external_relocations@;
    &&& forall|i: int| 0 <= i < relocs.len() ==> #[trigger] relocs[i].0 + 4 <= below
    &&& forall|i: int, j: int|
        #![trigger relocs[i], relocs[j]]
        0 <= i < relocs.len() && 0 <= j < relocs.len() && i != j ==> relocs[i].0 + 4 <= relocs[j].0
            || relocs[j].0 + 4 <= relocs[i].0
    &&& bin.non_lazy_symbol_pointers matches Some(sec) ==> {
        &&& sec.addr + sec.size <= below
        &&& forall|i: int|
            0 <= i < relocs.len() ==> #[trigger] relocs[i].0 + 4 <= sec.addr || relocs[i].0
                >= sec.addr + sec.size
    }
}

proof fn lemma_le_u32_same(before: Seq<u8>, after: Seq<u8>, a: int)
    requires
        0 <= a,
        a + 4 <= before.len(),
        before.len() == after.len(),
        after[a] == before[a],
        after[a + 1] == before[a + 1],
        after[a + 2] == before[a + 2],
        after[a + 3] == before[a + 3],
    ensures
        le_u32(after, a) == le_u32(before, a),
{
}


/// The non-lazy pointers of `bin` that no export resolves.
pub open spec fn non_lazy_unhandled(bins: Seq<MachO>, dylibs: Seq<HostDylib>, bin: MachO) -> Seq<
    (u32, Seq<u8>),
> {
    match bin.non_lazy_symbol_pointers {
        Some(sec) => unhandled_symbols(
            bins,
            dylibs,
            sec.addr,
            sec.dyld_indirect_symbol_info.unwrap().indirect_undef_symbols@,
            (sec.size / 4) as nat,
        ),
        None => Seq::empty(),
    }
}

/// The non-lazy pointers of `bin` that wait for a host constant.
pub open spec fn non_lazy_pending(bins: Seq<MachO>, dylibs: Seq<HostDylib>, bin: MachO) -> Seq<
    (u32, HostConstant),
> {
    match bin.non_lazy_symbol_pointers {
        Some(sec) => pending_symbols(
            bins,
            dylibs,
            sec.addr,
            sec.dyld_indirect_symbol_info.unwrap().indirect_undef_symbols@,
            (sec.size / 4) as nat,
        ),
        None => Seq::empty(),
    }
}

/// The address that one of `bins` exports the non-lazy symbol `sym` at.
pub open spec fn symbol_export(bins: Seq<MachO>, sym: Option<Vec<u8>>) -> Option<u32> {
    match sym {
        Some(name) => bins_lookup(bins, name@),
        None => None,
    }
}

/// Whether the external relocation `name` resolves to an export of one of
/// `bins`.
pub open spec fn relocation_exported(bins: Seq<MachO>, name: Seq<u8>) -> bool {
    &&& !is_class_relocation(name)
    &&& name != cf_constant_string_class_reference()
    &&& bins_lookup(bins, name) is Some
}

/// Whether the external relocation `name` resolves to a host function.
pub open spec fn relocation_to_host(bins: Seq<MachO>, dylibs: Seq<HostDylib>, name: Seq<u8>) -> bool {
    &&& !is_class_relocation(name)
    &&& name != cf_constant_string_class_reference()
    &&& bins_lookup(bins, name) is None
    &&& has_host_function(dylibs, name)
}

/// Whether the non-lazy symbol pointer for `sym` resolves to a host
/// function.
pub open spec fn symbol_to_host(bins: Seq<MachO>, dylibs: Seq<HostDylib>, sym: Option<Vec<u8>>) -> bool {
    sym matches Some(name) && bins_lookup(bins, name@) is None && has_host_function(dylibs, name@)
}

/// The address that a relocation or pointer to the host function `name` is
/// given: that of its guest function in `cache`.
pub open spec fn host_function_addr(cache: Seq<(&'static str, GuestFunction)>, name: Seq<u8>) -> u32 {
    cache_lookup(cache, name).unwrap().spec_addr() as u32
}

/// Whether the byte at `a` lies in a slot that non-lazy linking of `bin`
/// writes: one of its relocation slots or its non-lazy pointer section.
pub open spec fn in_link_slots(bin: MachO, a: int) -> bool {
    ||| exists|i: int|
        0 <= i < bin.external_relocations@.len() && #[trigger] bin.external_relocations@[i].0 <= a
            < bin.external_relocations@[i].0 + 4
    ||| bin.non_lazy_symbol_pointers matches Some(sec) && sec.addr <= a < sec.addr + sec.size
}

/// Whether linking leaves the slot of the external relocation `name` as it
/// was: a class reference (left to the Objective-C runtime), the
/// constant-string class reference (resolved to null, so the slot keeps its
/// offset), a host constant or a name that nothing resolves.
pub open spec fn relocation_kept(bins: Seq<MachO>, dylibs: Seq<HostDylib>, name: Seq<u8>) -> bool {
    !relocation_exported(bins, name) && !relocation_to_host(bins, dylibs, name)
}

/// Whether linking leaves the non-lazy pointer for `sym` as it was: an
/// empty entry, a host constant (linked later) or a symbol that nothing
/// resolves.
pub open spec fn symbol_kept(bins: Seq<MachO>, dylibs: Seq<HostDylib>, sym: Option<Vec<u8>>) -> bool {
    match sym {
        Some(name) => symbol_is_constant(bins, dylibs, name@) || symbol_unhandled(
            bins,
            dylibs,
            name@,
        ),
        None => true,
    }
}

/// Whether the non-lazy pointer for `sym` is the stack guard,
/// `___stack_chk_guard`, which nothing else provides.
pub open spec fn symbol_is_guard(bins: Seq<MachO>, dylibs: Seq<HostDylib>, sym: Option<Vec<u8>>) -> bool {
    &&& sym matches Some(name)
    &&& bins_lookup(bins, sym.unwrap()@) is None
    &&& !has_host_function(dylibs, sym.unwrap()@)
    &&& !has_host_constant(dylibs, sym.unwrap()@)
    &&& sym.unwrap()@ == stack_chk_guard()
}

impl Dyld {
    /// Links the non-lazy symbols of a loaded binary: its external
    /// relocations, then its non-lazy symbol pointers (see
    /// [Self::link_external_relocation] and [Self::link_non_lazy_pointer]
    /// for each). The linking happens up front, so what cannot be resolved is
    /// reported rather than failing at its first use. `bins` are the binaries
    /// that symbols are looked up in.
    #[verifier::spinoff_prover]
    pub fn do_non_lazy_linking(
        &mut self,
        bin: &MachO,
        bins: &Vec<MachO>,
        mem: &mut Mem,
        dylibs: &Vec<HostDylib>,
    ) -> (report: NonLazyLinkReport)
        requires
            old(mem).wf(),
            old(mem).spec_next_alloc() + 8 * (bin.external_relocations@.len() + non_lazy_count(*bin))
                + 8 <= old(mem)@.len(),
            forall|i: int|
                0 <= i < bin.external_relocations@.len() ==> #[trigger] bin.external_relocations@[i].0
                    + 4 <= old(mem)@.len(),
            non_lazy_section_ok(*bin, old(mem)@.len()),
            old(self).spec_linked().len() + Dyld::SVC_LINKED_FUNCTIONS_BASE
                + bin.external_relocations@.len() + non_lazy_count(*bin) <= u32::MAX,
        ensures
            final(mem).wf(),
            final(mem)@.len() == old(mem)@.len(),
            old(mem).spec_next_alloc() <= final(mem).spec_next_alloc() <= old(mem).spec_next_alloc()
                + 8 * (bin.external_relocations@.len() + non_lazy_count(*bin)),
            final(self).spec_linked().len() <= old(self).spec_linked().len()
                + bin.external_relocations@.len() + non_lazy_count(*bin),
            final(self).spec_is_64_bit() == old(self).spec_is_64_bit(),
            final(self).spec_return_to_host() == old(self).spec_return_to_host(),
            final(self).spec_thread_exit() == old(self).spec_thread_exit(),
            final(self).spec_pending_constants() == old(self).spec_pending_constants()
                + non_lazy_pending(bins@, dylibs@, *bin),
            class_link_views(report.class_links@) == class_relocations(bin.external_relocations@),
            slot_pairs(report.unhandled_relocations@) == unhandled_relocations(
                bins@,
                dylibs@,
                bin.external_relocations@,
            ),
            slot_pairs(report.unhandled_symbols@) == non_lazy_unhandled(bins@, dylibs@, *bin),
            forall|a: int|
                0 <= a < old(mem).spec_next_alloc() && !in_link_slots(*bin, a)
                    ==> #[trigger] final(mem)@[a] == old(mem)@[a],
            slots_separate(*bin, old(mem).spec_next_alloc() as int) ==> {
                &&& forall|k: int|
                    0 <= k < report.class_links@.len() ==> #[trigger] report.class_links@[k].offset
                        == le_u32(old(mem)@, report.class_links@[k].ptr_ptr as int)
                &&& forall|i: int|
                    0 <= i < bin.external_relocations@.len() && relocation_exported(
                        bins@,
                        #[trigger] bin.external_relocations@[i].1@,
                    ) ==> le_u32(final(mem)@, bin.external_relocations@[i].0 as int) == wrap_add(
                        bins_lookup(bins@, bin.external_relocations@[i].1@).unwrap(),
                        le_u32(old(mem)@, bin.external_relocations@[i].0 as int),
                    )
                &&& bin.non_lazy_symbol_pointers matches Some(sec) ==> forall|j: int|
                    0 <= j < sec.size / 4 && symbol_export(
                        bins@,
                        #[trigger] sec.dyld_indirect_symbol_info.unwrap().indirect_undef_symbols@[j],
                    ) is Some ==> le_u32(final(mem)@, sec.addr + 4 * j) == symbol_export(
                        bins@,
                        sec.dyld_indirect_symbol_info.unwrap().indirect_undef_symbols@[j],
                    ).unwrap()
                &&& forall|i: int|
                    0 <= i < bin.external_relocations@.len() && relocation_to_host(
                        bins@,
                        dylibs@,
                        #[trigger] bin.external_relocations@[i].1@,
                    ) ==> {
                        &&& cache_lookup(final(self).spec_cache(), bin.external_relocations@[i].1@) is Some
                        &&& le_u32(final(mem)@, bin.external_relocations@[i].0 as int) == wrap_add(
                            host_function_addr(final(self).spec_cache(), bin.external_relocations@[i].1@),
                            le_u32(old(mem)@, bin.external_relocations@[i].0 as int),
                        )
                    }
                &&& bin.non_lazy_symbol_pointers matches Some(sec) ==> forall|j: int|
                    0 <= j < sec.size / 4 && symbol_to_host(
                        bins@,
                        dylibs@,
                        #[trigger] sec.dyld_indirect_symbol_info.unwrap().indirect_undef_symbols@[j],
                    ) ==> {
                        let name = sec.dyld_indirect_symbol_info.unwrap().indirect_undef_symbols@[j].unwrap()@;
                        &&& cache_lookup(final(self).spec_cache(), name) is Some
                        &&& le_u32(final(mem)@, sec.addr + 4 * j) == host_function_addr(
                            final(self).spec_cache(),
                            name,
                        )
                    }
                &&& forall|i: int|
                    0 <= i < bin.external_relocations@.len() && relocation_kept(
                        bins@,
                        dylibs@,
                        #[trigger] bin.external_relocations@[i].1@,
                    ) ==> le_u32(final(mem)@, bin.external_relocations@[i].0 as int) == le_u32(
                        old(mem)@,
                        bin.external_relocations@[i].0 as int,
                    )
                &&& bin.non_lazy_symbol_pointers matches Some(sec) ==> forall|j: int|
                    0 <= j < sec.size / 4 && symbol_kept(
                        bins@,
                        dylibs@,
                        #[trigger] sec.dyld_indirect_symbol_info.unwrap().indirect_undef_symbols@[j],
                    ) ==> le_u32(final(mem)@, sec.addr + 4 * j) == le_u32(old(mem)@, sec.addr + 4 * j)
                &&& old(mem)@.len() <= 0x1_0000_0000 ==> (bin.non_lazy_symbol_pointers matches Some(sec)
                    ==> forall|j: int|
                    0 <= j < sec.size / 4 && symbol_is_guard(
                        bins@,
                        dylibs@,
                        #[trigger] sec.dyld_indirect_symbol_info.unwrap().indirect_undef_symbols@[j],
                    ) ==> {
                        let canary = le_u32(final(mem)@, sec.addr + 4 * j);
                        &&& old(mem).spec_next_alloc() <= canary
                        &&& canary + 4 <= final(mem).spec_next_alloc()
                        &&& le_u32(final(mem)@, canary as int) == STACK_CHK_GUARD_CANARY
                    })
            },
            cache_prefix(old(self).spec_cache(), final(self).spec_cache()),
    {
        let _len = mem.len();
        let ghost mem0 = mem@;
        let ghost start: int = mem.spec_next_alloc() as int;
        let ghost self0 = *self;
        let ghost relocs = bin.external_relocations@;
        let ghost np = non_lazy_count(*bin);
        let ghost sep = slots_separate(*bin, start);
        let mut class_links: Vec<ClassLink> = Vec::new();
        let mut unhandled_relocs: Vec<(u32, Vec<u8>)> = Vec::new();
        let mut i: usize = 0;
        assert(relocs.take(0) =~= Seq::<(u32, Vec<u8>)>::empty());
        while i < bin.external_relocations.len()
            invariant
                relocs == bin.external_relocations@,
                np == non_lazy_count(*bin),
                sep == slots_separate(*bin, start),
                start == old(mem).spec_next_alloc(),
                mem0 == old(mem)@,
                i <= relocs.len(),
                mem.wf(),
                mem@.len() == mem0.len(),
                start <= mem.spec_next_alloc() <= start + 8 * i,
                start + 8 * (relocs.len() + np) + 8 <= mem0.len(),
                forall|j: int| 0 <= j < relocs.len() ==> #[trigger] relocs[j].0 + 4 <= mem0.len(),
                self0.spec_linked().len() + Dyld::SVC_LINKED_FUNCTIONS_BASE + relocs.len() + np
                    <= u32::MAX,
                self.spec_linked().len() <= self0.spec_linked().len() + i,
                self.spec_is_64_bit() == self0.spec_is_64_bit(),
                self.spec_return_to_host() == self0.spec_return_to_host(),
                self.spec_thread_exit() == self0.spec_thread_exit(),
                self.spec_pending_constants() == self0.spec_pending_constants(),
                class_link_views(class_links@) == class_relocations(relocs.take(i as int)),
                slot_pairs(unhandled_relocs@) == unhandled_relocations(
                    bins@,
                    dylibs@,
                    relocs.take(i as int),
                ),
                sep ==> forall|j: int|
                    i <= j < relocs.len() ==> le_u32(mem@, #[trigger] relocs[j].0 as int) == le_u32(
                        mem0,
                        relocs[j].0 as int,
                    ),
                sep ==> forall|k: int|
                    0 <= k < class_links@.len() ==> #[trigger] class_links@[k].offset == le_u32(
                        mem0,
                        class_links@[k].ptr_ptr as int,
                    ),
                sep ==> forall|j: int|
                    0 <= j < i && relocation_exported(bins@, #[trigger] relocs[j].1@) ==> le_u32(
                        mem@,
                        relocs[j].0 as int,
                    ) == wrap_add(
                        bins_lookup(bins@, relocs[j].1@).unwrap(),
                        le_u32(mem0, relocs[j].0 as int),
                    ),
                sep ==> forall|j: int|
                    0 <= j < i && relocation_kept(bins@, dylibs@, #[trigger] relocs[j].1@) ==> le_u32(
                        mem@,
                        relocs[j].0 as int,
                    ) == le_u32(mem0, relocs[j].0 as int),
                sep ==> (bin.non_lazy_symbol_pointers matches Some(sec) ==> forall|a: int|
                    sec.addr <= a < sec.addr + sec.size ==> #[trigger] mem@[a] == mem0[a]),
                forall|a: int|
                    0 <= a < start && !in_link_slots(*bin, a) ==> #[trigger] mem@[a] == mem0[a],
                cache_prefix(self0.spec_cache(), self.spec_cache()),
                sep ==> forall|j: int|
                    0 <= j < i && relocation_to_host(bins@, dylibs@, #[trigger] relocs[j].1@) ==> {
                        &&& cache_lookup(self.spec_cache(), relocs[j].1@) is Some
                        &&& le_u32(mem@, relocs[j].0 as int) == wrap_add(
                            host_function_addr(self.spec_cache(), relocs[j].1@),
                            le_u32(mem0, relocs[j].0 as int),
                        )
                    },
            decreases relocs.len() - i,
        {
            let ptr_ptr = bin.external_relocations[i].0;
            let name = &bin.external_relocations[i].1;
            let ghost m_before = mem@;
            let ghost cache_before = self.spec_cache();
            let ghost links_before = class_links@;
            let ghost unhandled_before = unhandled_relocs@;
            assert(relocs[i as int].0 + 4 <= mem0.len());
            let out = self.link_external_relocation(bins, mem, dylibs, ptr_ptr, name);
            proof {
                assert(relocs.take(i + 1).drop_last() =~= relocs.take(i as int));
                assert(relocs.take(i + 1).last() == relocs[i as int]);
            }
            match out {
                RelocationOutcome::Class(link) => {
                    class_links.push(link);
                    assert(class_link_views(class_links@) =~= class_link_views(links_before).push(
                        (link.ptr_ptr, link.class_name@, link.is_metaclass),
                    ));
                },
                RelocationOutcome::Unhandled => {
                    let copied = copy_bytes(name);
                    unhandled_relocs.push((ptr_ptr, copied));
                    assert(slot_pairs(unhandled_relocs@) =~= slot_pairs(unhandled_before).push(
                        (ptr_ptr, name@),
                    ));
                },
                _ => {},
            }
            proof {
                assert forall|a: int| 0 <= a < start && !in_link_slots(*bin, a) implies #[trigger] mem@[a]
                    == mem0[a] by {
                    if ptr_ptr <= a < ptr_ptr + 4 {
                        assert(relocs[i as int].0 <= a < relocs[i as int].0 + 4);
                    }
                    assert(mem@[a] == m_before[a]);
                }
                if sep {
                    if bin.non_lazy_symbol_pointers is Some {
                        let sec = bin.non_lazy_symbol_pointers.unwrap();
                        assert forall|a: int| sec.addr <= a < sec.addr + sec.size implies #[trigger] mem@[a]
                            == mem0[a] by {
                            assert(relocs[i as int].0 + 4 <= sec.addr || relocs[i as int].0 >= sec.addr
                                + sec.size);
                            assert(mem@[a] == m_before[a]);
                        }
                    }
                    assert forall|j: int|
                        0 <= j < i + 1 && relocation_kept(bins@, dylibs@, #[trigger] relocs[j].1@)
                            implies le_u32(mem@, relocs[j].0 as int) == le_u32(
                        mem0,
                        relocs[j].0 as int,
                    ) by {
                        let a = relocs[j].0 as int;
                        if j < i {
                            assert(relocs[j].0 + 4 <= start);
                            assert(relocs[i as int].0 + 4 <= relocs[j].0 || relocs[j].0 + 4
                                <= relocs[i as int].0);
                            assert(mem@[a] == m_before[a]);
                            assert(mem@[a + 1] == m_before[a + 1]);
                            assert(mem@[a + 2] == m_before[a + 2]);
                            assert(mem@[a + 3] == m_before[a + 3]);
                            lemma_le_u32_same(m_before, mem@, a);
                        }
                    }
                    assert forall|j: int|
                        i < j < relocs.len() implies le_u32(mem@, #[trigger] relocs[j].0 as int)
                        == le_u32(mem0, relocs[j].0 as int) by {
                        let a = relocs[j].0 as int;
                        assert(relocs[j].0 + 4 <= start);
                        assert(relocs[i as int].0 + 4 <= relocs[j].0 || relocs[j].0 + 4
                            <= relocs[i as int].0);
                        assert(mem@[a] == m_before[a]);
                        assert(mem@[a + 1] == m_before[a + 1]);
                        assert(mem@[a + 2] == m_before[a + 2]);
                        assert(mem@[a + 3] == m_before[a + 3]);
                        lemma_le_u32_same(m_before, mem@, a);
                    }
                    assert forall|j: int|
                        0 <= j < i + 1 && relocation_exported(bins@, #[trigger] relocs[j].1@)
                            implies le_u32(mem@, relocs[j].0 as int) == wrap_add(
                        bins_lookup(bins@, relocs[j].1@).unwrap(),
                        le_u32(mem0, relocs[j].0 as int),
                    ) by {
                        if j < i {
                            let a = relocs[j].0 as int;
                            assert(relocs[j].0 + 4 <= start);
                            assert(relocs[i as int].0 + 4 <= relocs[j].0 || relocs[j].0 + 4
                                <= relocs[i as int].0);
                            assert(mem@[a] == m_before[a]);
                            assert(mem@[a + 1] == m_before[a + 1]);
                            assert(mem@[a + 2] == m_before[a + 2]);
                            assert(mem@[a + 3] == m_before[a + 3]);
                            lemma_le_u32_same(m_before, mem@, a);
                        }
                    }
                    assert forall|j: int|
                        0 <= j < i + 1 && relocation_to_host(bins@, dylibs@, #[trigger] relocs[j].1@)
                            implies {
                        &&& cache_lookup(self.spec_cache(), relocs[j].1@) is Some
                        &&& le_u32(mem@, relocs[j].0 as int) == wrap_add(
                            host_function_addr(self.spec_cache(), relocs[j].1@),
                            le_u32(mem0, relocs[j].0 as int),
                        )
                    } by {
                        if j < i {
                            let a = relocs[j].0 as int;
                            assert(relocs[j].0 + 4 <= start);
                            assert(relocs[i as int].0 + 4 <= relocs[j].0 || relocs[j].0 + 4
                                <= relocs[i as int].0);
                            assert(mem@[a] == m_before[a]);
                            assert(mem@[a + 1] == m_before[a + 1]);
                            assert(mem@[a + 2] == m_before[a + 2]);
                            assert(mem@[a + 3] == m_before[a + 3]);
                            lemma_le_u32_same(m_before, mem@, a);
                            lemma_cache_prefix_lookup(cache_before, self.spec_cache(), relocs[j].1@);
                        }
                    }
                }
                lemma_cache_prefix_trans(self0.spec_cache(), cache_before, self.spec_cache());
            }
            i = i + 1;
        }
        assert(relocs.take(relocs.len() as int) =~= relocs);
        let mut unhandled_syms: Vec<(u32, Vec<u8>)> = Vec::new();
        let ghost self1 = *self;
        let ghost mem1 = mem@;
        if let Some(ptrs) = bin.get_section(SectionType::NonLazySymbolPointers) {
            if let Some(info) = &ptrs.dyld_indirect_symbol_info {
                let count = ptrs.size / 4;
                let mut j: u32 = 0;
                while j < count
                    invariant
                        relocs == bin.external_relocations@,
                        bin.non_lazy_symbol_pointers == Some(*ptrs),
                        ptrs.dyld_indirect_symbol_info == Some(*info),
                        count == ptrs.size / 4,
                        np == count,
                        ptrs.addr + ptrs.size <= mem0.len(),
                        ptrs.addr + ptrs.size <= u32::MAX,
                        ptrs.size % 4 == 0,
                        info.indirect_undef_symbols@.len() >= count,
                        sep == slots_separate(*bin, start),
                        start == old(mem).spec_next_alloc(),
                        mem0 == old(mem)@,
                        j <= count,
                        mem.wf(),
                        mem@.len() == mem0.len(),
                        start <= mem.spec_next_alloc() <= start + 8 * (relocs.len() + j),
                        start + 8 * (relocs.len() + np) + 8 <= mem0.len(),
                        self0.spec_linked().len() + Dyld::SVC_LINKED_FUNCTIONS_BASE + relocs.len() + np
                            <= u32::MAX,
                        self.spec_linked().len() <= self0.spec_linked().len() + relocs.len() + j,
                        self.spec_is_64_bit() == self0.spec_is_64_bit(),
                        self.spec_return_to_host() == self0.spec_return_to_host(),
                        self.spec_thread_exit() == self0.spec_thread_exit(),
                        self.spec_pending_constants() == self0.spec_pending_constants()
                            + pending_symbols(
                            bins@,
                            dylibs@,
                            ptrs.addr,
                            info.indirect_undef_symbols@,
                            j as nat,
                        ),
                        slot_pairs(unhandled_syms@) == unhandled_symbols(
                            bins@,
                            dylibs@,
                            ptrs.addr,
                            info.indirect_undef_symbols@,
                            j as nat,
                        ),
                        sep ==> forall|r: int|
                            0 <= r < relocs.len() && relocation_exported(
                                bins@,
                                #[trigger] relocs[r].1@,
                            ) ==> le_u32(mem@, relocs[r].0 as int) == wrap_add(
                                bins_lookup(bins@, relocs[r].1@).unwrap(),
                                le_u32(mem0, relocs[r].0 as int),
                            ),
                        sep ==> forall|k: int|
                            0 <= k < j && symbol_export(
                                bins@,
                                #[trigger] info.indirect_undef_symbols@[k],
                            ) is Some ==> le_u32(mem@, ptrs.addr + 4 * k) == symbol_export(
                                bins@,
                                info.indirect_undef_symbols@[k],
                            ).unwrap(),
                        cache_prefix(self0.spec_cache(), self.spec_cache()),
                        sep ==> forall|r: int|
                            0 <= r < relocs.len() && relocation_to_host(
                                bins@,
                                dylibs@,
                                #[trigger] relocs[r].1@,
                            ) ==> {
                                &&& cache_lookup(self.spec_cache(), relocs[r].1@) is Some
                                &&& le_u32(mem@, relocs[r].0 as int) == wrap_add(
                                    host_function_addr(self.spec_cache(), relocs[r].1@),
                                    le_u32(mem0, relocs[r].0 as int),
                                )
                            },
                        sep ==> forall|k: int|
                            0 <= k < j && symbol_to_host(
                                bins@,
                                dylibs@,
                                #[trigger] info.indirect_undef_symbols@[k],
                            ) ==> {
                                let name = info.indirect_undef_symbols@[k].unwrap()@;
                                &&& cache_lookup(self.spec_cache(), name) is Some
                                &&& le_u32(mem@, ptrs.addr + 4 * k) == host_function_addr(
                                    self.spec_cache(),
                                    name,
                                )
                            },
                        sep ==> forall|r: int|
                            0 <= r < relocs.len() && relocation_kept(
                                bins@,
                                dylibs@,
                                #[trigger] relocs[r].1@,
                            ) ==> le_u32(mem@, relocs[r].0 as int) == le_u32(mem0, relocs[r].0 as int),
                        sep ==> forall|k: int|
                            0 <= k < j && symbol_kept(
                                bins@,
                                dylibs@,
                                #[trigger] info.indirect_undef_symbols@[k],
                            ) ==> le_u32(mem@, ptrs.addr + 4 * k) == le_u32(mem0, ptrs.addr + 4 * k),
                        sep ==> forall|a: int|
                            ptrs.addr + 4 * j <= a < ptrs.addr + ptrs.size ==> #[trigger] mem@[a]
                                == mem0[a],
                        forall|a: int|
                            0 <= a < start && !in_link_slots(*bin, a) ==> #[trigger] mem@[a] == mem0[a],
                        (sep && mem0.len() <= 0x1_0000_0000) ==> forall|k: int|
                            0 <= k < j && symbol_is_guard(
                                bins@,
                                dylibs@,
                                #[trigger] info.indirect_undef_symbols@[k],
                            ) ==> {
                                let canary = le_u32(mem@, ptrs.addr + 4 * k);
                                &&& start <= canary
                                &&& canary + 4 <= mem.spec_next_alloc()
                                &&& le_u32(mem@, canary as int) == STACK_CHK_GUARD_CANARY
                            },
                    decreases count - j,
                {
                    let ptr_ptr = ptrs.addr + j * 4;
                    let ghost m_before = mem@;
                    let ghost cache_before = self.spec_cache();
                    let ghost pending_before = self.spec_pending_constants();
                    let ghost unhandled_before = unhandled_syms@;
                    match &info.indirect_undef_symbols[j as usize] {
                        Some(symbol) => {
                            let out = self.link_non_lazy_pointer(bins, mem, dylibs, ptr_ptr, symbol);
                            proof {
                                assert forall|a: int|
                                    0 <= a < start && !in_link_slots(*bin, a) implies #[trigger] mem@[a]
                                    == mem0[a] by {
                                    assert(mem@[a] == m_before[a]);
                                }
                            }
                            if let RelocationOutcome::Unhandled = out {
                                let copied = copy_bytes(symbol);
                                unhandled_syms.push((ptr_ptr, copied));
                                assert(slot_pairs(unhandled_syms@) =~= slot_pairs(
                                    unhandled_before,
                                ).push((ptr_ptr, symbol@)));
                            }
                            proof {
                                assert(self0.spec_pending_constants() + pending_symbols(
                                    bins@,
                                    dylibs@,
                                    ptrs.addr,
                                    info.indirect_undef_symbols@,
                                    (j + 1) as nat,
                                ) =~= if symbol_is_constant(bins@, dylibs@, symbol@) {
                                    pending_before.push(
                                        (ptr_ptr, host_constant_lookup(dylibs@, symbol@).unwrap().1),
                                    )
                                } else {
                                    pending_before
                                });
                                if sep {
                                    assert forall|r: int|
                                        0 <= r < relocs.len() && relocation_exported(
                                            bins@,
                                            #[trigger] relocs[r].1@,
                                        ) implies le_u32(mem@, relocs[r].0 as int) == le_u32(
                                        m_before,
                                        relocs[r].0 as int,
                                    ) by {
                                        let a = relocs[r].0 as int;
                                        assert(relocs[r].0 + 4 <= start);
                                        assert(relocs[r].0 + 4 <= ptrs.addr || relocs[r].0 >= ptrs.addr
                                            + ptrs.size);
                                        assert(mem@[a] == m_before[a]);
                                        assert(mem@[a + 1] == m_before[a + 1]);
                                        assert(mem@[a + 2] == m_before[a + 2]);
                                        assert(mem@[a + 3] == m_before[a + 3]);
                                        lemma_le_u32_same(m_before, mem@, a);
                                    }
                                    assert forall|k: int|
                                        0 <= k < j + 1 && symbol_export(
                                            bins@,
                                            #[trigger] info.indirect_undef_symbols@[k],
                                        ) is Some implies le_u32(mem@, ptrs.addr + 4 * k)
                                        == symbol_export(
                                        bins@,
                                        info.indirect_undef_symbols@[k],
                                    ).unwrap() by {
                                        if k < j {
                                            let a = ptrs.addr + 4 * k;
                                            assert(mem@[a] == m_before[a]);
                                            assert(mem@[a + 1] == m_before[a + 1]);
                                            assert(mem@[a + 2] == m_before[a + 2]);
                                            assert(mem@[a + 3] == m_before[a + 3]);
                                            lemma_le_u32_same(m_before, mem@, a);
                                        }
                                    }
                                    assert forall|r: int|
                                        0 <= r < relocs.len() && relocation_to_host(
                                            bins@,
                                            dylibs@,
                                            #[trigger] relocs[r].1@,
                                        ) implies {
                                        &&& cache_lookup(self.spec_cache(), relocs[r].1@) is Some
                                        &&& le_u32(mem@, relocs[r].0 as int) == wrap_add(
                                            host_function_addr(self.spec_cache(), relocs[r].1@),
                                            le_u32(mem0, relocs[r].0 as int),
                                        )
                                    } by {
                                        let a = relocs[r].0 as int;
                                        assert(relocs[r].0 + 4 <= start);
                                        assert(relocs[r].0 + 4 <= ptrs.addr || relocs[r].0 >= ptrs.addr
                                            + ptrs.size);
                                        assert(mem@[a] == m_before[a]);
                                        assert(mem@[a + 1] == m_before[a + 1]);
                                        assert(mem@[a + 2] == m_before[a + 2]);
                                        assert(mem@[a + 3] == m_before[a + 3]);
                                        lemma_le_u32_same(m_before, mem@, a);
                                        lemma_cache_prefix_lookup(cache_before, self.spec_cache(), relocs[r].1@);
                                    }
                                    assert forall|k: int|
                                        0 <= k < j + 1 && symbol_to_host(
                                            bins@,
                                            dylibs@,
                                            #[trigger] info.indirect_undef_symbols@[k],
                                        ) implies {
                                        let name = info.indirect_undef_symbols@[k].unwrap()@;
                                        &&& cache_lookup(self.spec_cache(), name) is Some
                                        &&& le_u32(mem@, ptrs.addr + 4 * k) == host_function_addr(
                                            self.spec_cache(),
                                            name,
                                        )
                                    } by {
                                        if k < j {
                                            let a = ptrs.addr + 4 * k;
                                            assert(mem@[a] == m_before[a]);
                                            assert(mem@[a + 1] == m_before[a + 1]);
                                            assert(mem@[a + 2] == m_before[a + 2]);
                                            assert(mem@[a + 3] == m_before[a + 3]);
                                            lemma_le_u32_same(m_before, mem@, a);
                                            lemma_cache_prefix_lookup(
                                                cache_before,
                                                self.spec_cache(),
                                                info.indirect_undef_symbols@[k].unwrap()@,
                                            );
                                        }
                                    }
                                }
                                lemma_cache_prefix_trans(self0.spec_cache(), cache_before, self.spec_cache());
                            }
                        },
                        None => {
                            proof {
                                assert(self0.spec_pending_constants() + pending_symbols(
                                    bins@,
                                    dylibs@,
                                    ptrs.addr,
                                    info.indirect_undef_symbols@,
                                    (j + 1) as nat,
                                ) =~= pending_before);
                            }
                        },
                    }
                    j = j + 1;
                }
            }
        }
        NonLazyLinkReport {
            class_links,
            unhandled_relocations: unhandled_relocs,
            unhandled_symbols: unhandled_syms,
        }
    }
}


/// The instructions a stub of `entry_size` bytes must hold before lazy
/// linking is set up.
fn expected_stub_words(entry_size: u32) -> (w: Vec<u32>)
    ensures
        w@ == expected_stub(entry_size),
{
    if entry_size == 4 {
        vec![]
    } else if entry_size == 12 {
        vec![0xe59f_c000u32, 0xe59c_f000u32]
    } else {
        vec![0xe59f_c004u32, 0xe08f_c00cu32, 0xe59c_f000u32]
    }
}

/// The binary's symbol stubs, if it has any, are well formed and hold the
/// instructions that lazy linking expects to rewrite.
pub open spec fn lazy_linking_ready(bin: MachO, mem: Seq<u8>) -> bool {
    bin.symbol_stubs matches Some(stubs) ==> {
        &&& stubs_well_formed(stubs, mem.len())
        &&& stubs_as_expected(stubs, mem)
    }
}

/// Checks that lazy linking can be set up for `bin` (see
/// [lazy_linking_ready]).
pub fn check_lazy_linking_ready(bin: &MachO, mem: &Mem) -> (ok: bool)
    ensures
        ok == lazy_linking_ready(*bin, mem@),
{
    let _len = mem.len();
    let stubs = match &bin.symbol_stubs {
        Some(s) => s,
        None => {
            return true;
        },
    };
    let info = match &stubs.dyld_indirect_symbol_info {
        Some(i) => i,
        None => {
            return false;
        },
    };
    let es = info.entry_size;
    if !(es == 4 || es == 12 || es == 16) {
        return false;
    }
    if stubs.size % es != 0 {
        return false;
    }
    let count = stubs.size / es;
    if count as usize > info.indirect_undef_symbols.len() {
        return false;
    }
    if stubs.addr as u64 + stubs.size as u64 > 0xffff_ffffu64 {
        return false;
    }
    if stubs.addr as u64 + stubs.size as u64 > mem.len() as u64 {
        return false;
    }
    assert(stubs_well_formed(*stubs, mem@.len()));
    let expected = expected_stub_words(es);
    let mut i: u32 = 0;
    while i < count
        invariant
            bin.symbol_stubs == Some(*stubs),
            stubs_well_formed(*stubs, mem@.len()),
            es == stub_entry_size(*stubs),
            count == stubs.size / es,
            expected@ == expected_stub(es),
            i <= count,
            forall|i2: int, j: int|
                0 <= i2 < i && 0 <= j < expected_stub(es).len() ==> #[trigger] le_u32(
                    mem@,
                    stub_addr(*stubs, i2) + 4 * j,
                ) == expected_stub(es)[j],
        decreases count - i,
    {
        proof {
            lemma_stub_in_section(i as int, stubs.size as int, es as int);
        }
        let base: u64 = stubs.addr as u64 + i as u64 * es as u64;
        assert(base == stub_addr(*stubs, i as int));
        let mut j: usize = 0;
        while j < expected.len()
            invariant
                bin.symbol_stubs == Some(*stubs),
                stubs_well_formed(*stubs, mem@.len()),
                es == stub_entry_size(*stubs),
                count == stubs.size / es,
                expected@ == expected_stub(es),
                i < count,
                base == stub_addr(*stubs, i as int),
                base + es <= stubs.addr + stubs.size,
                j <= expected@.len(),
                forall|i2: int, j2: int|
                    0 <= i2 < i && 0 <= j2 < expected_stub(es).len() ==> #[trigger] le_u32(
                        mem@,
                        stub_addr(*stubs, i2) + 4 * j2,
                    ) == expected_stub(es)[j2],
                forall|j2: int|
                    0 <= j2 < j ==> #[trigger] le_u32(mem@, stub_addr(*stubs, i as int) + 4 * j2)
                        == expected_stub(es)[j2],
            decreases expected@.len() - j,
        {
            let addr = base + 4 * j as u64;
            let word = mem.read_u32(addr);
            if word != expected[j] {
                assert(le_u32(mem@, stub_addr(*stubs, i as int) + 4 * j) != expected_stub(es)[j as int]);
                return false;
            }
            j = j + 1;
        }
        i = i + 1;
    }
    true
}

/// How many relocations and non-lazy pointers `bins` hold in all.
pub open spec fn link_work(bins: Seq<MachO>) -> nat
    decreases bins.len(),
{
    if bins.len() == 0 {
        0
    } else {
        link_work(bins.drop_last()) + bins.last().external_relocations@.len() + non_lazy_count(
            bins.last(),
        )
    }
}

/// The constants that non-lazy linking of `bins`, in order, leaves for late
/// linking.
pub open spec fn all_pending(bins: Seq<MachO>, dylibs: Seq<HostDylib>, all: Seq<MachO>) -> Seq<
    (u32, HostConstant),
>
    decreases bins.len(),
{
    if bins.len() == 0 {
        Seq::empty()
    } else {
        all_pending(bins.drop_last(), dylibs, all) + non_lazy_pending(all, dylibs, bins.last())
    }
}

proof fn lemma_link_work_prefix(bins: Seq<MachO>, k: int)
    requires
        0 <= k <= bins.len(),
    ensures
        link_work(bins.take(k)) <= link_work(bins),
    decreases bins.len(),
{
    if k < bins.len() {
        assert(bins.drop_last().take(k) =~= bins.take(k));
        lemma_link_work_prefix(bins.drop_last(), k);
    } else {
        assert(bins.take(k) =~= bins);
    }
}

/// Every binary's relocation slots lie in memory of `mem_len` bytes and its
/// non-lazy pointer section is well formed.
pub open spec fn bins_linkable(bins: Seq<MachO>, mem_len: nat) -> bool {
    &&& forall|b: int, i: int|
        0 <= b < bins.len() && 0 <= i < bins[b].external_relocations@.len() ==> #[trigger] bins[b].external_relocations@[i].0
            + 4 <= mem_len
    &&& forall|b: int| 0 <= b < bins.len() ==> non_lazy_section_ok(#[trigger] bins[b], mem_len)
}

/// Whether the byte at `a` lies in `bin`'s symbol stubs.
pub open spec fn in_stubs(bin: MachO, a: int) -> bool {
    bin.symbol_stubs matches Some(stubs) && stubs.addr <= a < stubs.addr + stubs.size
}

/// The binaries' symbol stubs and link slots lie below `below`, and no
/// binary's stubs overlap another binary's stubs or any link slot: linking
/// one binary then leaves every other binary's stubs alone.
pub open spec fn link_layout_separate(bins: Seq<MachO>, below: int) -> bool {
    &&& forall|b: int, a: int| 0 <= b < bins.len() && #[trigger] in_stubs(bins[b], a) ==> a < below
    &&& forall|b: int, a: int|
        0 <= b < bins.len() && #[trigger] in_link_slots(bins[b], a) ==> a < below
    &&& forall|b: int, b2: int, a: int|
        #![trigger in_stubs(bins[b], a), in_link_slots(bins[b2], a)]
        0 <= b < bins.len() && 0 <= b2 < bins.len() && in_stubs(bins[b], a) ==> !in_link_slots(
            bins[b2],
            a,
        )
    &&& forall|b: int, b2: int, a: int|
        #![trigger in_stubs(bins[b], a), in_stubs(bins[b2], a)]
        0 <= b < bins.len() && 0 <= b2 < bins.len() && b != b2 && in_stubs(bins[b], a)
            ==> !in_stubs(bins[b2], a)
}

/// Every stub of `bin` has been rewritten to call the lazy linker.
pub open spec fn all_stubs_rewritten(bin: MachO, mem: Seq<u8>) -> bool {
    bin.symbol_stubs matches Some(stubs) ==> forall|i: int|
        0 <= i < stubs.size / stub_entry_size(stubs) ==> #[trigger] stub_rewritten(mem, stubs, i)
}

/// The return-to-host routine at `addr` and the thread-exit routine after
/// it: each an SVC with its number, then a trap.
pub open spec fn routines_written(mem: Seq<u8>, addr: int) -> bool {
    &&& le_u32(mem, addr) == spec_a32_svc(Dyld::SVC_RETURN_TO_HOST)
    &&& le_u32(mem, addr + 4) == spec_a32_trap()
    &&& le_u32(mem, addr + 8) == spec_a32_svc(Dyld::SVC_THREAD_EXIT)
    &&& le_u32(mem, addr + 12) == spec_a32_trap()
}

proof fn lemma_ready_reads_stubs(bin: MachO, m1: Seq<u8>, m2: Seq<u8>)
    requires
        m1.len() == m2.len(),
        forall|a: int| #[trigger] in_stubs(bin, a) ==> m1[a] == m2[a],
    ensures
        lazy_linking_ready(bin, m1) == lazy_linking_ready(bin, m2),
{
    if bin.symbol_stubs is Some {
        let stubs = bin.symbol_stubs.unwrap();
        if stubs_well_formed(stubs, m1.len()) {
            let es = stub_entry_size(stubs);
            if stubs_as_expected(stubs, m1) {
                assert forall|i: int, j: int|
                    0 <= i < stubs.size / es && 0 <= j < expected_stub(es).len() implies #[trigger] le_u32(
                    m2,
                    stub_addr(stubs, i) + 4 * j,
                ) == expected_stub(es)[j] by {
                    lemma_stub_in_section(i, stubs.size as int, es as int);
                    assert(4 * j + 4 <= es);
                    lemma_word_in_stubs(bin, m1, m2, stub_addr(stubs, i) + 4 * j);
                }
            }
            if stubs_as_expected(stubs, m2) {
                assert forall|i: int, j: int|
                    0 <= i < stubs.size / es && 0 <= j < expected_stub(es).len() implies #[trigger] le_u32(
                    m1,
                    stub_addr(stubs, i) + 4 * j,
                ) == expected_stub(es)[j] by {
                    lemma_stub_in_section(i, stubs.size as int, es as int);
                    assert(4 * j + 4 <= es);
                    lemma_word_in_stubs(bin, m1, m2, stub_addr(stubs, i) + 4 * j);
                }
            }
        }
    }
}

proof fn lemma_word_in_stubs(bin: MachO, m1: Seq<u8>, m2: Seq<u8>, a: int)
    requires
        m1.len() == m2.len(),
        bin.symbol_stubs matches Some(stubs) && stubs.addr <= a && a + 4 <= stubs.addr + stubs.size
            && stubs.addr + stubs.size <= m1.len(),
        forall|a2: int| #[trigger] in_stubs(bin, a2) ==> m1[a2] == m2[a2],
    ensures
        le_u32(m1, a) == le_u32(m2, a),
{
    assert(in_stubs(bin, a));
    assert(in_stubs(bin, a + 1));
    assert(in_stubs(bin, a + 2));
    assert(in_stubs(bin, a + 3));
    lemma_le_u32_same(m1, m2, a);
}

proof fn lemma_rewritten_reads_stubs(bin: MachO, m1: Seq<u8>, m2: Seq<u8>)
    requires
        m1.len() == m2.len(),
        bin.symbol_stubs matches Some(stubs) ==> stubs_well_formed(stubs, m1.len()),
        all_stubs_rewritten(bin, m1),
        forall|a: int| #[trigger] in_stubs(bin, a) ==> m1[a] == m2[a],
    ensures
        all_stubs_rewritten(bin, m2),
{
    if bin.symbol_stubs is Some {
        let stubs = bin.symbol_stubs.unwrap();
        let es = stub_entry_size(stubs);
        assert forall|i: int| 0 <= i < stubs.size / es implies #[trigger] stub_rewritten(m2, stubs, i) by {
            assert(stub_rewritten(m1, stubs, i));
            lemma_stub_in_section(i, stubs.size as int, es as int);
            let base = stub_addr(stubs, i);
            assert(stubs.addr <= base && base + es <= stubs.addr + stubs.size);
            lemma_word_in_stubs(bin, m1, m2, base);
            if es != 4 {
                lemma_word_in_stubs(bin, m1, m2, base + 4);
            }
            if es == 16 {
                lemma_word_in_stubs(bin, m1, m2, base + 8);
            }
        }
    }
}

proof fn lemma_routines_kept(m1: Seq<u8>, m2: Seq<u8>, addr: int)
    requires
        routines_written(m1, addr),
        0 <= addr,
        addr + 16 <= m1.len(),
        m1.len() == m2.len(),
        forall|a: int| addr <= a < addr + 16 ==> #[trigger] m2[a] == m1[a],
    ensures
        routines_written(m2, addr),
{
    assert(m2[addr] == m1[addr] && m2[addr + 1] == m1[addr + 1] && m2[addr + 2] == m1[addr + 2]
        && m2[addr + 3] == m1[addr + 3]);
    lemma_le_u32_same(m1, m2, addr);
    assert(m2[addr + 4] == m1[addr + 4] && m2[addr + 5] == m1[addr + 5] && m2[addr + 6] == m1[addr + 6]
        && m2[addr + 7] == m1[addr + 7]);
    lemma_le_u32_same(m1, m2, addr + 4);
    assert(m2[addr + 8] == m1[addr + 8] && m2[addr + 9] == m1[addr + 9] && m2[addr + 10] == m1[addr
        + 10] && m2[addr + 11] == m1[addr + 11]);
    lemma_le_u32_same(m1, m2, addr + 8);
    assert(m2[addr + 12] == m1[addr + 12] && m2[addr + 13] == m1[addr + 13] && m2[addr + 14]
        == m1[addr + 14] && m2[addr + 15] == m1[addr + 15]);
    lemma_le_u32_same(m1, m2, addr + 12);
}

impl Dyld {
    /// Linking to do right after the binaries are loaded: writes the
    /// return-to-host and thread-exit routines, then for each binary sets up
    /// lazy linking (every symbol stub is rewritten to call the lazy linker)
    /// and links its non-lazy symbols. Returns what each binary left
    /// unresolved, or the index of the first binary whose symbol stubs are
    /// not what lazy linking expects (nothing is linked for it or the
    /// binaries after it). Where the binaries' stubs and link slots are laid
    /// out apart (see [link_layout_separate]), the contract says which
    /// binary that is in terms of memory as it was on entry.
    #[verifier::spinoff_prover]
    pub fn do_initial_linking(&mut self, bins: &Vec<MachO>, mem: &mut Mem, dylibs: &Vec<HostDylib>) -> (res:
        Result<Vec<NonLazyLinkReport>, usize>)
        requires
            old(self).spec_return_to_host() is None,
            old(self).spec_thread_exit() is None,
            old(mem).wf(),
            old(mem).spec_next_alloc() + 16 + 8 * link_work(bins@) + 8 <= old(mem)@.len(),
            bins_linkable(bins@, old(mem)@.len()),
            old(self).spec_linked().len() + Dyld::SVC_LINKED_FUNCTIONS_BASE + link_work(bins@)
                <= u32::MAX,
        ensures
            final(mem).wf(),
            final(mem)@.len() == old(mem)@.len(),
            final(self).spec_is_64_bit() == old(self).spec_is_64_bit(),
            final(self).spec_return_to_host() matches Some(g) && g.spec_addr()
                == old(mem).spec_next_alloc(),
            final(self).spec_thread_exit() matches Some(g) && g.spec_addr()
                == old(mem).spec_next_alloc() + 8,
            match res {
                Ok(reports) => {
                    &&& reports@.len() == bins@.len()
                    &&& final(self).spec_pending_constants() == old(self).spec_pending_constants()
                        + all_pending(bins@, dylibs@, bins@)
                    &&& forall|b: int|
                        0 <= b < bins@.len() ==> {
                            &&& class_link_views(#[trigger] reports@[b].class_links@)
                                == class_relocations(bins@[b].external_relocations@)
                            &&& slot_pairs(reports@[b].unhandled_relocations@)
                                == unhandled_relocations(
                                bins@,
                                dylibs@,
                                bins@[b].external_relocations@,
                            )
                            &&& slot_pairs(reports@[b].unhandled_symbols@) == non_lazy_unhandled(
                                bins@,
                                dylibs@,
                                bins@[b],
                            )
                        }
                },
                Err(b) => b < bins@.len(),
            },
            link_layout_separate(bins@, old(mem).spec_next_alloc() as int) ==> {
                &&& routines_written(final(mem)@, old(mem).spec_next_alloc() as int)
                &&& match res {
                    Ok(_) => forall|b: int|
                        0 <= b < bins@.len() ==> lazy_linking_ready(#[trigger] bins@[b], old(mem)@)
                            && all_stubs_rewritten(bins@[b], final(mem)@),
                    Err(b) => !lazy_linking_ready(bins@[b as int], old(mem)@) && forall|b2: int|
                        0 <= b2 < b ==> lazy_linking_ready(#[trigger] bins@[b2], old(mem)@),
                }
            },
    {
        let _len = mem.len();
        let ghost m_init = mem@;
        let ghost na0 = mem.spec_next_alloc() as int;
        let ghost lay = link_layout_separate(bins@, na0);
        assert(2u32 & 0xff00_0000u32 == 0) by (bit_vector);
        assert(1u32 & 0xff00_0000u32 == 0) by (bit_vector);
        let rth = write_return_to_host_routine(mem, Dyld::SVC_RETURN_TO_HOST);
        let ghost m1 = mem@;
        self.return_to_host_routine = Some(rth);
        let te = write_return_to_host_routine(mem, Dyld::SVC_THREAD_EXIT);
        self.thread_exit_routine = Some(te);
        proof {
            lemma_le_u32_unchanged(m1, mem@, na0 + 8, 8, na0);
            lemma_le_u32_unchanged(m1, mem@, na0 + 8, 8, na0 + 4);
            assert(routines_written(mem@, na0));
            assert forall|a: int| 0 <= a < na0 implies #[trigger] mem@[a] == m_init[a] by {
                assert(m1[a] == m_init[a]);
            }
        }
        let ghost self0 = *self;
        let ghost start = mem.spec_next_alloc();
        let mut reports: Vec<NonLazyLinkReport> = Vec::new();
        let mut b: usize = 0;
        assert(bins@.take(0) =~= Seq::<MachO>::empty());
        while b < bins.len()
            invariant
                b <= bins@.len(),
                mem.wf(),
                mem@.len() == old(mem)@.len(),
                start == old(mem).spec_next_alloc() + 16,
                start <= mem.spec_next_alloc() <= start + 8 * link_work(bins@.take(b as int)),
                start + 8 * link_work(bins@) + 8 <= mem@.len(),
                bins_linkable(bins@, mem@.len()),
                self0.spec_linked().len() + Dyld::SVC_LINKED_FUNCTIONS_BASE + link_work(bins@)
                    <= u32::MAX,
                self.spec_linked().len() <= self0.spec_linked().len() + link_work(
                    bins@.take(b as int),
                ),
                self.spec_is_64_bit() == old(self).spec_is_64_bit(),
                self.spec_return_to_host() == Some(rth),
                self.spec_thread_exit() == Some(te),
                rth.spec_addr() == old(mem).spec_next_alloc(),
                te.spec_addr() == old(mem).spec_next_alloc() + 8,
                self0.spec_pending_constants() == old(self).spec_pending_constants(),
                self.spec_pending_constants() == old(self).spec_pending_constants() + all_pending(
                    bins@.take(b as int),
                    dylibs@,
                    bins@,
                ),
                reports@.len() == b,
                forall|b2: int|
                    0 <= b2 < b ==> {
                        &&& class_link_views(#[trigger] reports@[b2].class_links@)
                            == class_relocations(bins@[b2].external_relocations@)
                        &&& slot_pairs(reports@[b2].unhandled_relocations@) == unhandled_relocations(
                            bins@,
                            dylibs@,
                            bins@[b2].external_relocations@,
                        )
                        &&& slot_pairs(reports@[b2].unhandled_symbols@) == non_lazy_unhandled(
                            bins@,
                            dylibs@,
                            bins@[b2],
                        )
                    },
                lay == link_layout_separate(bins@, na0),
                na0 == old(mem).spec_next_alloc(),
                m_init == old(mem)@,
                lay ==> routines_written(mem@, na0),
                lay ==> forall|b2: int, a: int|
                    b <= b2 < bins@.len() && #[trigger] in_stubs(bins@[b2], a) ==> mem@[a] == m_init[a],
                lay ==> forall|b2: int|
                    0 <= b2 < b ==> lazy_linking_ready(#[trigger] bins@[b2], m_init)
                        && all_stubs_rewritten(bins@[b2], mem@),
            decreases bins@.len() - b,
        {
            let bin = &bins[b];
            proof {
                assert(bins@.take(b + 1).drop_last() =~= bins@.take(b as int));
                assert(bins@.take(b + 1).last() == bins@[b as int]);
                lemma_link_work_prefix(bins@, b + 1);
                assert(non_lazy_section_ok(bins@[b as int], mem@.len()));
            }
            let ghost m_before = mem@;
            proof {
                if lay {
                    assert forall|a: int| #[trigger] in_stubs(bins@[b as int], a) implies m_before[a]
                        == m_init[a] by {}
                    lemma_ready_reads_stubs(bins@[b as int], m_before, m_init);
                }
            }
            if !check_lazy_linking_ready(bin, mem) {
                return Err(b);
            }
            self.setup_lazy_linking(bin, mem);
            let ghost m_s = mem@;
            let report = self.do_non_lazy_linking(bin, bins, mem, dylibs);
            proof {
                if lay {
                    let m_n = mem@;
                    assert forall|a: int|
                        0 <= a < na0 && !in_stubs(bins@[b as int], a) && !in_link_slots(
                            bins@[b as int],
                            a,
                        ) implies #[trigger] m_n[a] == m_before[a] by {
                        assert(m_s[a] == m_before[a]);
                        assert(m_n[a] == m_s[a]);
                    }
                    assert forall|a: int|
                        #[trigger] in_stubs(bins@[b as int], a) implies m_n[a] == m_s[a] by {
                        assert(!in_link_slots(bins@[b as int], a));
                        assert(a < na0);
                    }
                    lemma_rewritten_reads_stubs(bins@[b as int], m_s, m_n);
                    assert forall|b2: int|
                        0 <= b2 < b + 1 implies lazy_linking_ready(#[trigger] bins@[b2], m_init)
                        && all_stubs_rewritten(bins@[b2], m_n) by {
                        if b2 < b {
                            assert(lazy_linking_ready(bins@[b2], m_init));
                            assert forall|a: int| #[trigger] in_stubs(bins@[b2], a) implies m_before[a]
                                == m_n[a] by {
                                assert(!in_stubs(bins@[b as int], a));
                                assert(!in_link_slots(bins@[b as int], a));
                                assert(a < na0);
                            }
                            lemma_rewritten_reads_stubs(bins@[b2], m_before, m_n);
                        }
                    }
                    assert forall|b2: int, a: int|
                        b + 1 <= b2 < bins@.len() && #[trigger] in_stubs(bins@[b2], a) implies m_n[a]
                        == m_init[a] by {
                        assert(!in_stubs(bins@[b as int], a));
                        assert(!in_link_slots(bins@[b as int], a));
                        assert(a < na0);
                    }
                    assert forall|a: int| na0 <= a < na0 + 16 implies #[trigger] m_n[a] == m_before[a] by {
                        if in_stubs(bins@[b as int], a) {
                            assert(a < na0);
                        }
                        if in_link_slots(bins@[b as int], a) {
                            assert(a < na0);
                        }
                        assert(m_s[a] == m_before[a]);
                        assert(m_n[a] == m_s[a]);
                    }
                    lemma_routines_kept(m_before, m_n, na0);
                }
            }
            let ghost reports_before = reports@;
            reports.push(report);
            proof {
                assert forall|b2: int| 0 <= b2 < b + 1 implies {
                    &&& class_link_views(#[trigger] reports@[b2].class_links@)
                        == class_relocations(bins@[b2].external_relocations@)
                    &&& slot_pairs(reports@[b2].unhandled_relocations@) == unhandled_relocations(
                        bins@,
                        dylibs@,
                        bins@[b2].external_relocations@,
                    )
                    &&& slot_pairs(reports@[b2].unhandled_symbols@) == non_lazy_unhandled(
                        bins@,
                        dylibs@,
                        bins@[b2],
                    )
                } by {
                    if b2 < b {
                        assert(reports@[b2] == reports_before[b2]);
                    } else {
                        assert(reports@[b2] == report);
                    }
                }
                assert(all_pending(bins@.take(b + 1), dylibs@, bins@) =~= all_pending(
                    bins@.take(b as int),
                    dylibs@,
                    bins@,
                ) + non_lazy_pending(bins@, dylibs@, bins@[b as int]));
            }
            b = b + 1;
        }
        assert(bins@.take(bins@.len() as int) =~= bins@);
        Ok(reports)
    }

    /// [Self::do_initial_linking] for the special environment that runs no
    /// binary: only the return-to-host and thread-exit routines are written.
    pub fn do_initial_linking_with_no_bins(&mut self, mem: &mut Mem)
        requires
            old(self).spec_return_to_host() is None,
            old(self).spec_thread_exit() is None,
            old(mem).wf(),
            old(mem).can_allocate(16),
        ensures
            final(mem).wf(),
            final(self).spec_return_to_host() matches Some(g) && g.spec_addr()
                == old(mem).spec_next_alloc() && le_u32(final(mem)@, g.spec_addr() as int)
                == spec_a32_svc(Dyld::SVC_RETURN_TO_HOST),
            final(self).spec_thread_exit() matches Some(g) && g.spec_addr()
                == old(mem).spec_next_alloc() + 8 && le_u32(final(mem)@, g.spec_addr() as int)
                == spec_a32_svc(Dyld::SVC_THREAD_EXIT),
            final(self).spec_is_64_bit() == old(self).spec_is_64_bit(),
            final(self).spec_linked() == old(self).spec_linked(),
            final(self).spec_pending_constants() == old(self).spec_pending_constants(),
            final(self).spec_cache() == old(self).spec_cache(),
            only_changed(old(mem)@, final(mem)@, old(mem).spec_next_alloc() as int, 16),
            routines_written(final(mem)@, old(mem).spec_next_alloc() as int),
            final(mem).spec_next_alloc() == old(mem).spec_next_alloc() + 16,
    {
        assert(2u32 & 0xff00_0000u32 == 0) by (bit_vector);
        assert(1u32 & 0xff00_0000u32 == 0) by (bit_vector);
        let rth = write_return_to_host_routine(mem, Dyld::SVC_RETURN_TO_HOST);
        let ghost m1 = mem@;
        self.return_to_host_routine = Some(rth);
        let te = write_return_to_host_routine(mem, Dyld::SVC_THREAD_EXIT);
        self.thread_exit_routine = Some(te);
        proof {
            lemma_le_u32_unchanged(m1, mem@, te.spec_addr() as int, 8, rth.spec_addr() as int);
            lemma_le_u32_unchanged(m1, mem@, te.spec_addr() as int, 8, rth.spec_addr() + 4);
        }
    }
}


impl Dyld {
    /// Creates (or finds again) the guest function that calls the host
    /// function named `symbol`, for "get proc address" functions. Besides the
    /// function, returns the code range `(address, length)` whose CPU cache
    /// entries must be invalidated, since fresh code may have been written
    /// there. Fails if no host dylib exports such a function.
    pub fn create_proc_address(
        &mut self,
        mem: &mut Mem,
        dylibs: &Vec<HostDylib>,
        symbol: &[u8],
    ) -> (res: Result<(GuestFunction, (u64, u32)), ()>)
        requires
            old(mem).wf(),
            old(mem).can_allocate(8),
            old(self).spec_linked().len() + Dyld::SVC_LINKED_FUNCTIONS_BASE <= u32::MAX,
        ensures
            final(mem).wf(),
            res is Err <==> !has_host_function(dylibs@, symbol@),
            res matches Ok((g, range)) ==> {
                &&& cache_lookup(final(self).spec_cache(), symbol@) == Some(g)
                &&& range == (g.spec_addr(), 8u32)
            },
            res is Err ==> *final(self) == *old(self) && *final(mem) == *old(mem),
            cache_lookup(old(self).spec_cache(), symbol@) is Some ==> {
                &&& *final(self) == *old(self)
                &&& *final(mem) == *old(mem)
            },
            (cache_lookup(old(self).spec_cache(), symbol@) is Some && res is Ok) ==> Some(res.unwrap().0)
                == cache_lookup(old(self).spec_cache(), symbol@),
            (res is Ok && cache_lookup(old(self).spec_cache(), symbol@) is None) ==> {
                let (name, f) = host_function_lookup(dylibs@, symbol@).unwrap();
                &&& final(self).spec_linked() == old(self).spec_linked().push((name, f))
                &&& res.unwrap().0.spec_addr() == old(mem).spec_next_alloc()
                &&& final(mem).spec_next_alloc() == old(mem).spec_next_alloc() + 8
                &&& only_changed(old(mem)@, final(mem)@, old(mem).spec_next_alloc() as int, 8)
            },
    {
        match self.create_proc_address_no_inval(mem, dylibs, symbol) {
            Ok(f) => Ok((f, (f.addr_without_thumb_bit(), 8))),
            Err(()) => Err(()),
        }
    }
}


/// A symbol keeps the guest function it was given: creating a guest
/// function for another symbol later leaves the lookup of this one as it
/// was, so the same symbol always reaches the same function.
pub proof fn law_cached_function_stable(
    cache: Seq<(&'static str, GuestFunction)>,
    sym: Seq<u8>,
    name: &'static str,
    g: GuestFunction,
)
    requires
        cache_lookup(cache, sym) is Some,
    ensures
        cache_lookup(cache.push((name, g)), sym) == cache_lookup(cache, sym),
    decreases cache.len(),
{
    if cache[0].0.spec_bytes() != sym {
        assert(cache.push((name, g)).drop_first() =~= cache.drop_first().push((name, g)));
        law_cached_function_stable(cache.drop_first(), sym, name, g);
    }
}

} // verus!
