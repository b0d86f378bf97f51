//! Passing arguments and return values between host code and guest code,
//! following the AArch64 procedure call standard: the first eight argument
//! words go in X0-X7, the rest on the stack, and results come back in X0.
use vstd::prelude::*;

use crate::cpu::{Cpu, REG_COUNT};
use crate::mem::{le_u64, u64_le_bytes, write_bytes, ConstVoidPtr, Mem, Ptr};

verus! {

/// AArch64 uses X29 for the frame pointer.
pub const FRAME_POINTER: usize = 29;

/// AAPCS64 passes up to 8 argument words in registers (X0-X7).
pub const MAX_ARG_REGS: usize = 8;

/// A function in guest code.
#[derive(Copy, Clone, Debug, PartialEq, Eq, Structural)]
pub struct GuestFunction(ConstVoidPtr);

impl GuestFunction {
    /// AArch64 has no Thumb mode.
    pub const THUMB_BIT: u64 = 0;

    pub closed spec fn spec_addr(self) -> u64 {
        self.0.spec_bits()
    }

    pub fn from_addr_with_thumb_bit(addr: u64) -> (f: GuestFunction)
        ensures
            f.spec_addr() == addr,
    {
        GuestFunction(Ptr::from_bits(addr))
    }

    pub fn from_addr_and_thumb_flag(pc: u64, _thumb: bool) -> (f: GuestFunction)
        ensures
            f.spec_addr() == pc,
    {
        GuestFunction(Ptr::from_bits(pc))
    }

    pub fn is_thumb(self) -> (b: bool)
        ensures
            !b,
    {
        false
    }

    pub fn addr_with_thumb_bit(self) -> (addr: u64)
        ensures
            addr == self.spec_addr(),
    {
        self.0.to_bits()
    }

    pub fn addr_without_thumb_bit(self) -> (addr: u64)
        ensures
            addr == self.spec_addr(),
    {
        self.0.to_bits()
    }

    pub fn to_ptr(self) -> (p: ConstVoidPtr)
        ensures
            p.spec_bits() == self.spec_addr(),
    {
        self.0
    }

    pub fn null_ptr() -> (f: GuestFunction)
        ensures
            f.spec_addr() == 0,
    {
        GuestFunction(Ptr::null())
    }
}

/// A value that can be passed as an argument: it occupies a fixed number of
/// argument words.
pub trait GuestArg: Sized {
    /// Number of argument words the value occupies.
    spec fn spec_reg_count() -> nat;

    /// The value that the argument words `regs` stand for.
    spec fn spec_from_regs(regs: Seq<u64>) -> Self;

    /// The argument words that stand for this value.
    spec fn spec_to_regs(self) -> Seq<u64>;

    fn reg_count() -> (n: usize)
        ensures
            n == Self::spec_reg_count(),
            1 <= n <= 16,
    ;

    fn from_regs(regs: &[u64]) -> (v: Self)
        requires
            regs@.len() == Self::spec_reg_count(),
        ensures
            v == Self::spec_from_regs(regs@),
    ;

    fn to_regs(self, regs: &mut [u64])
        requires
            old(regs)@.len() == Self::spec_reg_count(),
        ensures
            final(regs)@ == self.spec_to_regs(),
    ;

    /// Encoding a value and decoding the words gives the value back.
    proof fn lemma_regs_roundtrip(v: Self)
        ensures
            v.spec_to_regs().len() == Self::spec_reg_count(),
            Self::spec_from_regs(v.spec_to_regs()) == v,
    ;
}

/// The argument word at position `offset`: a register for the first eight,
/// the stack above `stack_ptr` for the others.
pub open spec fn arg_slot(regs: Seq<u64>, mem: Seq<u8>, stack_ptr: u64, offset: int) -> u64 {
    if offset < MAX_ARG_REGS {
        regs[offset]
    } else {
        le_u64(mem, stack_ptr + (offset - MAX_ARG_REGS) * 8)
    }
}

/// The `n` argument words starting at position `start`.
pub open spec fn arg_slots(regs: Seq<u64>, mem: Seq<u8>, stack_ptr: u64, start: int, n: nat) -> Seq<
    u64,
> {
    Seq::new(n, |k: int| arg_slot(regs, mem, stack_ptr, start + k))
}

/// The stack words for argument positions below `end` lie inside memory.
pub open spec fn stack_args_in_bounds(mem_len: nat, stack_ptr: u64, end: int) -> bool {
    end <= MAX_ARG_REGS || stack_ptr + (end - MAX_ARG_REGS) * 8 <= mem_len
}

/// Whether `addr` is a byte of a stack argument word at a position in
/// `start..end`.
pub open spec fn in_stack_args(stack_ptr: u64, start: int, end: int, addr: int) -> bool {
    let first = if start < MAX_ARG_REGS {
        MAX_ARG_REGS as int
    } else {
        start
    };
    stack_ptr + (first - MAX_ARG_REGS) * 8 <= addr < stack_ptr + (end - MAX_ARG_REGS) * 8
}

proof fn lemma_le_u64_frame(s: Seq<u8>, a: int, b: Seq<u8>, a2: int)
    requires
        0 <= a,
        a + b.len() <= s.len(),
        0 <= a2,
        a2 + 8 <= s.len(),
        a2 + 8 <= a || a + b.len() <= a2,
    ensures
        le_u64(write_bytes(s, a, b), a2) == le_u64(s, a2),
{
    let w = write_bytes(s, a, b);
    assert(w[a2] == s[a2]);
    assert(w[a2 + 1] == s[a2 + 1]);
    assert(w[a2 + 2] == s[a2 + 2]);
    assert(w[a2 + 3] == s[a2 + 3]);
    assert(w[a2 + 4] == s[a2 + 4]);
    assert(w[a2 + 5] == s[a2 + 5]);
    assert(w[a2 + 6] == s[a2 + 6]);
    assert(w[a2 + 7] == s[a2 + 7]);
}

/// Reads the next argument of type `T`, starting at argument position
/// `reg_offset`, and advances `reg_offset` past it.
pub fn read_next_arg<T: GuestArg>(reg_offset: &mut usize, regs: &[u64], stack_ptr: u64, mem: &Mem) -> (v:
    T)
    requires
        regs@.len() >= MAX_ARG_REGS,
        *old(reg_offset) + T::spec_reg_count() <= usize::MAX,
        stack_args_in_bounds(mem@.len(), stack_ptr, *old(reg_offset) + T::spec_reg_count()),
    ensures
        *final(reg_offset) == *old(reg_offset) + T::spec_reg_count(),
        v == T::spec_from_regs(
            arg_slots(regs@, mem@, stack_ptr, *old(reg_offset) as int, T::spec_reg_count()),
        ),
{
    let n = T::reg_count();
    let start = *reg_offset;
    let mut fake_regs: Vec<u64> = Vec::new();
    let mut k: usize = 0;
    while k < n
        invariant
            n == T::spec_reg_count(),
            regs@.len() >= MAX_ARG_REGS,
            start + n <= usize::MAX,
            stack_args_in_bounds(mem@.len(), stack_ptr, start + n),
            k <= n,
            *reg_offset == start + k,
            fake_regs@ == arg_slots(regs@, mem@, stack_ptr, start as int, k as nat),
        decreases n - k,
    {
        let off = *reg_offset;
        let word = if off < MAX_ARG_REGS {
            regs[off]
        } else {
            let _len = mem.len();
            mem.read_u64(stack_ptr + ((off - MAX_ARG_REGS) as u64) * 8)
        };
        fake_regs.push(word);
        *reg_offset = off + 1;
        k = k + 1;
        assert(fake_regs@ =~= arg_slots(regs@, mem@, stack_ptr, start as int, k as nat));
    }
    T::from_regs(fake_regs.as_slice())
}

/// Moves the stack pointer down to make room for the argument words that do
/// not fit in registers, and returns the stack pointer as it was.
pub fn extend_stack_for_args(reg_count_sum: usize, regs: &mut [u64]) -> (old_sp: u64)
    requires
        old(regs)@.len() == REG_COUNT,
        reg_count_sum > MAX_ARG_REGS ==> (reg_count_sum - MAX_ARG_REGS) * 8 <= old(
            regs,
        )@[Cpu::SP as int],
    ensures
        old_sp == old(regs)@[Cpu::SP as int],
        final(regs)@ == if reg_count_sum > MAX_ARG_REGS {
            old(regs)@.update(Cpu::SP as int, (old_sp - (reg_count_sum - MAX_ARG_REGS) * 8) as u64)
        } else {
            old(regs)@
        },
{
    let old = regs[Cpu::SP];
    if reg_count_sum > MAX_ARG_REGS {
        let extra = ((reg_count_sum - MAX_ARG_REGS) as u64) * 8;
        regs[Cpu::SP] = old - extra;
    }
    old
}

/// Writes `arg` as the next argument, starting at argument position
/// `reg_offset` (registers first, then the stack at the current stack
/// pointer), and advances `reg_offset` past it.
pub fn write_next_arg<T: GuestArg>(reg_offset: &mut usize, regs: &mut [u64], mem: &mut Mem, arg: T)
    requires
        old(regs)@.len() == REG_COUNT,
        *old(reg_offset) + T::spec_reg_count() <= usize::MAX,
        stack_args_in_bounds(
            old(mem)@.len(),
            old(regs)@[Cpu::SP as int],
            *old(reg_offset) + T::spec_reg_count(),
        ),
    ensures
        *final(reg_offset) == *old(reg_offset) + T::spec_reg_count(),
        final(regs)@.len() == REG_COUNT,
        final(regs)@[Cpu::SP as int] == old(regs)@[Cpu::SP as int],
        final(mem)@.len() == old(mem)@.len(),
        final(mem).spec_next_alloc() == old(mem).spec_next_alloc(),
        forall|k: int|
            0 <= k < T::spec_reg_count() ==> #[trigger] arg_slot(
                final(regs)@,
                final(mem)@,
                old(regs)@[Cpu::SP as int],
                *old(reg_offset) + k,
            ) == arg.spec_to_regs()[k],
        forall|i: int|
            0 <= i < REG_COUNT && !(*old(reg_offset) <= i < *old(reg_offset) + T::spec_reg_count()
                && i < MAX_ARG_REGS) ==> #[trigger] final(regs)@[i] == old(regs)@[i],
        forall|a: int|
            0 <= a < old(mem)@.len() && !in_stack_args(
                old(regs)@[Cpu::SP as int],
                *old(reg_offset) as int,
                *old(reg_offset) + T::spec_reg_count(),
                a,
            ) ==> #[trigger] final(mem)@[a] == old(mem)@[a],
{
    let n = T::reg_count();
    let mut fake_regs: Vec<u64> = Vec::new();
    let mut j: usize = 0;
    while j < n
        invariant
            j <= n,
            fake_regs@.len() == j,
        decreases n - j,
    {
        fake_regs.push(0);
        j = j + 1;
    }
    arg.to_regs(fake_regs.as_mut_slice());
    proof {
        T::lemma_regs_roundtrip(arg);
    }
    let ghost words = arg.spec_to_regs();
    assert(fake_regs@ == words);
    let start = *reg_offset;
    let sp = regs[Cpu::SP];
    let _len = mem.len();
    let mut k: usize = 0;
    while k < n
        invariant
            n == T::spec_reg_count(),
            fake_regs@ == words,
            words.len() == n,
            start == *old(reg_offset),
            sp == old(regs)@[Cpu::SP as int],
            start + n <= usize::MAX,
            mem@.len() == old(mem)@.len(),
            mem@.len() <= usize::MAX,
            mem.spec_next_alloc() == old(mem).spec_next_alloc(),
            stack_args_in_bounds(mem@.len(), sp, start + n),
            regs@.len() == REG_COUNT,
            regs@[Cpu::SP as int] == sp,
            k <= n,
            *reg_offset == start + k,
            forall|j: int|
                0 <= j < k ==> #[trigger] arg_slot(regs@, mem@, sp, start + j) == words[j],
            forall|i: int|
                0 <= i < REG_COUNT && !(start <= i < start + k && i < MAX_ARG_REGS)
                    ==> #[trigger] regs@[i] == old(regs)@[i],
            forall|a: int|
                0 <= a < mem@.len() && !in_stack_args(sp, start as int, start + k, a)
                    ==> #[trigger] mem@[a] == old(mem)@[a],
        decreases n - k,
    {
        let off = *reg_offset;
        let word = fake_regs[k];
        let ghost regs_before = regs@;
        let ghost mem_before = mem@;
        if off < MAX_ARG_REGS {
            regs[off] = word;
            assert forall|j: int| 0 <= j < k + 1 implies #[trigger] arg_slot(
                regs@,
                mem@,
                sp,
                start + j,
            ) == words[j] by {
                if j < k {
                    assert(arg_slot(regs_before, mem_before, sp, start + j) == words[j]);
                    assert(start + j != off);
                }
            }
        } else {
            let addr = sp + ((off - MAX_ARG_REGS) as u64) * 8;
            let ghost before = mem@;
            mem.write_u64(addr, word);
            assert forall|j: int| 0 <= j < k + 1 implies #[trigger] arg_slot(
                regs@,
                mem@,
                sp,
                start + j,
            ) == words[j] by {
                if j < k {
                    assert(arg_slot(regs_before, mem_before, sp, start + j) == words[j]);
                }
                if j < k && start + j >= MAX_ARG_REGS {
                    lemma_le_u64_frame(
                        before,
                        addr as int,
                        u64_le_bytes(word),
                        sp + (start + j - MAX_ARG_REGS) * 8,
                    );
                }
            }
        }
        *reg_offset = off + 1;
        k = k + 1;
    }
}

/// Decoding the argument words written for a value gives the value back:
/// what `write_next_arg` leaves in the argument slots, `read_next_arg` reads
/// as the same value.
pub proof fn law_arg_write_then_read<T: GuestArg>(
    arg: T,
    regs: Seq<u64>,
    mem: Seq<u8>,
    stack_ptr: u64,
    start: int,
)
    requires
        forall|k: int|
            0 <= k < T::spec_reg_count() ==> #[trigger] arg_slot(regs, mem, stack_ptr, start + k)
                == arg.spec_to_regs()[k],
    ensures
        T::spec_from_regs(arg_slots(regs, mem, stack_ptr, start, T::spec_reg_count())) == arg,
{
    T::lemma_regs_roundtrip(arg);
    assert(arg_slots(regs, mem, stack_ptr, start, T::spec_reg_count()) =~= arg.spec_to_regs());
}

/// The variadic part of a guest function's arguments (C `...`).
#[derive(Debug)]
pub struct DotDotDot(VaList);

impl DotDotDot {
    pub closed spec fn spec_va_list(&self) -> VaList {
        self.0
    }

    pub fn new(va_list: VaList) -> (d: DotDotDot)
        ensures
            d.spec_va_list() == va_list,
    {
        DotDotDot(va_list)
    }

    /// The variadic arguments, from the first one.
    pub fn start(&self) -> (v: VaList)
        ensures
            v == self.spec_va_list(),
    {
        self.0
    }
}

/// Starting the variadic arguments does not consume them: whichever call of
/// [DotDotDot::start] a [VaList::next] follows, with the same registers and
/// memory it reads the same first argument.
pub proof fn law_variadic_start_repeats<T: GuestArg>(
    d: DotDotDot,
    first: VaList,
    second: VaList,
    regs: Seq<u64>,
    mem: Seq<u8>,
)
    requires
        first == d.spec_va_list(),
        second == d.spec_va_list(),
    ensures
        T::spec_from_regs(
            arg_slots(
                regs,
                mem,
                first.spec_stack_pointer(),
                first.spec_reg_offset() as int,
                T::spec_reg_count(),
            ),
        ) == T::spec_from_regs(
            arg_slots(
                regs,
                mem,
                second.spec_stack_pointer(),
                second.spec_reg_offset() as int,
                T::spec_reg_count(),
            ),
        ),
        first.spec_reg_offset() + T::spec_reg_count() == second.spec_reg_offset() + T::spec_reg_count(),
{
}

/// A `va_list` received as a pointer `p` (see [VaList::from_regs]) starts
/// past the register words, so its `k`-th word-sized argument is the
/// 64-bit word at `p + 8 * k`, whatever the registers hold.
pub proof fn law_va_list_reads_stack_words(p: u64, regs: Seq<u64>, mem: Seq<u8>, k: nat)
    ensures
        <u64 as GuestArg>::spec_from_regs(
            arg_slots(regs, mem, p, MAX_ARG_REGS + k, <u64 as GuestArg>::spec_reg_count()),
        ) == le_u64(mem, p + 8 * k),
{
    assert(arg_slots(regs, mem, p, MAX_ARG_REGS + k, 1)[0] == le_u64(mem, p + 8 * k));
}

/// A cursor over variadic arguments (C `va_list`).
#[derive(Copy, Clone, Debug, PartialEq, Eq, Structural)]
pub struct VaList {
    reg_offset: usize,
    stack_pointer: ConstVoidPtr,
}

impl VaList {
    pub closed spec fn spec_reg_offset(self) -> usize {
        self.reg_offset
    }

    pub closed spec fn spec_stack_pointer(self) -> u64 {
        self.stack_pointer.spec_bits()
    }

    pub fn new(reg_offset: usize, stack_pointer: u64) -> (v: VaList)
        ensures
            v.spec_reg_offset() == reg_offset,
            v.spec_stack_pointer() == stack_pointer,
    {
        VaList { reg_offset, stack_pointer: Ptr::from_bits(stack_pointer) }
    }

    /// A `va_list` passed as an argument: a pointer to its words on the
    /// stack, all of which are past the register words.
    pub fn from_regs(regs: &[u64]) -> (v: VaList)
        requires
            regs@.len() == 1,
        ensures
            v.spec_reg_offset() == MAX_ARG_REGS,
            v.spec_stack_pointer() == regs@[0],
    {
        VaList { reg_offset: MAX_ARG_REGS, stack_pointer: Ptr::from_bits(regs[0]) }
    }

    /// Reads the next variadic argument, as a `T`.
    pub fn next<T: GuestArg>(&mut self, cpu: &Cpu, mem: &Mem) -> (v: T)
        requires
            cpu.wf(),
            old(self).spec_reg_offset() + T::spec_reg_count() <= usize::MAX,
            stack_args_in_bounds(
                mem@.len(),
                old(self).spec_stack_pointer(),
                old(self).spec_reg_offset() + T::spec_reg_count(),
            ),
        ensures
            final(self).spec_reg_offset() == old(self).spec_reg_offset() + T::spec_reg_count(),
            final(self).spec_stack_pointer() == old(self).spec_stack_pointer(),
            v == T::spec_from_regs(
                arg_slots(
                    cpu.view_regs(),
                    mem@,
                    old(self).spec_stack_pointer(),
                    old(self).spec_reg_offset() as int,
                    T::spec_reg_count(),
                ),
            ),
    {
        let sp = self.stack_pointer.to_bits();
        read_next_arg(&mut self.reg_offset, cpu.regs(), sp, mem)
    }
}

/// Reads the arguments of a call from guest code: the next argument of type
/// `T` at position `reg_offset`, using the CPU's registers and stack.
pub fn read_arg_from_guest<T: GuestArg>(reg_offset: &mut usize, cpu: &Cpu, mem: &Mem) -> (v: T)
    requires
        cpu.wf(),
        *old(reg_offset) + T::spec_reg_count() <= usize::MAX,
        stack_args_in_bounds(
            mem@.len(),
            cpu.view_regs()[Cpu::SP as int],
            *old(reg_offset) + T::spec_reg_count(),
        ),
    ensures
        *final(reg_offset) == *old(reg_offset) + T::spec_reg_count(),
        v == T::spec_from_regs(
            arg_slots(
                cpu.view_regs(),
                mem@,
                cpu.view_regs()[Cpu::SP as int],
                *old(reg_offset) as int,
                T::spec_reg_count(),
            ),
        ),
{
    let sp = cpu.reg(Cpu::SP);
    read_next_arg(reg_offset, cpu.regs(), sp, mem)
}

// ----------------------------------------------------
// Argument types
// ----------------------------------------------------

impl GuestArg for u64 {
    open spec fn spec_reg_count() -> nat {
        1
    }

    open spec fn spec_from_regs(regs: Seq<u64>) -> u64 {
        regs[0]
    }

    open spec fn spec_to_regs(self) -> Seq<u64> {
        seq![self]
    }

    fn reg_count() -> (n: usize) {
        1
    }

    fn from_regs(regs: &[u64]) -> (v: u64) {
        regs[0]
    }

    fn to_regs(self, regs: &mut [u64]) {
        regs[0] = self;
        assert(regs@ =~= seq![self]);
    }

    proof fn lemma_regs_roundtrip(v: u64) {
    }
}

impl GuestArg for i64 {
    open spec fn spec_reg_count() -> nat {
        1
    }

    open spec fn spec_from_regs(regs: Seq<u64>) -> i64 {
        regs[0] as i64
    }

    open spec fn spec_to_regs(self) -> Seq<u64> {
        seq![self as u64]
    }

    fn reg_count() -> (n: usize) {
        1
    }

    fn from_regs(regs: &[u64]) -> (v: i64) {
        regs[0] as i64
    }

    fn to_regs(self, regs: &mut [u64]) {
        regs[0] = self as u64;
        assert(regs@ =~= seq![self as u64]);
    }

    proof fn lemma_regs_roundtrip(v: i64) {
        assert((v as u64) as i64 == v) by (bit_vector);
    }
}

impl GuestArg for u32 {
    open spec fn spec_reg_count() -> nat {
        1
    }

    open spec fn spec_from_regs(regs: Seq<u64>) -> u32 {
        regs[0] as u32
    }

    open spec fn spec_to_regs(self) -> Seq<u64> {
        seq![self as u64]
    }

    fn reg_count() -> (n: usize) {
        1
    }

    fn from_regs(regs: &[u64]) -> (v: u32) {
        regs[0] as u32
    }

    fn to_regs(self, regs: &mut [u64]) {
        regs[0] = self as u64;
        assert(regs@ =~= seq![self as u64]);
    }

    proof fn lemma_regs_roundtrip(v: u32) {
    }
}

impl GuestArg for i32 {
    open spec fn spec_reg_count() -> nat {
        1
    }

    open spec fn spec_from_regs(regs: Seq<u64>) -> i32 {
        (regs[0] as u32) as i32
    }

    open spec fn spec_to_regs(self) -> Seq<u64> {
        seq![(self as u32) as u64]
    }

    fn reg_count() -> (n: usize) {
        1
    }

    fn from_regs(regs: &[u64]) -> (v: i32) {
        (regs[0] as u32) as i32
    }

    fn to_regs(self, regs: &mut [u64]) {
        regs[0] = (self as u32) as u64;
        assert(regs@ =~= seq![(self as u32) as u64]);
    }

    proof fn lemma_regs_roundtrip(v: i32) {
        assert((((v as u32) as u64) as u32) as i32 == v) by (bit_vector);
    }
}

impl GuestArg for u16 {
    open spec fn spec_reg_count() -> nat {
        1
    }

    open spec fn spec_from_regs(regs: Seq<u64>) -> u16 {
        (regs[0] as u32) as u16
    }

    open spec fn spec_to_regs(self) -> Seq<u64> {
        seq![(self as u32) as u64]
    }

    fn reg_count() -> (n: usize) {
        1
    }

    fn from_regs(regs: &[u64]) -> (v: u16) {
        (regs[0] as u32) as u16
    }

    fn to_regs(self, regs: &mut [u64]) {
        regs[0] = (self as u32) as u64;
        assert(regs@ =~= seq![(self as u32) as u64]);
    }

    proof fn lemma_regs_roundtrip(v: u16) {
    }
}

impl GuestArg for i16 {
    open spec fn spec_reg_count() -> nat {
        1
    }

    open spec fn spec_from_regs(regs: Seq<u64>) -> i16 {
        (regs[0] as u32) as i16
    }

    open spec fn spec_to_regs(self) -> Seq<u64> {
        seq![(self as u32) as u64]
    }

    fn reg_count() -> (n: usize) {
        1
    }

    fn from_regs(regs: &[u64]) -> (v: i16) {
        (regs[0] as u32) as i16
    }

    fn to_regs(self, regs: &mut [u64]) {
        regs[0] = (self as u32) as u64;
        assert(regs@ =~= seq![(self as u32) as u64]);
    }

    proof fn lemma_regs_roundtrip(v: i16) {
        assert((((v as u32) as u64) as u32) as i16 == v) by (bit_vector);
    }
}

impl GuestArg for u8 {
    open spec fn spec_reg_count() -> nat {
        1
    }

    open spec fn spec_from_regs(regs: Seq<u64>) -> u8 {
        (regs[0] as u32) as u8
    }

    open spec fn spec_to_regs(self) -> Seq<u64> {
        seq![(self as u32) as u64]
    }

    fn reg_count() -> (n: usize) {
        1
    }

    fn from_regs(regs: &[u64]) -> (v: u8) {
        (regs[0] as u32) as u8
    }

    fn to_regs(self, regs: &mut [u64]) {
        regs[0] = (self as u32) as u64;
        assert(regs@ =~= seq![(self as u32) as u64]);
    }

    proof fn lemma_regs_roundtrip(v: u8) {
    }
}

impl GuestArg for i8 {
    open spec fn spec_reg_count() -> nat {
        1
    }

    open spec fn spec_from_regs(regs: Seq<u64>) -> i8 {
        (regs[0] as u32) as i8
    }

    open spec fn spec_to_regs(self) -> Seq<u64> {
        seq![(self as u32) as u64]
    }

    fn reg_count() -> (n: usize) {
        1
    }

    fn from_regs(regs: &[u64]) -> (v: i8) {
        (regs[0] as u32) as i8
    }

    fn to_regs(self, regs: &mut [u64]) {
        regs[0] = (self as u32) as u64;
        assert(regs@ =~= seq![(self as u32) as u64]);
    }

    proof fn lemma_regs_roundtrip(v: i8) {
        assert((((v as u32) as u64) as u32) as i8 == v) by (bit_vector);
    }
}

impl GuestArg for bool {
    open spec fn spec_reg_count() -> nat {
        1
    }

    open spec fn spec_from_regs(regs: Seq<u64>) -> bool {
        regs[0] != 0
    }

    open spec fn spec_to_regs(self) -> Seq<u64> {
        seq![
            if self {
                1u64
            } else {
                0u64
            },
        ]
    }

    fn reg_count() -> (n: usize) {
        1
    }

    fn from_regs(regs: &[u64]) -> (v: bool) {
        regs[0] != 0
    }

    fn to_regs(self, regs: &mut [u64]) {
        regs[0] = if self {
            1
        } else {
            0
        };
        assert(regs@ =~= self.spec_to_regs());
    }

    proof fn lemma_regs_roundtrip(v: bool) {
    }
}

impl GuestArg for Ptr {
    open spec fn spec_reg_count() -> nat {
        1
    }

    open spec fn spec_from_regs(regs: Seq<u64>) -> Ptr {
        choose|p: Ptr| p.spec_bits() == regs[0]
    }

    open spec fn spec_to_regs(self) -> Seq<u64> {
        seq![self.spec_bits()]
    }

    fn reg_count() -> (n: usize) {
        1
    }

    fn from_regs(regs: &[u64]) -> (v: Ptr) {
        let p = Ptr::from_bits(regs[0]);
        proof {
            let c = choose|q: Ptr| q.spec_bits() == regs@[0];
            crate::mem::law_ptr_bits_identify(p, c);
        }
        p
    }

    fn to_regs(self, regs: &mut [u64]) {
        regs[0] = self.to_bits();
        assert(regs@ =~= seq![self.spec_bits()]);
    }

    proof fn lemma_regs_roundtrip(v: Ptr) {
        let c = choose|q: Ptr| q.spec_bits() == v.spec_bits();
        crate::mem::law_ptr_bits_identify(v, c);
    }
}

impl GuestArg for GuestFunction {
    open spec fn spec_reg_count() -> nat {
        1
    }

    closed spec fn spec_from_regs(regs: Seq<u64>) -> GuestFunction {
        GuestFunction(<Ptr as GuestArg>::spec_from_regs(regs))
    }

    open spec fn spec_to_regs(self) -> Seq<u64> {
        seq![self.spec_addr()]
    }

    fn reg_count() -> (n: usize) {
        1
    }

    fn from_regs(regs: &[u64]) -> (v: GuestFunction) {
        GuestFunction(<Ptr as GuestArg>::from_regs(regs))
    }

    fn to_regs(self, regs: &mut [u64]) {
        <Ptr as GuestArg>::to_regs(self.0, regs)
    }

    proof fn lemma_regs_roundtrip(v: GuestFunction) {
        <Ptr as GuestArg>::lemma_regs_roundtrip(v.0);
    }
}

// ----------------------------------------------------
// Return values
// ----------------------------------------------------

/// A value that can be returned from a function: it comes back in X0, or,
/// for `()`, not at all.
pub trait GuestRet: Sized {
    /// The value that the result registers `regs` stand for.
    spec fn spec_from_ret_regs(regs: Seq<u64>) -> Self;

    /// The word placed in X0 for this value, if any.
    spec fn spec_ret_word(self) -> Option<u64>;

    fn from_regs(regs: &[u64]) -> (v: Self)
        requires
            regs@.len() >= 1,
        ensures
            v == Self::spec_from_ret_regs(regs@),
    ;

    fn to_regs(self, regs: &mut [u64])
        requires
            old(regs)@.len() >= 1,
        ensures
            final(regs)@ == ret_regs_after(old(regs)@, self.spec_ret_word()),
    ;

    /// Returning a value and reading it back gives the value.
    proof fn lemma_ret_roundtrip(v: Self, regs: Seq<u64>)
        requires
            regs.len() >= 1,
        ensures
            Self::spec_from_ret_regs(ret_regs_after(regs, v.spec_ret_word())) == v,
    ;
}

/// The registers after placing `word` (if any) in X0.
pub open spec fn ret_regs_after(regs: Seq<u64>, word: Option<u64>) -> Seq<u64> {
    match word {
        Some(w) => regs.update(0, w),
        None => regs,
    }
}

impl GuestRet for () {
    open spec fn spec_from_ret_regs(regs: Seq<u64>) -> () {
        ()
    }

    open spec fn spec_ret_word(self) -> Option<u64> {
        None
    }

    fn from_regs(_regs: &[u64]) -> (v: ()) {
    }

    fn to_regs(self, _regs: &mut [u64]) {
    }

    proof fn lemma_ret_roundtrip(v: (), regs: Seq<u64>) {
    }
}

impl GuestRet for u64 {
    open spec fn spec_from_ret_regs(regs: Seq<u64>) -> u64 {
        regs[0]
    }

    open spec fn spec_ret_word(self) -> Option<u64> {
        Some(self)
    }

    fn from_regs(regs: &[u64]) -> (v: u64) {
        regs[0]
    }

    fn to_regs(self, regs: &mut [u64]) {
        regs[0] = self;
    }

    proof fn lemma_ret_roundtrip(v: u64, regs: Seq<u64>) {
    }
}

impl GuestRet for i64 {
    open spec fn spec_from_ret_regs(regs: Seq<u64>) -> i64 {
        regs[0] as i64
    }

    open spec fn spec_ret_word(self) -> Option<u64> {
        Some(self as u64)
    }

    fn from_regs(regs: &[u64]) -> (v: i64) {
        regs[0] as i64
    }

    fn to_regs(self, regs: &mut [u64]) {
        regs[0] = self as u64;
    }

    proof fn lemma_ret_roundtrip(v: i64, regs: Seq<u64>) {
        assert((v as u64) as i64 == v) by (bit_vector);
    }
}

impl GuestRet for u32 {
    open spec fn spec_from_ret_regs(regs: Seq<u64>) -> u32 {
        regs[0] as u32
    }

    open spec fn spec_ret_word(self) -> Option<u64> {
        Some(self as u64)
    }

    fn from_regs(regs: &[u64]) -> (v: u32) {
        regs[0] as u32
    }

    fn to_regs(self, regs: &mut [u64]) {
        regs[0] = self as u64;
    }

    proof fn lemma_ret_roundtrip(v: u32, regs: Seq<u64>) {
    }
}

impl GuestRet for i32 {
    open spec fn spec_from_ret_regs(regs: Seq<u64>) -> i32 {
        (regs[0] as u32) as i32
    }

    open spec fn spec_ret_word(self) -> Option<u64> {
        Some((self as u32) as u64)
    }

    fn from_regs(regs: &[u64]) -> (v: i32) {
        (regs[0] as u32) as i32
    }

    fn to_regs(self, regs: &mut [u64]) {
        regs[0] = (self as u32) as u64;
    }

    proof fn lemma_ret_roundtrip(v: i32, regs: Seq<u64>) {
        assert((((v as u32) as u64) as u32) as i32 == v) by (bit_vector);
    }
}

impl GuestRet for u16 {
    open spec fn spec_from_ret_regs(regs: Seq<u64>) -> u16 {
        (regs[0] as u32) as u16
    }

    open spec fn spec_ret_word(self) -> Option<u64> {
        Some((self as u32) as u64)
    }

    fn from_regs(regs: &[u64]) -> (v: u16) {
        (regs[0] as u32) as u16
    }

    fn to_regs(self, regs: &mut [u64]) {
        regs[0] = (self as u32) as u64;
    }

    proof fn lemma_ret_roundtrip(v: u16, regs: Seq<u64>) {
    }
}

impl GuestRet for i16 {
    open spec fn spec_from_ret_regs(regs: Seq<u64>) -> i16 {
        (regs[0] as u32) as i16
    }

    open spec fn spec_ret_word(self) -> Option<u64> {
        Some((self as u32) as u64)
    }

    fn from_regs(regs: &[u64]) -> (v: i16) {
        (regs[0] as u32) as i16
    }

    fn to_regs(self, regs: &mut [u64]) {
        regs[0] = (self as u32) as u64;
    }

    proof fn lemma_ret_roundtrip(v: i16, regs: Seq<u64>) {
        assert((((v as u32) as u64) as u32) as i16 == v) by (bit_vector);
    }
}

impl GuestRet for u8 {
    open spec fn spec_from_ret_regs(regs: Seq<u64>) -> u8 {
        (regs[0] as u32) as u8
    }

    open spec fn spec_ret_word(self) -> Option<u64> {
        Some((self as u32) as u64)
    }

    fn from_regs(regs: &[u64]) -> (v: u8) {
        (regs[0] as u32) as u8
    }

    fn to_regs(self, regs: &mut [u64]) {
        regs[0] = (self as u32) as u64;
    }

    proof fn lemma_ret_roundtrip(v: u8, regs: Seq<u64>) {
    }
}

impl GuestRet for i8 {
    open spec fn spec_from_ret_regs(regs: Seq<u64>) -> i8 {
        (regs[0] as u32) as i8
    }

    open spec fn spec_ret_word(self) -> Option<u64> {
        Some((self as u32) as u64)
    }

    fn from_regs(regs: &[u64]) -> (v: i8) {
        (regs[0] as u32) as i8
    }

    fn to_regs(self, regs: &mut [u64]) {
        regs[0] = (self as u32) as u64;
    }

    proof fn lemma_ret_roundtrip(v: i8, regs: Seq<u64>) {
        assert((((v as u32) as u64) as u32) as i8 == v) by (bit_vector);
    }
}

impl GuestRet for bool {
    open spec fn spec_from_ret_regs(regs: Seq<u64>) -> bool {
        regs[0] != 0
    }

    open spec fn spec_ret_word(self) -> Option<u64> {
        Some(
            if self {
                1u64
            } else {
                0u64
            },
        )
    }

    fn from_regs(regs: &[u64]) -> (v: bool) {
        regs[0] != 0
    }

    fn to_regs(self, regs: &mut [u64]) {
        regs[0] = if self {
            1
        } else {
            0
        };
    }

    proof fn lemma_ret_roundtrip(v: bool, regs: Seq<u64>) {
    }
}

impl GuestRet for Ptr {
    open spec fn spec_from_ret_regs(regs: Seq<u64>) -> Ptr {
        choose|p: Ptr| p.spec_bits() == regs[0]
    }

    open spec fn spec_ret_word(self) -> Option<u64> {
        Some(self.spec_bits())
    }

    fn from_regs(regs: &[u64]) -> (v: Ptr) {
        let p = Ptr::from_bits(regs[0]);
        proof {
            let c = choose|q: Ptr| q.spec_bits() == regs@[0];
            crate::mem::law_ptr_bits_identify(p, c);
        }
        p
    }

    fn to_regs(self, regs: &mut [u64]) {
        regs[0] = self.to_bits();
    }

    proof fn lemma_ret_roundtrip(v: Ptr, regs: Seq<u64>) {
        let c = choose|q: Ptr| q.spec_bits() == v.spec_bits();
        crate::mem::law_ptr_bits_identify(v, c);
    }
}


/// What a call into guest code from the host saves, to be restored when it
/// returns.
#[derive(Copy, Clone, Debug, PartialEq, Eq, Structural)]
pub struct CallFrame {
    pub old_pc: u64,
    pub old_lr: u64,
    pub old_sp: u64,
    pub old_fp: u64,
}

/// The registers `regs` with the PC, LR, SP and frame pointer of `frame`
/// put back.
pub open spec fn restore_frame(regs: Seq<u64>, frame: CallFrame) -> Seq<u64> {
    regs.update(Cpu::PC as int, frame.old_pc).update(Cpu::LR as int, frame.old_lr).update(
        Cpu::SP as int,
        frame.old_sp,
    ).update(FRAME_POINTER as int, frame.old_fp)
}

impl GuestFunction {
    /// Starts a call of this function from the host: branches to it with
    /// `return_to_host` as the return address, and pushes a frame record
    /// (the previous frame pointer, then the previous return address) that
    /// the frame pointer then points at. The caller writes the arguments,
    /// runs the CPU until the call returns to the host, and ends the call
    /// with [finish_host_call].
    pub fn begin_host_call(self, cpu: &mut Cpu, mem: &mut Mem, return_to_host: GuestFunction) -> (frame:
        CallFrame)
        requires
            old(cpu).wf(),
            old(cpu).view_regs()[Cpu::SP as int] >= 16,
            old(cpu).view_regs()[Cpu::SP as int] <= old(mem)@.len(),
        ensures
            final(cpu).wf(),
            frame == (CallFrame {
                old_pc: old(cpu).view_regs()[Cpu::PC as int],
                old_lr: old(cpu).view_regs()[Cpu::LR as int],
                old_sp: old(cpu).view_regs()[Cpu::SP as int],
                old_fp: old(cpu).view_regs()[FRAME_POINTER as int],
            }),
            ({
                let sp = (frame.old_sp - 16) as u64;
                &&& final(cpu).view_regs() == old(cpu).view_regs().update(Cpu::PC as int, self.spec_addr())
                    .update(Cpu::LR as int, return_to_host.spec_addr()).update(Cpu::SP as int, sp)
                    .update(FRAME_POINTER as int, sp)
                &&& le_u64(final(mem)@, sp as int) == frame.old_fp
                &&& le_u64(final(mem)@, sp + 8) == frame.old_lr
                &&& final(mem)@.len() == old(mem)@.len()
                &&& forall|a: int|
                    0 <= a < old(mem)@.len() && !(sp <= a < sp + 16) ==> #[trigger] final(mem)@[a]
                        == old(mem)@[a]
            }),
            final(mem).spec_next_alloc() == old(mem).spec_next_alloc(),
            old(mem).wf() ==> final(mem).wf(),
    {
        let _n = mem.len();
        let (old_pc, old_lr) = cpu.branch_with_link(
            self.addr_without_thumb_bit(),
            return_to_host.addr_without_thumb_bit(),
        );
        let old_sp = cpu.reg(Cpu::SP);
        let old_fp = cpu.reg(FRAME_POINTER);
        let sp = old_sp - 16;
        cpu.set_reg(Cpu::SP, sp);
        cpu.set_reg(FRAME_POINTER, sp);
        mem.write_u64(sp, old_fp);
        let ghost m1 = mem@;
        mem.write_u64(sp + 8, old_lr);
        proof {
            crate::mem::lemma_le_u32_frame(m1, sp + 8, u64_le_bytes(old_lr), sp as int);
            crate::mem::lemma_le_u32_frame(m1, sp + 8, u64_le_bytes(old_lr), sp + 4);
        }
        CallFrame { old_pc, old_lr, old_sp, old_fp }
    }

    /// Starts a call of this function that pushes no frame record: only
    /// branches to it with `return_to_host` as the return address. Returns
    /// the previous PC and LR for [finish_call_without_frame].
    pub fn begin_call_without_frame(self, cpu: &mut Cpu, return_to_host: GuestFunction) -> (saved: (u64, u64))
        requires
            old(cpu).wf(),
        ensures
            final(cpu).wf(),
            saved == (old(cpu).view_regs()[Cpu::PC as int], old(cpu).view_regs()[Cpu::LR as int]),
            final(cpu).view_regs() == old(cpu).view_regs().update(Cpu::PC as int, self.spec_addr())
                .update(Cpu::LR as int, return_to_host.spec_addr()),
    {
        cpu.branch_with_link(self.addr_without_thumb_bit(), return_to_host.addr_without_thumb_bit())
    }
}

/// Ends a call started with [GuestFunction::begin_host_call]: the PC, LR,
/// stack pointer and frame pointer get their values from before the call.
pub fn finish_host_call(cpu: &mut Cpu, frame: CallFrame)
    requires
        old(cpu).wf(),
    ensures
        final(cpu).wf(),
        final(cpu).view_regs() == restore_frame(old(cpu).view_regs(), frame),
{
    cpu.branch(frame.old_pc);
    cpu.set_reg(Cpu::LR, frame.old_lr);
    cpu.set_reg(Cpu::SP, frame.old_sp);
    cpu.set_reg(FRAME_POINTER, frame.old_fp);
}

/// Ends a call started with [GuestFunction::begin_call_without_frame]:
/// the PC and LR get their values from before the call.
pub fn finish_call_without_frame(cpu: &mut Cpu, saved: (u64, u64))
    requires
        old(cpu).wf(),
    ensures
        final(cpu).wf(),
        final(cpu).view_regs() == old(cpu).view_regs().update(Cpu::PC as int, saved.0).update(
            Cpu::LR as int,
            saved.1,
        ),
{
    cpu.branch(saved.0);
    cpu.set_reg(Cpu::LR, saved.1);
}

/// Whatever the guest code did to the registers meanwhile, ending a host
/// call gives back the PC, LR, stack pointer and frame pointer from before
/// it began, and leaves the other registers as the guest code left them.
pub proof fn law_host_call_restores(before: Seq<u64>, during: Seq<u64>, frame: CallFrame)
    requires
        before.len() == REG_COUNT,
        during.len() == REG_COUNT,
        frame == (CallFrame {
            old_pc: before[Cpu::PC as int],
            old_lr: before[Cpu::LR as int],
            old_sp: before[Cpu::SP as int],
            old_fp: before[FRAME_POINTER as int],
        }),
    ensures
        ({
            let after = restore_frame(during, frame);
            &&& after[Cpu::PC as int] == before[Cpu::PC as int]
            &&& after[Cpu::LR as int] == before[Cpu::LR as int]
            &&& after[Cpu::SP as int] == before[Cpu::SP as int]
            &&& after[FRAME_POINTER as int] == before[FRAME_POINTER as int]
            &&& forall|i: int|
                0 <= i < REG_COUNT && i != Cpu::PC && i != Cpu::LR && i != Cpu::SP && i != FRAME_POINTER
                    ==> #[trigger] after[i] == during[i]
        }),
{
}

} // verus!
