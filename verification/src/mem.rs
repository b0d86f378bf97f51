//! Guest memory: a flat little-endian byte array indexed by guest address,
//! with a simple bump allocator.
use vstd::prelude::*;

verus! {

/// Guest-side size and address type.
pub type GuestUSize = u64;

/// The little-endian 32-bit value stored in `s` at `a..a + 4`.
pub open spec fn le_u32(s: Seq<u8>, a: int) -> u32 {
    (s[a] as u32) | ((s[a + 1] as u32) << 8u32) | ((s[a + 2] as u32) << 16u32) | ((s[a + 3]
        as u32) << 24u32)
}

/// The little-endian 64-bit value stored in `s` at `a..a + 8`.
pub open spec fn le_u64(s: Seq<u8>, a: int) -> u64 {
    (le_u32(s, a) as u64) | ((le_u32(s, a + 4) as u64) << 32u64)
}

/// The four bytes of `v`, least significant first.
pub open spec fn u32_le_bytes(v: u32) -> Seq<u8> {
    seq![
        (v & 0xffu32) as u8,
        ((v >> 8u32) & 0xffu32) as u8,
        ((v >> 16u32) & 0xffu32) as u8,
        ((v >> 24u32) & 0xffu32) as u8,
    ]
}

/// The eight bytes of `v`, least significant first.
pub open spec fn u64_le_bytes(v: u64) -> Seq<u8> {
    u32_le_bytes((v & 0xffff_ffffu64) as u32) + u32_le_bytes((v >> 32u64) as u32)
}

/// `s` with the bytes `bytes` written at address `a`.
pub open spec fn write_bytes(s: Seq<u8>, a: int, bytes: Seq<u8>) -> Seq<u8> {
    Seq::new(s.len(), |i: int| if a <= i < a + bytes.len() { bytes[i - a] } else { s[i] })
}

/// The little-endian 32-bit value at `a..a + 4` in `s`.
pub fn read_le_u32(s: &[u8], a: usize) -> (v: u32)
    requires
        a + 4 <= s@.len(),
    ensures
        v == le_u32(s@, a as int),
{
    let b0 = s[a] as u32;
    let b1 = s[a + 1] as u32;
    let b2 = s[a + 2] as u32;
    let b3 = s[a + 3] as u32;
    b0 | (b1 << 8u32) | (b2 << 16u32) | (b3 << 24u32)
}

proof fn lemma_u32_roundtrip(v: u32)
    ensures
        le_u32(u32_le_bytes(v), 0) == v,
{
    let b0 = (v & 0xffu32) as u8;
    let b1 = ((v >> 8u32) & 0xffu32) as u8;
    let b2 = ((v >> 16u32) & 0xffu32) as u8;
    let b3 = ((v >> 24u32) & 0xffu32) as u8;
    assert((b0 as u32) | ((b1 as u32) << 8u32) | ((b2 as u32) << 16u32) | ((b3 as u32) << 24u32)
        == v) by (bit_vector)
        requires
            b0 == (v & 0xffu32) as u8,
            b1 == ((v >> 8u32) & 0xffu32) as u8,
            b2 == ((v >> 16u32) & 0xffu32) as u8,
            b3 == ((v >> 24u32) & 0xffu32) as u8,
    ;
}

proof fn lemma_u64_split(v: u64)
    ensures
        (((v & 0xffff_ffffu64) as u32) as u64) | ((((v >> 32u64) as u32) as u64) << 32u64) == v,
{
    assert((((v & 0xffff_ffffu64) as u32) as u64) | ((((v >> 32u64) as u32) as u64) << 32u64)
        == v) by (bit_vector);
}

/// Guest memory.
pub struct Mem {
    bytes: Vec<u8>,
    next_alloc: u64,
}

impl View for Mem {
    type V = Seq<u8>;

    closed spec fn view(&self) -> Seq<u8> {
        self.bytes@
    }
}

impl Mem {
    /// First address that the allocator has not handed out yet.
    pub closed spec fn spec_next_alloc(&self) -> u64 {
        self.next_alloc
    }

    pub open spec fn wf(&self) -> bool {
        &&& self.spec_next_alloc() <= self@.len()
        &&& self.spec_next_alloc() % 8 == 0
    }

    /// Whether `size` more bytes can be allocated.
    pub open spec fn can_allocate(&self, size: nat) -> bool {
        self.spec_next_alloc() + size + 8 <= self@.len()
    }

    /// Whether `len` bytes starting at `addr` are inside guest memory.
    pub open spec fn in_bounds(&self, addr: u64, len: nat) -> bool {
        addr + len <= self@.len()
    }

    /// A zeroed guest address space of `size` bytes; allocation starts at
    /// `first_alloc`, so the addresses below it (the null page) are never
    /// handed out.
    pub fn new(size: usize, first_alloc: u64) -> (mem: Mem)
        requires
            first_alloc <= size,
            first_alloc % 8 == 0,
        ensures
            mem.wf(),
            mem@.len() == size,
            mem.spec_next_alloc() == first_alloc,
            forall|i: int| 0 <= i < size ==> mem@[i] == 0,
    {
        let mut bytes: Vec<u8> = Vec::new();
        let mut i: usize = 0;
        while i < size
            invariant
                i <= size,
                bytes@.len() == i,
                forall|j: int| 0 <= j < i ==> bytes@[j] == 0,
            decreases size - i,
        {
            bytes.push(0);
            i = i + 1;
        }
        Mem { bytes, next_alloc: first_alloc }
    }

    /// Size of the guest address space in bytes.
    pub fn len(&self) -> (n: usize)
        ensures
            n == self@.len(),
    {
        self.bytes.len()
    }

    pub fn next_alloc(&self) -> (n: u64)
        ensures
            n == self.spec_next_alloc(),
    {
        self.next_alloc
    }

    /// Reserves `size` fresh bytes and returns their address. Allocations are
    /// 8-byte aligned, never overlap and are never freed.
    pub fn allocate(&mut self, size: u64) -> (ptr: u64)
        requires
            old(self).wf(),
            old(self).can_allocate(size as nat),
        ensures
            final(self).wf(),
            final(self)@ == old(self)@,
            ptr == old(self).spec_next_alloc(),
            final(self).spec_next_alloc() == ptr + size + (8 - size % 8) % 8,
    {
        let _n = self.bytes.len();
        let ptr = self.next_alloc;
        let padded = size + (8 - size % 8) % 8;
        self.next_alloc = ptr + padded;
        assert((ptr + padded) % 8 == 0) by {
            assert(padded % 8 == 0);
        }
        ptr
    }

    pub fn read_u8(&self, addr: u64) -> (v: u8)
        requires
            self.in_bounds(addr, 1),
        ensures
            v == self@[addr as int],
    {
        let _n = self.bytes.len();
        self.bytes[addr as usize]
    }

    pub fn write_u8(&mut self, addr: u64, v: u8)
        requires
            old(self).in_bounds(addr, 1),
        ensures
            final(self)@ == old(self)@.update(addr as int, v),
            final(self).spec_next_alloc() == old(self).spec_next_alloc(),
            old(self).wf() ==> final(self).wf(),
    {
        let _n = self.bytes.len();
        self.bytes.set(addr as usize, v);
    }

    pub fn read_u32(&self, addr: u64) -> (v: u32)
        requires
            self.in_bounds(addr, 4),
        ensures
            v == le_u32(self@, addr as int),
    {
        let _n = self.bytes.len();
        let a = addr as usize;
        let b0 = self.bytes[a] as u32;
        let b1 = self.bytes[a + 1] as u32;
        let b2 = self.bytes[a + 2] as u32;
        let b3 = self.bytes[a + 3] as u32;
        b0 | (b1 << 8u32) | (b2 << 16u32) | (b3 << 24u32)
    }

    pub fn write_u32(&mut self, addr: u64, v: u32)
        requires
            old(self).in_bounds(addr, 4),
        ensures
            final(self)@ == write_bytes(old(self)@, addr as int, u32_le_bytes(v)),
            final(self).spec_next_alloc() == old(self).spec_next_alloc(),
            old(self).wf() ==> final(self).wf(),
            le_u32(final(self)@, addr as int) == v,
    {
        let _n = self.bytes.len();
        let a = addr as usize;
        self.bytes.set(a, (v & 0xffu32) as u8);
        self.bytes.set(a + 1, ((v >> 8u32) & 0xffu32) as u8);
        self.bytes.set(a + 2, ((v >> 16u32) & 0xffu32) as u8);
        self.bytes.set(a + 3, ((v >> 24u32) & 0xffu32) as u8);
        proof {
            assert(self@ =~= write_bytes(old(self)@, addr as int, u32_le_bytes(v)));
            lemma_u32_roundtrip(v);
            assert(self@.subrange(addr as int, addr + 4) =~= u32_le_bytes(v));
        }
    }

    pub fn read_u64(&self, addr: u64) -> (v: u64)
        requires
            self.in_bounds(addr, 8),
        ensures
            v == le_u64(self@, addr as int),
    {
        let _n = self.bytes.len();
        let lo = self.read_u32(addr) as u64;
        let hi = self.read_u32(addr + 4) as u64;
        lo | (hi << 32u64)
    }

    pub fn write_u64(&mut self, addr: u64, v: u64)
        requires
            old(self).in_bounds(addr, 8),
        ensures
            final(self)@ == write_bytes(old(self)@, addr as int, u64_le_bytes(v)),
            final(self).spec_next_alloc() == old(self).spec_next_alloc(),
            old(self).wf() ==> final(self).wf(),
            le_u64(final(self)@, addr as int) == v,
    {
        let _n = self.bytes.len();
        let lo = (v & 0xffff_ffffu64) as u32;
        let hi = (v >> 32u64) as u32;
        self.write_u32(addr, lo);
        self.write_u32(addr + 4, hi);
        proof {
            assert(self@ =~= write_bytes(old(self)@, addr as int, u64_le_bytes(v)));
            lemma_u64_split(v);
        }
    }

    /// Copy of the `len` bytes at `addr`.
    pub fn bytes_at(&self, addr: u64, len: u64) -> (out: Vec<u8>)
        requires
            self.in_bounds(addr, len as nat),
        ensures
            out@ == self@.subrange(addr as int, addr + len),
    {
        let _n = self.bytes.len();
        let mut out: Vec<u8> = Vec::new();
        let mut i: u64 = 0;
        while i < len
            invariant
                i <= len,
                self.in_bounds(addr, len as nat),
                self@.len() <= usize::MAX,
                out@ == self@.subrange(addr as int, addr + i),
            decreases len - i,
        {
            out.push(self.bytes[(addr + i) as usize]);
            i = i + 1;
            assert(out@ =~= self@.subrange(addr as int, addr + i));
        }
        out
    }

    /// The `len` bytes at `addr`, borrowed.
    pub fn bytes_slice(&self, addr: u64, len: u64) -> (out: &[u8])
        requires
            self.in_bounds(addr, len as nat),
        ensures
            out@ == self@.subrange(addr as int, addr + len),
    {
        let _n = self.bytes.len();
        vstd::slice::slice_subrange(self.bytes.as_slice(), addr as usize, (addr + len) as usize)
    }

    /// Writes `data` at `addr`.
    pub fn write_bytes(&mut self, addr: u64, data: &Vec<u8>)
        requires
            old(self).in_bounds(addr, data@.len()),
        ensures
            final(self)@ == write_bytes(old(self)@, addr as int, data@),
            final(self).spec_next_alloc() == old(self).spec_next_alloc(),
            old(self).wf() ==> final(self).wf(),
    {
        let _n = self.bytes.len();
        let mut i: usize = 0;
        while i < data.len()
            invariant
                i <= data@.len(),
                self@.len() == old(self)@.len(),
                old(self).in_bounds(addr, data@.len()),
                old(self)@.len() <= usize::MAX,
                self.spec_next_alloc() == old(self).spec_next_alloc(),
                self@ == write_bytes(old(self)@, addr as int, data@.subrange(0, i as int)),
            decreases data@.len() - i,
        {
            self.bytes.set((addr + i as u64) as usize, data[i]);
            i = i + 1;
            assert(self@ =~= write_bytes(old(self)@, addr as int, data@.subrange(0, i as int)));
        }
        assert(data@.subrange(0, data@.len() as int) =~= data@);
    }

    /// Copies the `len` bytes at `src` to `dst`; the two may overlap.
    pub fn memmove(&mut self, dst: u64, src: u64, len: u64)
        requires
            old(self).in_bounds(dst, len as nat),
            old(self).in_bounds(src, len as nat),
        ensures
            final(self)@ == write_bytes(old(self)@, dst as int, old(self)@.subrange(src as int, src + len)),
            final(self).spec_next_alloc() == old(self).spec_next_alloc(),
            old(self).wf() ==> final(self).wf(),
    {
        let data = self.bytes_at(src, len);
        self.write_bytes(dst, &data);
    }
}

/// A 32-bit value is unchanged by a write that does not touch its bytes.
pub proof fn lemma_le_u32_frame(s: Seq<u8>, a: int, b: Seq<u8>, a2: int)
    requires
        0 <= a,
        a + b.len() <= s.len(),
        0 <= a2,
        a2 + 4 <= s.len(),
        a2 + 4 <= a || a + b.len() <= a2,
    ensures
        le_u32(write_bytes(s, a, b), a2) == le_u32(s, a2),
{
    let w = write_bytes(s, a, b);
    assert(w[a2] == s[a2]);
    assert(w[a2 + 1] == s[a2 + 1]);
    assert(w[a2 + 2] == s[a2 + 2]);
    assert(w[a2 + 3] == s[a2 + 3]);
}

/// Reading back a 32-bit value gives what was written, and bytes outside the
/// written word are untouched.
pub proof fn law_write_read_u32(s: Seq<u8>, addr: int, v: u32, other: int)
    requires
        0 <= addr,
        addr + 4 <= s.len(),
        0 <= other < s.len(),
        !(addr <= other < addr + 4),
    ensures
        le_u32(write_bytes(s, addr, u32_le_bytes(v)), addr) == v,
        write_bytes(s, addr, u32_le_bytes(v))[other] == s[other],
{
    lemma_u32_roundtrip(v);
    let w = write_bytes(s, addr, u32_le_bytes(v));
    assert(w[addr] == u32_le_bytes(v)[0]);
    assert(w[addr + 1] == u32_le_bytes(v)[1]);
    assert(w[addr + 2] == u32_le_bytes(v)[2]);
    assert(w[addr + 3] == u32_le_bytes(v)[3]);
}

/// Reading back a 64-bit value gives what was written.
pub proof fn law_write_read_u64(s: Seq<u8>, addr: int, v: u64)
    requires
        0 <= addr,
        addr + 8 <= s.len(),
    ensures
        le_u64(write_bytes(s, addr, u64_le_bytes(v)), addr) == v,
{
    let lo = (v & 0xffff_ffffu64) as u32;
    let hi = (v >> 32u64) as u32;
    lemma_u32_roundtrip(lo);
    lemma_u32_roundtrip(hi);
    lemma_u64_split(v);
    let w = write_bytes(s, addr, u64_le_bytes(v));
    assert(w[addr] == u32_le_bytes(lo)[0]);
    assert(w[addr + 1] == u32_le_bytes(lo)[1]);
    assert(w[addr + 2] == u32_le_bytes(lo)[2]);
    assert(w[addr + 3] == u32_le_bytes(lo)[3]);
    assert(w[addr + 4] == u32_le_bytes(hi)[0]);
    assert(w[addr + 5] == u32_le_bytes(hi)[1]);
    assert(w[addr + 6] == u32_le_bytes(hi)[2]);
    assert(w[addr + 7] == u32_le_bytes(hi)[3]);
}

/// A guest pointer: an address in guest memory, or null.
#[derive(Copy, Clone, Debug, PartialEq, Eq, Structural)]
pub struct Ptr {
    addr: u64,
}

/// A pointer to data the guest does not write through.
pub type ConstVoidPtr = Ptr;

/// A pointer to data the guest may write through.
pub type MutVoidPtr = Ptr;

impl Ptr {
    pub closed spec fn spec_bits(self) -> u64 {
        self.addr
    }

    pub fn from_bits(addr: u64) -> (p: Ptr)
        ensures
            p.spec_bits() == addr,
    {
        Ptr { addr }
    }

    pub fn to_bits(self) -> (addr: u64)
        ensures
            addr == self.spec_bits(),
    {
        self.addr
    }

    pub fn null() -> (p: Ptr)
        ensures
            p.spec_bits() == 0,
    {
        Ptr { addr: 0 }
    }

    pub fn is_null(self) -> (b: bool)
        ensures
            b == (self.spec_bits() == 0),
    {
        self.addr == 0
    }
}

/// Two pointers with the same address are the same pointer.
pub proof fn law_ptr_bits_identify(a: Ptr, b: Ptr)
    requires
        a.spec_bits() == b.spec_bits(),
    ensures
        a == b,
{
}

} // verus!
