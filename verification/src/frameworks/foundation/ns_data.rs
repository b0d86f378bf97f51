//! `NSData` and `NSMutableData`: a buffer of bytes in guest memory. New
//! buffers come from the guest allocator; resizing moves the bytes to a
//! fresh buffer.
use vstd::prelude::*;
use crate::frameworks::foundation::{NSRange, NSUInteger};
use crate::mem::{write_bytes, Mem};

verus! {

/// A data object's buffer.
pub struct NSDataHostObject {
    /// Guest address of the bytes (0 if there are none).
    pub bytes: u32,
    pub length: NSUInteger,
    /// The buffer is freed with the object.
    pub free_when_done: bool,
}

/// `n` zero bytes.
pub open spec fn zeros(n: nat) -> Seq<u8> {
    Seq::new(n, |i: int| 0u8)
}

/// The bytes of a data object, which must have some.
pub fn to_rust_slice<'a>(mem: &'a Mem, data: &NSDataHostObject) -> (out: &'a [u8])
    requires
        data.bytes != 0,
        data.length != 0,
        data.bytes + data.length <= mem@.len(),
    ensures
        out@ == mem@.subrange(data.bytes as int, data.bytes + data.length),
{
    mem.bytes_slice(data.bytes as u64, data.length as u64)
}

proof fn lemma_written_back(s: Seq<u8>, a: int, b: Seq<u8>)
    requires
        0 <= a,
        a + b.len() <= s.len(),
    ensures
        write_bytes(s, a, b).subrange(a, a + b.len()) == b,
{
    assert(write_bytes(s, a, b).subrange(a, a + b.len()) =~= b);
}

impl NSDataHostObject {
    /// The data's bytes in the guest memory `mem`.
    pub open spec fn contents(&self, mem: Seq<u8>) -> Seq<u8> {
        mem.subrange(self.bytes as int, self.bytes + self.length)
    }

    /// The data's bytes lie in guest memory of `len` bytes.
    pub open spec fn in_memory(&self, len: nat) -> bool {
        self.bytes + self.length <= len
    }

    /// `-initWithBytesNoCopy:length:freeWhenDone:`: the `length` bytes at
    /// `bytes`, used where they are.
    pub fn with_bytes_no_copy(bytes: u32, length: NSUInteger, free_when_done: bool) -> (d: Self)
        ensures
            d.bytes == bytes,
            d.length == length,
            d.free_when_done == free_when_done,
    {
        NSDataHostObject { bytes, length, free_when_done }
    }

    /// `-initWithBytes:length:`: a copy of the `length` bytes at `bytes`, in
    /// a fresh buffer.
    pub fn with_bytes(mem: &mut Mem, bytes: u32, length: NSUInteger) -> (d: Self)
        requires
            old(mem).wf(),
            old(mem).can_allocate(length as nat),
            old(mem).spec_next_alloc() + length <= u32::MAX,
            bytes + length <= old(mem)@.len(),
        ensures
            final(mem).wf(),
            d.bytes == old(mem).spec_next_alloc(),
            d.length == length,
            d.free_when_done,
            d.in_memory(final(mem)@.len()),
            d.contents(final(mem)@) == old(mem)@.subrange(bytes as int, bytes + length),
            final(mem)@ == write_bytes(
                old(mem)@,
                old(mem).spec_next_alloc() as int,
                old(mem)@.subrange(bytes as int, bytes + length),
            ),
            final(mem).spec_next_alloc() == old(mem).spec_next_alloc() + length + (8 - length % 8) % 8,
    {
        let ptr = mem.allocate(length as u64);
        mem.memmove(ptr, bytes as u64, length as u64);
        proof {
            lemma_written_back(old(mem)@, ptr as int, old(mem)@.subrange(bytes as int, bytes + length));
        }
        NSDataHostObject { bytes: ptr as u32, length, free_when_done: true }
    }

    /// `-[NSMutableData initWithLength:]`: `length` zero bytes in a fresh
    /// buffer.
    pub fn with_length(mem: &mut Mem, length: NSUInteger) -> (d: Self)
        requires
            old(mem).wf(),
            old(mem).can_allocate(length as nat),
            old(mem).spec_next_alloc() + length <= u32::MAX,
        ensures
            final(mem).wf(),
            d.bytes == old(mem).spec_next_alloc(),
            d.length == length,
            d.free_when_done,
            d.in_memory(final(mem)@.len()),
            d.contents(final(mem)@) == zeros(length as nat),
            final(mem)@ == write_bytes(old(mem)@, old(mem).spec_next_alloc() as int, zeros(length as nat)),
            final(mem).spec_next_alloc() == old(mem).spec_next_alloc() + length + (8 - length % 8) % 8,
    {
        let ptr = mem.allocate(length as u64);
        let mut z: Vec<u8> = Vec::new();
        let mut i: u32 = 0;
        while i < length
            invariant
                i <= length,
                z@ == zeros(i as nat),
            decreases length - i,
        {
            z.push(0);
            i = i + 1;
            assert(z@ =~= zeros(i as nat));
        }
        mem.write_bytes(ptr, &z);
        proof {
            lemma_written_back(old(mem)@, ptr as int, zeros(length as nat));
        }
        NSDataHostObject { bytes: ptr as u32, length, free_when_done: true }
    }

    /// `-isEqualToData:`: both objects hold the same bytes (both must have
    /// some).
    pub fn is_equal_to_data(&self, mem: &Mem, other: &Self) -> (eq: bool)
        requires
            self.bytes != 0 && self.length != 0 && self.in_memory(mem@.len()),
            other.bytes != 0 && other.length != 0 && other.in_memory(mem@.len()),
        ensures
            eq == (self.contents(mem@) == other.contents(mem@)),
    {
        let a = to_rust_slice(mem, self);
        let b = to_rust_slice(mem, other);
        if a.len() != b.len() {
            return false;
        }
        let mut i: usize = 0;
        while i < a.len()
            invariant
                a@ == self.contents(mem@),
                b@ == other.contents(mem@),
                a@.len() == b@.len(),
                i <= a@.len(),
                forall|j: int| 0 <= j < i ==> a@[j] == b@[j],
            decreases a@.len() - i,
        {
            if a[i] != b[i] {
                assert(a@[i as int] != b@[i as int]);
                return false;
            }
            i = i + 1;
        }
        assert(a@ =~= b@);
        true
    }

    /// `-getBytes:range:`: copies the bytes that `range` selects to
    /// `buffer`; nothing for an empty range.
    pub fn get_bytes_in_range(&self, mem: &mut Mem, buffer: u32, range: NSRange)
        requires
            self.in_memory(old(mem)@.len()),
            range.length != 0 ==> range.location < self.length && range.location + range.length
                <= self.length,
            range.length != 0 ==> buffer + range.length <= old(mem)@.len(),
        ensures
            range.length == 0 ==> final(mem)@ == old(mem)@,
            range.length != 0 ==> final(mem)@ == write_bytes(
                old(mem)@,
                buffer as int,
                self.contents(old(mem)@).subrange(
                    range.location as int,
                    range.location + range.length,
                ),
            ),
            final(mem).spec_next_alloc() == old(mem).spec_next_alloc(),
            old(mem).wf() ==> final(mem).wf(),
    {
        if range.length == 0 {
            return;
        }
        let src = self.bytes as u64 + range.location as u64;
        mem.memmove(buffer as u64, src, range.length as u64);
        assert(old(mem)@.subrange(src as int, src + range.length) =~= self.contents(old(mem)@).subrange(
            range.location as int,
            range.location + range.length,
        ));
    }

    /// `-getBytes:length:`: copies the first `length` bytes, or all of them
    /// if there are fewer, to `buffer`.
    pub fn get_bytes_up_to(&self, mem: &mut Mem, buffer: u32, length: NSUInteger)
        requires
            self.in_memory(old(mem)@.len()),
            buffer + (if length < self.length {
                length
            } else {
                self.length
            }) <= old(mem)@.len(),
        ensures
            final(mem)@ == write_bytes(
                old(mem)@,
                buffer as int,
                self.contents(old(mem)@).take(
                    if length < self.length {
                        length as int
                    } else {
                        self.length as int
                    },
                ),
            ),
            final(mem).spec_next_alloc() == old(mem).spec_next_alloc(),
            old(mem).wf() ==> final(mem).wf(),
    {
        let n = if length < self.length {
            length
        } else {
            self.length
        };
        self.get_bytes_in_range(mem, buffer, NSRange { location: 0, length: n });
        proof {
            if n == 0 {
                assert(self.contents(old(mem)@).take(0) =~= Seq::<u8>::empty());
                assert(write_bytes(old(mem)@, buffer as int, Seq::<u8>::empty()) =~= old(mem)@);
            } else {
                assert(self.contents(old(mem)@).subrange(0, n as int) =~= self.contents(old(mem)@).take(
                    n as int,
                ));
            }
        }
    }

    /// `-getBytes:`: copies all the bytes to `buffer`.
    pub fn get_bytes(&self, mem: &mut Mem, buffer: u32)
        requires
            self.in_memory(old(mem)@.len()),
            buffer + self.length <= old(mem)@.len(),
        ensures
            final(mem)@ == write_bytes(old(mem)@, buffer as int, self.contents(old(mem)@)),
            final(mem).spec_next_alloc() == old(mem).spec_next_alloc(),
            old(mem).wf() ==> final(mem).wf(),
    {
        mem.memmove(buffer as u64, self.bytes as u64, self.length as u64);
    }

    /// `-subdataWithRange:`: a new data object with a copy of the bytes that
    /// `range` selects.
    pub fn subdata_with_range(&self, mem: &mut Mem, range: NSRange) -> (d: Self)
        requires
            old(mem).wf(),
            self.in_memory(old(mem)@.len()),
            self.bytes + self.length <= u32::MAX,
            range.location + range.length <= self.length,
            old(mem).can_allocate(range.length as nat),
            old(mem).spec_next_alloc() + range.length <= u32::MAX,
        ensures
            final(mem).wf(),
            d.bytes == old(mem).spec_next_alloc(),
            d.length == range.length,
            d.free_when_done,
            d.contents(final(mem)@) == self.contents(old(mem)@).subrange(
                range.location as int,
                range.location + range.length,
            ),
            final(mem).spec_next_alloc() == old(mem).spec_next_alloc() + range.length + (8
                - range.length % 8) % 8,
    {
        let d = Self::with_bytes(mem, self.bytes + range.location, range.length);
        assert(old(mem)@.subrange(self.bytes + range.location, self.bytes + range.location + range.length)
            =~= self.contents(old(mem)@).subrange(range.location as int, range.location + range.length));
        d
    }

    /// `-[NSMutableData mutableBytes]`: the buffer, which must not be
    /// empty.
    pub fn mutable_bytes(&self) -> (p: u32)
        requires
            self.length != 0,
        ensures
            p == self.bytes,
    {
        self.bytes
    }

    /// `-[NSMutableData setLength:]`: the bytes move to a fresh buffer of
    /// `new_length` bytes, cut short or extended with zeros.
    pub fn set_length(&mut self, mem: &mut Mem, new_length: NSUInteger)
        requires
            old(mem).wf(),
            old(self).in_memory(old(mem)@.len()),
            old(self).bytes + old(self).length <= old(mem).spec_next_alloc(),
            old(mem).can_allocate(new_length as nat),
            old(mem).spec_next_alloc() + new_length <= u32::MAX,
        ensures
            final(mem).wf(),
            final(self).bytes == old(mem).spec_next_alloc(),
            final(self).length == new_length,
            final(self).free_when_done == old(self).free_when_done,
            final(self).in_memory(final(mem)@.len()),
            final(self).bytes + final(self).length <= final(mem).spec_next_alloc(),
            final(self).contents(final(mem)@) == if new_length <= old(self).length {
                old(self).contents(old(mem)@).take(new_length as int)
            } else {
                old(self).contents(old(mem)@) + zeros((new_length - old(self).length) as nat)
            },
            final(mem).spec_next_alloc() == old(mem).spec_next_alloc() + new_length + (8 - new_length
                % 8) % 8,
            forall|a: int|
                0 <= a < old(mem).spec_next_alloc() ==> #[trigger] final(mem)@[a] == old(mem)@[a],
    {
        let ghost old_contents = self.contents(mem@);
        let ptr = mem.allocate(new_length as u64);
        let keep = if new_length < self.length {
            new_length
        } else {
            self.length
        };
        mem.memmove(ptr, self.bytes as u64, keep as u64);
        let ghost m1 = mem@;
        proof {
            lemma_written_back(old(mem)@, ptr as int, old(mem)@.subrange(self.bytes as int, self.bytes + keep));
        }
        if new_length > self.length {
            let mut z: Vec<u8> = Vec::new();
            let extra = new_length - self.length;
            let mut i: u32 = 0;
            while i < extra
                invariant
                    i <= extra,
                    z@ == zeros(i as nat),
                decreases extra - i,
            {
                z.push(0);
                i = i + 1;
                assert(z@ =~= zeros(i as nat));
            }
            mem.write_bytes(ptr + keep as u64, &z);
            proof {
                assert(mem@.subrange(ptr as int, ptr + new_length) =~= old_contents + zeros(extra as nat));
            }
        } else {
            assert(mem@.subrange(ptr as int, ptr + new_length) =~= old_contents.take(new_length as int));
        }
        self.bytes = ptr as u32;
        self.length = new_length;
    }

    /// `-[NSMutableData increaseLengthBy:]`: [Self::set_length] to `add`
    /// bytes more.
    pub fn increase_length_by(&mut self, mem: &mut Mem, add: NSUInteger)
        requires
            old(mem).wf(),
            old(self).in_memory(old(mem)@.len()),
            old(self).bytes + old(self).length <= old(mem).spec_next_alloc(),
            old(self).length + add <= u32::MAX,
            old(mem).can_allocate((old(self).length + add) as nat),
            old(mem).spec_next_alloc() + old(self).length + add <= u32::MAX,
        ensures
            final(mem).wf(),
            final(self).length == old(self).length + add,
            final(self).contents(final(mem)@) == old(self).contents(old(mem)@) + zeros(add as nat),
            final(self).free_when_done == old(self).free_when_done,
    {
        let new_length = self.length + add;
        self.set_length(mem, new_length);
        proof {
            if add == 0 {
                assert(old(self).contents(old(mem)@).take(new_length as int) =~= old(self).contents(
                    old(mem)@,
                ) + zeros(0));
            }
        }
    }

    /// `-[NSMutableData appendBytes:length:]`: the `length` bytes at `src`
    /// are added at the end (after moving to a buffer big enough).
    pub fn append_bytes(&mut self, mem: &mut Mem, src: u32, length: NSUInteger)
        requires
            old(mem).wf(),
            old(self).in_memory(old(mem)@.len()),
            old(self).bytes + old(self).length <= old(mem).spec_next_alloc(),
            src + length <= old(mem).spec_next_alloc(),
            old(self).length + length <= u32::MAX,
            old(mem).can_allocate((old(self).length + length) as nat),
            old(mem).spec_next_alloc() + old(self).length + length <= u32::MAX,
        ensures
            final(mem).wf(),
            final(self).length == old(self).length + length,
            final(self).contents(final(mem)@) == old(self).contents(old(mem)@) + old(mem)@.subrange(
                src as int,
                src + length,
            ),
            final(self).free_when_done == old(self).free_when_done,
            final(self).bytes + final(self).length <= final(mem).spec_next_alloc(),
    {
        let old_len = self.length;
        let ghost added = mem@.subrange(src as int, src + length);
        self.set_length(mem, old_len + length);
        let ghost m1 = mem@;
        assert(m1.subrange(src as int, src + length) =~= added);
        mem.memmove(self.bytes as u64 + old_len as u64, src as u64, length as u64);
        proof {
            let c1 = self.contents(m1);
            assert(self.contents(mem@) =~= c1.subrange(0, old_len as int) + added);
            assert(c1.subrange(0, old_len as int) =~= old(self).contents(old(mem)@));
        }
    }

    /// `-[NSMutableData replaceBytesInRange:withBytes:]`: the bytes that
    /// `range` selects are overwritten with the bytes at `src`.
    pub fn replace_bytes_in_range(&self, mem: &mut Mem, range: NSRange, src: u32)
        requires
            self.in_memory(old(mem)@.len()),
            range.location + range.length <= self.length,
            src + range.length <= old(mem)@.len(),
        ensures
            final(mem)@ == write_bytes(
                old(mem)@,
                self.bytes + range.location,
                old(mem)@.subrange(src as int, src + range.length),
            ),
            final(mem).spec_next_alloc() == old(mem).spec_next_alloc(),
            old(mem).wf() ==> final(mem).wf(),
    {
        mem.memmove(self.bytes as u64 + range.location as u64, src as u64, range.length as u64);
    }
}

} // verus!
