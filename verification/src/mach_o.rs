//! What the dynamic linker reads from a loaded Mach-O binary: the sections
//! that hold symbol stubs and symbol pointers, the exported symbols and the
//! external relocations. Symbol names are byte strings.
use vstd::prelude::*;
use vstd::string::StringSliceAdditionalSpecFns;

verus! {

/// Compares two byte strings.
pub fn bytes_eq(a: &[u8], b: &[u8]) -> (eq: bool)
    ensures
        eq == (a@ == b@),
{
    if a.len() != b.len() {
        return false;
    }
    let mut i: usize = 0;
    while i < a.len()
        invariant
            a@.len() == b@.len(),
            i <= a@.len(),
            forall|j: int| 0 <= j < i ==> a@[j] == b@[j],
        decreases a@.len() - i,
    {
        if a[i] != b[i] {
            return false;
        }
        i = i + 1;
    }
    assert(a@ =~= b@);
    true
}

/// Whether the name of an exported symbol, `name`, is the byte string `sym`.
pub fn str_is(name: &str, sym: &[u8]) -> (eq: bool)
    ensures
        eq == (name.spec_bytes() == sym@),
{
    bytes_eq(name.as_bytes(), sym)
}

/// The rest of `s` after `prefix`, if `s` starts with `prefix`.
pub open spec fn spec_strip_prefix(s: Seq<u8>, prefix: Seq<u8>) -> Option<Seq<u8>> {
    if prefix.len() <= s.len() && s.subrange(0, prefix.len() as int) == prefix {
        Some(s.subrange(prefix.len() as int, s.len() as int))
    } else {
        None
    }
}

pub fn strip_prefix(s: &[u8], prefix: &[u8]) -> (rest: Option<Vec<u8>>)
    ensures
        match rest {
            Some(r) => spec_strip_prefix(s@, prefix@) == Some(r@),
            None => spec_strip_prefix(s@, prefix@) is None,
        },
{
    if prefix.len() > s.len() {
        return None;
    }
    let mut i: usize = 0;
    while i < prefix.len()
        invariant
            prefix@.len() <= s@.len(),
            i <= prefix@.len(),
            forall|j: int| 0 <= j < i ==> s@[j] == prefix@[j],
        decreases prefix@.len() - i,
    {
        if s[i] != prefix[i] {
            assert(s@.subrange(0, prefix@.len() as int)[i as int] != prefix@[i as int]);
            return None;
        }
        i = i + 1;
    }
    assert(s@.subrange(0, prefix@.len() as int) =~= prefix@);
    let mut out: Vec<u8> = Vec::new();
    let mut k: usize = prefix.len();
    while k < s.len()
        invariant
            prefix@.len() <= k <= s@.len(),
            out@ =~= s@.subrange(prefix@.len() as int, k as int),
        decreases s@.len() - k,
    {
        out.push(s[k]);
        k = k + 1;
    }
    Some(out)
}

/// Information the dynamic linker needs about a section of indirect symbol
/// stubs or pointers.
pub struct DyldIndirectSymbolInfo {
    /// Size of one stub or pointer, in bytes.
    pub entry_size: u32,
    /// The undefined symbol each entry refers to, if any.
    pub indirect_undef_symbols: Vec<Option<Vec<u8>>>,
}

pub struct Section {
    pub addr: u32,
    pub size: u32,
    pub dyld_indirect_symbol_info: Option<DyldIndirectSymbolInfo>,
}

/// The sections the dynamic linker looks at.
#[derive(Copy, Clone, PartialEq, Eq, Structural)]
pub enum SectionType {
    SymbolStubs,
    LazySymbolPointers,
    NonLazySymbolPointers,
}

/// A loaded binary.
pub struct MachO {
    pub name: Vec<u8>,
    pub symbol_stubs: Option<Section>,
    pub lazy_symbol_pointers: Option<Section>,
    pub non_lazy_symbol_pointers: Option<Section>,
    /// Symbols the binary exports, with their addresses.
    pub exported_symbols: Vec<(Vec<u8>, u32)>,
    /// Addresses of pointers to patch with the address of a named symbol.
    pub external_relocations: Vec<(u32, Vec<u8>)>,
}

/// Address of the first export of `exports` named `sym`.
pub open spec fn export_lookup(exports: Seq<(Vec<u8>, u32)>, sym: Seq<u8>) -> Option<u32>
    decreases exports.len(),
{
    if exports.len() == 0 {
        None
    } else if exports[0].0@ == sym {
        Some(exports[0].1)
    } else {
        export_lookup(exports.drop_first(), sym)
    }
}

/// Address of `sym` in the first of `bins` that exports it.
pub open spec fn bins_lookup(bins: Seq<MachO>, sym: Seq<u8>) -> Option<u32>
    decreases bins.len(),
{
    if bins.len() == 0 {
        None
    } else if export_lookup(bins[0].exported_symbols@, sym) is Some {
        export_lookup(bins[0].exported_symbols@, sym)
    } else {
        bins_lookup(bins.drop_first(), sym)
    }
}

impl MachO {
    pub open spec fn spec_section(&self, t: SectionType) -> Option<Section> {
        match t {
            SectionType::SymbolStubs => self.symbol_stubs,
            SectionType::LazySymbolPointers => self.lazy_symbol_pointers,
            SectionType::NonLazySymbolPointers => self.non_lazy_symbol_pointers,
        }
    }

    pub fn get_section(&self, t: SectionType) -> (s: Option<&Section>)
        ensures
            match s {
                Some(sec) => self.spec_section(t) == Some(*sec),
                None => self.spec_section(t) is None,
            },
    {
        match t {
            SectionType::SymbolStubs => self.symbol_stubs.as_ref(),
            SectionType::LazySymbolPointers => self.lazy_symbol_pointers.as_ref(),
            SectionType::NonLazySymbolPointers => self.non_lazy_symbol_pointers.as_ref(),
        }
    }

    /// The address this binary exports `sym` at, if it does.
    pub fn exported_symbol(&self, sym: &[u8]) -> (addr: Option<u32>)
        ensures
            addr == export_lookup(self.exported_symbols@, sym@),
    {
        let mut i: usize = 0;
        assert(self.exported_symbols@.subrange(0, self.exported_symbols@.len() as int)
            =~= self.exported_symbols@);
        while i < self.exported_symbols.len()
            invariant
                i <= self.exported_symbols@.len(),
                export_lookup(self.exported_symbols@, sym@) == export_lookup(
                    self.exported_symbols@.subrange(i as int, self.exported_symbols@.len() as int),
                    sym@,
                ),
            decreases self.exported_symbols@.len() - i,
        {
            let ghost rest = self.exported_symbols@.subrange(
                i as int,
                self.exported_symbols@.len() as int,
            );
            assert(rest.drop_first() =~= self.exported_symbols@.subrange(
                i + 1,
                self.exported_symbols@.len() as int,
            ));
            if bytes_eq(self.exported_symbols[i].0.as_slice(), sym) {
                return Some(self.exported_symbols[i].1);
            }
            i = i + 1;
        }
        None
    }
}

/// The address of `sym` in the first of `bins` that exports it.
pub fn lookup_in_bins(bins: &Vec<MachO>, sym: &[u8]) -> (addr: Option<u32>)
    ensures
        addr == bins_lookup(bins@, sym@),
{
    let mut i: usize = 0;
    assert(bins@.subrange(0, bins@.len() as int) =~= bins@);
    while i < bins.len()
        invariant
            i <= bins@.len(),
            bins_lookup(bins@, sym@) == bins_lookup(
                bins@.subrange(i as int, bins@.len() as int),
                sym@,
            ),
        decreases bins@.len() - i,
    {
        let ghost rest = bins@.subrange(i as int, bins@.len() as int);
        assert(rest.drop_first() =~= bins@.subrange(i + 1, bins@.len() as int));
        let found = bins[i].exported_symbol(sym);
        if found.is_some() {
            return found;
        }
        i = i + 1;
    }
    None
}

} // verus!
