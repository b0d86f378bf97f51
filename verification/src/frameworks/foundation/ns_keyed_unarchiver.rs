//! `NSKeyedUnarchiver`: reading the object graph of a keyed archive. The
//! archive is a property list whose `$objects` array holds every archived
//! object, referring to one another by index (UID), and whose `$top`
//! dictionary holds the roots. Decoding reads values for keys in the
//! object being decoded (or `$top`); creating the Objective-C objects is
//! left to the caller, which these functions tell what to create.
use vstd::prelude::*;
use vstd::string::StringSliceAdditionalSpecFns;
use crate::mach_o::bytes_eq;
use crate::mem::Mem;
use plist::Value as PlistValue;

verus! {

/// A property list value.
pub enum ArchiveValue {
    Array(Vec<ArchiveValue>),
    /// Keys are UTF-8 strings; each occurs once.
    Dictionary(Vec<(Vec<u8>, ArchiveValue)>),
    Boolean(bool),
    Data(Vec<u8>),
    /// The bits of a 64-bit floating-point number.
    Real(u64),
    /// An integer in the range of `i64` or of `u64`.
    Integer(i128),
    String(Vec<u8>),
    Uid(u64),
    /// A date, or any other value that decoding does not read.
    Other,
}

/// The value for `key` in the dictionary entries `d`.
pub open spec fn dict_get(d: Seq<(Vec<u8>, ArchiveValue)>, key: Seq<u8>) -> Option<ArchiveValue>
    decreases d.len(),
{
    if d.len() == 0 {
        None
    } else if d[0].0@ == key {
        Some(d[0].1)
    } else {
        dict_get(d.drop_first(), key)
    }
}

/// Looks up `key` in the dictionary entries `d`.
pub fn dict_lookup<'a>(d: &'a Vec<(Vec<u8>, ArchiveValue)>, key: &[u8]) -> (v: Option<&'a ArchiveValue>)
    ensures
        match v {
            Some(x) => dict_get(d@, key@) == Some(*x),
            None => dict_get(d@, key@) is None,
        },
{
    let mut i: usize = 0;
    assert(d@.subrange(0, d@.len() as int) =~= d@);
    while i < d.len()
        invariant
            i <= d@.len(),
            dict_get(d@, key@) == dict_get(d@.subrange(i as int, d@.len() as int), key@),
        decreases d@.len() - i,
    {
        let ghost rest = d@.subrange(i as int, d@.len() as int);
        assert(rest.drop_first() =~= d@.subrange(i + 1, d@.len() as int));
        if bytes_eq(d[i].0.as_slice(), key) {
            return Some(&d[i].1);
        }
        i = i + 1;
    }
    None
}

/// The state of an unarchiver.
pub struct NSKeyedUnarchiverHostObject {
    /// The archive's top-level dictionary.
    pub plist: Vec<(Vec<u8>, ArchiveValue)>,
    /// The object being decoded, or `None` while decoding the roots.
    pub current_key: Option<u64>,
    /// The object created for each entry of `$objects`, once created.
    pub already_unarchived: Vec<Option<u32>>,
    pub delegate: u32,
    /// Guest buffers to free with the unarchiver.
    pub temporary_buffers: Vec<u32>,
}

/// What the caller has to create for an archived object.
pub enum UnarchiveStep {
    /// Nothing: this object was created before.
    Existing(u32),
    /// An instance of a class, initialised from the archive with
    /// `initWithCoder:` while [NSKeyedUnarchiverHostObject::enter] has made
    /// it the object being decoded.
    Instance(ClassRef),
    /// A string with these UTF-8 bytes.
    String(Vec<u8>),
    /// A number.
    SignedInteger(i64),
    UnsignedInteger(u64),
    /// nil.
    Nil,
}

/// The class of an archived instance.
pub enum ClassRef {
    /// Found before.
    Known(u32),
    /// To be looked up by name, then recorded with
    /// [NSKeyedUnarchiverHostObject::record_object] under `uid`.
    Named { uid: u64, name: Vec<u8> },
}

impl NSKeyedUnarchiverHostObject {
    /// The `$objects` array, if the archive has one.
    pub open spec fn objects(&self) -> Option<Seq<ArchiveValue>> {
        match dict_get(self.plist@, "$objects".spec_bytes()) {
            Some(ArchiveValue::Array(v)) => Some(v@),
            _ => None,
        }
    }

    /// The archive has the array or dictionary that decoding reads now:
    /// `$objects` with an entry for the current object, or `$top`.
    pub open spec fn decodable(&self) -> bool {
        match self.current_key {
            Some(uid) => self.objects() matches Some(objs) && uid < objs.len(),
            None => dict_get(self.plist@, "$top".spec_bytes()) is Some,
        }
    }

    /// The dictionary that keys are looked up in: the current object's, or
    /// `$top`; `None` if that is not a dictionary.
    pub open spec fn scope(&self) -> Option<Seq<(Vec<u8>, ArchiveValue)>> {
        let v = match self.current_key {
            Some(uid) => self.objects().unwrap()[uid as int],
            None => dict_get(self.plist@, "$top".spec_bytes()).unwrap(),
        };
        match v {
            ArchiveValue::Dictionary(d) => Some(d@),
            _ => None,
        }
    }

    /// The value to decode for `key`.
    pub open spec fn value_for_key(&self, key: Seq<u8>) -> Option<ArchiveValue> {
        match self.scope() {
            Some(d) => dict_get(d, key),
            None => None,
        }
    }

    fn objects_array(&self) -> (objs: Option<&Vec<ArchiveValue>>)
        ensures
            match objs {
                Some(v) => self.objects() == Some(v@),
                None => self.objects() is None,
            },
    {
        match dict_lookup(&self.plist, "$objects".as_bytes()) {
            Some(ArchiveValue::Array(v)) => Some(v),
            _ => None,
        }
    }

    /// The value to decode for `key` in the current object (or `$top`).
    pub fn get_value_to_decode_for_key(&self, key: &[u8]) -> (v: Option<&ArchiveValue>)
        requires
            self.decodable(),
        ensures
            match v {
                Some(x) => self.value_for_key(key@) == Some(*x),
                None => self.value_for_key(key@) is None,
            },
    {
        let scope = match self.current_key {
            Some(uid) => {
                let objs = self.objects_array().unwrap();
                let _n = objs.len();
                &objs[uid as usize]
            },
            None => dict_lookup(&self.plist, "$top".as_bytes()).unwrap(),
        };
        match scope {
            ArchiveValue::Dictionary(d) => dict_lookup(d, key),
            _ => None,
        }
    }

    /// `decodeBoolForKey:`: false unless the value is a boolean.
    pub fn decode_bool_for_key(&self, key: &[u8]) -> (b: bool)
        requires
            self.decodable(),
        ensures
            b == (self.value_for_key(key@) matches Some(ArchiveValue::Boolean(x)) && x),
    {
        match self.get_value_to_decode_for_key(key) {
            Some(ArchiveValue::Boolean(x)) => *x,
            _ => false,
        }
    }

    /// `decodeIntForKey:` (and `decodeIntegerForKey:`): the value if it is
    /// an integer that fits in 64 bits signed, truncated to 32 bits; else 0.
    pub fn decode_int_for_key(&self, key: &[u8]) -> (n: i32)
        requires
            self.decodable(),
        ensures
            n == match self.value_for_key(key@) {
                Some(ArchiveValue::Integer(i)) => if i64::MIN <= i <= i64::MAX {
                    (i as i64) as i32
                } else {
                    0i32
                },
                _ => 0i32,
            },
    {
        match self.get_value_to_decode_for_key(key) {
            Some(ArchiveValue::Integer(i)) => {
                if i64::MIN as i128 <= *i && *i <= i64::MAX as i128 {
                    (*i as i64) as i32
                } else {
                    0
                }
            },
            _ => 0,
        }
    }

    /// `decodeDoubleForKey:`: the bits of the value if it is a real number,
    /// else of 0.0 (all bits zero).
    pub fn decode_double_bits_for_key(&self, key: &[u8]) -> (bits: u64)
        requires
            self.decodable(),
        ensures
            bits == match self.value_for_key(key@) {
                Some(ArchiveValue::Real(r)) => r,
                _ => 0u64,
            },
    {
        match self.get_value_to_decode_for_key(key) {
            Some(ArchiveValue::Real(r)) => *r,
            _ => 0,
        }
    }

    /// `decodeObjectForKey:`: the archived object to unarchive, if the
    /// value is a reference to one (else nil).
    pub fn decode_object_for_key(&self, key: &[u8]) -> (uid: Option<u64>)
        requires
            self.decodable(),
        ensures
            uid == match self.value_for_key(key@) {
                Some(ArchiveValue::Uid(u)) => Some(u),
                _ => None,
            },
    {
        match self.get_value_to_decode_for_key(key) {
            Some(ArchiveValue::Uid(u)) => Some(*u),
            _ => None,
        }
    }

    /// The object references listed under `key` in the current object,
    /// skipping entries that are not references; none while decoding the
    /// roots or if the value is not an array.
    pub open spec fn keys_for(&self, key: Seq<u8>) -> Seq<u64> {
        match self.current_key {
            None => Seq::empty(),
            Some(_) => match self.value_for_key(key) {
                Some(ArchiveValue::Array(v)) => uids_of(v@),
                _ => Seq::empty(),
            },
        }
    }

    fn keys_for_key(&self, key: &[u8]) -> (uids: Vec<u64>)
        requires
            self.decodable(),
        ensures
            uids@ == self.keys_for(key@),
    {
        if self.current_key.is_none() {
            return Vec::new();
        }
        match self.get_value_to_decode_for_key(key) {
            Some(ArchiveValue::Array(v)) => collect_uids(v),
            _ => Vec::new(),
        }
    }

    /// The elements of the array being decoded: the objects to unarchive,
    /// in order.
    pub fn decode_current_array(&self) -> (uids: Vec<u64>)
        requires
            self.decodable(),
        ensures
            uids@ == self.keys_for("NS.objects".spec_bytes()),
    {
        self.keys_for_key("NS.objects".as_bytes())
    }

    /// The entries of the dictionary being decoded: the key and value
    /// objects to unarchive, paired in order (extra keys or values are
    /// dropped).
    pub fn decode_current_dict(&self) -> (pairs: Vec<(u64, u64)>)
        requires
            self.decodable(),
        ensures
            ({
                let ks = self.keys_for("NS.keys".spec_bytes());
                let vs = self.keys_for("NS.objects".spec_bytes());
                &&& pairs@.len() == if ks.len() < vs.len() { ks.len() } else { vs.len() }
                &&& forall|i: int| 0 <= i < pairs@.len() ==> #[trigger] pairs@[i] == (ks[i], vs[i])
            }),
    {
        let ks = self.keys_for_key("NS.keys".as_bytes());
        let vs = self.keys_for_key("NS.objects".as_bytes());
        let mut pairs: Vec<(u64, u64)> = Vec::new();
        let mut i: usize = 0;
        while i < ks.len() && i < vs.len()
            invariant
                i <= ks@.len(),
                i <= vs@.len(),
                pairs@.len() == i,
                forall|j: int| 0 <= j < i ==> #[trigger] pairs@[j] == (ks@[j], vs@[j]),
            decreases ks@.len() - i,
        {
            pairs.push((ks[i], vs[i]));
            i = i + 1;
        }
        pairs
    }

    /// The date being decoded: the bits of its time since the reference
    /// date, if it has one.
    pub fn decode_current_date(&self) -> (bits: Option<u64>)
        requires
            self.decodable(),
        ensures
            bits == match self.value_for_key("NS.time".spec_bytes()) {
                Some(ArchiveValue::Real(r)) => Some(r),
                _ => None,
            },
    {
        match self.get_value_to_decode_for_key("NS.time".as_bytes()) {
            Some(ArchiveValue::Real(r)) => Some(*r),
            _ => None,
        }
    }

    /// The data object being decoded: its bytes are copied to a fresh guest
    /// buffer, and the buffer's address and length are returned (for an
    /// `NSData` or `NSMutableData` that owns it); `None` if it has no data.
    pub fn decode_current_data(&self, mem: &mut Mem) -> (buf: Option<(u64, u32)>)
        requires
            self.decodable(),
            old(mem).wf(),
            self.value_for_key("NS.data".spec_bytes()) matches Some(ArchiveValue::Data(d)) ==> {
                &&& d@.len() <= u32::MAX
                &&& old(mem).can_allocate(d@.len())
            },
        ensures
            final(mem).wf(),
            match self.value_for_key("NS.data".spec_bytes()) {
                Some(ArchiveValue::Data(d)) => buf matches Some((ptr, len)) && ptr == old(mem).spec_next_alloc()
                    && len == d@.len() && final(mem)@ == crate::mem::write_bytes(old(mem)@, ptr as int, d@)
                    && final(mem).spec_next_alloc() == ptr + len + (8 - len % 8) % 8,
                _ => buf is None && *final(mem) == *old(mem),
            },
    {
        match self.get_value_to_decode_for_key("NS.data".as_bytes()) {
            Some(ArchiveValue::Data(d)) => {
                let len = d.len() as u32;
                let ptr = mem.allocate(len as u64);
                mem.write_bytes(ptr, d);
                Some((ptr, len))
            },
            _ => None,
        }
    }

    /// The archived objects and classes have an entry each in
    /// `already_unarchived`.
    pub open spec fn unarchive_ready(&self) -> bool {
        self.objects() matches Some(objs) && self.already_unarchived@.len() == objs.len()
    }

    /// What to create for the archived object `uid`: nothing if it was
    /// created before; an instance of its class for a dictionary (whose
    /// `$class` refers to an entry with a `$classname`); a string, a number,
    /// or nil for anything else.
    #[verifier::spinoff_prover]
    pub fn unarchive_step(&self, uid: u64) -> (step: UnarchiveStep)
        requires
            self.unarchive_ready(),
            uid < self.already_unarchived@.len(),
            self.already_unarchived@[uid as int] is None ==> unarchive_class_ok(self.objects().unwrap(), uid as int, self.already_unarchived@.len()),
        ensures
            match self.already_unarchived@[uid as int] {
                Some(o) => step matches UnarchiveStep::Existing(x) && x == o,
                None => match self.objects().unwrap()[uid as int] {
                    ArchiveValue::Dictionary(d) => {
                        let class_uid = dict_get(d@, "$class".spec_bytes()).unwrap()->Uid_0;
                        step matches UnarchiveStep::Instance(c) && match self.already_unarchived@[class_uid as int] {
                            Some(cls) => c matches ClassRef::Known(k) && k == cls,
                            None => c matches ClassRef::Named { uid: u, name } && u == class_uid && name@
                                == class_name_of(self.objects().unwrap()[class_uid as int]),
                        }
                    },
                    ArchiveValue::String(s) => step matches UnarchiveStep::String(t) && t@ == s@,
                    ArchiveValue::Integer(i) => if i64::MIN <= i <= i64::MAX {
                        step matches UnarchiveStep::SignedInteger(x) && x == i
                    } else if 0 <= i <= u64::MAX {
                        step matches UnarchiveStep::UnsignedInteger(x) && x == i
                    } else {
                        step matches UnarchiveStep::UnsignedInteger(x) && x == 0
                    },
                    _ => step is Nil,
                },
            },
    {
        let _n = self.already_unarchived.len();
        if let Some(existing) = self.already_unarchived[uid as usize] {
            return UnarchiveStep::Existing(existing);
        }
        let objs = self.objects_array().unwrap();
        match &objs[uid as usize] {
            ArchiveValue::Dictionary(d) => {
                let class_uid = match dict_lookup(d, "$class".as_bytes()) {
                    Some(ArchiveValue::Uid(u)) => *u,
                    _ => {
                        return UnarchiveStep::Nil;
                    },
                };
                match self.already_unarchived[class_uid as usize] {
                    Some(cls) => UnarchiveStep::Instance(ClassRef::Known(cls)),
                    None => {
                        let name = match &objs[class_uid as usize] {
                            ArchiveValue::Dictionary(cd) => match dict_lookup(cd, "$classname".as_bytes()) {
                                Some(ArchiveValue::String(n)) => crate::dyld::copy_bytes(n),
                                _ => Vec::new(),
                            },
                            _ => Vec::new(),
                        };
                        UnarchiveStep::Instance(ClassRef::Named { uid: class_uid, name })
                    },
                }
            },
            ArchiveValue::String(s) => UnarchiveStep::String(crate::dyld::copy_bytes(s)),
            ArchiveValue::Integer(i) => {
                if i64::MIN as i128 <= *i && *i <= i64::MAX as i128 {
                    UnarchiveStep::SignedInteger(*i as i64)
                } else if 0 <= *i && *i <= u64::MAX as i128 {
                    UnarchiveStep::UnsignedInteger(*i as u64)
                } else {
                    UnarchiveStep::UnsignedInteger(0)
                }
            },
            _ => UnarchiveStep::Nil,
        }
    }

    /// Records the object created for the archived object (or class) `uid`.
    pub fn record_object(&mut self, uid: u64, object: u32)
        requires
            uid < old(self).already_unarchived@.len(),
        ensures
            final(self).already_unarchived@ == old(self).already_unarchived@.update(uid as int, Some(object)),
            final(self).plist == old(self).plist,
            final(self).current_key == old(self).current_key,
    {
        let _n = self.already_unarchived.len();
        self.already_unarchived.set(uid as usize, Some(object));
    }

    /// Makes `uid` the object being decoded, for its `initWithCoder:`.
    /// Returns the previous one, to be restored with [Self::leave].
    pub fn enter(&mut self, uid: u64) -> (previous: Option<u64>)
        ensures
            previous == old(self).current_key,
            final(self).current_key == Some(uid),
            final(self).plist == old(self).plist,
            final(self).already_unarchived == old(self).already_unarchived,
    {
        let previous = self.current_key;
        self.current_key = Some(uid);
        previous
    }

    /// Restores the object being decoded after an `initWithCoder:`.
    pub fn leave(&mut self, previous: Option<u64>)
        ensures
            final(self).current_key == previous,
            final(self).plist == old(self).plist,
            final(self).already_unarchived == old(self).already_unarchived,
    {
        self.current_key = previous;
    }
}

/// The class name in a class entry of an archive (empty if there is none).
pub open spec fn class_name_of(v: ArchiveValue) -> Seq<u8> {
    match v {
        ArchiveValue::Dictionary(cd) => match dict_get(cd@, "$classname".spec_bytes()) {
            Some(ArchiveValue::String(n)) => n@,
            _ => Seq::empty(),
        },
        _ => Seq::empty(),
    }
}

/// An archived dictionary object names its class by a reference to an
/// entry of the archive.
pub open spec fn unarchive_class_ok(objs: Seq<ArchiveValue>, uid: int, n: nat) -> bool {
    objs[uid] matches ArchiveValue::Dictionary(d) ==> (dict_get(d@, "$class".spec_bytes()) matches Some(
        ArchiveValue::Uid(c),
    ) && c < n)
}

/// The references among `vals`, in order.
pub open spec fn uids_of(vals: Seq<ArchiveValue>) -> Seq<u64>
    decreases vals.len(),
{
    if vals.len() == 0 {
        Seq::empty()
    } else {
        let prev = uids_of(vals.drop_last());
        match vals.last() {
            ArchiveValue::Uid(u) => prev.push(u),
            _ => prev,
        }
    }
}

fn collect_uids(vals: &Vec<ArchiveValue>) -> (uids: Vec<u64>)
    ensures
        uids@ == uids_of(vals@),
{
    let mut out: Vec<u64> = Vec::new();
    let mut i: usize = 0;
    assert(vals@.take(0) =~= Seq::<ArchiveValue>::empty());
    while i < vals.len()
        invariant
            i <= vals@.len(),
            out@ == uids_of(vals@.take(i as int)),
        decreases vals@.len() - i,
    {
        assert(vals@.take(i + 1).drop_last() =~= vals@.take(i as int));
        if let ArchiveValue::Uid(u) = &vals[i] {
            out.push(*u);
        }
        i = i + 1;
    }
    assert(vals@.take(vals@.len() as int) =~= vals@);
    out
}


// ----------------------------------------------------
// Reading an archive
// ----------------------------------------------------

#[verifier::external_type_specification]
#[verifier::external_body]
pub struct ExPlistValue(plist::Value);

/// What the `plist` crate reads from `bytes`: the property list in any of
/// its encodings, or `None` where the bytes hold none.
pub uninterp spec fn plist_reading(bytes: Seq<u8>) -> Option<ArchiveValue>;

/// Converts a value parsed by the `plist` crate to the library's
/// representation, variant for variant: arrays and dictionaries element by
/// element, keys as their UTF-8 bytes, anything else by [archive_scalar].
#[verifier::external_body]
fn archive_value(value: &PlistValue) -> ArchiveValue {
    match value {
        PlistValue::Array(a) => ArchiveValue::Array(a.iter().map(archive_value).collect()),
        PlistValue::Dictionary(d) => ArchiveValue::Dictionary(
            d.iter().map(|(k, v)| (k.as_bytes().to_vec(), archive_value(v))).collect(),
        ),
        _ => archive_scalar(value),
    }
}

/// Converts a value parsed by the `plist` crate that holds no other value:
/// strings as their UTF-8 bytes, reals as their bits, integers in the range
/// of `i64` or `u64` as themselves, dates as `Other`.
#[verifier::external_body]
fn archive_scalar(value: &PlistValue) -> ArchiveValue {
    match value {
        PlistValue::Boolean(b) => ArchiveValue::Boolean(*b),
        PlistValue::Data(d) => ArchiveValue::Data(d.clone()),
        PlistValue::Real(r) => ArchiveValue::Real(r.to_bits()),
        PlistValue::Integer(i) => i.as_signed().map(i128::from).or(i.as_unsigned().map(i128::from))
            .map_or(ArchiveValue::Other, ArchiveValue::Integer),
        PlistValue::String(s) => ArchiveValue::String(s.as_bytes().to_vec()),
        PlistValue::Uid(u) => ArchiveValue::Uid(u.get()),
        _ => ArchiveValue::Other,
    }
}

/// Reads a property list with `plist::Value::from_reader`, which accepts
/// any of its encodings. The contract claims only that the result is a
/// function of the bytes ([plist_reading]); `None` where the crate reports
/// an error.
#[verifier::external_body]
pub fn read_plist(bytes: &[u8]) -> (v: Option<ArchiveValue>)
    ensures
        v == plist_reading(bytes@),
{
    PlistValue::from_reader(std::io::Cursor::new(bytes)).ok().map(|v| archive_value(&v))
}

/// Length of the `$objects` array of an archive's top-level dictionary `d`,
/// or 0 if it has none.
pub open spec fn objects_len(d: Seq<(Vec<u8>, ArchiveValue)>) -> nat {
    match dict_get(d, "$objects".spec_bytes()) {
        Some(ArchiveValue::Array(objs)) => objs@.len(),
        _ => 0,
    }
}

/// An unarchiver that has just read the property list `v`: a dictionary
/// becomes the archive, with no object created yet for each entry of its
/// `$objects` array; anything else leaves the archive empty.
pub open spec fn fresh_unarchiver(u: NSKeyedUnarchiverHostObject, v: Option<ArchiveValue>) -> bool {
    &&& u.current_key is None
    &&& u.delegate == 0
    &&& u.temporary_buffers@.len() == 0
    &&& match v {
        Some(ArchiveValue::Dictionary(d)) => {
            &&& u.plist@ == d@
            &&& u.already_unarchived@ == Seq::new(objects_len(d@), |i: int| None::<u32>)
        },
        _ => u.plist@.len() == 0 && u.already_unarchived@.len() == 0,
    }
}

/// The unarchiver for the property list `v` that was read from an
/// archive (see [fresh_unarchiver]).
pub fn unarchiver_from(v: Option<ArchiveValue>) -> (u: NSKeyedUnarchiverHostObject)
    ensures
        fresh_unarchiver(u, v),
{
    let mut u = NSKeyedUnarchiverHostObject {
        plist: Vec::new(),
        current_key: None,
        already_unarchived: Vec::new(),
        delegate: 0,
        temporary_buffers: Vec::new(),
    };
    if let Some(ArchiveValue::Dictionary(d)) = v {
        let count: usize = match dict_lookup(&d, "$objects".as_bytes()) {
            Some(ArchiveValue::Array(objs)) => objs.len(),
            _ => 0,
        };
        let mut created: Vec<Option<u32>> = Vec::new();
        let mut k: usize = 0;
        while k < count
            invariant
                k <= count,
                created@ == Seq::new(k as nat, |i: int| None::<u32>),
            decreases count - k,
        {
            created.push(None);
            k = k + 1;
            assert(created@ =~= Seq::new(k as nat, |i: int| None::<u32>));
        }
        assert(count == objects_len(d@));
        u.already_unarchived = created;
        u.plist = d;
    }
    u
}

/// `-[NSKeyedUnarchiver initForReadingWithData:]`: reads the archive in
/// `bytes` (see [unarchiver_from]). An archive that cannot be read leaves
/// the unarchiver empty.
pub fn init_for_reading_with_data(bytes: &[u8]) -> (u: NSKeyedUnarchiverHostObject)
    ensures
        fresh_unarchiver(u, plist_reading(bytes@)),
{
    let v = read_plist(bytes);
    unarchiver_from(v)
}

} // verus!
