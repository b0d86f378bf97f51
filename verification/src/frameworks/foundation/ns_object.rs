//! `NSObject`'s key-value coding: the names under which
//! `-setValue:forKey:` looks for a way to set a key, in the order it tries
//! them. Looking the names up in the class happens around this library.
use vstd::prelude::*;

verus! {

/// The ASCII upper case of `b`.
pub open spec fn ascii_upper(b: u8) -> u8 {
    if 0x61 <= b <= 0x7a {
        (b - 0x20) as u8
    } else {
        b
    }
}

/// `key` with its first letter in upper case.
pub open spec fn capitalized(key: Seq<u8>) -> Seq<u8> {
    seq![ascii_upper(key[0])] + key.drop_first()
}

/// The byte string `"set"`, `"_set"` and so on.
pub open spec fn bytes_set() -> Seq<u8> {
    seq![0x73u8, 0x65u8, 0x74u8]
}

/// The names tried for `-setValue:forKey:` with the (ASCII, non-empty) key
/// `key`: first the setter selectors `set<Key>:` and `_set<Key>:`, then,
/// if the class lets instance variables be accessed directly, the
/// instance variables `_<key>`, `_is<Key>`, `<key>` and `is<Key>`.
pub struct KeyValueNames {
    pub setters: Vec<Vec<u8>>,
    pub ivars: Vec<Vec<u8>>,
}

/// The setter selectors for `key`, in the order they are tried.
pub open spec fn setter_names(key: Seq<u8>) -> Seq<Seq<u8>> {
    seq![
        bytes_set() + capitalized(key) + seq![0x3au8],
        seq![0x5fu8] + bytes_set() + capitalized(key) + seq![0x3au8],
    ]
}

/// The instance variables for `key`, in the order they are tried.
pub open spec fn ivar_names(key: Seq<u8>) -> Seq<Seq<u8>> {
    seq![
        seq![0x5fu8] + key,
        seq![0x5fu8, 0x69u8, 0x73u8] + capitalized(key),
        key,
        seq![0x69u8, 0x73u8] + capitalized(key),
    ]
}

fn append(out: &mut Vec<u8>, part: &[u8])
    ensures
        final(out)@ == old(out)@ + part@,
{
    let ghost before = out@;
    let mut k: usize = 0;
    while k < part.len()
        invariant
            k <= part@.len(),
            out@ == before + part@.take(k as int),
        decreases part@.len() - k,
    {
        out.push(part[k]);
        k = k + 1;
        assert(out@ =~= before + part@.take(k as int));
    }
    assert(part@.take(part@.len() as int) =~= part@);
}

/// The names `-setValue:forKey:` tries for `key` (see [KeyValueNames]).
/// The key must be non-empty ASCII.
pub fn key_value_names(key: &[u8]) -> (names: KeyValueNames)
    requires
        key@.len() > 0,
        forall|i: int| 0 <= i < key@.len() ==> key@[i] < 0x80,
    ensures
        names.setters@.len() == 2,
        forall|i: int| 0 <= i < 2 ==> #[trigger] names.setters@[i]@ == setter_names(key@)[i],
        names.ivars@.len() == 4,
        forall|i: int| 0 <= i < 4 ==> #[trigger] names.ivars@[i]@ == ivar_names(key@)[i],
{
    let first = key[0];
    let upper = if 0x61 <= first && first <= 0x7a {
        first - 0x20
    } else {
        first
    };
    let head: [u8; 1] = [upper];
    let rest = vstd::slice::slice_subrange(key, 1, key.len());
    let set: [u8; 3] = [0x73, 0x65, 0x74];
    let colon: [u8; 1] = [0x3a];
    let underscore: [u8; 1] = [0x5f];
    let is: [u8; 2] = [0x69, 0x73];
    let underscore_is: [u8; 3] = [0x5f, 0x69, 0x73];
    proof {
        assert(rest@ =~= key@.drop_first());
        assert(head@ =~= seq![ascii_upper(key@[0])]);
        assert(set@ =~= bytes_set());
    }
    let mut setter: Vec<u8> = Vec::new();
    append(&mut setter, &set);
    append(&mut setter, &head);
    append(&mut setter, rest);
    append(&mut setter, &colon);
    let mut under_setter: Vec<u8> = Vec::new();
    append(&mut under_setter, &underscore);
    append(&mut under_setter, &set);
    append(&mut under_setter, &head);
    append(&mut under_setter, rest);
    append(&mut under_setter, &colon);
    let mut under_key: Vec<u8> = Vec::new();
    append(&mut under_key, &underscore);
    append(&mut under_key, key);
    let mut under_is_key: Vec<u8> = Vec::new();
    append(&mut under_is_key, &underscore_is);
    append(&mut under_is_key, &head);
    append(&mut under_is_key, rest);
    let mut plain_key: Vec<u8> = Vec::new();
    append(&mut plain_key, key);
    let mut is_key: Vec<u8> = Vec::new();
    append(&mut is_key, &is);
    append(&mut is_key, &head);
    append(&mut is_key, rest);
    proof {
        assert(colon@ =~= seq![0x3au8]);
        assert(underscore@ =~= seq![0x5fu8]);
        assert(is@ =~= seq![0x69u8, 0x73u8]);
        assert(underscore_is@ =~= seq![0x5fu8, 0x69u8, 0x73u8]);
        assert(setter@ =~= setter_names(key@)[0]);
        assert(under_setter@ =~= setter_names(key@)[1]);
        assert(under_key@ =~= ivar_names(key@)[0]);
        assert(under_is_key@ =~= ivar_names(key@)[1]);
        assert(plain_key@ =~= ivar_names(key@)[2]);
        assert(is_key@ =~= ivar_names(key@)[3]);
    }
    KeyValueNames {
        setters: vec![setter, under_setter],
        ivars: vec![under_key, under_is_key, plain_key, is_key],
    }
}

} // verus!
