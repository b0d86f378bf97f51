//! `ASIdentifierManager` and the `NSUUID` it hands out.
use vstd::prelude::*;

verus! {

/// The all-zero UUID that the advertising identifier reports: apps may
/// read it, but no real identifier is given out.
pub open spec fn zero_uuid_text() -> Seq<u8> {
    seq![
        48u8, 48u8, 48u8, 48u8, 48u8, 48u8, 48u8, 48u8, 45u8, 48u8, 48u8, 48u8, 48u8, 45u8, 48u8,
        48u8, 48u8, 48u8, 45u8, 48u8, 48u8, 48u8, 48u8, 45u8, 48u8, 48u8, 48u8, 48u8, 48u8, 48u8,
        48u8, 48u8, 48u8, 48u8, 48u8, 48u8,
    ]
}

/// The text of a UUID whose 16 bytes are all zero, in the 8-4-4-4-12 form.
pub fn zero_uuid_string() -> (text: Vec<u8>)
    ensures
        text@ == zero_uuid_text(),
        text@.len() == 36,
{
    let mut out: Vec<u8> = Vec::new();
    let mut i: usize = 0;
    while i < 36
        invariant
            i <= 36,
            out@ =~= zero_uuid_text().take(i as int),
        decreases 36 - i,
    {
        let c = if i == 8 || i == 13 || i == 18 || i == 23 { 45u8 } else { 48u8 };
        out.push(c);
        i = i + 1;
        assert(out@ =~= zero_uuid_text().take(i as int));
    }
    out
}

/// An `NSUUID`.
pub struct NSUUIDHostObject {
    /// The UUID's text, as a retained `NSString`.
    pub uuid_string: u32,
}

/// The shared `ASIdentifierManager`.
pub struct ASIdentifierManagerHostObject {
    /// The `NSUUID` returned as the advertising identifier.
    pub advertising_identifier: u32,
}

} // verus!
