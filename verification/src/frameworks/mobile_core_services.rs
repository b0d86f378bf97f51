//! MobileCoreServices: uniform type identifiers. Types are not modelled;
//! these answers are what apps need to get past their checks.
use vstd::prelude::*;

verus! {

/// What `UTTypeCreatePreferredIdentifierForTag` returns.
#[derive(Copy, Clone, Debug, PartialEq, Eq, Structural)]
pub enum PreferredIdentifier {
    /// The tag itself.
    Tag(u32),
    /// The static string `public.data`.
    PublicData,
}

/// `UTTypeCreatePreferredIdentifierForTag`: the tag itself is used as the
/// identifier; without a tag, `public.data`.
pub fn UTTypeCreatePreferredIdentifierForTag(in_tag: u32) -> (r: PreferredIdentifier)
    ensures
        r == if in_tag != 0 {
            PreferredIdentifier::Tag(in_tag)
        } else {
            PreferredIdentifier::PublicData
        },
{
    if in_tag != 0 {
        PreferredIdentifier::Tag(in_tag)
    } else {
        PreferredIdentifier::PublicData
    }
}

/// `UTTypeConformsTo`: every type conforms.
pub fn UTTypeConformsTo(_in_uti: u32, _in_conforms_to_uti: u32) -> (b: bool)
    ensures
        b,
{
    true
}

/// `UTTypeEqual`: two non-null identifiers that are the same object.
pub fn UTTypeEqual(in_uti1: u32, in_uti2: u32) -> (b: bool)
    ensures
        b == (in_uti1 != 0 && in_uti2 != 0 && in_uti1 == in_uti2),
{
    if in_uti1 == 0 || in_uti2 == 0 {
        return false;
    }
    in_uti1 == in_uti2
}

} // verus!
