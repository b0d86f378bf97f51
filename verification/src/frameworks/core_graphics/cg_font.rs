//! `CGFont.h`: fonts are reference-counted objects, and a null font is
//! left alone.
use vstd::prelude::*;

verus! {

pub type CGFontRef = u32;

/// What a reference-count operation on a font asks of the caller.
#[derive(Copy, Clone, Debug, PartialEq, Eq, Structural)]
pub enum RefCountAction {
    /// Nothing: the font is null.
    Nothing,
    /// Retain (or release) this object.
    Object(u32),
}

/// `CGFontRelease`: releases the font unless it is null.
pub fn CGFontRelease(font: CGFontRef) -> (action: RefCountAction)
    ensures
        action == if font == 0 {
            RefCountAction::Nothing
        } else {
            RefCountAction::Object(font)
        },
{
    if font != 0 {
        RefCountAction::Object(font)
    } else {
        RefCountAction::Nothing
    }
}

/// `CGFontRetain`: retains the font unless it is null, and returns it
/// either way.
pub fn CGFontRetain(font: CGFontRef) -> (r: (CGFontRef, RefCountAction))
    ensures
        r.0 == font,
        r.1 == if font == 0 {
            RefCountAction::Nothing
        } else {
            RefCountAction::Object(font)
        },
{
    if font != 0 {
        (font, RefCountAction::Object(font))
    } else {
        (font, RefCountAction::Nothing)
    }
}

} // verus!
