//! What the font-configuration library's entry points take and return, as far
//! as callers have to spell it: property names, well-known values, and the
//! result of a typed property read.
use vstd::prelude::*;

verus! {

pub type FcChar8 = u8;

pub type FcChar16 = u16;

pub type FcChar32 = u32;

pub type FcBool = i32;

pub const FcFalse: i32 = 0;

pub const FcTrue: i32 = 1;

pub const FcDontCare: i32 = 2;

pub const FC_FILE: &'static str = "file";

pub const FC_FULLNAME: &'static str = "fullname";

pub const FC_POSTSCRIPT_NAME: &'static str = "postscriptname";

pub const FC_FAMILY: &'static str = "family";

pub const FC_STYLE: &'static str = "style";

pub const FC_WEIGHT: &'static str = "weight";

pub const FC_SLANT: &'static str = "slant";

pub const FC_WIDTH: &'static str = "width";

pub const FC_VARIABLE: &'static str = "variable";

pub const FC_SLANT_ROMAN: i32 = 0;

pub const FC_SLANT_ITALIC: i32 = 100;

pub const FC_SLANT_OBLIQUE: i32 = 110;

pub const FC_WIDTH_ULTRACONDENSED: i32 = 50;

pub const FC_WIDTH_EXTRACONDENSED: i32 = 63;

pub const FC_WIDTH_CONDENSED: i32 = 75;

pub const FC_WIDTH_SEMICONDENSED: i32 = 87;

pub const FC_WIDTH_NORMAL: i32 = 100;

pub const FC_WIDTH_SEMIEXPANDED: i32 = 113;

pub const FC_WIDTH_EXPANDED: i32 = 125;

pub const FC_WIDTH_EXTRAEXPANDED: i32 = 150;

pub const FC_WIDTH_ULTRAEXPANDED: i32 = 200;

/// How a typed read of a pattern's property ended.
#[derive(Clone, Copy, Debug, PartialEq, Eq, Structural)]
pub enum FcResult {
    FcResultMatch,
    FcResultNoMatch,
    FcResultTypeMismatch,
    FcResultNoId,
    FcResultOutOfMemory,
}

} // verus!
