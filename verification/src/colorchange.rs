//! Colour change: up to eight rules, each replacing one colour by another.

use vstd::prelude::*;
use crate::pixel::{GenericPixel, RenderError};
use crate::substitution::{substituted, SubstitutionSet};

verus! {

/// The controls of the effect, in the order in which the host lists them.
#[derive(Clone, Copy, Debug, PartialEq, Eq, Hash, Structural)]
pub enum Params {
    Level,
    Mode1,
    Target0,
    SrcColor0,
    DstColor0,
    Target1,
    SrcColor1,
    DstColor1,
    Target2,
    SrcColor2,
    DstColor2,
    Target3,
    SrcColor3,
    DstColor3,
    Target4,
    SrcColor4,
    DstColor4,
    Target5,
    SrcColor5,
    DstColor5,
    Target6,
    SrcColor6,
    DstColor6,
    Target7,
    SrcColor7,
    DstColor7,
}

impl Params {
    /// The position of the control in the order in which the host lists
    /// them, counted from zero.
    pub open spec fn ordinal(self) -> int {
        match self {
            Params::Level => 0,
            Params::Mode1 => 1,
            Params::Target0 => 2,
            Params::SrcColor0 => 3,
            Params::DstColor0 => 4,
            Params::Target1 => 5,
            Params::SrcColor1 => 6,
            Params::DstColor1 => 7,
            Params::Target2 => 8,
            Params::SrcColor2 => 9,
            Params::DstColor2 => 10,
            Params::Target3 => 11,
            Params::SrcColor3 => 12,
            Params::DstColor3 => 13,
            Params::Target4 => 14,
            Params::SrcColor4 => 15,
            Params::DstColor4 => 16,
            Params::Target5 => 17,
            Params::SrcColor5 => 18,
            Params::DstColor5 => 19,
            Params::Target6 => 20,
            Params::SrcColor6 => 21,
            Params::DstColor6 => 22,
            Params::Target7 => 23,
            Params::SrcColor7 => 24,
            Params::DstColor7 => 25,
        }
    }

    /// The position of the control, counted from zero.
    pub fn index(&self) -> (i: usize)
        ensures
            i == self.ordinal(),
            i < 26,
    {
        match self {
            Params::Level => 0,
            Params::Mode1 => 1,
            Params::Target0 => 2,
            Params::SrcColor0 => 3,
            Params::DstColor0 => 4,
            Params::Target1 => 5,
            Params::SrcColor1 => 6,
            Params::DstColor1 => 7,
            Params::Target2 => 8,
            Params::SrcColor2 => 9,
            Params::DstColor2 => 10,
            Params::Target3 => 11,
            Params::SrcColor3 => 12,
            Params::DstColor3 => 13,
            Params::Target4 => 14,
            Params::SrcColor4 => 15,
            Params::DstColor4 => 16,
            Params::Target5 => 17,
            Params::SrcColor5 => 18,
            Params::DstColor5 => 19,
            Params::Target6 => 20,
            Params::SrcColor6 => 21,
            Params::DstColor6 => 22,
            Params::Target7 => 23,
            Params::SrcColor7 => 24,
            Params::DstColor7 => 25,
        }
    }

    /// The control at a position, if there is one.
    pub fn from_index(index: usize) -> (r: Option<Params>)
        ensures
            r.is_some() == (index < 26),
            r.is_some() ==> r.unwrap().ordinal() == index,
    {
        match index {
            0 => Some(Params::Level),
            1 => Some(Params::Mode1),
            2 => Some(Params::Target0),
            3 => Some(Params::SrcColor0),
            4 => Some(Params::DstColor0),
            5 => Some(Params::Target1),
            6 => Some(Params::SrcColor1),
            7 => Some(Params::DstColor1),
            8 => Some(Params::Target2),
            9 => Some(Params::SrcColor2),
            10 => Some(Params::DstColor2),
            11 => Some(Params::Target3),
            12 => Some(Params::SrcColor3),
            13 => Some(Params::DstColor3),
            14 => Some(Params::Target4),
            15 => Some(Params::SrcColor4),
            16 => Some(Params::DstColor4),
            17 => Some(Params::Target5),
            18 => Some(Params::SrcColor5),
            19 => Some(Params::DstColor5),
            20 => Some(Params::Target6),
            21 => Some(Params::SrcColor6),
            22 => Some(Params::DstColor6),
            23 => Some(Params::Target7),
            24 => Some(Params::SrcColor7),
            25 => Some(Params::DstColor7),
            _ => None,
        }
    }

    /// The position of the enabling checkbox of a rule slot.
    pub open spec fn target_ordinal(slot: int) -> int {
        2 + 3 * slot
    }

    /// The three controls of a rule slot: its checkbox, its source colour
    /// and its destination colour. There are eight slots.
    pub fn slot(slot: usize) -> (r: Option<(Params, Params, Params)>)
        ensures
            r.is_some() == (slot < 8),
            r.is_some() ==> {
                &&& r.unwrap().0.ordinal() == Params::target_ordinal(slot as int)
                &&& r.unwrap().1.ordinal() == Params::target_ordinal(slot as int) + 1
                &&& r.unwrap().2.ordinal() == Params::target_ordinal(slot as int) + 2
            },
    {
        if slot >= 8 {
            return None;
        }
        let base: usize = 2 + 3 * slot;
        match (Params::from_index(base), Params::from_index(base + 1), Params::from_index(base + 2)) {
            (Some(target), Some(source), Some(destination)) => Some((target, source, destination)),
            _ => None,
        }
    }
}

/// What the effect says of itself.
pub fn about() -> (message: &'static str)
    ensures
        message@ == "fs-rs colorchange"@,
{
    "fs-rs colorchange"
}

/// The settings of one frame: the tolerance and the rules.
pub struct ColorChange {
    pub level: u8,
    pub rules: SubstitutionSet,
}

impl ColorChange {
    /// Renders one pixel: the first enabled rule whose source colour
    /// matches the input pixel puts its destination colour in the output
    /// pixel; alpha is kept. Where the two pixels are of different
    /// representations, nothing is written and the mismatch is reported.
    pub fn render_pixel(&self, pixel: &GenericPixel, out_pixel: &mut GenericPixel) -> (r: Result<
        (),
        RenderError,
    >)
        ensures
            r.is_ok() == pixel.same_format(*old(out_pixel)),
            r.is_err() ==> r == Err::<(), RenderError>(RenderError::UnsupportedPixelFormat),
            *final(out_pixel) == substituted(
                self.rules@,
                self.level,
                false,
                *pixel,
                *old(out_pixel),
            ),
    {
        self.rules.apply(self.level, false, pixel, out_pixel)
    }
}

} // verus!
