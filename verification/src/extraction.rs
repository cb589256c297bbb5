//! Chroma extraction: a pixel close in hue and saturation to one of a few
//! reference colours has its alpha raised by how close it is in lightness.

use vstd::prelude::*;
use crate::hls::{Ratio, HLSA};
use crate::utils::abs;

verus! {

/// The largest number of reference colours an extraction set holds.
pub const MAX_REFERENCES: usize = 8;

/// The factor by which a reference component is scaled before it is
/// compared with a pixel's.
pub const REFERENCE_SCALE: i64 = 65536;

/// The lightness distance at and beyond which a reference gives no boost.
pub const LIGHTNESS_WINDOW: i64 = 16384;

/// The whole part of the distance between a pixel's component `p` and a
/// reference's component `r` scaled by 65536.
pub open spec fn scaled_distance(p: Ratio, r: Ratio) -> int {
    let difference = p.num * r.den - 65536 * (r.num * p.den);
    (if difference < 0 { -difference } else { difference }) / (p.den * r.den)
}

/// Whether `reference` is close enough to `pixel` to boost it: within
/// `range` in hue and in saturation, and within the lightness window.
pub open spec fn qualifies(pixel: HLSA, reference: HLSA, range: i32) -> bool {
    &&& scaled_distance(pixel.hue, reference.hue) <= range
    &&& scaled_distance(pixel.saturation, reference.saturation) <= range
    &&& scaled_distance(pixel.lightness, reference.lightness) < 16384
}

/// The boost for a lightness distance inside the window: 255 at distance
/// zero, falling linearly towards the window's edge.
pub open spec fn boost_for(lightness_distance: int) -> int {
    255 * (16384 - lightness_distance) / 16384
}

/// Whether `i` is the first slot of `references` that qualifies.
pub open spec fn is_first_qualifying(
    references: Seq<HLSA>,
    pixel: HLSA,
    range: i32,
    i: int,
) -> bool {
    &&& 0 <= i < references.len()
    &&& qualifies(pixel, references[i], range)
    &&& forall|j: int| 0 <= j < i ==> !qualifies(pixel, #[trigger] references[j], range)
}

/// Whether no reference qualifies.
pub open spec fn none_qualifies(references: Seq<HLSA>, pixel: HLSA, range: i32) -> bool {
    forall|j: int|
        0 <= j < references.len() ==> !qualifies(pixel, #[trigger] references[j], range)
}

/// The first slot at or after `from` whose reference qualifies, if any.
pub open spec fn first_qualifying_from(
    references: Seq<HLSA>,
    pixel: HLSA,
    range: i32,
    from: int,
) -> Option<int>
    decreases references.len() - from,
{
    if from < 0 || from >= references.len() {
        None
    } else if qualifies(pixel, references[from], range) {
        Some(from)
    } else {
        first_qualifying_from(references, pixel, range, from + 1)
    }
}

/// The boost that the references give `pixel`: that of the first one that
/// qualifies, whether or not a later one is closer; none where none
/// qualifies.
pub open spec fn chroma_boost_of(references: Seq<HLSA>, pixel: HLSA, range: i32) -> Option<u8> {
    match first_qualifying_from(references, pixel, range, 0) {
        Some(i) => Some(
            boost_for(scaled_distance(pixel.lightness, references[i].lightness)) as u8,
        ),
        None => None,
    }
}

/// The alpha after a boost: the larger of the two where there is a boost.
pub open spec fn boosted_alpha(alpha: u8, boost: Option<u8>) -> u8 {
    match boost {
        Some(b) => if alpha < b { b } else { alpha },
        None => alpha,
    }
}

/// `first_qualifying_from` finds the least qualifying slot at or after
/// `from`, and finds none only where none qualifies.
pub proof fn lemma_first_qualifying_from(
    references: Seq<HLSA>,
    pixel: HLSA,
    range: i32,
    from: int,
)
    requires
        0 <= from <= references.len(),
    ensures
        match first_qualifying_from(references, pixel, range, from) {
            Some(i) => {
                &&& from <= i < references.len()
                &&& qualifies(pixel, references[i], range)
                &&& forall|j: int|
                    from <= j < i ==> !qualifies(pixel, #[trigger] references[j], range)
            },
            None => forall|j: int|
                from <= j < references.len() ==> !qualifies(
                    pixel,
                    #[trigger] references[j],
                    range,
                ),
        },
    decreases references.len() - from,
{
    if from < references.len() && !qualifies(pixel, references[from], range) {
        lemma_first_qualifying_from(references, pixel, range, from + 1);
    }
}

/// The first qualifying slot decides the boost, and there is no boost
/// exactly where no reference qualifies.
pub proof fn lemma_first_reference_wins(references: Seq<HLSA>, pixel: HLSA, range: i32, i: int)
    requires
        is_first_qualifying(references, pixel, range, i),
    ensures
        chroma_boost_of(references, pixel, range) == Some(
            boost_for(scaled_distance(pixel.lightness, references[i].lightness)) as u8,
        ),
{
    lemma_first_qualifying_from(references, pixel, range, 0);
}

/// Without a qualifying reference there is no boost, and the other way
/// round.
pub proof fn lemma_no_boost_iff_none_qualifies(references: Seq<HLSA>, pixel: HLSA, range: i32)
    ensures
        chroma_boost_of(references, pixel, range).is_none() <==> none_qualifies(
            references,
            pixel,
            range,
        ),
{
    lemma_first_qualifying_from(references, pixel, range, 0);
}

/// A boost lies in `(0, 255]`, and a boosted alpha is never below the
/// alpha it started from.
pub proof fn lemma_boost_bounds(lightness_distance: int, alpha: u8)
    requires
        0 <= lightness_distance < 16384,
    ensures
        0 <= boost_for(lightness_distance) <= 255,
        boost_for(0) == 255,
        boosted_alpha(alpha, Some(boost_for(lightness_distance) as u8)) >= alpha,
        boosted_alpha(alpha, None) == alpha,
{
}

/// A boost never lowers alpha; an alpha of 255 stays, and so does any
/// alpha where there are no references.
pub proof fn lemma_boost_never_lowers(references: Seq<HLSA>, pixel: HLSA, range: i32, alpha: u8)
    ensures
        boosted_alpha(alpha, chroma_boost_of(references, pixel, range)) >= alpha,
        alpha == 255 ==> boosted_alpha(alpha, chroma_boost_of(references, pixel, range)) == 255,
        references.len() == 0 ==> boosted_alpha(
            alpha,
            chroma_boost_of(references, pixel, range),
        ) == alpha,
{
}

/// Computes the whole part of the distance between a pixel's component and
/// a reference's component scaled by 65536.
pub fn distance(p: &Ratio, r: &Ratio) -> (d: i64)
    requires
        p.wf(),
        r.wf(),
    ensures
        d == scaled_distance(*p, *r),
        0 <= d,
{
    let pn: i64 = p.num;
    let pd: i64 = p.den;
    let rn: i64 = r.num;
    let rd: i64 = r.den;
    assert(0 <= pn * rd <= 60000 * 60000) by (nonlinear_arith)
        requires
            0 <= pn <= 60000,
            0 < rd <= 60000,
    ;
    assert(0 <= rn * pd <= 60000 * 60000) by (nonlinear_arith)
        requires
            0 <= rn <= 60000,
            0 < pd <= 60000,
    ;
    assert(0 < pd * rd <= 60000 * 60000) by (nonlinear_arith)
        requires
            0 < pd <= 60000,
            0 < rd <= 60000,
    ;
    let left: i64 = pn * rd;
    let right: i64 = 65536 * (rn * pd);
    let difference: i64 = abs(left - right);
    let product: i64 = pd * rd;
    let d: i64 = difference / product;
    assert(d >= 0) by (nonlinear_arith)
        requires
            d == (difference as int) / (product as int),
            difference >= 0,
            product > 0,
    ;
    d
}

/// Decides whether a reference is close enough to a pixel to boost it, and
/// if so gives the boost.
pub fn boost_from(pixel: &HLSA, reference: &HLSA, range: i32) -> (r: Option<u8>)
    requires
        pixel.wf(),
        reference.wf(),
    ensures
        r.is_some() == qualifies(*pixel, *reference, range),
        r.is_some() ==> r.unwrap() == boost_for(
            scaled_distance(pixel.lightness, reference.lightness),
        ),
{
    let hue: i64 = distance(&pixel.hue, &reference.hue);
    let saturation: i64 = distance(&pixel.saturation, &reference.saturation);
    if hue <= range as i64 && saturation <= range as i64 {
        let lightness: i64 = distance(&pixel.lightness, &reference.lightness);
        if lightness < 16384 {
            let boost: i64 = 255 * (16384 - lightness) / 16384;
            return Some(boost as u8);
        }
    }
    None
}

/// Up to eight reference colours and the tolerance shared by hue and
/// saturation.
pub struct ExtractionSet {
    pub colors: Vec<HLSA>,
    pub range: i32,
}

impl ExtractionSet {
    /// The references of the set.
    pub open spec fn references(&self) -> Seq<HLSA> {
        self.colors@
    }

    /// The set holds at most eight references, each well formed.
    pub open spec fn wf(&self) -> bool {
        &&& self.colors@.len() <= MAX_REFERENCES
        &&& forall|i: int| 0 <= i < self.colors@.len() ==> (#[trigger] self.colors@[i]).wf()
    }

    /// A set without references and with the given tolerance.
    pub fn new(range: i32) -> (r: ExtractionSet)
        ensures
            r.references() == Seq::<HLSA>::empty(),
            r.range == range,
            r.wf(),
    {
        ExtractionSet { colors: Vec::new(), range }
    }

    /// Appends a reference colour. A full set is left unchanged and the
    /// colour is refused.
    pub fn push(&mut self, color: HLSA) -> (accepted: bool)
        requires
            old(self).wf(),
            color.wf(),
        ensures
            final(self).wf(),
            final(self).range == old(self).range,
            accepted == (old(self).references().len() < MAX_REFERENCES),
            accepted ==> final(self).references() == old(self).references().push(color),
            !accepted ==> final(self).references() == old(self).references(),
    {
        if self.colors.len() < MAX_REFERENCES {
            self.colors.push(color);
            true
        } else {
            false
        }
    }

    /// The number of references.
    pub fn len(&self) -> (n: usize)
        ensures
            n == self.references().len(),
    {
        self.colors.len()
    }

    /// The boost that the references give a pixel, if any.
    pub fn chroma_boost(&self, pixel: &HLSA) -> (r: Option<u8>)
        requires
            self.wf(),
            pixel.wf(),
        ensures
            r == chroma_boost_of(self.references(), *pixel, self.range),
    {
        let n: usize = self.colors.len();
        let mut i: usize = 0;
        while i < n
            invariant
                n == self.colors@.len(),
                i <= n,
                self.wf(),
                pixel.wf(),
                first_qualifying_from(self.references(), *pixel, self.range, 0)
                    == first_qualifying_from(self.references(), *pixel, self.range, i as int),
            decreases n - i,
        {
            let reference: HLSA = self.colors[i];
            match boost_from(pixel, &reference, self.range) {
                Some(boost) => {
                    return Some(boost);
                },
                None => {},
            }
            i = i + 1;
        }
        None
    }
}

} // verus!
