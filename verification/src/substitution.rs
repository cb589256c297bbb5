//! Ordered colour substitution: the first enabled rule whose source colour
//! matches a pixel decides what replaces it.

use vstd::prelude::*;
use crate::matcher::color_matches;
use crate::pixel::{GenericPixel, Pixel16, Pixel8, PixelFixed, RenderError};
use crate::utils::{
    conv_16_to_8, conv_32_to_8, conv_8_to_16, conv_8_to_32, pixel_16_to_8, pixel_8_to_16,
    pixel_8_to_fixed, pixel_fixed_to_8,
};

verus! {

/// The largest number of rules a substitution set holds.
pub const MAX_RULES: usize = 8;

/// A rule's two colours: what to look for and what to put in its place.
#[derive(Clone, Copy, Debug, PartialEq, Eq, Structural)]
pub struct ColorPair {
    pub source: Pixel8,
    pub destination: Pixel8,
}

/// One slot of a substitution set.
#[derive(Clone, Copy, Debug, PartialEq, Eq, Structural)]
pub struct Rule {
    pub enabled: bool,
    pub pair: ColorPair,
}

impl Rule {
    /// Whether this rule fires on `pixel`: it is enabled and its source
    /// colour matches.
    pub open spec fn applies(self, pixel: Pixel8, level: u8) -> bool {
        self.enabled && color_matches(pixel, self.pair.source, level)
    }
}

/// Whether `i` is the first slot of `rules` whose rule fires on `pixel`.
pub open spec fn is_first_match(rules: Seq<Rule>, pixel: Pixel8, level: u8, i: int) -> bool {
    &&& 0 <= i < rules.len()
    &&& rules[i].applies(pixel, level)
    &&& forall|j: int| 0 <= j < i ==> !(#[trigger] rules[j]).applies(pixel, level)
}

/// Whether no rule of `rules` fires on `pixel`.
pub open spec fn no_match(rules: Seq<Rule>, pixel: Pixel8, level: u8) -> bool {
    forall|j: int| 0 <= j < rules.len() ==> !(#[trigger] rules[j]).applies(pixel, level)
}

/// The first slot at or after `from` whose rule fires on `pixel`, if any.
pub open spec fn first_match_from(rules: Seq<Rule>, pixel: Pixel8, level: u8, from: int) -> Option<
    int,
>
    decreases rules.len() - from,
{
    if from < 0 || from >= rules.len() {
        None
    } else if rules[from].applies(pixel, level) {
        Some(from)
    } else {
        first_match_from(rules, pixel, level, from + 1)
    }
}

/// The first slot whose rule fires on `pixel`, if any.
pub open spec fn first_match(rules: Seq<Rule>, pixel: Pixel8, level: u8) -> Option<int> {
    first_match_from(rules, pixel, level, 0)
}

/// The colour that the rules leave in place of `pixel`'s red, green and
/// blue: the destination of the first rule that fires, if any.
pub open spec fn replacement(rules: Seq<Rule>, pixel: Pixel8, level: u8) -> Option<Pixel8> {
    match first_match(rules, pixel, level) {
        Some(i) => Some(rules[i].pair.destination),
        None => None,
    }
}

/// `first_match_from` finds the least firing slot at or after `from`, and
/// finds none only where none fires.
pub proof fn lemma_first_match_from(rules: Seq<Rule>, pixel: Pixel8, level: u8, from: int)
    requires
        0 <= from <= rules.len(),
    ensures
        match first_match_from(rules, pixel, level, from) {
            Some(i) => {
                &&& from <= i < rules.len()
                &&& rules[i].applies(pixel, level)
                &&& forall|j: int| from <= j < i ==> !(#[trigger] rules[j]).applies(pixel, level)
            },
            None => forall|j: int|
                from <= j < rules.len() ==> !(#[trigger] rules[j]).applies(pixel, level),
        },
    decreases rules.len() - from,
{
    if from < rules.len() && !rules[from].applies(pixel, level) {
        lemma_first_match_from(rules, pixel, level, from + 1);
    }
}

/// The slot that `first_match` names is the first that fires; it names none
/// exactly when no rule fires.
pub proof fn lemma_first_match(rules: Seq<Rule>, pixel: Pixel8, level: u8)
    ensures
        match first_match(rules, pixel, level) {
            Some(i) => is_first_match(rules, pixel, level, i),
            None => no_match(rules, pixel, level),
        },
{
    lemma_first_match_from(rules, pixel, level, 0);
}

/// A slot that is the first to fire is the one `first_match` names.
pub proof fn lemma_first_match_unique(rules: Seq<Rule>, pixel: Pixel8, level: u8, i: int)
    requires
        is_first_match(rules, pixel, level, i),
    ensures
        first_match(rules, pixel, level) == Some(i),
{
    lemma_first_match(rules, pixel, level);
}

/// Where two rules fire on the same pixel, the one in the earlier slot
/// decides: a later match never overrides an earlier one.
pub proof fn lemma_earlier_rule_wins(
    rules: Seq<Rule>,
    pixel: Pixel8,
    level: u8,
    first: int,
    second: int,
)
    requires
        0 <= first < second < rules.len(),
        rules[first].applies(pixel, level),
        rules[second].applies(pixel, level),
        forall|j: int| 0 <= j < first ==> !(#[trigger] rules[j]).applies(pixel, level),
    ensures
        replacement(rules, pixel, level) == Some(rules[first].pair.destination),
{
    lemma_first_match_unique(rules, pixel, level, first);
}

/// Disabled rules take no part: switching one off or on where its colour
/// does not match, or changing the colours of a disabled rule, leaves the
/// outcome for `pixel` as it was.
pub proof fn lemma_disabled_rule_is_skipped(
    rules: Seq<Rule>,
    pixel: Pixel8,
    level: u8,
    slot: int,
    pair: ColorPair,
)
    requires
        0 <= slot < rules.len(),
        !rules[slot].enabled,
    ensures
        replacement(rules.update(slot, Rule { enabled: false, pair }), pixel, level)
            == replacement(rules, pixel, level),
{
    let changed = rules.update(slot, Rule { enabled: false, pair });
    lemma_first_match(rules, pixel, level);
    match first_match(rules, pixel, level) {
        Some(i) => {
            assert(is_first_match(changed, pixel, level, i)) by {
                assert(changed[i] == rules[i]);
                assert forall|j: int| 0 <= j < i implies !(#[trigger] changed[j]).applies(
                    pixel,
                    level,
                ) by {
                    if j != slot {
                        assert(changed[j] == rules[j]);
                    }
                }
            }
            lemma_first_match_unique(changed, pixel, level, i);
        },
        None => {
            lemma_first_match(changed, pixel, level);
            match first_match(changed, pixel, level) {
                Some(k) => {
                    assert(changed[k].applies(pixel, level));
                    assert(k != slot);
                    assert(changed[k] == rules[k]);
                    assert(rules[k].applies(pixel, level));
                },
                None => {},
            }
        },
    }
}

/// `out` with its red, green and blue replaced by those of `color`. Alpha
/// is kept, or set to zero where `keying` asks for transparency.
pub open spec fn recolored8(out: Pixel8, color: Pixel8, keying: bool) -> Pixel8 {
    Pixel8 {
        alpha: if keying { 0 } else { out.alpha },
        red: color.red,
        green: color.green,
        blue: color.blue,
    }
}

/// As `recolored8`, on a 16-bit pixel: `color` is first brought to 16 bits.
pub open spec fn recolored16(out: Pixel16, color: Pixel8, keying: bool) -> Pixel16 {
    let c = pixel_8_to_16(color);
    Pixel16 {
        alpha: if keying { 0 } else { out.alpha },
        red: c.red,
        green: c.green,
        blue: c.blue,
    }
}

/// As `recolored8`, on a high-precision pixel: `color` is first brought to
/// fixed point.
pub open spec fn recolored_fixed(out: PixelFixed, color: Pixel8, keying: bool) -> PixelFixed {
    let c = pixel_8_to_fixed(color);
    PixelFixed {
        alpha: if keying { 0 } else { out.alpha },
        red: c.red,
        green: c.green,
        blue: c.blue,
    }
}

/// What the rules make of the output pixel `out` given the 8-bit input
/// pixel `pixel`: recoloured by the first rule that fires, else untouched.
pub open spec fn substituted8(
    rules: Seq<Rule>,
    level: u8,
    keying: bool,
    pixel: Pixel8,
    out: Pixel8,
) -> Pixel8 {
    match replacement(rules, pixel, level) {
        Some(color) => recolored8(out, color, keying),
        None => out,
    }
}

/// As `substituted8`, for a 16-bit frame: the input pixel is matched in
/// 8-bit space.
pub open spec fn substituted16(
    rules: Seq<Rule>,
    level: u8,
    keying: bool,
    pixel: Pixel16,
    out: Pixel16,
) -> Pixel16 {
    match replacement(rules, pixel_16_to_8(pixel), level) {
        Some(color) => recolored16(out, color, keying),
        None => out,
    }
}

/// As `substituted8`, for a high-precision frame: the input pixel is
/// matched in 8-bit space.
pub open spec fn substituted_fixed(
    rules: Seq<Rule>,
    level: u8,
    keying: bool,
    pixel: PixelFixed,
    out: PixelFixed,
) -> PixelFixed {
    match replacement(rules, pixel_fixed_to_8(pixel), level) {
        Some(color) => recolored_fixed(out, color, keying),
        None => out,
    }
}

/// What the rules make of an output pixel of any representation, where the
/// input pixel is of the same one.
pub open spec fn substituted(
    rules: Seq<Rule>,
    level: u8,
    keying: bool,
    pixel: GenericPixel,
    out: GenericPixel,
) -> GenericPixel {
    match (pixel, out) {
        (GenericPixel::Depth8(p), GenericPixel::Depth8(o)) => GenericPixel::Depth8(
            substituted8(rules, level, keying, p, o),
        ),
        (GenericPixel::Depth16(p), GenericPixel::Depth16(o)) => GenericPixel::Depth16(
            substituted16(rules, level, keying, p, o),
        ),
        (GenericPixel::Fixed(p), GenericPixel::Fixed(o)) => GenericPixel::Fixed(
            substituted_fixed(rules, level, keying, p, o),
        ),
        _ => out,
    }
}

/// An ordered set of at most eight substitution rules.
pub struct SubstitutionSet {
    pub rules: Vec<Rule>,
}

impl View for SubstitutionSet {
    type V = Seq<Rule>;

    open spec fn view(&self) -> Seq<Rule> {
        self.rules@
    }
}

impl SubstitutionSet {
    /// The set holds no more rules than there are slots.
    pub open spec fn wf(&self) -> bool {
        self.rules@.len() <= MAX_RULES
    }

    /// A set without rules: it leaves every pixel as it is.
    pub fn new() -> (r: Self)
        ensures
            r@ == Seq::<Rule>::empty(),
            r.wf(),
    {
        SubstitutionSet { rules: Vec::new() }
    }

    /// A set of one rule that is always enabled.
    pub fn single(pair: ColorPair) -> (r: Self)
        ensures
            r@ == seq![Rule { enabled: true, pair }],
            r.wf(),
    {
        let mut rules: Vec<Rule> = Vec::new();
        rules.push(Rule { enabled: true, pair });
        SubstitutionSet { rules }
    }

    /// Appends a rule in the next free slot. A full set is left unchanged
    /// and the rule is refused.
    pub fn push(&mut self, rule: Rule) -> (accepted: bool)
        requires
            old(self).wf(),
        ensures
            final(self).wf(),
            accepted == (old(self)@.len() < MAX_RULES),
            accepted ==> final(self)@ == old(self)@.push(rule),
            !accepted ==> final(self)@ == old(self)@,
    {
        if self.rules.len() < MAX_RULES {
            self.rules.push(rule);
            true
        } else {
            false
        }
    }

    /// The number of slots in use.
    pub fn len(&self) -> (n: usize)
        ensures
            n == self@.len(),
    {
        self.rules.len()
    }

    /// The slot of the first rule that fires on `pixel`, if any.
    pub fn find_match(&self, pixel: &Pixel8, level: u8) -> (r: Option<usize>)
        ensures
            match r {
                Some(i) => is_first_match(self@, *pixel, level, i as int),
                None => no_match(self@, *pixel, level),
            },
            match r {
                Some(i) => first_match(self@, *pixel, level) == Some(i as int),
                None => first_match(self@, *pixel, level) == None::<int>,
            },
    {
        let n: usize = self.rules.len();
        let mut i: usize = 0;
        while i < n
            invariant
                n == self.rules@.len(),
                i <= n,
                forall|j: int| 0 <= j < i ==> !(#[trigger] self@[j]).applies(*pixel, level),
            decreases n - i,
        {
            let rule: Rule = self.rules[i];
            if rule.enabled && crate::matcher::matches(pixel, &rule.pair.source, level) {
                proof {
                    lemma_first_match_unique(self@, *pixel, level, i as int);
                }
                return Some(i);
            }
            i = i + 1;
        }
        proof {
            lemma_first_match(self@, *pixel, level);
        }
        None
    }

    /// The destination colour of the first rule that fires on `pixel`.
    pub fn resolve(&self, pixel: &Pixel8, level: u8) -> (r: Option<Pixel8>)
        ensures
            r == replacement(self@, *pixel, level),
    {
        match self.find_match(pixel, level) {
            Some(i) => Some(self.rules[i].pair.destination),
            None => None,
        }
    }

    /// The colour that a high-precision pixel is to take where its 8-bit
    /// conversion is `pixel`: the destination of the first rule that fires,
    /// brought to fixed point.
    pub fn resolve_fixed(&self, pixel: &Pixel8, level: u8) -> (r: Option<PixelFixed>)
        ensures
            r == match replacement(self@, *pixel, level) {
                Some(color) => Some(pixel_8_to_fixed(color)),
                None => None,
            },
    {
        match self.resolve(pixel, level) {
            Some(color) => Some(conv_8_to_32(&color)),
            None => None,
        }
    }

    /// Applies the rules to one pixel of an 8-bit frame. `out_pixel` holds
    /// the output pixel, a copy of the input unless something else was
    /// stored there; it is overwritten only where a rule fires.
    pub fn apply8(&self, level: u8, keying: bool, pixel: &Pixel8, out_pixel: &mut Pixel8)
        ensures
            *final(out_pixel) == substituted8(self@, level, keying, *pixel, *old(out_pixel)),
    {
        match self.resolve(pixel, level) {
            Some(color) => {
                out_pixel.red = color.red;
                out_pixel.green = color.green;
                out_pixel.blue = color.blue;
                if keying {
                    out_pixel.alpha = 0;
                }
            },
            None => {},
        }
    }

    /// Applies the rules to one pixel of a 16-bit frame.
    pub fn apply16(&self, level: u8, keying: bool, pixel: &Pixel16, out_pixel: &mut Pixel16)
        ensures
            *final(out_pixel) == substituted16(self@, level, keying, *pixel, *old(out_pixel)),
    {
        let p: Pixel8 = conv_16_to_8(pixel);
        match self.resolve(&p, level) {
            Some(color) => {
                let c: Pixel16 = conv_8_to_16(&color);
                out_pixel.red = c.red;
                out_pixel.green = c.green;
                out_pixel.blue = c.blue;
                if keying {
                    out_pixel.alpha = 0;
                }
            },
            None => {},
        }
    }

    /// Applies the rules to one pixel of a high-precision frame.
    pub fn apply_fixed(
        &self,
        level: u8,
        keying: bool,
        pixel: &PixelFixed,
        out_pixel: &mut PixelFixed,
    )
        ensures
            *final(out_pixel) == substituted_fixed(
                self@,
                level,
                keying,
                *pixel,
                *old(out_pixel),
            ),
    {
        let p: Pixel8 = conv_32_to_8(pixel);
        match self.resolve(&p, level) {
            Some(color) => {
                let c: PixelFixed = conv_8_to_32(&color);
                out_pixel.red = c.red;
                out_pixel.green = c.green;
                out_pixel.blue = c.blue;
                if keying {
                    out_pixel.alpha = 0;
                }
            },
            None => {},
        }
    }

    /// Applies the rules to one pixel of a frame of any representation.
    /// The input and the output pixel must be of the same one; where they
    /// are not, nothing is written and the mismatch is reported.
    pub fn apply(
        &self,
        level: u8,
        keying: bool,
        pixel: &GenericPixel,
        out_pixel: &mut GenericPixel,
    ) -> (r: Result<(), RenderError>)
        ensures
            r.is_ok() == pixel.same_format(*old(out_pixel)),
            r.is_err() ==> r == Err::<(), RenderError>(RenderError::UnsupportedPixelFormat),
            *final(out_pixel) == substituted(self@, level, keying, *pixel, *old(out_pixel)),
    {
        let current: GenericPixel = *out_pixel;
        match (*pixel, current) {
            (GenericPixel::Depth8(p), GenericPixel::Depth8(o)) => {
                let mut o: Pixel8 = o;
                self.apply8(level, keying, &p, &mut o);
                *out_pixel = GenericPixel::Depth8(o);
                Ok(())
            },
            (GenericPixel::Depth16(p), GenericPixel::Depth16(o)) => {
                let mut o: Pixel16 = o;
                self.apply16(level, keying, &p, &mut o);
                *out_pixel = GenericPixel::Depth16(o);
                Ok(())
            },
            (GenericPixel::Fixed(p), GenericPixel::Fixed(o)) => {
                let mut o: PixelFixed = o;
                self.apply_fixed(level, keying, &p, &mut o);
                *out_pixel = GenericPixel::Fixed(o);
                Ok(())
            },
            _ => Err(RenderError::UnsupportedPixelFormat),
        }
    }

    /// The colour pairs of the enabled rules, in slot order.
    pub fn collect_enabled_color_pairs(&self) -> (pairs: Vec<ColorPair>)
        ensures
            pairs@ == enabled_pairs(self@),
    {
        let n: usize = self.rules.len();
        let mut pairs: Vec<ColorPair> = Vec::new();
        let mut i: usize = 0;
        while i < n
            invariant
                n == self.rules@.len(),
                i <= n,
                pairs@ == enabled_pairs(self@.take(i as int)),
            decreases n - i,
        {
            let rule: Rule = self.rules[i];
            proof {
                assert(self@.take(i + 1).drop_last() == self@.take(i as int));
                assert(self@.take(i + 1).last() == rule);
            }
            if rule.enabled {
                pairs.push(rule.pair);
            }
            i = i + 1;
        }
        proof {
            assert(self@.take(n as int) == self@);
        }
        pairs
    }
}

/// Rules made of `pairs`, each enabled, in the same order.
pub open spec fn always_enabled(pairs: Seq<ColorPair>) -> Seq<Rule> {
    Seq::new(pairs.len(), |i: int| Rule { enabled: true, pair: pairs[i] })
}

/// A rule appended to a set decides only where no earlier rule fires.
pub proof fn lemma_replacement_push(rules: Seq<Rule>, rule: Rule, pixel: Pixel8, level: u8)
    ensures
        replacement(rules.push(rule), pixel, level) == match replacement(rules, pixel, level) {
            Some(color) => Some(color),
            None => if rule.applies(pixel, level) {
                Some(rule.pair.destination)
            } else {
                None
            },
        },
{
    let longer = rules.push(rule);
    lemma_first_match(rules, pixel, level);
    match first_match(rules, pixel, level) {
        Some(i) => {
            assert(longer[i] == rules[i]);
            assert forall|j: int| 0 <= j < i implies !(#[trigger] longer[j]).applies(
                pixel,
                level,
            ) by {
                assert(longer[j] == rules[j]);
            }
            lemma_first_match_unique(longer, pixel, level, i);
        },
        None => {
            let n = rules.len() as int;
            assert(longer[n] == rule);
            assert forall|j: int| 0 <= j < n implies !(#[trigger] longer[j]).applies(
                pixel,
                level,
            ) by {
                assert(longer[j] == rules[j]);
            }
            if rule.applies(pixel, level) {
                lemma_first_match_unique(longer, pixel, level, n);
            } else {
                lemma_first_match(longer, pixel, level);
                match first_match(longer, pixel, level) {
                    Some(k) => {
                        assert(longer[k].applies(pixel, level));
                        assert(false);
                    },
                    None => {},
                }
            }
        },
    }
}

/// The colour pairs collected from the enabled rules decide as the whole
/// set does: leaving the disabled rules out changes no outcome.
pub proof fn lemma_enabled_pairs_decide(rules: Seq<Rule>, pixel: Pixel8, level: u8)
    ensures
        replacement(always_enabled(enabled_pairs(rules)), pixel, level) == replacement(
            rules,
            pixel,
            level,
        ),
    decreases rules.len(),
{
    if rules.len() == 0 {
        assert(always_enabled(enabled_pairs(rules)) =~= rules);
    } else {
        let shorter = rules.drop_last();
        let last = rules.last();
        lemma_enabled_pairs_decide(shorter, pixel, level);
        assert(rules =~= shorter.push(last));
        lemma_replacement_push(shorter, last, pixel, level);
        if last.enabled {
            let rule = Rule { enabled: true, pair: last.pair };
            assert(always_enabled(enabled_pairs(rules)) =~= always_enabled(
                enabled_pairs(shorter),
            ).push(rule));
            lemma_replacement_push(always_enabled(enabled_pairs(shorter)), rule, pixel, level);
        }
    }
}

/// The rules of the single-rule variants: one pair, always enabled.
pub open spec fn single_rule(pair: ColorPair) -> Seq<Rule> {
    seq![Rule { enabled: true, pair }]
}

/// A single always-enabled rule replaces exactly the pixels that its
/// source colour matches.
pub proof fn lemma_single_rule(pair: ColorPair, pixel: Pixel8, level: u8)
    ensures
        replacement(single_rule(pair), pixel, level) == if color_matches(
            pixel,
            pair.source,
            level,
        ) {
            Some(pair.destination)
        } else {
            None
        },
{
    let rules = single_rule(pair);
    assert(rules.len() == 1);
    assert(rules[0] == Rule { enabled: true, pair });
    lemma_first_match(rules, pixel, level);
    if color_matches(pixel, pair.source, level) {
        assert(is_first_match(rules, pixel, level, 0));
        lemma_first_match_unique(rules, pixel, level, 0);
    }
}

/// Applies one always-enabled rule to one pixel of a frame of any
/// representation, as a set of that one rule would. Where the input and
/// the output pixel are of different representations, nothing is written
/// and the mismatch is reported.
pub fn apply_pair(
    pair: &ColorPair,
    level: u8,
    keying: bool,
    pixel: &GenericPixel,
    out_pixel: &mut GenericPixel,
) -> (r: Result<(), RenderError>)
    ensures
        r.is_ok() == pixel.same_format(*old(out_pixel)),
        r.is_err() ==> r == Err::<(), RenderError>(RenderError::UnsupportedPixelFormat),
        *final(out_pixel) == substituted(
            single_rule(*pair),
            level,
            keying,
            *pixel,
            *old(out_pixel),
        ),
{
    let current: GenericPixel = *out_pixel;
    match (*pixel, current) {
        (GenericPixel::Depth8(p), GenericPixel::Depth8(o)) => {
            proof {
                lemma_single_rule(*pair, p, level);
            }
            if crate::matcher::matches(&p, &pair.source, level) {
                let d: Pixel8 = pair.destination;
                *out_pixel = GenericPixel::Depth8(
                    Pixel8 {
                        alpha: if keying { 0 } else { o.alpha },
                        red: d.red,
                        green: d.green,
                        blue: d.blue,
                    },
                );
            }
            Ok(())
        },
        (GenericPixel::Depth16(p), GenericPixel::Depth16(o)) => {
            let eight: Pixel8 = conv_16_to_8(&p);
            proof {
                lemma_single_rule(*pair, eight, level);
            }
            if crate::matcher::matches(&eight, &pair.source, level) {
                let d: Pixel16 = conv_8_to_16(&pair.destination);
                *out_pixel = GenericPixel::Depth16(
                    Pixel16 {
                        alpha: if keying { 0 } else { o.alpha },
                        red: d.red,
                        green: d.green,
                        blue: d.blue,
                    },
                );
            }
            Ok(())
        },
        (GenericPixel::Fixed(p), GenericPixel::Fixed(o)) => {
            let eight: Pixel8 = conv_32_to_8(&p);
            proof {
                lemma_single_rule(*pair, eight, level);
            }
            if crate::matcher::matches(&eight, &pair.source, level) {
                let d: PixelFixed = conv_8_to_32(&pair.destination);
                *out_pixel = GenericPixel::Fixed(
                    PixelFixed {
                        alpha: if keying { 0 } else { o.alpha },
                        red: d.red,
                        green: d.green,
                        blue: d.blue,
                    },
                );
            }
            Ok(())
        },
        _ => Err(RenderError::UnsupportedPixelFormat),
    }
}

/// The colour pairs of the enabled rules of `rules`, in slot order.
pub open spec fn enabled_pairs(rules: Seq<Rule>) -> Seq<ColorPair>
    decreases rules.len(),
{
    if rules.len() == 0 {
        Seq::empty()
    } else if rules.last().enabled {
        enabled_pairs(rules.drop_last()).push(rules.last().pair)
    } else {
        enabled_pairs(rules.drop_last())
    }
}

} // verus!
