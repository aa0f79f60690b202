use vstd::prelude::*;
use crate::random::RandomSource;

verus! {

/// Resolution of one uniform draw from the unit interval: a draw is an
/// integer in `[0, RATIO_UNIT)` standing for the fraction `draw / RATIO_UNIT`.
/// The value is 2^24, so a `Ratio` field can hold any multiple of 2^-24,
/// which covers the eighths used by species gender ratios exactly.
pub const RATIO_UNIT: u32 = 16777216;

/// The gender distribution a species declares, or a concrete resolved gender.
///
/// `Ratio(p)` is probabilistic: `p` parts in `RATIO_UNIT` is the probability
/// of resolving to `Female`. A `Ratio` value is meant to be resolved through
/// `randomize` before it is displayed. Valid data keeps `p <= RATIO_UNIT`.
#[derive(Copy, Clone, Debug, PartialEq, Eq, Structural)]
pub enum Gender {
    Agender,
    Male,
    Female,
    Ratio(u32),
}

/// The display symbol of a gender, as a sequence of characters.
pub open spec fn symbol_seq(g: Gender) -> Seq<char> {
    match g {
        Gender::Agender => Seq::empty(),
        Gender::Male => seq!['\u{2642}'],
        Gender::Female => seq!['\u{2640}'],
        Gender::Ratio(_) => seq!['?'],
    }
}

/// Which concrete genders a declared gender can resolve to: a fixed gender
/// resolves only to itself; `Ratio(p)` resolves to `Female` when some draw
/// below `p` exists and to `Male` when some draw at or above `p` exists.
pub open spec fn resolves(decl: Gender, res: Gender) -> bool {
    match decl {
        Gender::Ratio(p) => (res == Gender::Female && p > 0) || (res == Gender::Male
            && p < RATIO_UNIT),
        _ => res == decl,
    }
}

impl Gender {
    /// The human-readable symbol: nothing for `Agender`, the Mars and Venus
    /// signs for `Male` and `Female`, and a question mark for an unresolved
    /// `Ratio`.
    pub fn symbol(&self) -> (r: &'static str)
        ensures
            r@ == symbol_seq(*self),
    {
        proof {
            reveal_strlit("");
            reveal_strlit("\u{2642}");
            reveal_strlit("\u{2640}");
            reveal_strlit("?");
        }
        let r = match self {
            Gender::Agender => "",
            Gender::Male => "\u{2642}",
            Gender::Female => "\u{2640}",
            Gender::Ratio(_) => "?",
        };
        proof {
            assert(r@ =~= symbol_seq(*self));
        }
        r
    }

    /// Resolve this gender into a concrete one. A fixed gender comes back
    /// unchanged and consumes no randomness; a `Ratio(p)` consumes exactly
    /// one unit draw `u` and resolves to `Female` when `u < p`, else `Male`.
    pub fn randomize<R: RandomSource>(&self, rng: &mut R) -> (r: Gender)
        ensures
            resolves(*self, r),
            !((*self) is Ratio) ==> r == *self && *final(rng) == *old(rng),
            (*self) is Ratio ==> final(rng).draws() == old(rng).draws() + 1,
    {
        match self {
            Gender::Ratio(ratio) => {
                let u = rng.next_unit();
                if u < *ratio {
                    Gender::Female
                } else {
                    Gender::Male
                }
            },
            g => *g,
        }
    }
}

/// A zero ratio always resolves to `Male`.
pub proof fn lemma_ratio_zero_resolves_male(res: Gender)
    requires
        resolves(Gender::Ratio(0), res),
    ensures
        res == Gender::Male,
{
}

/// A full ratio always resolves to `Female`.
pub proof fn lemma_ratio_full_resolves_female(res: Gender)
    requires
        resolves(Gender::Ratio(RATIO_UNIT), res),
    ensures
        res == Gender::Female,
{
}

} // verus!
