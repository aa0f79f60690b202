use vstd::prelude::*;
use crate::gender::Gender;
use crate::gender::resolves;
use crate::label::format_label;
use crate::label::rendered_label;
use crate::random::RandomSource;
use crate::settings::WildmonSettings;
use crate::species::display_name;
use crate::species::Species;
use crate::species::MISSINGNO;

verus! {

/// The genders accepted when the caller restricts nothing.
pub open spec fn default_allowed() -> Seq<Gender> {
    seq![Gender::Male, Gender::Female, Gender::Agender]
}

/// The set the membership test runs against: the caller's list, or the
/// default allowed set when that list is empty.
pub open spec fn effective_allowed(allow: Seq<Gender>) -> Seq<Gender> {
    if allow.len() == 0 {
        default_allowed()
    } else {
        allow
    }
}

/// The second stage of gender selection: a resolved gender that passes the
/// membership test against the effective allowed set is kept; one that fails
/// it is replaced by a pick from the caller's own list — which, when that
/// list is empty, leaves only the hard fallback `Agender`.
pub open spec fn kept_or_replaced(res: Gender, allow: Seq<Gender>, g: Gender) -> bool {
    if effective_allowed(allow).contains(res) {
        g == res
    } else if allow.len() == 0 {
        g == Gender::Agender
    } else {
        allow.contains(g)
    }
}

/// The whole gender policy: some resolution of the declared gender, run
/// through the keep-or-replace stage.
pub open spec fn gender_policy(decl: Gender, allow: Seq<Gender>, g: Gender) -> bool {
    exists|res: Gender| resolves(decl, res) && kept_or_replaced(res, allow, g)
}

/// One acceptable outcome of the generator on a non-empty catalog: some
/// species at index `i`, some gender `g` the policy admits for it, and some
/// level in `[1, 100]`, rendered into `out`.
pub open spec fn wildmon_outcome(
    pokedex: Seq<Species>,
    allow: Seq<Gender>,
    whitespace: bool,
    i: int,
    g: Gender,
    level: int,
    out: Seq<char>,
) -> bool {
    &&& 0 <= i < pokedex.len()
    &&& 1 <= level <= 100
    &&& gender_policy(pokedex[i].gender, allow, g)
    &&& out == rendered_label(display_name(pokedex[i]), g, level, whitespace)
}

/// With no caller restriction the membership test runs against the default
/// allowed set {Male, Female, Agender}, and a resolved gender that fails
/// that test falls back to `Agender`, there being nothing to redraw from.
pub proof fn lemma_empty_allow_policy(res: Gender, g: Gender)
    requires
        kept_or_replaced(res, Seq::<Gender>::empty(), g),
    ensures
        effective_allowed(Seq::<Gender>::empty()) == default_allowed(),
        !default_allowed().contains(res) ==> g == Gender::Agender,
{
}

/// With exactly one allowed gender the policy always yields it, whatever
/// the species declares: a resolution that passes the membership test can
/// only be that gender, and the redraw can only pick it.
pub proof fn lemma_single_allowed(decl: Gender, x: Gender, g: Gender)
    requires
        gender_policy(decl, seq![x], g),
    ensures
        g == x,
{
    let res = choose|res: Gender| resolves(decl, res) && kept_or_replaced(res, seq![x], g);
    if effective_allowed(seq![x]).contains(res) {
        let i = choose|i: int| 0 <= i < seq![x].len() && seq![x][i] == res;
        assert(res == x);
    } else {
        let i = choose|i: int| 0 <= i < seq![x].len() && seq![x][i] == g;
        assert(g == x);
    }
}

/// Whether `list` holds `g`.
fn contains_gender(list: &Vec<Gender>, g: Gender) -> (r: bool)
    ensures
        r == list@.contains(g),
{
    let mut i: usize = 0;
    while i < list.len()
        invariant
            i <= list@.len(),
            forall|j: int| 0 <= j < i ==> list@[j] != g,
        decreases list@.len() - i,
    {
        if list[i] == g {
            return true;
        }
        i = i + 1;
    }
    false
}

/// Generate one wild encounter label.
///
/// An empty catalog yields exactly the sentinel string. Otherwise a species
/// is picked uniformly from the catalog, its gender is resolved and run
/// through the allowed-gender policy, a level is drawn from `[1, 100]`, and
/// the label is formatted under the whitespace policy. The `canon` setting
/// is accepted but read nowhere.
pub fn wildmon<R: RandomSource>(rng: &mut R, pokedex: &Vec<Species>, opts: &WildmonSettings) -> (r:
    String)
    ensures
        pokedex@.len() == 0 ==> r@ == "Missingno."@ && *final(rng) == *old(rng),
        pokedex@.len() > 0 ==> old(rng).draws() + 2 <= final(rng).draws() <= old(rng).draws() + 4,
        pokedex@.len() > 0 ==> exists|i: int, g: Gender, level: int|
            #[trigger] wildmon_outcome(
                pokedex@,
                opts.allow_genders@,
                opts.whitespace,
                i,
                g,
                level,
                r@,
            ),
{
    if pokedex.len() == 0 {
        return String::from_str(MISSINGNO);
    }
    let idx = rng.next_index(pokedex.len());
    let species = &pokedex[idx];

    let name: &str = if species.names.len() > 0 {
        species.names[0].as_str()
    } else {
        MISSINGNO
    };

    let resolved = species.gender.randomize(rng);
    let permitted = if opts.allow_genders.len() == 0 {
        resolved == Gender::Male || resolved == Gender::Female || resolved == Gender::Agender
    } else {
        contains_gender(&opts.allow_genders, resolved)
    };
    proof {
        assert(permitted == effective_allowed(opts.allow_genders@).contains(resolved)) by {
            if opts.allow_genders@.len() == 0 {
                assert(default_allowed()[0] == Gender::Male);
                assert(default_allowed()[1] == Gender::Female);
                assert(default_allowed()[2] == Gender::Agender);
                if permitted {
                    assert(default_allowed().contains(resolved));
                } else {
                    assert(forall|j: int|
                        0 <= j < default_allowed().len() ==> default_allowed()[j] != resolved);
                }
            }
        }
    }
    let gender = if permitted {
        resolved
    } else if opts.allow_genders.len() > 0 {
        opts.allow_genders[rng.next_index(opts.allow_genders.len())]
    } else {
        Gender::Agender
    };
    proof {
        assert(resolves(species.gender, resolved) && kept_or_replaced(
            resolved,
            opts.allow_genders@,
            gender,
        ));
    }

    let level: u32 = 1 + (rng.next_index(100) as u32);

    let mon = format_label(name, gender, level, opts.whitespace);
    proof {
        assert(name@ == display_name(pokedex@[idx as int]));
        assert(wildmon_outcome(
            pokedex@,
            opts.allow_genders@,
            opts.whitespace,
            idx as int,
            gender,
            level as int,
            mon@,
        ));
    }
    mon
}

} // verus!
