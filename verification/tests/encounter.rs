use wildmon::{
    format_label, wildmon, FixedSource, Gender, RandomSource, Species, StdSource, WildmonSettings,
    MISSINGNO, RATIO_UNIT,
};

fn species(names: &[&str], gender: Gender) -> Species {
    Species { names: names.iter().map(|n| n.to_string()).collect(), gender, tags: vec![] }
}

fn one_species_catalog(name: &str, gender: Gender) -> Vec<Species> {
    vec![species(&[name], gender)]
}

#[test]
fn empty_catalog_yields_sentinel() {
    let catalog: Vec<Species> = vec![];
    let mut rng = FixedSource::new(vec![12, 34, 56]);
    let out = wildmon(&mut rng, &catalog, &WildmonSettings::default());
    assert_eq!(out, MISSINGNO);
    assert_eq!(out, "Missingno.");

    let mut settings = WildmonSettings::default();
    settings.whitespace = true;
    settings.canon = false;
    settings.allow_gender(Gender::Female);
    let mut seeded = StdSource::from_seed(7);
    assert_eq!(wildmon(&mut seeded, &catalog, &settings), "Missingno.");
}

#[test]
fn symbol_is_total() {
    assert_eq!(Gender::Agender.symbol(), "");
    assert_eq!(Gender::Male.symbol(), "\u{2642}");
    assert_eq!(Gender::Female.symbol(), "\u{2640}");
    assert_eq!(Gender::Ratio(RATIO_UNIT / 2).symbol(), "?");
}

#[test]
fn randomize_fixed_gender_is_identity_and_draws_nothing() {
    // The script holds 100 first. A fixed gender must not consume it:
    // the later ratio resolution must still see the 100, which lands
    // exactly on the Male side of Ratio(100). Had a draw been consumed,
    // the ratio would see the exhausted-script zero and resolve Female.
    let mut rng = FixedSource::new(vec![100]);
    assert_eq!(Gender::Agender.randomize(&mut rng), Gender::Agender);
    assert_eq!(Gender::Male.randomize(&mut rng), Gender::Male);
    assert_eq!(Gender::Female.randomize(&mut rng), Gender::Female);
    assert_eq!(Gender::Ratio(100).randomize(&mut rng), Gender::Male);
}

#[test]
fn randomize_ratio_consumes_one_draw() {
    let mut rng = FixedSource::new(vec![5, 100]);
    // First resolution takes the 5 (5 < 7: Female), second takes the 100.
    assert_eq!(Gender::Ratio(7).randomize(&mut rng), Gender::Female);
    assert_eq!(Gender::Ratio(7).randomize(&mut rng), Gender::Male);
}

#[test]
fn ratio_extremes_are_deterministic() {
    for draw in [0u32, 1, 99, 12345, RATIO_UNIT - 1] {
        let mut rng = FixedSource::new(vec![draw]);
        assert_eq!(Gender::Ratio(0).randomize(&mut rng), Gender::Male);
        let mut rng = FixedSource::new(vec![draw]);
        assert_eq!(Gender::Ratio(RATIO_UNIT).randomize(&mut rng), Gender::Female);
    }
}

#[test]
fn empty_allow_list_accepts_the_default_genders() {
    // With no restriction the membership test runs against the default
    // set {Male, Female, Agender}, so a fixed declared gender survives.
    for (gender, symbol) in [
        (Gender::Male, "\u{2642}"),
        (Gender::Female, "\u{2640}"),
        (Gender::Agender, ""),
    ] {
        let catalog = one_species_catalog("Abra", gender);
        let mut rng = FixedSource::new(vec![0, 41]);
        let out = wildmon(&mut rng, &catalog, &WildmonSettings::default());
        assert_eq!(out, format!("Wild_Abra{}_(lv42)", symbol));
    }
}

#[test]
fn single_allowed_gender_forces_the_output() {
    // allow_genders = [Male] and a species fixed to Female: the membership
    // test fails and the redraw can only pick Male.
    let catalog = one_species_catalog("Abra", Gender::Female);
    let mut settings = WildmonSettings::default();
    settings.allow_gender(Gender::Male);
    // Draws: species index, fallback pick, level.
    let mut rng = FixedSource::new(vec![0, 0, 41]);
    let out = wildmon(&mut rng, &catalog, &settings);
    assert_eq!(out, "Wild_Abra\u{2642}_(lv42)");
}

#[test]
fn nameless_species_falls_back_to_sentinel_name() {
    let catalog = vec![species(&[], Gender::Agender)];
    let mut rng = FixedSource::new(vec![0, 0]);
    let out = wildmon(&mut rng, &catalog, &WildmonSettings::default());
    assert_eq!(out, "Wild_Missingno._(lv1)");
}

#[test]
fn whitespace_policy_on_the_example_label() {
    let catalog = one_species_catalog("Mr. Mime", Gender::Agender);
    let mut rng = FixedSource::new(vec![0, 4]);
    let out = wildmon(&mut rng, &catalog, &WildmonSettings::default());
    assert_eq!(out, "Wild_Mr._Mime_(lv5)");

    let mut settings = WildmonSettings::default();
    settings.whitespace = true;
    let mut rng = FixedSource::new(vec![0, 4]);
    let out = wildmon(&mut rng, &catalog, &settings);
    assert_eq!(out, "Wild Mr. Mime (lv5)");
}

#[test]
fn level_stays_in_range_and_is_reproducible() {
    let catalog = one_species_catalog("Abra", Gender::Agender);
    for seed in 0..50u64 {
        let mut rng = StdSource::from_seed(seed);
        let out = wildmon(&mut rng, &catalog, &WildmonSettings::default());
        let lv_start = out.find("_(lv").expect("level marker") + 4;
        let level: u32 = out[lv_start..out.len() - 1].parse().expect("level number");
        assert!((1..=100).contains(&level), "level {} out of range", level);

        let mut again = StdSource::from_seed(seed);
        assert_eq!(out, wildmon(&mut again, &catalog, &WildmonSettings::default()));
    }
}

#[test]
fn scripted_runs_are_reproducible() {
    let catalog = vec![
        species(&["Bulbasaur"], Gender::Ratio(RATIO_UNIT / 8)),
        species(&["Charmander"], Gender::Ratio(RATIO_UNIT / 8)),
        species(&["Mew"], Gender::Agender),
    ];
    let script = vec![1, 2097151, 72];
    let mut rng = FixedSource::new(script.clone());
    let first = wildmon(&mut rng, &catalog, &WildmonSettings::default());
    let mut rng = FixedSource::new(script);
    assert_eq!(first, wildmon(&mut rng, &catalog, &WildmonSettings::default()));
    // Draws: index 1, unit draw 2097151 < RATIO_UNIT/8: Female, level 73.
    assert_eq!(first, "Wild_Charmander\u{2640}_(lv73)");
}

#[test]
fn uniform_pick_respects_catalog_bounds() {
    // Whatever rand returns, the species pick of a one-entry catalog can
    // only be that entry, and the level always lands in [1, 100].
    let catalog = one_species_catalog("Mew", Gender::Agender);
    for seed in [0u64, 1, 42, u64::MAX] {
        let mut rng = StdSource::from_seed(seed);
        let out = wildmon(&mut rng, &catalog, &WildmonSettings::default());
        assert!(out.starts_with("Wild_Mew_(lv"), "unexpected label {}", out);
        assert!(out.ends_with(')'));
    }
}

#[test]
fn formatting_is_deterministic_per_tuple() {
    let a = format_label("Pikachu", Gender::Female, 42, false);
    let b = format_label("Pikachu", Gender::Female, 42, false);
    assert_eq!(a, b);
    assert_eq!(a, "Wild_Pikachu\u{2640}_(lv42)");
    let c = format_label("Pikachu", Gender::Female, 42, true);
    assert_eq!(c, "Wild Pikachu\u{2640} (lv42)");
}

#[test]
fn settings_default_and_mutator() {
    let mut settings = WildmonSettings::default();
    assert!(settings.canon);
    assert!(!settings.whitespace);
    assert!(settings.allow_genders.is_empty());
    settings.allow_gender(Gender::Male);
    settings.allow_gender(Gender::Agender);
    assert_eq!(settings.allow_genders, vec![Gender::Male, Gender::Agender]);
}

#[test]
fn direct_draws_stay_below_their_bounds() {
    // Runs the rand-backed source itself: every draw respects its bound.
    let mut rng = StdSource::from_seed(99);
    for _ in 0..200 {
        assert!(rng.next_unit() < RATIO_UNIT);
        assert!(rng.next_index(3) < 3);
        assert_eq!(rng.next_index(1), 0);
    }
}
