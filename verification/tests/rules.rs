use life_compute::rules::{mask_lists, rules, Rule};

#[test]
fn conways_life_is_named_with_its_counts() {
    assert_eq!(Rule::conways_life().name(), "Conway's Life B3/S23");
}

#[test]
fn gems_is_named_with_its_counts() {
    assert_eq!(Rule::gems().name(), "Gems B3457/S4568");
}

#[test]
fn name_of_birth_on_three_and_survival_on_two_or_three_ends_in_b3_s23() {
    let rule = Rule {
        born: 1 << 3,
        survives: (1 << 2) | (1 << 3),
        initial_density: 40,
        name: "Anything",
    };
    assert!(rule.name().ends_with("B3/S23"));
    assert_eq!(rule.name(), "Anything B3/S23");
}

#[test]
fn name_lists_counts_in_ascending_order() {
    let rule = Rule { born: 0b1_1111_1111, survives: 0b1_0000_0001, initial_density: 1, name: "All" };
    assert_eq!(rule.name(), "All B012345678/S08");
}

#[test]
fn name_of_empty_masks_has_no_digits() {
    let rule = Rule { born: 0, survives: 0, initial_density: 0, name: "Void" };
    assert_eq!(rule.name(), "Void B/S");
}

#[test]
fn name_ignores_bits_above_the_ninth() {
    let rule = Rule { born: 0xfe00 | 0b10, survives: 0xfe00, initial_density: 0, name: "High" };
    assert_eq!(rule.name(), "High B1/S");
}

#[test]
fn name_is_the_same_on_every_call() {
    let rule = Rule::gems();
    assert_eq!(rule.name(), rule.name());
}

#[test]
fn rule_array_widens_born_then_survives() {
    assert_eq!(Rule::conways_life().rule_array(), [0b1000u32, 0b1100u32]);
    assert_eq!(Rule::gems().rule_array(), [0b0_1011_1000u32, 0b1_0111_0000u32]);
    let rule = Rule { born: 0xffff, survives: 0x8001, initial_density: 0, name: "Wide" };
    assert_eq!(rule.rule_array(), [0xffffu32, 0x8001u32]);
}

#[test]
fn catalog_holds_the_classic_rule_and_a_denser_one() {
    let catalog = rules();
    assert_eq!(catalog.len(), 2);
    assert_eq!(catalog[0].born, 0b1000);
    assert_eq!(catalog[0].survives, 0b1100);
    assert_eq!(catalog[0].initial_density, 12);
    assert_eq!(catalog[0].name, "Conway's Life");
    assert_eq!(catalog[1].born, 0b0_1011_1000);
    assert_eq!(catalog[1].survives, 0b1_0111_0000);
    assert_eq!(catalog[1].initial_density, 15);
    assert_eq!(catalog[1].name, "Gems");
}

#[test]
fn new_accepts_nine_bit_masks_and_percentages() {
    let rule = Rule::new("Seeds", 0b100, 0, 100).expect("a valid rule");
    assert_eq!(rule.born, 0b100);
    assert_eq!(rule.survives, 0);
    assert_eq!(rule.initial_density, 100);
    assert_eq!(rule.name, "Seeds");
    assert_eq!(rule.name(), "Seeds B2/S");
    assert!(Rule::new("Full", 511, 511, 0).is_some());
}

#[test]
fn new_rejects_a_tenth_bit_or_a_density_above_one_hundred() {
    assert!(Rule::new("Born", 512, 0, 10).is_none());
    assert!(Rule::new("Survives", 0, 512, 10).is_none());
    assert!(Rule::new("Dense", 0b1000, 0b1100, 101).is_none());
}

#[test]
fn mask_lists_tells_the_set_bits() {
    for count in 0..9u32 {
        assert_eq!(mask_lists(0b1000, count), count == 3);
        assert_eq!(mask_lists(0b1100, count), count == 2 || count == 3);
        assert!(!mask_lists(0, count));
        assert!(mask_lists(0x1ff, count));
    }
}
