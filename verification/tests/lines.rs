use poe2_weapon::classify;
use poe2_weapon::decoder;
use poe2_weapon::decoder::{decode_flat_damage, decode_phys_modifier};
use poe2_weapon::rune::Rune;
use poe2_weapon::weapon::{
    AttackSpeedModifier, DamageType, FlatDamage, PhysModifier, Quality, Range,
};

#[test]
fn try_parse_flat_damage() {
    assert_eq!(
        Some(FlatDamage {
            damage_type: DamageType::Fire,
            range: Range(7, 16),
        }),
        classify::try_parse_flat_damage("Adds 7 to 16 Fire Damage")
    )
}

#[test]
fn try_parse_phys_modifier() {
    assert_eq!(
        Some(PhysModifier(107)),
        classify::try_parse_phys_modifier("107% increased Physical Damage")
    );
}

#[test]
fn try_parse_quality() {
    assert_eq!(
        Some(Quality(20)),
        classify::try_parse_quality("Quality: +20% (augmented)")
    )
}

#[test]
fn try_parse_attack_speed_modifier() {
    assert_eq!(
        Some(AttackSpeedModifier(9)),
        classify::try_parse_attack_speed_modifier("9% increased Attack Speed")
    );
}

#[test]
fn try_parse_rune() {
    assert_eq!(
        Some(vec![Rune::Iron, Rune::Iron]),
        decoder::try_parse_rune("32% increased Physical Damage (rune)")
    )
}

#[test]
fn flat_damage_of_every_type() {
    let cases = [
        ("Fire", DamageType::Fire),
        ("Cold", DamageType::Cold),
        ("Lightning", DamageType::Lightning),
        ("Chaos", DamageType::Chaos),
        ("Physical", DamageType::Physical),
    ];
    for (name, damage_type) in cases {
        assert_eq!(
            Some(FlatDamage {
                damage_type,
                range: Range(3, 168),
            }),
            classify::try_parse_flat_damage(&format!("Adds 3 to 168 {name} Damage"))
        );
    }
}

#[test]
fn flat_damage_needs_its_six_words() {
    assert_eq!(None, classify::try_parse_flat_damage("Adds 7 to 16 Fire Damage (augmented)"));
    assert_eq!(None, classify::try_parse_flat_damage("Adds 7 to 16 Fire"));
    assert_eq!(None, classify::try_parse_flat_damage("Adds 7 to 16 Holy Damage"));
    assert_eq!(None, classify::try_parse_flat_damage("Adds  7 to 16 Fire Damage"));
    assert_eq!(None, classify::try_parse_flat_damage("adds 7 to 16 Fire Damage"));
    assert_eq!(None, classify::try_parse_flat_damage("Adds 7 - 16 Fire Damage"));
    assert_eq!(None, classify::try_parse_flat_damage("Adds seven to 16 Fire Damage"));
    assert_eq!(None, classify::try_parse_flat_damage("Adds 7 to 16 Fire Damage "));
    assert_eq!(None, classify::try_parse_flat_damage(""));
}

#[test]
fn numbers_are_read_as_unsigned_integers() {
    assert_eq!(
        Some(FlatDamage {
            damage_type: DamageType::Cold,
            range: Range(65535, 0),
        }),
        classify::try_parse_flat_damage("Adds 65535 to 0 Cold Damage")
    );
    assert_eq!(None, classify::try_parse_flat_damage("Adds 65536 to 0 Cold Damage"));
    assert_eq!(
        Some(FlatDamage {
            damage_type: DamageType::Cold,
            range: Range(7, 16),
        }),
        classify::try_parse_flat_damage("Adds +7 to 0016 Cold Damage")
    );
    assert_eq!(None, classify::try_parse_flat_damage("Adds -7 to 16 Cold Damage"));
    assert_eq!(None, classify::try_parse_flat_damage("Adds + to 16 Cold Damage"));
    assert_eq!(None, classify::try_parse_flat_damage("Adds 7 to 1_6 Cold Damage"));
    assert_eq!(
        None,
        classify::try_parse_flat_damage("Adds 99999999999999999999999999999999 to 1 Cold Damage")
    );
}

#[test]
fn phys_modifier_edges() {
    assert_eq!(Some(PhysModifier(0)), classify::try_parse_phys_modifier("0% increased Physical Damage"));
    assert_eq!(
        Some(PhysModifier(65535)),
        classify::try_parse_phys_modifier("65535% increased Physical Damage")
    );
    assert_eq!(None, classify::try_parse_phys_modifier("65536% increased Physical Damage"));
    assert_eq!(
        Some(PhysModifier(107)),
        classify::try_parse_phys_modifier("+107% increased Physical Damage")
    );
    assert_eq!(None, classify::try_parse_phys_modifier("107 increased Physical Damage"));
    assert_eq!(None, classify::try_parse_phys_modifier("% increased Physical Damage"));
    assert_eq!(None, classify::try_parse_phys_modifier("1%0% increased Physical Damage"));
    assert_eq!(None, classify::try_parse_phys_modifier("107% increased Physical Damage (augmented)"));
    assert_eq!(None, classify::try_parse_phys_modifier("107% increased Physical Damage (rune)"));
    assert_eq!(None, classify::try_parse_phys_modifier("107% increased Attack Speed"));
    assert_eq!(None, classify::try_parse_phys_modifier("107% reduced Physical Damage"));
}

#[test]
fn attack_speed_edges() {
    assert_eq!(
        Some(AttackSpeedModifier(255)),
        classify::try_parse_attack_speed_modifier("255% increased Attack Speed")
    );
    assert_eq!(None, classify::try_parse_attack_speed_modifier("256% increased Attack Speed"));
    assert_eq!(None, classify::try_parse_attack_speed_modifier("9% increased Attack Speed (augmented)"));
    assert_eq!(None, classify::try_parse_attack_speed_modifier("9% increased Physical Damage"));
    assert_eq!(None, classify::try_parse_attack_speed_modifier("9 increased Attack Speed"));
}

#[test]
fn quality_edges() {
    assert_eq!(Some(Quality(20)), classify::try_parse_quality("Quality: +20%"));
    assert_eq!(Some(Quality(0)), classify::try_parse_quality("Quality: +0%"));
    assert_eq!(Some(Quality(255)), classify::try_parse_quality("Quality: +255% anything at all"));
    assert_eq!(None, classify::try_parse_quality("Quality: +256%"));
    assert_eq!(None, classify::try_parse_quality("Quality: 20%"));
    assert_eq!(None, classify::try_parse_quality("Quality: +20"));
    assert_eq!(None, classify::try_parse_quality("Quality: +%"));
    assert_eq!(None, classify::try_parse_quality("Quality: ++20%"));
    assert_eq!(None, classify::try_parse_quality("Quality:  +20%"));
    assert_eq!(None, classify::try_parse_quality("quality: +20%"));
    assert_eq!(None, classify::try_parse_quality("Item Level: 53"));
}

#[test]
fn iron_runes_by_exact_division() {
    assert_eq!(
        Some(vec![Rune::GreaterIron]),
        decoder::try_parse_rune("18% increased Physical Damage (rune)")
    );
    assert_eq!(
        Some(vec![Rune::GreaterIron, Rune::GreaterIron]),
        decoder::try_parse_rune("36% increased Physical Damage (rune)")
    );
    assert_eq!(Some(vec![Rune::Iron]), decoder::try_parse_rune("16% increased Physical Damage (rune)"));
    assert_eq!(
        Some(vec![Rune::LesserIron]),
        decoder::try_parse_rune("14% increased Physical Damage (rune)")
    );
    assert_eq!(
        Some(vec![Rune::LesserIron, Rune::LesserIron]),
        decoder::try_parse_rune("28% increased Physical Damage (rune)")
    );
    // 144 is 8 times 18 and 9 times 16: the greater rune is taken.
    assert_eq!(
        Some(vec![Rune::GreaterIron; 8]),
        decoder::try_parse_rune("144% increased Physical Damage (rune)")
    );
    assert_eq!(Some(vec![Rune::GreaterIron; 8]), decode_phys_modifier(PhysModifier(144)));
}

#[test]
fn a_percentage_that_no_iron_rune_divides_gives_no_runes() {
    assert_eq!(None, decoder::try_parse_rune("40% increased Physical Damage (rune)"));
    assert_eq!(None, decoder::try_parse_rune("20% increased Physical Damage (rune)"));
    assert_eq!(None, decoder::try_parse_rune("0% increased Physical Damage (rune)"));
    assert_eq!(None, decoder::try_parse_rune("17% increased Physical Damage (rune)"));
    assert_eq!(None, decode_phys_modifier(PhysModifier(40)));
    assert_eq!(None, decode_phys_modifier(PhysModifier(0)));
}

#[test]
fn a_line_without_the_mark_has_no_runes() {
    assert_eq!(None, decoder::try_parse_rune("32% increased Physical Damage"));
    assert_eq!(None, decoder::try_parse_rune("32% increased Physical Damage (rune) x"));
    assert_eq!(None, decoder::try_parse_rune("+58 to Accuracy Rating (rune)"));
    assert_eq!(None, decoder::try_parse_rune("(rune)"));
    assert_eq!(None, decoder::try_parse_rune(""));
}

#[test]
fn the_line_of_runes_is_trimmed() {
    assert_eq!(
        Some(vec![Rune::Iron, Rune::Iron]),
        decoder::try_parse_rune("  32% increased Physical Damage   (rune) \r")
    );
    assert_eq!(
        Some(vec![Rune::Iron, Rune::Iron]),
        decoder::try_parse_rune("32% increased Physical Damage(rune)")
    );
}

#[test]
fn one_rune_by_its_exact_damage() {
    let cases = [
        ("Adds 13 to 16 Fire Damage (rune)", Rune::GreaterDesert),
        ("Adds 7 to 11 Fire Damage (rune)", Rune::Desert),
        ("Adds 4 to 6 Fire Damage (rune)", Rune::LesserDesert),
        ("Adds 9 to 15 Cold Damage (rune)", Rune::GreaterGlacial),
        ("Adds 6 to 10 Cold Damage (rune)", Rune::Glacial),
        ("Adds 3 to 5 Cold Damage (rune)", Rune::LesserGlacial),
        ("Adds 1 to 30 Lightning Damage (rune)", Rune::GreaterStorm),
        ("Adds 1 to 20 Lightning Damage (rune)", Rune::Storm),
        ("Adds 1 to 10 Lightning Damage (rune)", Rune::LesserStorm),
    ];
    for (line, rune) in cases {
        assert_eq!(Some(vec![rune]), decoder::try_parse_rune(line));
    }
}

#[test]
fn several_runes_by_a_multiple_of_their_damage() {
    assert_eq!(
        Some(vec![Rune::Desert, Rune::Desert]),
        decoder::try_parse_rune("Adds 14 to 22 Fire Damage (rune)")
    );
    assert_eq!(
        Some(vec![Rune::GreaterDesert, Rune::GreaterDesert]),
        decoder::try_parse_rune("Adds 26 to 32 Fire Damage (rune)")
    );
    // 18 to 30 is twice the greater glacial rune and three times the glacial one.
    assert_eq!(
        Some(vec![Rune::GreaterGlacial, Rune::GreaterGlacial]),
        decoder::try_parse_rune("Adds 18 to 30 Cold Damage (rune)")
    );
    // 6 to 10 is the glacial rune itself, though also twice the lesser one.
    assert_eq!(
        Some(vec![Rune::Glacial]),
        decode_flat_damage(FlatDamage {
            damage_type: DamageType::Cold,
            range: Range(6, 10),
        })
    );
    assert_eq!(
        Some(vec![Rune::LesserStorm, Rune::LesserStorm]),
        decoder::try_parse_rune("Adds 2 to 20 Lightning Damage (rune)")
    );
}

#[test]
fn damage_that_no_rune_adds_gives_no_runes() {
    assert_eq!(None, decoder::try_parse_rune("Adds 7 to 12 Fire Damage (rune)"));
    assert_eq!(None, decoder::try_parse_rune("Adds 14 to 11 Fire Damage (rune)"));
    assert_eq!(None, decoder::try_parse_rune("Adds 0 to 0 Fire Damage (rune)"));
    assert_eq!(None, decoder::try_parse_rune("Adds 7 to 11 Chaos Damage (rune)"));
    assert_eq!(None, decoder::try_parse_rune("Adds 7 to 11 Physical Damage (rune)"));
    assert_eq!(
        None,
        decode_flat_damage(FlatDamage {
            damage_type: DamageType::Cold,
            range: Range(7, 11),
        })
    );
}
