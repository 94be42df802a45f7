use poe2_weapon::dps::{
    first_flat, flat_elemental_weight, flat_weight, flats_of_runes, percent_of_runes, Dps,
    DPS_SCALE,
};
use poe2_weapon::ranking::DpsWithRunes;
use poe2_weapon::rune::{Rune, RuneMartialBonus};
use poe2_weapon::weapon::{
    find_base, AttackSpeedModifier, DamageType, Explicits, FlatDamage, Handed, ItemClass,
    PhysModifier, Quality, Range, Weapon, WeaponError, WeaponStats,
};

fn flat(damage_type: DamageType, min: u16, max: u16) -> FlatDamage {
    FlatDamage {
        damage_type,
        range: Range(min, max),
    }
}

fn base(name: &str, item_class: &str, damages: Vec<FlatDamage>, aps: u16) -> WeaponStats {
    WeaponStats {
        base: name.to_owned(),
        item_class: item_class.to_owned(),
        img: format!("{name}.png"),
        damages,
        aps,
    }
}

fn table() -> Vec<WeaponStats> {
    vec![
        base(
            "Warpick",
            "One Hand Maces",
            vec![flat(DamageType::Physical, 18, 24)],
            145,
        ),
        base(
            "Expert Shortbow",
            "Bows",
            vec![flat(DamageType::Physical, 41, 76)],
            125,
        ),
        base(
            "Expert Crackling Quarterstaff",
            "Quarterstaves",
            vec![flat(DamageType::Lightning, 43, 172)],
            140,
        ),
        base(
            "Cultist Bow",
            "Bows",
            vec![flat(DamageType::Chaos, 38, 57)],
            120,
        ),
        base(
            "Leaden Greathammer",
            "Two Hand Maces",
            vec![flat(DamageType::Physical, 45, 61)],
            110,
        ),
    ]
}

fn weapon(base: &str, item_class: ItemClass, quality: u8) -> Weapon {
    Weapon {
        base: base.to_owned(),
        item_class,
        quality: Quality(quality),
        explicits: Explicits::default(),
        runes: vec![],
    }
}

/// The attack rate in single precision, from the hundredths of the table.
fn aps_f32(weapon: &Weapon, table: &Vec<WeaponStats>) -> f32 {
    weapon.base_aps(table).unwrap() as f32 / 100.0
}

/// The physical damage per second in single precision, factor by factor.
fn phys_f32(weapon: &Weapon, table: &Vec<WeaponStats>) -> f32 {
    let flat = flat_weight(weapon.base_damage(table).unwrap(), DamageType::Physical)
        + flat_weight(&weapon.explicits.flats, DamageType::Physical);
    let increase =
        weapon.explicits.phys.unwrap_or_default().0 as u128 + percent_of_runes(&weapon.runes);
    (1.0 + weapon.quality.0 as f32 / 100.0)
        * flat as f32
        * (aps_f32(weapon, table)
            * (1.0 + weapon.explicits.atk_spd.unwrap_or_default().0 as f32 / 100.))
        * (1.0 + increase as f32 / 100.)
        * 0.5
}

/// The elemental damage per second in single precision, factor by factor.
fn elemental_f32(weapon: &Weapon, table: &Vec<WeaponStats>) -> f32 {
    let flat = flat_elemental_weight(weapon.base_damage(table).unwrap())
        + flat_elemental_weight(&weapon.explicits.flats)
        + flat_elemental_weight(&flats_of_runes(&weapon.runes));
    flat as f32
        * (aps_f32(weapon, table)
            * (1.0 + weapon.explicits.atk_spd.unwrap_or_default().0 as f32 / 100.))
        * 0.5
}

/// The chaos damage per second in single precision, factor by factor.
fn chaos_f32(weapon: &Weapon, table: &Vec<WeaponStats>) -> f32 {
    let flat = flat_weight(weapon.base_damage(table).unwrap(), DamageType::Chaos)
        + flat_weight(&weapon.explicits.flats, DamageType::Chaos);
    flat as f32
        * (aps_f32(weapon, table)
            * (1.0 + weapon.explicits.atk_spd.unwrap_or_default().0 as f32 / 100.))
        * 0.5
}

fn total_f32(weapon: &Weapon, table: &Vec<WeaponStats>) -> f32 {
    phys_f32(weapon, table) + elemental_f32(weapon, table) + chaos_f32(weapon, table)
}

/// A damage per second in units, as points.
fn points(units: u128) -> f64 {
    units as f64 / DPS_SCALE as f64
}

#[test]
fn phys_dps() {
    let table = table();
    let white_weapon = Weapon {
        base: "Expert Shortbow".to_owned(),
        item_class: ItemClass::Bows,
        quality: Quality(20),
        explicits: Explicits::default(),
        runes: vec![],
    };

    assert!((87.75 - phys_f32(&white_weapon, &table)).abs() < 0.00001);
    assert!((87.75 - points(white_weapon.phys_dps(&table).unwrap())).abs() < 0.00001);
    assert_eq!(8775 * DPS_SCALE / 100, white_weapon.phys_dps(&table).unwrap());
}

#[test]
fn dps() {
    let table = table();
    let weapon = Weapon {
        base: "Expert Crackling Quarterstaff".to_owned(),
        item_class: ItemClass::Quarterstaves,
        quality: Quality(20),
        explicits: Explicits {
            flats: vec![
                FlatDamage {
                    damage_type: DamageType::Physical,
                    range: Range(15, 28),
                },
                FlatDamage {
                    damage_type: DamageType::Lightning,
                    range: Range(3, 168),
                },
            ],
            phys: Some(PhysModifier(22)),
            atk_spd: None,
        },
        runes: vec![],
    };

    assert_eq!(44.066406, phys_f32(&weapon, &table));
    assert_eq!(270.19998, elemental_f32(&weapon, &table));
    assert_eq!(314.2664, total_f32(&weapon, &table));

    // The same figures without rounding: 44.0664, 270.2 and 314.2664.
    assert_eq!(440_664 * DPS_SCALE / 10_000, weapon.phys_dps(&table).unwrap());
    assert_eq!(2702 * DPS_SCALE / 10, weapon.elemental_dps(&table).unwrap());
    assert_eq!(0, weapon.chaos_dps(&table).unwrap());
    assert_eq!(3_142_664 * DPS_SCALE / 10_000, weapon.total(&table).unwrap());
}

#[test]
fn one_handed_generate_one_rune_pairs() {
    let weapon = Weapon {
        base: "Warpick".to_owned(),
        item_class: ItemClass::OneHandMaces,
        quality: Quality(0),
        explicits: Explicits::default(),
        runes: vec![],
    };

    assert_eq!(1, weapon.with_different_runes(&table()).unwrap()[0].runes.len());
}

fn one_fr_f32(val: f32) -> f32 {
    (val * 10.0).round() / 10.0
}

#[test]
fn total_dps_with_chaos() {
    let table = table();
    let cultist_bow = Weapon {
        base: "Cultist Bow".to_owned(),
        item_class: ItemClass::Bows,
        quality: Quality(20),
        explicits: Explicits {
            flats: vec![
                FlatDamage {
                    damage_type: DamageType::Fire,
                    range: Range(5, 10),
                },
                FlatDamage {
                    damage_type: DamageType::Lightning,
                    range: Range(3, 49),
                },
            ],
            ..Default::default()
        },
        runes: vec![],
    };

    assert_eq!(97.2, one_fr_f32(total_f32(&cultist_bow, &table)));
    assert_eq!(97.2, one_fr_f32(points(cultist_bow.dps(&table).unwrap().total) as f32));
    assert_eq!(97.2, one_fr_f32(points(cultist_bow.total(&table).unwrap()) as f32));
    assert_eq!(57.0, one_fr_f32(chaos_f32(&cultist_bow, &table)));
    assert_eq!(57.0, one_fr_f32(points(cultist_bow.chaos_dps(&table).unwrap()) as f32));
    assert_eq!(40.2, one_fr_f32(elemental_f32(&cultist_bow, &table)));
    assert_eq!(40.2, one_fr_f32(points(cultist_bow.elemental_dps(&table).unwrap()) as f32));

    assert_eq!(
        Dps {
            total: 972 * DPS_SCALE / 10,
            edps: 402 * DPS_SCALE / 10,
            pdps: 0,
            cdps: 57 * DPS_SCALE,
        },
        cultist_bow.dps(&table).unwrap()
    );
}

#[test]
fn every_factor_of_the_physical_damage_counts() {
    let table = table();
    let mut hammer = weapon("Leaden Greathammer", ItemClass::TwoHandMaces, 0);
    // (45 + 61) / 2 * 1.10
    assert_eq!(583 * DPS_SCALE / 10, hammer.phys_dps(&table).unwrap());
    hammer.quality = Quality(20);
    assert_eq!(6996 * DPS_SCALE / 100, hammer.phys_dps(&table).unwrap());
    hammer.explicits.flats = vec![flat(DamageType::Physical, 4, 10)];
    // 1.2 * (106 + 14) / 2 * 1.10
    assert_eq!(792 * DPS_SCALE / 10, hammer.phys_dps(&table).unwrap());
    hammer.explicits.atk_spd = Some(AttackSpeedModifier(10));
    // 1.2 * 60 * 1.21
    assert_eq!(8712 * DPS_SCALE / 100, hammer.phys_dps(&table).unwrap());
    hammer.explicits.phys = Some(PhysModifier(100));
    assert_eq!(17_424 * DPS_SCALE / 100, hammer.phys_dps(&table).unwrap());
    hammer.runes = vec![Rune::GreaterIron, Rune::LesserIron, Rune::Storm];
    // 1.2 * 60 * 1.21 * (1 + (100 + 18 + 14) / 100)
    assert_eq!(2_021_184 * DPS_SCALE / 10_000, hammer.phys_dps(&table).unwrap());
    assert_eq!(hammer.phys_dps(&table).unwrap(), hammer.dps(&table).unwrap().pdps);
}

#[test]
fn elemental_damage_of_base_explicits_and_runes() {
    let table = table();
    let mut staff = weapon("Expert Crackling Quarterstaff", ItemClass::Quarterstaves, 20);
    // (43 + 172) / 2 * 1.40; quality does not count.
    assert_eq!(1505 * DPS_SCALE / 10, staff.elemental_dps(&table).unwrap());
    staff.explicits.flats = vec![flat(DamageType::Fire, 5, 10), flat(DamageType::Cold, 1, 4)];
    // (215 + 15 + 5) / 2 * 1.40
    assert_eq!(1645 * DPS_SCALE / 10, staff.elemental_dps(&table).unwrap());
    staff.runes = vec![Rune::Desert, Rune::Iron];
    // (215 + 20 + 18) / 2 * 1.40
    assert_eq!(1771 * DPS_SCALE / 10, staff.elemental_dps(&table).unwrap());
    staff.explicits.atk_spd = Some(AttackSpeedModifier(50));
    assert_eq!(26_565 * DPS_SCALE / 100, staff.elemental_dps(&table).unwrap());
    staff.explicits.phys = Some(PhysModifier(500));
    assert_eq!(26_565 * DPS_SCALE / 100, staff.elemental_dps(&table).unwrap());
    assert_eq!(0, staff.phys_dps(&table).unwrap());
    assert_eq!(staff.elemental_dps(&table).unwrap(), staff.total(&table).unwrap());
}

#[test]
fn only_the_first_entry_of_a_type_counts_in_each_pool() {
    let table = vec![base(
        "Twin",
        "Bows",
        vec![
            flat(DamageType::Physical, 10, 20),
            flat(DamageType::Physical, 100, 200),
            flat(DamageType::Fire, 1, 1),
            flat(DamageType::Fire, 50, 50),
            flat(DamageType::Chaos, 2, 2),
            flat(DamageType::Chaos, 70, 70),
        ],
        100,
    )];
    let mut bow = weapon("Twin", ItemClass::Bows, 0);
    assert_eq!(15 * DPS_SCALE, bow.phys_dps(&table).unwrap());
    assert_eq!(DPS_SCALE, bow.elemental_dps(&table).unwrap());
    assert_eq!(2 * DPS_SCALE, bow.chaos_dps(&table).unwrap());
    bow.explicits.flats = vec![
        flat(DamageType::Cold, 3, 3),
        flat(DamageType::Physical, 4, 6),
        flat(DamageType::Cold, 30, 30),
        flat(DamageType::Physical, 40, 60),
        flat(DamageType::Chaos, 8, 8),
        flat(DamageType::Chaos, 80, 80),
    ];
    assert_eq!(20 * DPS_SCALE, bow.phys_dps(&table).unwrap());
    assert_eq!(4 * DPS_SCALE, bow.elemental_dps(&table).unwrap());
    assert_eq!(10 * DPS_SCALE, bow.chaos_dps(&table).unwrap());
    // Of two runes of one kind the first adds its damage; iron runes all count.
    bow.runes = vec![Rune::LesserDesert, Rune::GreaterDesert, Rune::Iron, Rune::Iron];
    assert_eq!(9 * DPS_SCALE, bow.elemental_dps(&table).unwrap());
    assert_eq!(264 * DPS_SCALE / 10, bow.phys_dps(&table).unwrap());
    assert_eq!(
        Some(flat(DamageType::Cold, 3, 3)),
        first_flat(&bow.explicits.flats, DamageType::Cold)
    );
    assert_eq!(None, first_flat(&bow.explicits.flats, DamageType::Fire));
}

#[test]
fn the_total_is_the_sum_of_the_parts() {
    let table = table();
    let mut bow = weapon("Cultist Bow", ItemClass::Bows, 13);
    bow.explicits = Explicits {
        flats: vec![
            flat(DamageType::Physical, 9, 17),
            flat(DamageType::Cold, 2, 5),
            flat(DamageType::Chaos, 1, 1),
        ],
        phys: Some(PhysModifier(42)),
        atk_spd: Some(AttackSpeedModifier(7)),
    };
    bow.runes = vec![Rune::Storm, Rune::LesserIron];
    let dps = bow.dps(&table).unwrap();
    assert_eq!(dps.total, dps.pdps + dps.edps + dps.cdps);
    assert_eq!(dps.pdps, bow.phys_dps(&table).unwrap());
    assert_eq!(dps.edps, bow.elemental_dps(&table).unwrap());
    assert_eq!(dps.cdps, bow.chaos_dps(&table).unwrap());
    assert_eq!(dps.total, bow.total(&table).unwrap());
    // 113 * 26 * (120 * 107) * (100 + 42 + 14)
    assert_eq!(113 * 26 * 12_840 * 156, dps.pdps);
    // (7 + 21) * (120 * 107) * 10000
    assert_eq!(28 * 12_840 * 10_000, dps.edps);
    // (95 + 2) * (120 * 107) * 10000
    assert_eq!(97 * 12_840 * 10_000, dps.cdps);
}

#[test]
fn a_base_that_the_table_lacks_is_an_error() {
    let table = table();
    let unknown = weapon("Dualstring Bow", ItemClass::Bows, 20);
    let error = WeaponError::BaseStatsNotFound("Dualstring Bow".to_owned());
    assert_eq!(Err(error.clone()), unknown.base_stats(&table));
    assert_eq!(Err(error.clone()), unknown.base_aps(&table));
    assert_eq!(Err(error.clone()), unknown.base_damage(&table));
    assert_eq!(Err(error.clone()), unknown.phys_dps(&table));
    assert_eq!(Err(error.clone()), unknown.elemental_dps(&table));
    assert_eq!(Err(error.clone()), unknown.chaos_dps(&table));
    assert_eq!(Err(error.clone()), unknown.total(&table));
    assert_eq!(Err(error.clone()), unknown.dps(&table));
    assert_eq!(Err(error), unknown.with_different_runes(&table));
    assert_eq!(None, find_base(&table, &"Dualstring Bow".to_owned()));
    assert_eq!(
        Err(WeaponError::BaseStatsNotFound("Warpick".to_owned())),
        weapon("Warpick", ItemClass::OneHandMaces, 0).dps(&vec![])
    );
}

#[test]
fn the_first_entry_of_a_name_is_the_base() {
    let mut table = table();
    table.push(base("Warpick", "Spears", vec![], 999));
    let pick = weapon("Warpick", ItemClass::OneHandMaces, 0);
    assert_eq!(Ok(&table[0]), pick.base_stats(&table));
    assert_eq!(Ok(145), pick.base_aps(&table));
    assert_eq!(Ok(&table[0].damages), pick.base_damage(&table));
}

#[test]
fn hands_by_class() {
    let cases = [
        (ItemClass::OneHandMaces, Handed::OneHanded),
        (ItemClass::TwoHandMaces, Handed::TwoHanded),
        (ItemClass::Quarterstaves, Handed::TwoHanded),
        (ItemClass::Bows, Handed::TwoHanded),
        (ItemClass::Crossbows, Handed::TwoHanded),
        (ItemClass::Spears, Handed::OneHanded),
    ];
    for (item_class, hands) in cases {
        assert_eq!(hands, weapon("Warpick", item_class, 0).handed());
    }
}

#[test]
fn range_and_damage_types() {
    assert_eq!(117, Range(41, 76).sum());
    assert_eq!(131_070, Range(65535, 65535).sum());
    assert_eq!(0, Range::default().sum());
    assert!(DamageType::Fire.is_elemental());
    assert!(DamageType::Cold.is_elemental());
    assert!(DamageType::Lightning.is_elemental());
    assert!(!DamageType::Physical.is_elemental());
    assert!(!DamageType::Chaos.is_elemental());
    assert!(DamageType::Chaos.is_chaos());
    assert!(!DamageType::Fire.is_chaos());
    assert!(flat(DamageType::Cold, 1, 2).is_elemental());
    assert!(!flat(DamageType::Cold, 1, 2).is_chaos());
    assert!(flat(DamageType::Chaos, 1, 2).is_chaos());
    assert!(!flat(DamageType::Physical, 1, 2).is_elemental());
}

#[test]
fn the_twelve_runes_and_what_they_add() {
    let runes = Rune::runes();
    assert_eq!(
        [
            Rune::LesserIron,
            Rune::Iron,
            Rune::GreaterIron,
            Rune::LesserDesert,
            Rune::Desert,
            Rune::GreaterDesert,
            Rune::LesserGlacial,
            Rune::Glacial,
            Rune::GreaterGlacial,
            Rune::LesserStorm,
            Rune::Storm,
            Rune::GreaterStorm,
        ],
        runes
    );
    let bonuses = [
        RuneMartialBonus::Phys(PhysModifier(14)),
        RuneMartialBonus::Phys(PhysModifier(16)),
        RuneMartialBonus::Phys(PhysModifier(18)),
        RuneMartialBonus::Flat(flat(DamageType::Fire, 4, 6)),
        RuneMartialBonus::Flat(flat(DamageType::Fire, 7, 11)),
        RuneMartialBonus::Flat(flat(DamageType::Fire, 13, 16)),
        RuneMartialBonus::Flat(flat(DamageType::Cold, 3, 5)),
        RuneMartialBonus::Flat(flat(DamageType::Cold, 6, 10)),
        RuneMartialBonus::Flat(flat(DamageType::Cold, 9, 15)),
        RuneMartialBonus::Flat(flat(DamageType::Lightning, 1, 10)),
        RuneMartialBonus::Flat(flat(DamageType::Lightning, 1, 20)),
        RuneMartialBonus::Flat(flat(DamageType::Lightning, 1, 30)),
    ];
    for (rune, bonus) in runes.iter().zip(bonuses) {
        assert_eq!(bonus, rune.martial());
        match bonus {
            RuneMartialBonus::Phys(_) => {
                assert!(rune.is_iron());
                assert_eq!(None, rune.flat_martial());
            }
            RuneMartialBonus::Flat(added) => {
                assert!(!rune.is_iron());
                assert_eq!(Some(added), rune.flat_martial());
            }
        }
    }
    assert_eq!(PhysModifier(14), Rune::lesser_iron_rune_martial());
    assert_eq!(PhysModifier(16), Rune::iron_rune_martial());
    assert_eq!(PhysModifier(18), Rune::greater_iron_rune_martial());
    assert_eq!(flat(DamageType::Fire, 4, 6), Rune::lesser_desert_rune_martial());
    assert_eq!(flat(DamageType::Fire, 7, 11), Rune::desert_rune_martial());
    assert_eq!(flat(DamageType::Fire, 13, 16), Rune::greater_desert_rune_martial());
    assert_eq!(flat(DamageType::Cold, 3, 5), Rune::lesser_glacial_rune_martial());
    assert_eq!(flat(DamageType::Cold, 6, 10), Rune::glacial_rune_martial());
    assert_eq!(flat(DamageType::Cold, 9, 15), Rune::greater_glacial_rune_martial());
    assert_eq!(flat(DamageType::Lightning, 1, 10), Rune::lesser_storm_rune_martial());
    assert_eq!(flat(DamageType::Lightning, 1, 20), Rune::storm_rune_martial());
    assert_eq!(flat(DamageType::Lightning, 1, 30), Rune::greater_storm_rune_martial());
}

#[test]
fn what_runes_add_together() {
    let runes = vec![Rune::Iron, Rune::Storm, Rune::GreaterIron, Rune::LesserDesert];
    assert_eq!(34, percent_of_runes(&runes));
    assert_eq!(
        vec![flat(DamageType::Lightning, 1, 20), flat(DamageType::Fire, 4, 6)],
        flats_of_runes(&runes)
    );
    assert_eq!(0, percent_of_runes(&vec![]));
    assert!(flats_of_runes(&vec![]).is_empty());
}

fn totals(rows: &Vec<DpsWithRunes>) -> Vec<u128> {
    rows.iter().map(|row| row.dps.total).collect()
}

#[test]
fn one_handed_weapon_has_twelve_rows() {
    let table = table();
    let pick = weapon("Warpick", ItemClass::OneHandMaces, 20);
    let rows = pick.with_different_runes(&table).unwrap();
    assert_eq!(12, rows.len());
    for row in &rows {
        assert_eq!(1, row.runes.len());
        let mut with = pick.clone();
        with.runes = row.runes.clone();
        assert_eq!(with.dps(&table).unwrap(), row.dps);
    }
    for pair in totals(&rows).windows(2) {
        assert!(pair[0] >= pair[1]);
    }
    for rune in Rune::runes() {
        assert_eq!(1, rows.iter().filter(|row| row.runes == vec![rune]).count());
    }
    // Storm runes add the most to a weapon of little physical damage.
    assert_eq!(vec![Rune::GreaterStorm], rows[0].runes);
    assert_eq!(vec![Rune::LesserIron], rows[11].runes);
}

#[test]
fn two_handed_weapon_has_seventy_eight_rows() {
    let table = table();
    let mut hammer = weapon("Leaden Greathammer", ItemClass::TwoHandMaces, 20);
    hammer.explicits.phys = Some(PhysModifier(107));
    let rows = hammer.with_different_runes(&table).unwrap();
    assert_eq!(78, rows.len());
    let all = Rune::runes();
    let place = |rune: &Rune| all.iter().position(|r| r == rune).unwrap();
    for row in &rows {
        assert_eq!(2, row.runes.len());
        assert!(place(&row.runes[0]) <= place(&row.runes[1]));
        let mut with = hammer.clone();
        with.runes = row.runes.clone();
        assert_eq!(with.dps(&table).unwrap(), row.dps);
    }
    for pair in totals(&rows).windows(2) {
        assert!(pair[0] >= pair[1]);
    }
    for (i, first) in all.iter().enumerate() {
        for second in &all[i..] {
            let either_order = rows
                .iter()
                .filter(|row| {
                    row.runes == vec![*first, *second] || row.runes == vec![*second, *first]
                })
                .count();
            assert_eq!(1, either_order);
        }
    }
}

#[test]
fn rows_with_the_same_damage_keep_the_order_of_the_choices() {
    // A base without damage: every choice of iron runes comes to nothing.
    let table = vec![base("Stick", "Spears", vec![], 100)];
    let stick = weapon("Stick", ItemClass::Spears, 0);
    let rows = stick.with_different_runes(&table).unwrap();
    let runes: Vec<Rune> = rows.iter().map(|row| row.runes[0]).collect();
    assert_eq!(
        vec![
            Rune::GreaterStorm,
            Rune::GreaterDesert,
            Rune::GreaterGlacial,
            Rune::Storm,
            Rune::Desert,
            Rune::Glacial,
            Rune::LesserStorm,
            Rune::LesserDesert,
            Rune::LesserGlacial,
            Rune::LesserIron,
            Rune::Iron,
            Rune::GreaterIron,
        ],
        runes
    );
    assert_eq!(155 * DPS_SCALE / 10, rows[0].dps.total);
    assert_eq!(145 * DPS_SCALE / 10, rows[1].dps.total);
    assert_eq!(0, rows[11].dps.total);

    let table = vec![base("Pole", "Quarterstaves", vec![], 100)];
    let pole = weapon("Pole", ItemClass::Quarterstaves, 0);
    let rows = pole.with_different_runes(&table).unwrap();
    let iron: Vec<Vec<Rune>> = rows[72..].iter().map(|row| row.runes.clone()).collect();
    assert_eq!(
        vec![
            vec![Rune::LesserIron, Rune::LesserIron],
            vec![Rune::LesserIron, Rune::Iron],
            vec![Rune::LesserIron, Rune::GreaterIron],
            vec![Rune::Iron, Rune::Iron],
            vec![Rune::Iron, Rune::GreaterIron],
            vec![Rune::GreaterIron, Rune::GreaterIron],
        ],
        iron
    );
    // Two runes of one kind add the damage of the first only.
    assert_eq!(vec![Rune::GreaterDesert, Rune::GreaterStorm], rows[0].runes);
    assert_eq!(30 * DPS_SCALE, rows[0].dps.total);
}

#[test]
fn the_ranking_keeps_the_quality_of_the_weapon() {
    let table = table();
    let plain = weapon("Leaden Greathammer", ItemClass::TwoHandMaces, 0);
    let fine = weapon("Leaden Greathammer", ItemClass::TwoHandMaces, 20);
    let plain_rows = plain.with_different_runes(&table).unwrap();
    let fine_rows = fine.with_different_runes(&table).unwrap();
    let best = |rows: &Vec<DpsWithRunes>| rows.iter().map(|row| row.dps.pdps).max().unwrap();
    assert_eq!(best(&plain_rows) * 120, best(&fine_rows) * 100);
}
