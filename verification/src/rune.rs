//! The runes: twelve of them, three sizes of four kinds, and what each adds
//! to a martial weapon.

use vstd::prelude::*;
use crate::weapon::{DamageType, FlatDamage, PhysModifier, Range};

verus! {

/// A rune. Iron runes increase physical damage; desert, glacial and storm
/// runes add fire, cold and lightning damage.
#[derive(Debug, Clone, Copy, PartialEq, Eq, Hash, Structural)]
pub enum Rune {
    LesserIron,
    Iron,
    GreaterIron,
    LesserDesert,
    Desert,
    GreaterDesert,
    LesserGlacial,
    Glacial,
    GreaterGlacial,
    LesserStorm,
    Storm,
    GreaterStorm,
}

/// What a rune adds to a martial weapon.
#[derive(Debug, Clone, Copy, PartialEq, Eq, Structural)]
pub enum RuneMartialBonus {
    Phys(PhysModifier),
    Flat(FlatDamage),
}

impl Rune {
    /// The place of the rune in the fixed order of the twelve.
    pub open spec fn index(self) -> int {
        match self {
            Rune::LesserIron => 0,
            Rune::Iron => 1,
            Rune::GreaterIron => 2,
            Rune::LesserDesert => 3,
            Rune::Desert => 4,
            Rune::GreaterDesert => 5,
            Rune::LesserGlacial => 6,
            Rune::Glacial => 7,
            Rune::GreaterGlacial => 8,
            Rune::LesserStorm => 9,
            Rune::Storm => 10,
            Rune::GreaterStorm => 11,
        }
    }

    /// The twelve runes in their fixed order.
    pub open spec fn all() -> Seq<Rune> {
        seq![
            Rune::LesserIron,
            Rune::Iron,
            Rune::GreaterIron,
            Rune::LesserDesert,
            Rune::Desert,
            Rune::GreaterDesert,
            Rune::LesserGlacial,
            Rune::Glacial,
            Rune::GreaterGlacial,
            Rune::LesserStorm,
            Rune::Storm,
            Rune::GreaterStorm,
        ]
    }

    /// Whether the rune is one of the three iron runes.
    pub open spec fn iron(self) -> bool {
        self == Rune::LesserIron || self == Rune::Iron || self == Rune::GreaterIron
    }

    /// What the rune adds to a martial weapon.
    pub open spec fn bonus(self) -> RuneMartialBonus {
        match self {
            Rune::LesserIron => RuneMartialBonus::Phys(PhysModifier(14)),
            Rune::Iron => RuneMartialBonus::Phys(PhysModifier(16)),
            Rune::GreaterIron => RuneMartialBonus::Phys(PhysModifier(18)),
            Rune::LesserDesert => RuneMartialBonus::Flat(
                FlatDamage { damage_type: DamageType::Fire, range: Range(4, 6) },
            ),
            Rune::Desert => RuneMartialBonus::Flat(
                FlatDamage { damage_type: DamageType::Fire, range: Range(7, 11) },
            ),
            Rune::GreaterDesert => RuneMartialBonus::Flat(
                FlatDamage { damage_type: DamageType::Fire, range: Range(13, 16) },
            ),
            Rune::LesserGlacial => RuneMartialBonus::Flat(
                FlatDamage { damage_type: DamageType::Cold, range: Range(3, 5) },
            ),
            Rune::Glacial => RuneMartialBonus::Flat(
                FlatDamage { damage_type: DamageType::Cold, range: Range(6, 10) },
            ),
            Rune::GreaterGlacial => RuneMartialBonus::Flat(
                FlatDamage { damage_type: DamageType::Cold, range: Range(9, 15) },
            ),
            Rune::LesserStorm => RuneMartialBonus::Flat(
                FlatDamage { damage_type: DamageType::Lightning, range: Range(1, 10) },
            ),
            Rune::Storm => RuneMartialBonus::Flat(
                FlatDamage { damage_type: DamageType::Lightning, range: Range(1, 20) },
            ),
            Rune::GreaterStorm => RuneMartialBonus::Flat(
                FlatDamage { damage_type: DamageType::Lightning, range: Range(1, 30) },
            ),
        }
    }

    /// The percentage by which the rune increases physical damage: that of
    /// an iron rune, 0 for the others.
    pub open spec fn percent(self) -> nat {
        match self.bonus() {
            RuneMartialBonus::Phys(p) => p.0 as nat,
            RuneMartialBonus::Flat(_) => 0,
        }
    }

    /// The damage that the rune adds: that of a desert, glacial or storm
    /// rune, none for an iron rune.
    pub open spec fn flat(self) -> Option<FlatDamage> {
        match self.bonus() {
            RuneMartialBonus::Phys(_) => None,
            RuneMartialBonus::Flat(f) => Some(f),
        }
    }

    /// The twelve runes in their fixed order.
    pub fn runes() -> (r: [Rune; 12])
        ensures
            r@ == Rune::all(),
    {
        let r = [
            Rune::LesserIron,
            Rune::Iron,
            Rune::GreaterIron,
            Rune::LesserDesert,
            Rune::Desert,
            Rune::GreaterDesert,
            Rune::LesserGlacial,
            Rune::Glacial,
            Rune::GreaterGlacial,
            Rune::LesserStorm,
            Rune::Storm,
            Rune::GreaterStorm,
        ];
        assert(r@ =~= Rune::all());
        r
    }

    /// Whether the rune is one of the three iron runes.
    pub fn is_iron(&self) -> (r: bool)
        ensures
            r == self.iron(),
    {
        matches!(self, Rune::LesserIron | Rune::Iron | Rune::GreaterIron)
    }

    /// What the rune adds to a martial weapon.
    pub fn martial(&self) -> (r: RuneMartialBonus)
        ensures
            r == self.bonus(),
    {
        match self {
            Rune::LesserIron => RuneMartialBonus::Phys(Rune::lesser_iron_rune_martial()),
            Rune::Iron => RuneMartialBonus::Phys(Rune::iron_rune_martial()),
            Rune::GreaterIron => RuneMartialBonus::Phys(Rune::greater_iron_rune_martial()),
            Rune::LesserDesert => RuneMartialBonus::Flat(Rune::lesser_desert_rune_martial()),
            Rune::Desert => RuneMartialBonus::Flat(Rune::desert_rune_martial()),
            Rune::GreaterDesert => RuneMartialBonus::Flat(Rune::greater_desert_rune_martial()),
            Rune::LesserGlacial => RuneMartialBonus::Flat(Rune::lesser_glacial_rune_martial()),
            Rune::Glacial => RuneMartialBonus::Flat(Rune::glacial_rune_martial()),
            Rune::GreaterGlacial => RuneMartialBonus::Flat(Rune::greater_glacial_rune_martial()),
            Rune::LesserStorm => RuneMartialBonus::Flat(Rune::lesser_storm_rune_martial()),
            Rune::Storm => RuneMartialBonus::Flat(Rune::storm_rune_martial()),
            Rune::GreaterStorm => RuneMartialBonus::Flat(Rune::greater_storm_rune_martial()),
        }
    }

    /// The damage that the rune adds, if it adds any.
    pub fn flat_martial(&self) -> (r: Option<FlatDamage>)
        ensures
            r == self.flat(),
    {
        match self.martial() {
            RuneMartialBonus::Phys(_) => None,
            RuneMartialBonus::Flat(f) => Some(f),
        }
    }

    /// What a lesser desert rune adds.
    pub fn lesser_desert_rune_martial() -> (r: FlatDamage)
        ensures
            Rune::LesserDesert.flat() == Some(r),
    {
        FlatDamage { damage_type: DamageType::Fire, range: Range(4, 6) }
    }

    /// What a desert rune adds.
    pub fn desert_rune_martial() -> (r: FlatDamage)
        ensures
            Rune::Desert.flat() == Some(r),
    {
        FlatDamage { damage_type: DamageType::Fire, range: Range(7, 11) }
    }

    /// What a greater desert rune adds.
    pub fn greater_desert_rune_martial() -> (r: FlatDamage)
        ensures
            Rune::GreaterDesert.flat() == Some(r),
    {
        FlatDamage { damage_type: DamageType::Fire, range: Range(13, 16) }
    }

    /// What a lesser glacial rune adds.
    pub fn lesser_glacial_rune_martial() -> (r: FlatDamage)
        ensures
            Rune::LesserGlacial.flat() == Some(r),
    {
        FlatDamage { damage_type: DamageType::Cold, range: Range(3, 5) }
    }

    /// What a glacial rune adds.
    pub fn glacial_rune_martial() -> (r: FlatDamage)
        ensures
            Rune::Glacial.flat() == Some(r),
    {
        FlatDamage { damage_type: DamageType::Cold, range: Range(6, 10) }
    }

    /// What a greater glacial rune adds.
    pub fn greater_glacial_rune_martial() -> (r: FlatDamage)
        ensures
            Rune::GreaterGlacial.flat() == Some(r),
    {
        FlatDamage { damage_type: DamageType::Cold, range: Range(9, 15) }
    }

    /// What a lesser storm rune adds.
    pub fn lesser_storm_rune_martial() -> (r: FlatDamage)
        ensures
            Rune::LesserStorm.flat() == Some(r),
    {
        FlatDamage { damage_type: DamageType::Lightning, range: Range(1, 10) }
    }

    /// What a storm rune adds.
    pub fn storm_rune_martial() -> (r: FlatDamage)
        ensures
            Rune::Storm.flat() == Some(r),
    {
        FlatDamage { damage_type: DamageType::Lightning, range: Range(1, 20) }
    }

    /// What a greater storm rune adds.
    pub fn greater_storm_rune_martial() -> (r: FlatDamage)
        ensures
            Rune::GreaterStorm.flat() == Some(r),
    {
        FlatDamage { damage_type: DamageType::Lightning, range: Range(1, 30) }
    }

    /// By how much a lesser iron rune increases physical damage.
    pub fn lesser_iron_rune_martial() -> (r: PhysModifier)
        ensures
            Rune::LesserIron.bonus() == RuneMartialBonus::Phys(r),
    {
        PhysModifier(14)
    }

    /// By how much an iron rune increases physical damage.
    pub fn iron_rune_martial() -> (r: PhysModifier)
        ensures
            Rune::Iron.bonus() == RuneMartialBonus::Phys(r),
    {
        PhysModifier(16)
    }

    /// By how much a greater iron rune increases physical damage.
    pub fn greater_iron_rune_martial() -> (r: PhysModifier)
        ensures
            Rune::GreaterIron.bonus() == RuneMartialBonus::Phys(r),
    {
        PhysModifier(18)
    }
}

} // verus!
