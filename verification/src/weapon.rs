//! The weapon model: damage ranges, modifiers, weapon classes, the table of
//! weapon bases, and the weapon itself.

use vstd::prelude::*;
use crate::rune::Rune;
use crate::text::is_word;

verus! {

/// A damage range, least hit first. Nothing forces the first to be the
/// smaller.
#[derive(Debug, Clone, Copy, PartialEq, Eq, Structural, Default)]
pub struct Range(pub u16, pub u16);

impl Range {
    /// The least and the greatest hit added up: what the range weighs in a
    /// damage per second.
    pub open spec fn magnitude(self) -> nat {
        (self.0 + self.1) as nat
    }

    /// Adds the least and the greatest hit.
    pub fn sum(&self) -> (r: u32)
        ensures
            r == self.magnitude(),
    {
        self.0 as u32 + self.1 as u32
    }
}

/// The kind of a damage.
#[derive(Debug, Clone, Copy, PartialEq, Eq, Structural, Default)]
pub enum DamageType {
    #[default]
    Physical,
    Fire,
    Cold,
    Lightning,
    Chaos,
}

impl DamageType {
    /// Fire, cold and lightning are the elements.
    pub open spec fn elemental(self) -> bool {
        self == DamageType::Fire || self == DamageType::Cold || self == DamageType::Lightning
    }

    /// Whether the damage is of one of the three elements.
    pub fn is_elemental(&self) -> (r: bool)
        ensures
            r == self.elemental(),
    {
        match self {
            DamageType::Physical => false,
            DamageType::Fire => true,
            DamageType::Cold => true,
            DamageType::Lightning => true,
            DamageType::Chaos => false,
        }
    }

    /// Whether the damage is chaos damage.
    pub fn is_chaos(&self) -> (r: bool)
        ensures
            r == (*self == DamageType::Chaos),
    {
        matches!(self, DamageType::Chaos)
    }
}

/// One line that adds damage: of a weapon base, of an item's explicit
/// modifiers, or of a rune.
#[derive(Debug, Clone, Copy, PartialEq, Eq, Structural, Default)]
pub struct FlatDamage {
    pub damage_type: DamageType,
    pub range: Range,
}

impl FlatDamage {
    /// Whether the damage is of one of the three elements.
    pub fn is_elemental(&self) -> (r: bool)
        ensures
            r == self.damage_type.elemental(),
    {
        self.damage_type.is_elemental()
    }

    /// Whether the damage is chaos damage.
    pub fn is_chaos(&self) -> (r: bool)
        ensures
            r == (self.damage_type == DamageType::Chaos),
    {
        self.damage_type.is_chaos()
    }
}

/// Increased attack speed, in percent.
#[derive(Debug, Clone, Copy, PartialEq, Eq, Structural, Default)]
pub struct AttackSpeedModifier(pub u8);

/// Increased physical damage, in percent.
#[derive(Debug, Clone, Copy, PartialEq, Eq, Structural, Default)]
pub struct PhysModifier(pub u16);

/// An item's quality, in percent.
#[derive(Debug, Clone, Copy, PartialEq, Eq, Structural, Default)]
pub struct Quality(pub u8);

/// How many hands a weapon takes, and with that how many runes: one for a
/// one-handed weapon, two for a two-handed one.
#[derive(Debug, Clone, Copy, PartialEq, Eq, Structural)]
pub enum Handed {
    OneHanded,
    TwoHanded,
}

/// The weapon classes that are supported.
#[derive(Debug, Clone, Copy, PartialEq, Eq, Structural)]
pub enum ItemClass {
    OneHandMaces,
    TwoHandMaces,
    Quarterstaves,
    Bows,
    Crossbows,
    Spears,
}

impl ItemClass {
    /// The hands that a weapon of this class takes.
    pub open spec fn hands(self) -> Handed {
        match self {
            ItemClass::OneHandMaces => Handed::OneHanded,
            ItemClass::TwoHandMaces => Handed::TwoHanded,
            ItemClass::Quarterstaves => Handed::TwoHanded,
            ItemClass::Bows => Handed::TwoHanded,
            ItemClass::Crossbows => Handed::TwoHanded,
            ItemClass::Spears => Handed::OneHanded,
        }
    }

    /// The class that the game writes under `name`.
    pub open spec fn named(name: Seq<char>) -> Option<ItemClass> {
        if name == "One Hand Maces"@ {
            Some(ItemClass::OneHandMaces)
        } else if name == "Two Hand Maces"@ {
            Some(ItemClass::TwoHandMaces)
        } else if name == "Quarterstaves"@ {
            Some(ItemClass::Quarterstaves)
        } else if name == "Bows"@ {
            Some(ItemClass::Bows)
        } else if name == "Crossbows"@ {
            Some(ItemClass::Crossbows)
        } else if name == "Spears"@ {
            Some(ItemClass::Spears)
        } else {
            None
        }
    }

    /// The class that the game writes under `name`, if it is one of the
    /// supported six.
    pub fn from_name(name: &[char]) -> (r: Option<ItemClass>)
        ensures
            r == ItemClass::named(name@),
    {
        if is_word(name, "One Hand Maces") {
            Some(ItemClass::OneHandMaces)
        } else if is_word(name, "Two Hand Maces") {
            Some(ItemClass::TwoHandMaces)
        } else if is_word(name, "Quarterstaves") {
            Some(ItemClass::Quarterstaves)
        } else if is_word(name, "Bows") {
            Some(ItemClass::Bows)
        } else if is_word(name, "Crossbows") {
            Some(ItemClass::Crossbows)
        } else if is_word(name, "Spears") {
            Some(ItemClass::Spears)
        } else {
            None
        }
    }

    /// The name under which the game writes the class.
    pub open spec fn name(self) -> Seq<char> {
        match self {
            ItemClass::OneHandMaces => "One Hand Maces"@,
            ItemClass::TwoHandMaces => "Two Hand Maces"@,
            ItemClass::Quarterstaves => "Quarterstaves"@,
            ItemClass::Bows => "Bows"@,
            ItemClass::Crossbows => "Crossbows"@,
            ItemClass::Spears => "Spears"@,
        }
    }
}

/// Every class is read back from its name, so the six names differ.
pub proof fn lemma_class_names(item_class: ItemClass)
    ensures
        ItemClass::named(item_class.name()) == Some(item_class),
{
    reveal_strlit("One Hand Maces");
    reveal_strlit("Two Hand Maces");
    reveal_strlit("Quarterstaves");
    reveal_strlit("Bows");
    reveal_strlit("Crossbows");
    reveal_strlit("Spears");
    assert("One Hand Maces"@.len() == 14 && "Two Hand Maces"@.len() == 14);
    assert("Quarterstaves"@.len() == 13 && "Bows"@.len() == 4);
    assert("Crossbows"@.len() == 9 && "Spears"@.len() == 6);
    assert("One Hand Maces"@[0] == 'O' && "Two Hand Maces"@[0] == 'T');
}

/// The explicit modifiers of one item. Of the lines that add damage, only the
/// first of each damage type counts.
#[derive(Debug, Clone, Default, PartialEq)]
pub struct Explicits {
    pub flats: Vec<FlatDamage>,
    pub phys: Option<PhysModifier>,
    pub atk_spd: Option<AttackSpeedModifier>,
}

/// What an [`Explicits`] holds.
pub struct ExplicitsView {
    pub flats: Seq<FlatDamage>,
    pub phys: Option<PhysModifier>,
    pub atk_spd: Option<AttackSpeedModifier>,
}

impl View for Explicits {
    type V = ExplicitsView;

    open spec fn view(&self) -> ExplicitsView {
        ExplicitsView { flats: self.flats@, phys: self.phys, atk_spd: self.atk_spd }
    }
}

impl ExplicitsView {
    /// The increase of physical damage in percent, 0 where there is none.
    pub open spec fn phys_percent(self) -> nat {
        match self.phys {
            Some(p) => p.0 as nat,
            None => 0,
        }
    }

    /// The increase of attack speed in percent, 0 where there is none.
    pub open spec fn speed_percent(self) -> nat {
        match self.atk_spd {
            Some(a) => a.0 as nat,
            None => 0,
        }
    }
}

/// One weapon base of the table: its name, the name of its class, its
/// picture, the damage it deals and its attack rate.
#[derive(Debug, Clone, Default, PartialEq)]
pub struct WeaponStats {
    pub base: String,
    pub item_class: String,
    pub img: String,
    pub damages: Vec<FlatDamage>,
    /// Attacks per second, in hundredths.
    pub aps: u16,
}

/// The first entry of `table` with the name `base`.
pub open spec fn lookup(table: Seq<WeaponStats>, base: Seq<char>) -> Option<WeaponStats>
    decreases table.len(),
{
    if table.len() == 0 {
        None
    } else if table[0].base@ == base {
        Some(table[0])
    } else {
        lookup(table.drop_first(), base)
    }
}

/// Where an entry of `table` has the name `base`, there is a first such.
pub proof fn lemma_lookup_finds(table: Seq<WeaponStats>, base: Seq<char>, k: int)
    requires
        0 <= k < table.len(),
        table[k].base@ == base,
    ensures
        lookup(table, base) is Some,
        lookup(table, base)->0.base@ == base,
    decreases table.len(),
{
    if table[0].base@ != base {
        let rest = table.drop_first();
        assert(rest[k - 1] == table[k]);
        lemma_lookup_finds(rest, base, k - 1);
    }
}

/// The first entry of `table` with the name `base`.
pub fn find_base<'a>(table: &'a Vec<WeaponStats>, base: &String) -> (r: Option<&'a WeaponStats>)
    ensures
        match r {
            Some(stats) => lookup(table@, base@) == Some(*stats),
            None => lookup(table@, base@) is None,
        },
{
    let mut i: usize = 0;
    assert(table@.skip(0) =~= table@);
    while i < table.len()
        invariant
            i <= table@.len(),
            lookup(table@, base@) == lookup(table@.skip(i as int), base@),
        decreases table@.len() - i,
    {
        if table[i].base == *base {
            return Some(&table[i]);
        }
        assert(table@.skip(i as int).drop_first() =~= table@.skip(i + 1));
        i += 1;
    }
    None
}

/// Why a weapon's damage cannot be computed.
#[derive(Debug, Clone, PartialEq)]
pub enum WeaponError {
    /// The table of weapon bases has no entry with the weapon's base name,
    /// which is the name given here.
    BaseStatsNotFound(String),
}

/// A weapon: its base, its class, its quality, its explicit modifiers and
/// the runes in its sockets.
#[derive(Debug, Clone, PartialEq)]
pub struct Weapon {
    pub base: String,
    pub item_class: ItemClass,
    pub quality: Quality,
    pub explicits: Explicits,
    pub runes: Vec<Rune>,
}

/// What a weapon holds, and likewise an item as it was read from text.
pub struct ItemView {
    pub base: Seq<char>,
    pub item_class: ItemClass,
    pub quality: Quality,
    pub explicits: ExplicitsView,
    pub runes: Seq<Rune>,
}

impl View for Weapon {
    type V = ItemView;

    open spec fn view(&self) -> ItemView {
        ItemView {
            base: self.base@,
            item_class: self.item_class,
            quality: self.quality,
            explicits: self.explicits@,
            runes: self.runes@,
        }
    }
}

impl ItemView {
    /// The same item with other runes in its sockets.
    pub open spec fn with_runes(self, runes: Seq<Rune>) -> ItemView {
        ItemView { runes, ..self }
    }

    /// The same item with another quality.
    pub open spec fn with_quality(self, quality: Quality) -> ItemView {
        ItemView { quality, ..self }
    }
}

/// A copy of the entries of `flats`.
pub fn copy_flats(flats: &Vec<FlatDamage>) -> (r: Vec<FlatDamage>)
    ensures
        r@ == flats@,
{
    let mut out: Vec<FlatDamage> = Vec::new();
    let mut i: usize = 0;
    while i < flats.len()
        invariant
            i <= flats@.len(),
            out@ == flats@.take(i as int),
        decreases flats@.len() - i,
    {
        out.push(flats[i]);
        assert(flats@.take(i + 1) =~= flats@.take(i as int).push(flats@[i as int]));
        i += 1;
    }
    assert(flats@.take(i as int) =~= flats@);
    out
}

/// A copy of `runes`.
pub fn copy_runes(runes: &Vec<Rune>) -> (r: Vec<Rune>)
    ensures
        r@ == runes@,
{
    let mut out: Vec<Rune> = Vec::new();
    let mut i: usize = 0;
    while i < runes.len()
        invariant
            i <= runes@.len(),
            out@ == runes@.take(i as int),
        decreases runes@.len() - i,
    {
        out.push(runes[i]);
        assert(runes@.take(i + 1) =~= runes@.take(i as int).push(runes@[i as int]));
        i += 1;
    }
    assert(runes@.take(i as int) =~= runes@);
    out
}

impl Weapon {
    /// The same weapon with another quality.
    pub fn with_quality(&self, quality: Quality) -> (r: Weapon)
        ensures
            r@ == self@.with_quality(quality),
    {
        Weapon {
            base: self.base.clone(),
            item_class: self.item_class,
            quality,
            explicits: Explicits {
                flats: copy_flats(&self.explicits.flats),
                phys: self.explicits.phys,
                atk_spd: self.explicits.atk_spd,
            },
            runes: copy_runes(&self.runes),
        }
    }

    /// The entry of the weapon's base in `table`: the first of that name.
    /// A weapon whose base the table does not know gets the error that names
    /// the base.
    pub fn base_stats<'a>(&self, table: &'a Vec<WeaponStats>) -> (r: Result<
        &'a WeaponStats,
        WeaponError,
    >)
        ensures
            match r {
                Ok(stats) => lookup(table@, self.base@) == Some(*stats),
                Err(WeaponError::BaseStatsNotFound(name)) => lookup(table@, self.base@) is None
                    && name@ == self.base@,
            },
    {
        match find_base(table, &self.base) {
            Some(stats) => Ok(stats),
            None => Err(WeaponError::BaseStatsNotFound(self.base.clone())),
        }
    }

    /// The hands that the weapon takes.
    pub fn handed(&self) -> (r: Handed)
        ensures
            r == self.item_class.hands(),
    {
        match self.item_class {
            ItemClass::OneHandMaces => Handed::OneHanded,
            ItemClass::TwoHandMaces => Handed::TwoHanded,
            ItemClass::Quarterstaves => Handed::TwoHanded,
            ItemClass::Bows => Handed::TwoHanded,
            ItemClass::Crossbows => Handed::TwoHanded,
            ItemClass::Spears => Handed::OneHanded,
        }
    }

    /// The attack rate of the weapon's base, in hundredths of an attack per
    /// second.
    pub fn base_aps(&self, table: &Vec<WeaponStats>) -> (r: Result<u16, WeaponError>)
        ensures
            match r {
                Ok(aps) => lookup(table@, self.base@) is Some && aps == lookup(
                    table@,
                    self.base@,
                )->0.aps,
                Err(WeaponError::BaseStatsNotFound(name)) => lookup(table@, self.base@) is None
                    && name@ == self.base@,
            },
    {
        match self.base_stats(table) {
            Ok(stats) => Ok(stats.aps),
            Err(e) => Err(e),
        }
    }

    /// The damage that the weapon's base deals.
    pub fn base_damage<'a>(&self, table: &'a Vec<WeaponStats>) -> (r: Result<
        &'a Vec<FlatDamage>,
        WeaponError,
    >)
        ensures
            match r {
                Ok(damages) => lookup(table@, self.base@) is Some && *damages == lookup(
                    table@,
                    self.base@,
                )->0.damages,
                Err(WeaponError::BaseStatsNotFound(name)) => lookup(table@, self.base@) is None
                    && name@ == self.base@,
            },
    {
        match self.base_stats(table) {
            Ok(stats) => Ok(&stats.damages),
            Err(e) => Err(e),
        }
    }
}

} // verus!
