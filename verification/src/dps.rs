//! Damage per second. All of it is exact: a damage per second is a whole
//! number of units, [`DPS_SCALE`] of which make one point of damage per
//! second.
//!
//! Damage comes in three pools: what the weapon's base deals, what the
//! explicit modifiers add, and what the runes add. Within a pool only the
//! first entry of each damage type counts; a second entry of the same type
//! is passed over, not added.

use vstd::prelude::*;
use crate::rune::Rune;
use crate::weapon::{DamageType, FlatDamage, ItemView, Weapon, WeaponError, WeaponStats, lookup};

verus! {

/// The units that make one point of damage per second: two for the mean of
/// a range, and a hundred for each of the four percentages and hundredths
/// that are multiplied.
pub const DPS_SCALE: u128 = 200_000_000;

/// The first entry of `flats` with the damage type `t`.
pub open spec fn first_of(flats: Seq<FlatDamage>, t: DamageType) -> Option<FlatDamage>
    decreases flats.len(),
{
    if flats.len() == 0 {
        None
    } else if flats[0].damage_type == t {
        Some(flats[0])
    } else {
        first_of(flats.drop_first(), t)
    }
}

/// What the pool `flats` weighs in damage of type `t`: the magnitude of its
/// first entry of that type, 0 where it has none.
pub open spec fn weight(flats: Seq<FlatDamage>, t: DamageType) -> nat {
    match first_of(flats, t) {
        Some(f) => f.range.magnitude(),
        None => 0,
    }
}

/// What the pool `flats` weighs in fire, cold and lightning damage together.
pub open spec fn elemental_weight(flats: Seq<FlatDamage>) -> nat {
    weight(flats, DamageType::Fire) + weight(flats, DamageType::Cold) + weight(
        flats,
        DamageType::Lightning,
    )
}

/// The damage that `runes` add, in the order of the runes; an iron rune adds
/// none.
pub open spec fn rune_flats(runes: Seq<Rune>) -> Seq<FlatDamage>
    decreases runes.len(),
{
    if runes.len() == 0 {
        Seq::empty()
    } else {
        match runes.last().flat() {
            Some(f) => rune_flats(runes.drop_last()).push(f),
            None => rune_flats(runes.drop_last()),
        }
    }
}

/// The percentages by which `runes` increase physical damage, added up.
pub open spec fn iron_percent(runes: Seq<Rune>) -> nat
    decreases runes.len(),
{
    if runes.len() == 0 {
        0
    } else {
        iron_percent(runes.drop_last()) + runes.last().percent()
    }
}

/// The attacks of ten thousand seconds: the base's attack rate in
/// hundredths, increased by the attack speed modifier.
pub open spec fn attack_rate(w: ItemView, stats: WeaponStats) -> nat {
    stats.aps as nat * (100 + w.explicits.speed_percent())
}

/// The physical damage per second of `w` on the base `stats`, in units:
/// quality, times the physical damage of base and explicit modifiers, times
/// the attack rate, times the increase by the explicit modifier and the
/// iron runes.
pub open spec fn phys_dps_of(w: ItemView, stats: WeaponStats) -> nat {
    (100 + w.quality.0) as nat * (weight(stats.damages@, DamageType::Physical) + weight(
        w.explicits.flats,
        DamageType::Physical,
    )) * attack_rate(w, stats) * (100 + w.explicits.phys_percent() + iron_percent(w.runes))
}

/// The elemental damage per second of `w` on the base `stats`, in units:
/// the elemental damage of base, explicit modifiers and runes, times the
/// attack rate.
pub open spec fn elemental_dps_of(w: ItemView, stats: WeaponStats) -> nat {
    (elemental_weight(stats.damages@) + elemental_weight(w.explicits.flats) + elemental_weight(
        rune_flats(w.runes),
    )) * attack_rate(w, stats) * 10_000
}

/// The chaos damage per second of `w` on the base `stats`, in units: the
/// chaos damage of base and explicit modifiers, times the attack rate.
pub open spec fn chaos_dps_of(w: ItemView, stats: WeaponStats) -> nat {
    (weight(stats.damages@, DamageType::Chaos) + weight(w.explicits.flats, DamageType::Chaos))
        * attack_rate(w, stats) * 10_000
}

/// The damage per second of `w` on the base `stats`, in units: physical,
/// elemental and chaos together.
pub open spec fn total_dps_of(w: ItemView, stats: WeaponStats) -> nat {
    phys_dps_of(w, stats) + elemental_dps_of(w, stats) + chaos_dps_of(w, stats)
}

/// The damage per second of a weapon, in units of which [`DPS_SCALE`] make
/// one point: in all, and the elemental, physical and chaos parts of it.
#[derive(Debug, Clone, Copy, PartialEq, Eq, Structural)]
pub struct Dps {
    pub total: u128,
    pub edps: u128,
    pub pdps: u128,
    pub cdps: u128,
}

impl Dps {
    /// Whether these are the four figures of `w` on the base `stats`.
    pub open spec fn is_of(self, w: ItemView, stats: WeaponStats) -> bool {
        &&& self.total == total_dps_of(w, stats)
        &&& self.edps == elemental_dps_of(w, stats)
        &&& self.pdps == phys_dps_of(w, stats)
        &&& self.cdps == chaos_dps_of(w, stats)
    }
}

/// A weapon of quality 20 without explicit modifiers and without runes
/// deals, as physical damage per second, 1.2 times the mean of its base's
/// physical range times the base's attack rate: in units, 120 hundredths
/// times the magnitude, which is twice the mean, times the hundredths of
/// the attack rate, times the ten thousand that the two absent percentages
/// leave.
pub proof fn lemma_phys_dps_of_plain_weapon(w: ItemView, stats: WeaponStats)
    requires
        w.quality == crate::weapon::Quality(20),
        w.explicits.flats.len() == 0,
        w.explicits.phys is None,
        w.explicits.atk_spd is None,
        w.runes.len() == 0,
    ensures
        phys_dps_of(w, stats) == 120 * weight(stats.damages@, DamageType::Physical) * stats.aps
            * 10_000,
        phys_dps_of(w, stats) * 100 * 2 * 100 == DPS_SCALE * (120 * weight(
            stats.damages@,
            DamageType::Physical,
        ) * stats.aps),
{
    let base = weight(stats.damages@, DamageType::Physical);
    let aps = stats.aps as nat;
    assert(weight(w.explicits.flats, DamageType::Physical) == 0);
    assert(iron_percent(w.runes) == 0);
    assert(attack_rate(w, stats) == aps * 100);
    assert(phys_dps_of(w, stats) == 120 * base * (aps * 100) * 100);
    assert(120 * base * (aps * 100) * 100 == 120 * base * aps * 10_000) by (nonlinear_arith);
    assert((120 * base * aps * 10_000) * 100 * 2 * 100 == 200_000_000 * (120 * base * aps))
        by (nonlinear_arith);
}

/// A pool weighs at most the greatest range in each damage type.
pub proof fn lemma_weight_bound(flats: Seq<FlatDamage>, t: DamageType)
    ensures
        weight(flats, t) <= 131_070,
        elemental_weight(flats) <= 393_210,
{
    lemma_first_of_bound(flats, DamageType::Fire);
    lemma_first_of_bound(flats, DamageType::Cold);
    lemma_first_of_bound(flats, DamageType::Lightning);
    lemma_first_of_bound(flats, t);
}

proof fn lemma_first_of_bound(flats: Seq<FlatDamage>, t: DamageType)
    ensures
        weight(flats, t) <= 131_070,
    decreases flats.len(),
{
    if flats.len() > 0 && flats[0].damage_type != t {
        lemma_first_of_bound(flats.drop_first(), t);
    }
}

/// Each rune increases physical damage by 18 percent at most.
pub proof fn lemma_iron_percent_bound(runes: Seq<Rune>)
    ensures
        iron_percent(runes) <= 18 * runes.len(),
    decreases runes.len(),
{
    if runes.len() > 0 {
        lemma_iron_percent_bound(runes.drop_last());
    }
}

/// The first entry of `flats` with the damage type `t`.
pub fn first_flat(flats: &Vec<FlatDamage>, t: DamageType) -> (r: Option<FlatDamage>)
    ensures
        r == first_of(flats@, t),
{
    let mut i: usize = 0;
    assert(flats@.skip(0) =~= flats@);
    while i < flats.len()
        invariant
            i <= flats@.len(),
            first_of(flats@, t) == first_of(flats@.skip(i as int), t),
        decreases flats@.len() - i,
    {
        if flats[i].damage_type == t {
            return Some(flats[i]);
        }
        assert(flats@.skip(i as int).drop_first() =~= flats@.skip(i + 1));
        i += 1;
    }
    None
}

/// What the pool `flats` weighs in damage of type `t`.
pub fn flat_weight(flats: &Vec<FlatDamage>, t: DamageType) -> (r: u32)
    ensures
        r == weight(flats@, t),
{
    match first_flat(flats, t) {
        Some(f) => f.range.sum(),
        None => 0,
    }
}

/// What the pool `flats` weighs in fire, cold and lightning damage together.
pub fn flat_elemental_weight(flats: &Vec<FlatDamage>) -> (r: u32)
    ensures
        r == elemental_weight(flats@),
{
    proof {
        lemma_weight_bound(flats@, DamageType::Fire);
    }
    flat_weight(flats, DamageType::Fire) + flat_weight(flats, DamageType::Cold) + flat_weight(
        flats,
        DamageType::Lightning,
    )
}

/// The damage that `runes` add, in the order of the runes.
pub fn flats_of_runes(runes: &Vec<Rune>) -> (r: Vec<FlatDamage>)
    ensures
        r@ == rune_flats(runes@),
{
    let mut out: Vec<FlatDamage> = Vec::new();
    let mut i: usize = 0;
    while i < runes.len()
        invariant
            i <= runes@.len(),
            out@ == rune_flats(runes@.take(i as int)),
        decreases runes@.len() - i,
    {
        assert(runes@.take(i + 1).drop_last() =~= runes@.take(i as int));
        match runes[i].flat_martial() {
            Some(f) => {
                out.push(f);
            },
            None => {},
        }
        i += 1;
    }
    assert(runes@.take(i as int) =~= runes@);
    out
}

/// The percentages by which `runes` increase physical damage, added up.
pub fn percent_of_runes(runes: &Vec<Rune>) -> (r: u128)
    ensures
        r == iron_percent(runes@),
{
    let mut sum: u128 = 0;
    let mut i: usize = 0;
    while i < runes.len()
        invariant
            i <= runes@.len(),
            sum == iron_percent(runes@.take(i as int)),
            sum <= 18 * i,
        decreases runes@.len() - i,
    {
        assert(runes@.take(i + 1).drop_last() =~= runes@.take(i as int));
        match runes[i].martial() {
            crate::rune::RuneMartialBonus::Phys(p) => {
                sum = sum + p.0 as u128;
            },
            crate::rune::RuneMartialBonus::Flat(_) => {},
        }
        i += 1;
    }
    assert(runes@.take(i as int) =~= runes@);
    sum
}

impl Weapon {
    /// The attacks of ten thousand seconds on the base `stats`.
    pub fn rate_on(&self, stats: &WeaponStats) -> (r: u32)
        ensures
            r == attack_rate(self@, *stats),
            r <= 65_535 * 355,
    {
        let speed: u32 = match self.explicits.atk_spd {
            Some(a) => a.0 as u32,
            None => 0,
        };
        assert(stats.aps as nat * (100 + speed as nat) <= 65_535 * 355) by (nonlinear_arith)
            requires
                stats.aps <= 65_535,
                speed <= 255,
        ;
        stats.aps as u32 * (100 + speed)
    }

    /// The physical damage per second on the base `stats`, in units, that
    /// the weapon has with `runes` in its sockets.
    pub fn phys_dps_with(&self, stats: &WeaponStats, runes: &Vec<Rune>) -> (r: u128)
        ensures
            r == phys_dps_of(self@.with_runes(runes@), *stats),
            r <= 0x00ff_ffff_ffff_ffff_ffff_ffff_ffff_ffff,
    {
        let quality: u128 = 100 + self.quality.0 as u128;
        proof {
            lemma_weight_bound(stats.damages@, DamageType::Physical);
            lemma_weight_bound(self.explicits.flats@, DamageType::Physical);
            lemma_iron_percent_bound(runes@);
        }
        let flat: u128 = flat_weight(&stats.damages, DamageType::Physical) as u128 + flat_weight(
            &self.explicits.flats,
            DamageType::Physical,
        ) as u128;
        let rate: u128 = self.rate_on(stats) as u128;
        let explicit: u128 = match self.explicits.phys {
            Some(p) => p.0 as u128,
            None => 0,
        };
        let sockets: usize = runes.len();
        assert(iron_percent(runes@) <= 18 * 0xffff_ffff_ffff_ffff) by {
            assert(sockets <= 0xffff_ffff_ffff_ffff);
        }
        let increase: u128 = 100 + explicit + percent_of_runes(runes);
        assert(quality * flat <= 355 * 262_140) by (nonlinear_arith)
            requires
                quality <= 355,
                flat <= 262_140,
        ;
        let a: u128 = quality * flat;
        assert(a * rate <= 355 * 262_140 * (65_535 * 355)) by (nonlinear_arith)
            requires
                a <= 355 * 262_140,
                rate <= 65_535 * 355,
        ;
        let b: u128 = a * rate;
        assert(b * increase <= 355 * 262_140 * (65_535 * 355) * (65_635 + 18
            * 0xffff_ffff_ffff_ffff)) by (nonlinear_arith)
            requires
                b <= 355 * 262_140 * (65_535 * 355),
                increase <= 65_635 + 18 * 0xffff_ffff_ffff_ffff,
        ;
        b * increase
    }

    /// The elemental damage per second on the base `stats`, in units, that
    /// the weapon has with `runes` in its sockets.
    pub fn elemental_dps_with(&self, stats: &WeaponStats, runes: &Vec<Rune>) -> (r: u128)
        ensures
            r == elemental_dps_of(self@.with_runes(runes@), *stats),
            r <= 0xffff_ffff_ffff_ffff,
    {
        let added = flats_of_runes(runes);
        proof {
            lemma_weight_bound(stats.damages@, DamageType::Fire);
            lemma_weight_bound(self.explicits.flats@, DamageType::Fire);
            lemma_weight_bound(added@, DamageType::Fire);
        }
        let flat: u128 = flat_elemental_weight(&stats.damages) as u128 + flat_elemental_weight(
            &self.explicits.flats,
        ) as u128 + flat_elemental_weight(&added) as u128;
        let rate: u128 = self.rate_on(stats) as u128;
        assert(flat * rate <= 3 * 393_210 * (65_535 * 355)) by (nonlinear_arith)
            requires
                flat <= 3 * 393_210,
                rate <= 65_535 * 355,
        ;
        flat * rate * 10_000
    }

    /// The four figures on the base `stats` that the weapon has with `runes`
    /// in its sockets.
    pub fn dps_with(&self, stats: &WeaponStats, runes: &Vec<Rune>) -> (r: Dps)
        ensures
            r.is_of(self@.with_runes(runes@), *stats),
    {
        let pdps = self.phys_dps_with(stats, runes);
        let edps = self.elemental_dps_with(stats, runes);
        let cdps = self.chaos_dps_on(stats);
        Dps { total: pdps + edps + cdps, edps, pdps, cdps }
    }

    /// The physical damage per second on the base `stats`, in units.
    pub fn phys_dps_on(&self, stats: &WeaponStats) -> (r: u128)
        ensures
            r == phys_dps_of(self@, *stats),
    {
        assert(self@.with_runes(self.runes@) == self@);
        self.phys_dps_with(stats, &self.runes)
    }

    /// The elemental damage per second on the base `stats`, in units.
    pub fn elemental_dps_on(&self, stats: &WeaponStats) -> (r: u128)
        ensures
            r == elemental_dps_of(self@, *stats),
    {
        assert(self@.with_runes(self.runes@) == self@);
        self.elemental_dps_with(stats, &self.runes)
    }

    /// The chaos damage per second on the base `stats`, in units. Runes add
    /// none.
    pub fn chaos_dps_on(&self, stats: &WeaponStats) -> (r: u128)
        ensures
            r == chaos_dps_of(self@, *stats),
            forall|runes: Seq<Rune>| r == chaos_dps_of(#[trigger] self@.with_runes(runes), *stats),
            r <= 0xffff_ffff_ffff_ffff,
    {
        proof {
            lemma_weight_bound(stats.damages@, DamageType::Chaos);
            lemma_weight_bound(self.explicits.flats@, DamageType::Chaos);
        }
        let flat: u128 = flat_weight(&stats.damages, DamageType::Chaos) as u128 + flat_weight(
            &self.explicits.flats,
            DamageType::Chaos,
        ) as u128;
        let rate: u128 = self.rate_on(stats) as u128;
        assert(flat * rate <= 262_140 * (65_535 * 355)) by (nonlinear_arith)
            requires
                flat <= 262_140,
                rate <= 65_535 * 355,
        ;
        flat * rate * 10_000
    }

    /// The four figures on the base `stats`.
    pub fn dps_on(&self, stats: &WeaponStats) -> (r: Dps)
        ensures
            r.is_of(self@, *stats),
    {
        assert(self@.with_runes(self.runes@) == self@);
        self.dps_with(stats, &self.runes)
    }

    /// The physical damage per second, in units, on the weapon's base as
    /// `table` has it.
    pub fn phys_dps(&self, table: &Vec<WeaponStats>) -> (r: Result<u128, WeaponError>)
        ensures
            match r {
                Ok(v) => lookup(table@, self.base@) is Some && v == phys_dps_of(
                    self@,
                    lookup(table@, self.base@)->0,
                ),
                Err(WeaponError::BaseStatsNotFound(name)) => lookup(table@, self.base@) is None
                    && name@ == self.base@,
            },
    {
        match self.base_stats(table) {
            Ok(stats) => Ok(self.phys_dps_on(stats)),
            Err(e) => Err(e),
        }
    }

    /// The elemental damage per second, in units, on the weapon's base as
    /// `table` has it.
    pub fn elemental_dps(&self, table: &Vec<WeaponStats>) -> (r: Result<u128, WeaponError>)
        ensures
            match r {
                Ok(v) => lookup(table@, self.base@) is Some && v == elemental_dps_of(
                    self@,
                    lookup(table@, self.base@)->0,
                ),
                Err(WeaponError::BaseStatsNotFound(name)) => lookup(table@, self.base@) is None
                    && name@ == self.base@,
            },
    {
        match self.base_stats(table) {
            Ok(stats) => Ok(self.elemental_dps_on(stats)),
            Err(e) => Err(e),
        }
    }

    /// The chaos damage per second, in units, on the weapon's base as
    /// `table` has it.
    pub fn chaos_dps(&self, table: &Vec<WeaponStats>) -> (r: Result<u128, WeaponError>)
        ensures
            match r {
                Ok(v) => lookup(table@, self.base@) is Some && v == chaos_dps_of(
                    self@,
                    lookup(table@, self.base@)->0,
                ),
                Err(WeaponError::BaseStatsNotFound(name)) => lookup(table@, self.base@) is None
                    && name@ == self.base@,
            },
    {
        match self.base_stats(table) {
            Ok(stats) => Ok(self.chaos_dps_on(stats)),
            Err(e) => Err(e),
        }
    }

    /// The damage per second, in units, on the weapon's base as `table` has
    /// it: physical, elemental and chaos together.
    pub fn total(&self, table: &Vec<WeaponStats>) -> (r: Result<u128, WeaponError>)
        ensures
            match r {
                Ok(v) => lookup(table@, self.base@) is Some && v == total_dps_of(
                    self@,
                    lookup(table@, self.base@)->0,
                ),
                Err(WeaponError::BaseStatsNotFound(name)) => lookup(table@, self.base@) is None
                    && name@ == self.base@,
            },
    {
        match self.base_stats(table) {
            Ok(stats) => Ok(self.dps_on(stats).total),
            Err(e) => Err(e),
        }
    }

    /// The four figures on the weapon's base as `table` has it.
    pub fn dps(&self, table: &Vec<WeaponStats>) -> (r: Result<Dps, WeaponError>)
        ensures
            match r {
                Ok(v) => lookup(table@, self.base@) is Some && v.is_of(
                    self@,
                    lookup(table@, self.base@)->0,
                ),
                Err(WeaponError::BaseStatsNotFound(name)) => lookup(table@, self.base@) is None
                    && name@ == self.base@,
            },
    {
        match self.base_stats(table) {
            Ok(stats) => Ok(self.dps_on(stats)),
            Err(e) => Err(e),
        }
    }
}

} // verus!
