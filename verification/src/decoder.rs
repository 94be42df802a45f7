//! From a line that runes have written back to the runes. The game folds
//! the runes of an item into one line for each kind, marked `(rune)`; which
//! runes stand behind the line's numbers is worked out here.
//!
//! This is no true inverse. Several sets of runes can add up to the same
//! numbers; the answer is always a run of one rune, the greatest that fits.

use vstd::prelude::*;
use crate::classify::{flat_damage_of, phys_modifier_of, read_flat_damage, read_phys_modifier};
use crate::rune::{Rune, RuneMartialBonus};
use crate::text::{ends_with, finishes_with, to_chars, trim, trim_bounds};
use crate::weapon::{FlatDamage, PhysModifier};

verus! {

/// How often `unit` goes into `value`, where it goes at least once and
/// leaves nothing over.
pub open spec fn copies(value: nat, unit: nat) -> Option<nat> {
    if unit > 0 && value > 0 && value % unit == 0 {
        Some(value / unit)
    } else {
        None
    }
}

/// A run of `n` times the rune `rune`.
pub open spec fn run(rune: Rune, n: nat) -> Seq<Rune> {
    Seq::new(n, |i: int| rune)
}

/// The iron runes, the greatest first.
pub open spec fn iron_tiers() -> Seq<Rune> {
    seq![Rune::GreaterIron, Rune::Iron, Rune::LesserIron]
}

/// The runes that add damage, kind by kind, the greatest of each kind first.
pub open spec fn flat_tiers() -> Seq<Rune> {
    seq![
        Rune::GreaterDesert,
        Rune::Desert,
        Rune::LesserDesert,
        Rune::GreaterGlacial,
        Rune::Glacial,
        Rune::LesserGlacial,
        Rune::GreaterStorm,
        Rune::Storm,
        Rune::LesserStorm,
    ]
}

/// The run of the first rune of `tiers` whose percentage goes into `value`
/// without rest.
pub open spec fn percent_run(value: nat, tiers: Seq<Rune>) -> Option<Seq<Rune>>
    decreases tiers.len(),
{
    if tiers.len() == 0 {
        None
    } else {
        match copies(value, tiers[0].percent()) {
            Some(n) => Some(run(tiers[0], n)),
            None => percent_run(value, tiers.drop_first()),
        }
    }
}

/// The first rune of `tiers` that adds exactly the damage `flat`.
pub open spec fn exact_tier(flat: FlatDamage, tiers: Seq<Rune>) -> Option<Rune>
    decreases tiers.len(),
{
    if tiers.len() == 0 {
        None
    } else if tiers[0].flat() == Some(flat) {
        Some(tiers[0])
    } else {
        exact_tier(flat, tiers.drop_first())
    }
}

/// How many times the damage `unit` makes the damage `flat`: both are of
/// one type, and the least and the greatest hit of `flat` are the same
/// multiple, once or more, of those of `unit`.
pub open spec fn multiple(flat: FlatDamage, unit: FlatDamage) -> Option<nat> {
    if flat.damage_type == unit.damage_type {
        match (
            copies(flat.range.0 as nat, unit.range.0 as nat),
            copies(flat.range.1 as nat, unit.range.1 as nat),
        ) {
            (Some(a), Some(b)) => if a == b {
                Some(a)
            } else {
                None
            },
            _ => None,
        }
    } else {
        None
    }
}

/// The run of the first rune of `tiers` of whose damage `flat` is a
/// multiple.
pub open spec fn multiple_run(flat: FlatDamage, tiers: Seq<Rune>) -> Option<Seq<Rune>>
    decreases tiers.len(),
{
    if tiers.len() == 0 {
        None
    } else {
        let n = match tiers[0].flat() {
            Some(unit) => multiple(flat, unit),
            None => None,
        };
        match n {
            Some(n) => Some(run(tiers[0], n)),
            None => multiple_run(flat, tiers.drop_first()),
        }
    }
}

/// The runes behind an increase of physical damage: as many greater iron
/// runes as make it up exactly, else as many iron runes, else as many
/// lesser iron runes, else none.
pub open spec fn runes_of_percent(p: PhysModifier) -> Option<Seq<Rune>> {
    percent_run(p.0 as nat, iron_tiers())
}

/// The runes behind added damage: the one rune that adds exactly this, else
/// the run of the first rune of whose damage it is a multiple, else none.
pub open spec fn runes_of_flat(flat: FlatDamage) -> Option<Seq<Rune>> {
    match exact_tier(flat, flat_tiers()) {
        Some(rune) => Some(seq![rune]),
        None => multiple_run(flat, flat_tiers()),
    }
}

/// The runes behind a line: the line, trimmed, ends in `(rune)`, and what
/// stands before that, trimmed again, states an increase of physical damage
/// or adds damage for which there are runes.
pub open spec fn runes_of(line: Seq<char>) -> Option<Seq<Rune>> {
    let mark = "(rune)"@;
    let whole = trim(line);
    let body = trim(whole.take(whole.len() - mark.len()));
    if ends_with(whole, mark) {
        match phys_modifier_of(body) {
            Some(p) => runes_of_percent(p),
            None => match flat_damage_of(body) {
                Some(flat) => runes_of_flat(flat),
                None => None,
            },
        }
    } else {
        None
    }
}

/// A run of `n` runes increases physical damage by `n` times the
/// percentage of the rune.
pub proof fn lemma_percent_of_run(rune: Rune, n: nat)
    ensures
        crate::dps::iron_percent(run(rune, n)) == n * rune.percent(),
    decreases n,
{
    if n > 0 {
        assert(run(rune, n).drop_last() =~= run(rune, (n - 1) as nat));
        lemma_percent_of_run(rune, (n - 1) as nat);
        assert((n - 1) * rune.percent() + rune.percent() == n * rune.percent())
            by (nonlinear_arith);
    }
}

/// The runes behind an increase of physical damage make up that increase
/// exactly: they are one or more, and their percentages add up to it.
pub proof fn lemma_runes_of_percent_add_up(p: PhysModifier)
    requires
        runes_of_percent(p) is Some,
    ensures
        runes_of_percent(p)->0.len() >= 1,
        crate::dps::iron_percent(runes_of_percent(p)->0) == p.0,
{
    lemma_percent_run_adds_up(p.0 as nat, iron_tiers());
}

proof fn lemma_percent_run_adds_up(value: nat, tiers: Seq<Rune>)
    requires
        percent_run(value, tiers) is Some,
    ensures
        percent_run(value, tiers)->0.len() >= 1,
        crate::dps::iron_percent(percent_run(value, tiers)->0) == value,
    decreases tiers.len(),
{
    let unit = tiers[0].percent();
    match copies(value, unit) {
        Some(n) => {
            lemma_percent_of_run(tiers[0], n);
            assert(n >= 1 && n * unit == value) by (nonlinear_arith)
                requires
                    unit > 0,
                    value > 0,
                    value % unit == 0,
                    n == value / unit,
            ;
        },
        None => {
            lemma_percent_run_adds_up(value, tiers.drop_first());
        },
    }
}

/// No increase of physical damage that iron runes do not make up exactly
/// has runes behind it: none of 18, 16 and 14 goes into it without rest.
pub proof fn lemma_runes_of_percent_by_exact_division(p: PhysModifier)
    ensures
        runes_of_percent(p) is Some <==> p.0 > 0 && (p.0 % 18 == 0 || p.0 % 16 == 0 || p.0 % 14
            == 0),
{
    let value = p.0 as nat;
    let tiers = iron_tiers();
    let second = tiers.drop_first();
    let third = second.drop_first();
    assert(tiers[0] == Rune::GreaterIron && second[0] == Rune::Iron && third[0]
        == Rune::LesserIron);
    assert(percent_run(value, third.drop_first()) is None);
    assert(percent_run(value, third) is Some <==> copies(value, 14) is Some);
    assert(percent_run(value, second) is Some <==> copies(value, 16) is Some || copies(value, 14)
        is Some);
}

/// Computes how often `unit` goes into `value`.
fn count_copies(value: u16, unit: u16) -> (r: Option<u16>)
    ensures
        match r {
            Some(n) => copies(value as nat, unit as nat) == Some(n as nat),
            None => copies(value as nat, unit as nat) is None,
        },
{
    if unit > 0 && value > 0 && value % unit == 0 {
        Some(value / unit)
    } else {
        None
    }
}

/// Makes a run of `n` times the rune `rune`.
fn make_run(rune: Rune, n: u16) -> (r: Vec<Rune>)
    ensures
        r@ == run(rune, n as nat),
{
    let mut out: Vec<Rune> = Vec::new();
    let mut i: u16 = 0;
    while i < n
        invariant
            i <= n,
            out@ == run(rune, i as nat),
        decreases n - i,
    {
        out.push(rune);
        i += 1;
        assert(out@ =~= run(rune, i as nat));
    }
    out
}

/// The runes behind an increase of physical damage.
pub fn decode_phys_modifier(p: PhysModifier) -> (r: Option<Vec<Rune>>)
    ensures
        match r {
            Some(runes) => runes_of_percent(p) == Some(runes@),
            None => runes_of_percent(p) is None,
        },
{
    let tiers = [Rune::GreaterIron, Rune::Iron, Rune::LesserIron];
    assert(tiers@ =~= iron_tiers());
    let mut i: usize = 0;
    assert(tiers@.skip(0) =~= tiers@);
    while i < 3
        invariant
            i <= 3,
            tiers@ == iron_tiers(),
            runes_of_percent(p) == percent_run(p.0 as nat, tiers@.skip(i as int)),
        decreases 3 - i,
    {
        let unit: u16 = match tiers[i].martial() {
            RuneMartialBonus::Phys(bonus) => bonus.0,
            RuneMartialBonus::Flat(_) => 0,
        };
        match count_copies(p.0, unit) {
            Some(n) => {
                return Some(make_run(tiers[i], n));
            },
            None => {},
        }
        assert(tiers@.skip(i as int).drop_first() =~= tiers@.skip(i + 1));
        i += 1;
    }
    None
}

/// Computes how many times the damage `unit` makes the damage `flat`.
fn count_multiple(flat: FlatDamage, unit: FlatDamage) -> (r: Option<u16>)
    ensures
        match r {
            Some(n) => multiple(flat, unit) == Some(n as nat),
            None => multiple(flat, unit) is None,
        },
{
    if flat.damage_type == unit.damage_type {
        match (count_copies(flat.range.0, unit.range.0), count_copies(flat.range.1, unit.range.1)) {
            (Some(a), Some(b)) => if a == b {
                Some(a)
            } else {
                None
            },
            _ => None,
        }
    } else {
        None
    }
}

/// The runes behind added damage.
pub fn decode_flat_damage(flat: FlatDamage) -> (r: Option<Vec<Rune>>)
    ensures
        match r {
            Some(runes) => runes_of_flat(flat) == Some(runes@),
            None => runes_of_flat(flat) is None,
        },
{
    let tiers = [
        Rune::GreaterDesert,
        Rune::Desert,
        Rune::LesserDesert,
        Rune::GreaterGlacial,
        Rune::Glacial,
        Rune::LesserGlacial,
        Rune::GreaterStorm,
        Rune::Storm,
        Rune::LesserStorm,
    ];
    assert(tiers@ =~= flat_tiers());
    assert(tiers@.skip(0) =~= tiers@);
    let mut i: usize = 0;
    while i < 9
        invariant
            i <= 9,
            tiers@ == flat_tiers(),
            exact_tier(flat, flat_tiers()) == exact_tier(flat, tiers@.skip(i as int)),
        decreases 9 - i,
    {
        match tiers[i].flat_martial() {
            Some(unit) => {
                if unit == flat {
                    let found = vec![tiers[i]];
                    assert(found@ =~= seq![tiers@[i as int]]);
                    return Some(found);
                }
            },
            None => {},
        }
        assert(tiers@.skip(i as int).drop_first() =~= tiers@.skip(i + 1));
        i += 1;
    }
    let mut i: usize = 0;
    while i < 9
        invariant
            i <= 9,
            tiers@ == flat_tiers(),
            exact_tier(flat, flat_tiers()) is None,
            multiple_run(flat, flat_tiers()) == multiple_run(flat, tiers@.skip(i as int)),
        decreases 9 - i,
    {
        let n = match tiers[i].flat_martial() {
            Some(unit) => count_multiple(flat, unit),
            None => None,
        };
        match n {
            Some(n) => {
                return Some(make_run(tiers[i], n));
            },
            None => {},
        }
        assert(tiers@.skip(i as int).drop_first() =~= tiers@.skip(i + 1));
        i += 1;
    }
    None
}

/// Reads the runes behind a line.
pub fn read_runes(line: &[char]) -> (r: Option<Vec<Rune>>)
    ensures
        match r {
            Some(runes) => runes_of(line@) == Some(runes@),
            None => runes_of(line@) is None,
        },
{
    let mark = to_chars("(rune)");
    let (a, b) = trim_bounds(line);
    let whole = vstd::slice::slice_subrange(line, a, b);
    if !finishes_with(whole, mark.as_slice()) {
        return None;
    }
    let marked = vstd::slice::slice_subrange(whole, 0, whole.len() - mark.len());
    assert(marked@ =~= whole@.take(whole@.len() - mark@.len()));
    let (c, d) = trim_bounds(marked);
    let body = vstd::slice::slice_subrange(marked, c, d);
    match read_phys_modifier(body) {
        Some(p) => decode_phys_modifier(p),
        None => match read_flat_damage(body) {
            Some(flat) => decode_flat_damage(flat),
            None => None,
        },
    }
}

/// The runes behind `line`, as in `32% increased Physical Damage (rune)`,
/// which two iron runes have written.
pub fn try_parse_rune(line: &str) -> (r: Option<Vec<Rune>>)
    ensures
        match r {
            Some(runes) => runes_of(line@) == Some(runes@),
            None => runes_of(line@) is None,
        },
{
    let chars = to_chars(line);
    read_runes(chars.as_slice())
}

} // verus!
