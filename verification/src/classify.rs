//! What one trimmed line of an item's text says: the item's quality, an
//! increase of physical damage, an increase of attack speed, or added
//! damage. A line is read word by word, the words being what single spaces
//! separate; a line that says none of these gives nothing.

use vstd::prelude::*;
use crate::text::{
    begins_with, digits, is_word, piece, position, read_digits, read_unsigned, split,
    split_bounds, starts_with, to_chars, unsigned,
};
use crate::weapon::{AttackSpeedModifier, DamageType, FlatDamage, PhysModifier, Quality, Range};

verus! {

/// The number of a word that is an unsigned number of at most `max` with a
/// percent sign behind it.
pub open spec fn percent(word: Seq<char>, max: nat) -> Option<nat> {
    if word.len() > 0 && word.last() == '%' {
        unsigned(word.drop_last(), max)
    } else {
        None
    }
}

/// The quality that a line declares: the line begins with `Quality: +`,
/// then come digits that write a number of at most 255, then a percent
/// sign. What follows the percent sign does not matter.
pub open spec fn quality_of(line: Seq<char>) -> Option<Quality> {
    let head = "Quality: +"@;
    let rest = line.skip(head.len() as int);
    let k = position(rest, '%');
    if starts_with(line, head) && k < rest.len() {
        match digits(rest.take(k), 255) {
            Some(v) => Some(Quality(v as u8)),
            None => None,
        }
    } else {
        None
    }
}

/// The increase of physical damage that a line states: a percentage of at
/// most 65535 and the three words `increased Physical Damage`, nothing
/// more.
pub open spec fn phys_modifier_of(line: Seq<char>) -> Option<PhysModifier> {
    let words = split(line, ' ');
    if words.len() == 4 && words[1] == "increased"@ && words[2] == "Physical"@ && words[3]
        == "Damage"@ {
        match percent(words[0], 0xffff) {
            Some(v) => Some(PhysModifier(v as u16)),
            None => None,
        }
    } else {
        None
    }
}

/// The increase of attack speed that a line states: a percentage of at most
/// 255 and the three words `increased Attack Speed`, nothing more.
pub open spec fn attack_speed_of(line: Seq<char>) -> Option<AttackSpeedModifier> {
    let words = split(line, ' ');
    if words.len() == 4 && words[1] == "increased"@ && words[2] == "Attack"@ && words[3]
        == "Speed"@ {
        match percent(words[0], 0xff) {
            Some(v) => Some(AttackSpeedModifier(v as u8)),
            None => None,
        }
    } else {
        None
    }
}

/// The damage type that a word names.
pub open spec fn damage_type_of(word: Seq<char>) -> Option<DamageType> {
    if word == "Fire"@ {
        Some(DamageType::Fire)
    } else if word == "Cold"@ {
        Some(DamageType::Cold)
    } else if word == "Lightning"@ {
        Some(DamageType::Lightning)
    } else if word == "Chaos"@ {
        Some(DamageType::Chaos)
    } else if word == "Physical"@ {
        Some(DamageType::Physical)
    } else {
        None
    }
}

/// The damage that a line adds: the six words `Adds`, a number, `to`, a
/// number, the name of a damage type and `Damage`, nothing more. Either
/// number is at most 65535.
pub open spec fn flat_damage_of(line: Seq<char>) -> Option<FlatDamage> {
    let words = split(line, ' ');
    if words.len() == 6 && words[0] == "Adds"@ && words[2] == "to"@ && words[5] == "Damage"@ {
        match (unsigned(words[1], 0xffff), unsigned(words[3], 0xffff), damage_type_of(words[4])) {
            (Some(min), Some(max), Some(damage_type)) => Some(
                FlatDamage { damage_type, range: Range(min as u16, max as u16) },
            ),
            _ => None,
        }
    } else {
        None
    }
}

/// Reads a word as a percentage of at most `max`.
pub fn read_percent(word: &[char], max: u32) -> (r: Option<u32>)
    ensures
        match r {
            Some(v) => percent(word@, max as nat) == Some(v as nat),
            None => percent(word@, max as nat) is None,
        },
{
    let n = word.len();
    if n > 0 && word[n - 1] == '%' {
        let number = vstd::slice::slice_subrange(word, 0, n - 1);
        assert(number@ =~= word@.drop_last());
        read_unsigned(number, max)
    } else {
        None
    }
}

/// Reads the quality that a line declares.
pub fn read_quality(line: &[char]) -> (r: Option<Quality>)
    ensures
        r == quality_of(line@),
{
    let head = to_chars("Quality: +");
    if !begins_with(line, head.as_slice()) {
        return None;
    }
    let rest = vstd::slice::slice_subrange(line, head.len(), line.len());
    assert(rest@ =~= line@.skip(head@.len() as int));
    let mut k: usize = 0;
    while k < rest.len() && rest[k] != '%'
        invariant
            k <= rest@.len(),
            forall|j: int| 0 <= j < k ==> rest@[j] != '%',
        decreases rest@.len() - k,
    {
        k += 1;
    }
    proof {
        crate::text::lemma_position_is(rest@, '%', k as int);
    }
    if k == rest.len() {
        return None;
    }
    let number = vstd::slice::slice_subrange(rest, 0, k);
    assert(number@ =~= rest@.take(k as int));
    match read_digits(number, 255) {
        Some(v) => Some(Quality(v as u8)),
        None => None,
    }
}

/// Reads the increase of physical damage that a line states.
pub fn read_phys_modifier(line: &[char]) -> (r: Option<PhysModifier>)
    ensures
        r == phys_modifier_of(line@),
{
    let words = split_bounds(line, ' ');
    if words.len() == 4 && is_word(piece(line, &words, 1), "increased") && is_word(
        piece(line, &words, 2),
        "Physical",
    ) && is_word(piece(line, &words, 3), "Damage") {
        match read_percent(piece(line, &words, 0), 0xffff) {
            Some(v) => Some(PhysModifier(v as u16)),
            None => None,
        }
    } else {
        None
    }
}

/// Reads the increase of attack speed that a line states.
pub fn read_attack_speed(line: &[char]) -> (r: Option<AttackSpeedModifier>)
    ensures
        r == attack_speed_of(line@),
{
    let words = split_bounds(line, ' ');
    if words.len() == 4 && is_word(piece(line, &words, 1), "increased") && is_word(
        piece(line, &words, 2),
        "Attack",
    ) && is_word(piece(line, &words, 3), "Speed") {
        match read_percent(piece(line, &words, 0), 0xff) {
            Some(v) => Some(AttackSpeedModifier(v as u8)),
            None => None,
        }
    } else {
        None
    }
}

/// Reads the damage type that a word names.
pub fn read_damage_type(word: &[char]) -> (r: Option<DamageType>)
    ensures
        r == damage_type_of(word@),
{
    if is_word(word, "Fire") {
        Some(DamageType::Fire)
    } else if is_word(word, "Cold") {
        Some(DamageType::Cold)
    } else if is_word(word, "Lightning") {
        Some(DamageType::Lightning)
    } else if is_word(word, "Chaos") {
        Some(DamageType::Chaos)
    } else if is_word(word, "Physical") {
        Some(DamageType::Physical)
    } else {
        None
    }
}

/// Reads the damage that a line adds.
pub fn read_flat_damage(line: &[char]) -> (r: Option<FlatDamage>)
    ensures
        r == flat_damage_of(line@),
{
    let words = split_bounds(line, ' ');
    if words.len() == 6 && is_word(piece(line, &words, 0), "Adds") && is_word(
        piece(line, &words, 2),
        "to",
    ) && is_word(piece(line, &words, 5), "Damage") {
        let min = read_unsigned(piece(line, &words, 1), 0xffff);
        let max = read_unsigned(piece(line, &words, 3), 0xffff);
        let damage_type = read_damage_type(piece(line, &words, 4));
        match (min, max, damage_type) {
            (Some(min), Some(max), Some(damage_type)) => Some(
                FlatDamage { damage_type, range: Range(min as u16, max as u16) },
            ),
            _ => None,
        }
    } else {
        None
    }
}

/// The quality that `line` declares, as in `Quality: +20% (augmented)`.
pub fn try_parse_quality(line: &str) -> (r: Option<Quality>)
    ensures
        r == quality_of(line@),
{
    let chars = to_chars(line);
    read_quality(chars.as_slice())
}

/// The increase of physical damage that `line` states, as in
/// `107% increased Physical Damage`.
pub fn try_parse_phys_modifier(line: &str) -> (r: Option<PhysModifier>)
    ensures
        r == phys_modifier_of(line@),
{
    let chars = to_chars(line);
    read_phys_modifier(chars.as_slice())
}

/// The increase of attack speed that `line` states, as in
/// `9% increased Attack Speed`.
pub fn try_parse_attack_speed_modifier(line: &str) -> (r: Option<AttackSpeedModifier>)
    ensures
        r == attack_speed_of(line@),
{
    let chars = to_chars(line);
    read_attack_speed(chars.as_slice())
}

/// The damage that `line` adds, as in `Adds 7 to 16 Fire Damage`.
pub fn try_parse_flat_damage(line: &str) -> (r: Option<FlatDamage>)
    ensures
        r == flat_damage_of(line@),
{
    let chars = to_chars(line);
    read_flat_damage(chars.as_slice())
}

} // verus!
