//! From the text of an item to the item.
//!
//! The text is walked once, line by line, in three steps that never go
//! back. The class is taken from the line that declares it, or else from
//! the base that was found. The head of the text is searched for the name
//! of a known base and for the quality, up to the quality or the item
//! level, whichever comes first. What follows is searched for runes and
//! explicit modifiers, up to the attack speed, which the game writes last.
//! Lines that say nothing known are passed over.

use vstd::prelude::*;
use crate::rune::Rune;
use crate::scanner::{
    Head, Lines, Mods, declared_class, lemma_head_base_in_table, lemma_scan_keeps_types_distinct,
    lines_of, read_head, read_mods, scan_head, scan_mods,
};
use crate::text::to_chars;
use crate::weapon::{
    Explicits, ExplicitsView, ItemClass, ItemView, Quality, Weapon, WeaponStats, copy_flats,
    copy_runes, find_base, lemma_lookup_finds, lookup,
};

verus! {

/// An item as it was read from text.
#[derive(Debug, Clone, PartialEq)]
pub struct Parsed {
    pub base: String,
    pub item_class: ItemClass,
    pub explicits: Explicits,
    pub runes: Vec<Rune>,
    pub quality: Quality,
}

impl View for Parsed {
    type V = ItemView;

    open spec fn view(&self) -> ItemView {
        ItemView {
            base: self.base@,
            item_class: self.item_class,
            quality: self.quality,
            explicits: self.explicits@,
            runes: self.runes@,
        }
    }
}

impl Parsed {
    /// The weapon that the item is: the same base, class, quality,
    /// modifiers and runes.
    pub fn into_weapon(self) -> (w: Weapon)
        ensures
            w@ == self@,
    {
        Weapon::from(self)
    }

    /// The weapon that the item is, the item being kept.
    pub fn to_weapon(&self) -> (w: Weapon)
        ensures
            w@ == self@,
    {
        Weapon {
            base: self.base.clone(),
            item_class: self.item_class,
            quality: self.quality,
            explicits: Explicits {
                flats: copy_flats(&self.explicits.flats),
                phys: self.explicits.phys,
                atk_spd: self.explicits.atk_spd,
            },
            runes: copy_runes(&self.runes),
        }
    }
}

impl From<Parsed> for Weapon {
    fn from(value: Parsed) -> (w: Weapon) {
        Weapon {
            base: value.base,
            item_class: value.item_class,
            quality: value.quality,
            explicits: value.explicits,
            runes: value.runes,
        }
    }
}

impl vstd::std_specs::convert::FromSpecImpl<Parsed> for Weapon {
    open spec fn obeys_from_spec() -> bool {
        true
    }

    open spec fn from_spec(value: Parsed) -> Weapon {
        Weapon {
            base: value.base,
            item_class: value.item_class,
            quality: value.quality,
            explicits: value.explicits,
            runes: value.runes,
        }
    }
}

/// Why a text gives no item.
#[derive(Debug, Clone, PartialEq)]
pub enum ParseError {
    /// No line declares a class, and no base was found from which to take
    /// one.
    ItemClassMissing,
    /// The class is none of the supported ones. Its name is given.
    UnsupportedWeaponClass(String),
    /// The head of the text names no known base.
    UnsupportedItemBase,
}

/// What a [`ParseError`] holds.
pub enum ParseFailure {
    ItemClassMissing,
    UnsupportedWeaponClass(Seq<char>),
    UnsupportedItemBase,
}

impl View for ParseError {
    type V = ParseFailure;

    open spec fn view(&self) -> ParseFailure {
        match self {
            ParseError::ItemClassMissing => ParseFailure::ItemClassMissing,
            ParseError::UnsupportedWeaponClass(name) => ParseFailure::UnsupportedWeaponClass(
                name@,
            ),
            ParseError::UnsupportedItemBase => ParseFailure::UnsupportedItemBase,
        }
    }
}

/// The item that a class, the head and the lines behind it make.
pub open spec fn item_of(
    lines: Seq<Seq<char>>,
    table: Seq<WeaponStats>,
    item_class: ItemClass,
    head: Head,
) -> ItemView {
    let m = scan_mods(
        lines,
        head.next,
        Mods { phys: None, atk_spd: None, flats: Seq::empty(), runes: Seq::empty() },
    );
    ItemView {
        base: table[head.base->0].base@,
        item_class,
        quality: head.quality,
        explicits: ExplicitsView { flats: m.flats, phys: m.phys, atk_spd: m.atk_spd },
        runes: m.runes,
    }
}

/// What a text gives on a table of bases.
///
/// Where the text declares a class, that class counts: a class that is not
/// supported is the error, whatever else the text holds, and with a
/// supported class a text whose head names no base has an unsupported
/// base. Where the text declares none, the class is that of the base as
/// the table has it, which may be unsupported too; and with no base either
/// the class is missing.
pub open spec fn parse_of(text: Seq<char>, table: Seq<WeaponStats>) -> Result<
    ItemView,
    ParseFailure,
> {
    let lines = lines_of(text);
    let head = scan_head(lines, table, 0, None);
    match declared_class(lines) {
        Some(name) => match ItemClass::named(name) {
            None => Err(ParseFailure::UnsupportedWeaponClass(name)),
            Some(item_class) => if head.base is None {
                Err(ParseFailure::UnsupportedItemBase)
            } else {
                Ok(item_of(lines, table, item_class, head))
            },
        },
        None => if head.base is None {
            Err(ParseFailure::ItemClassMissing)
        } else {
            let name = lookup(table, table[head.base->0].base@)->0.item_class@;
            match ItemClass::named(name) {
                None => Err(ParseFailure::UnsupportedWeaponClass(name)),
                Some(item_class) => Ok(item_of(lines, table, item_class, head)),
            }
        },
    }
}

/// Whether `r` is what reading `text` on `table` gives: the item that
/// [`parse_of`] states, or the failure that it states.
pub open spec fn reads(
    r: Result<Parsed, ParseError>,
    text: Seq<char>,
    table: Seq<WeaponStats>,
) -> bool {
    match r {
        Ok(item) => parse_of(text, table) == Ok::<ItemView, ParseFailure>(item@),
        Err(e) => parse_of(text, table) == Err::<ItemView, ParseFailure>(e@),
    }
}

/// Reading the same text twice on the same table gives the same: two items
/// that hold the same base, class, quality, modifiers and runes, or twice
/// the same failure.
pub proof fn lemma_parse_is_deterministic(
    first: Result<Parsed, ParseError>,
    second: Result<Parsed, ParseError>,
    text: Seq<char>,
    table: Seq<WeaponStats>,
)
    requires
        reads(first, text, table),
        reads(second, text, table),
    ensures
        match (first, second) {
            (Ok(a), Ok(b)) => a@ == b@,
            (Err(a), Err(b)) => a@ == b@,
            _ => false,
        },
{
}

/// A text that declares a class which is none of the supported ones gives
/// the failure that names this class, whatever else the text holds and
/// whatever the table.
pub proof fn lemma_unsupported_class_is_named(
    text: Seq<char>,
    table: Seq<WeaponStats>,
    name: Seq<char>,
)
    requires
        declared_class(lines_of(text)) == Some(name),
        ItemClass::named(name) is None,
    ensures
        parse_of(text, table) == Err::<ItemView, ParseFailure>(
            ParseFailure::UnsupportedWeaponClass(name),
        ),
{
}

/// Reads an item from the text that the game copies for it, on a table of
/// the known bases.
pub fn parse(text: &str, table: &Vec<WeaponStats>) -> (r: Result<Parsed, ParseError>)
    ensures
        reads(r, text@, table@),
{
    let lines = Lines::of(text);
    let head = read_head(&lines, table);
    let item_class = match lines.declared_class() {
        Some(name) => {
            let chars = to_chars(name.as_str());
            match ItemClass::from_name(chars.as_slice()) {
                Some(item_class) => item_class,
                None => {
                    return Err(ParseError::UnsupportedWeaponClass(name));
                },
            }
        },
        None => {
            match head.base {
                Some(k) => {
                    proof {
                        lemma_lookup_finds(table@, table@[k as int].base@, k as int);
                    }
                    match find_base(table, &table[k].base) {
                        Some(stats) => {
                            let chars = to_chars(stats.item_class.as_str());
                            match ItemClass::from_name(chars.as_slice()) {
                                Some(item_class) => item_class,
                                None => {
                                    return Err(
                                        ParseError::UnsupportedWeaponClass(
                                            stats.item_class.clone(),
                                        ),
                                    );
                                },
                            }
                        },
                        None => {
                            return Err(ParseError::ItemClassMissing);
                        },
                    }
                },
                None => {
                    return Err(ParseError::ItemClassMissing);
                },
            }
        },
    };
    match head.base {
        Some(k) => {
            let (explicits, runes) = read_mods(&lines, head.next);
            Ok(
                Parsed {
                    base: table[k].base.clone(),
                    item_class,
                    explicits,
                    runes,
                    quality: head.quality,
                },
            )
        },
        None => Err(ParseError::UnsupportedItemBase),
    }
}

/// The base of an item that was read is a base of the table.
pub proof fn lemma_parsed_base_is_known(text: Seq<char>, table: Seq<WeaponStats>)
    requires
        parse_of(text, table) is Ok,
    ensures
        lookup(table, parse_of(text, table)->Ok_0.base) is Some,
{
    let lines = lines_of(text);
    lemma_head_base_in_table(lines, table, 0, None);
    let k = scan_head(lines, table, 0, None).base->0;
    lemma_lookup_finds(table, table[k].base@, k);
}

/// An item that was read has no two entries of added damage of one type.
pub proof fn lemma_parsed_flats_are_of_distinct_types(
    text: Seq<char>,
    table: Seq<WeaponStats>,
    i: int,
    j: int,
)
    requires
        parse_of(text, table) is Ok,
        0 <= i < j < parse_of(text, table)->Ok_0.explicits.flats.len(),
    ensures
        parse_of(text, table)->Ok_0.explicits.flats[i].damage_type != parse_of(
            text,
            table,
        )->Ok_0.explicits.flats[j].damage_type,
{
    let lines = lines_of(text);
    let head = scan_head(lines, table, 0, None);
    let start = Mods { phys: None, atk_spd: None, flats: Seq::empty(), runes: Seq::empty() };
    lemma_scan_keeps_types_distinct(lines, head.next, start);
}

} // verus!
