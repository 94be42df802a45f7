//! The walk over the lines of a text: how a text falls into lines, which
//! line declares the class, what the head of the text gives, and what the
//! lines behind the head give. Each step is a function from what is known
//! and one line to what is known after it.

use vstd::prelude::*;
use crate::classify::{
    attack_speed_of, flat_damage_of, phys_modifier_of, quality_of, read_attack_speed,
    read_flat_damage, read_phys_modifier, read_quality,
};
use crate::decoder::{read_runes, runes_of};
use crate::dps::{first_flat, first_of};
use crate::rune::Rune;
use crate::text::{
    begins_with, contains, cut, find, first_at, has, in_bounds, piece, split, split_bounds,
    starts_with, to_chars, trim, trim_bounds,
};
use crate::weapon::{
    AttackSpeedModifier, DamageType, Explicits, FlatDamage, PhysModifier, Quality, WeaponStats,
};

verus! {

/// `lines` without its last line, where that one is empty.
pub open spec fn without_empty_end(lines: Seq<Seq<char>>) -> Seq<Seq<char>> {
    if lines.len() > 0 && lines.last().len() == 0 {
        lines.drop_last()
    } else {
        lines
    }
}

/// The lines of a text as they are walked. A line feed ends a line, so that
/// nothing behind the last line feed is no line. Every line is trimmed, and
/// a last line that is empty then is left out.
pub open spec fn lines_of(text: Seq<char>) -> Seq<Seq<char>> {
    without_empty_end(
        Seq::new(
            without_empty_end(split(text, '\n')).len(),
            |k: int| trim(without_empty_end(split(text, '\n'))[k]),
        ),
    )
}

/// The first of `lines` that holds `Item Class:`.
pub open spec fn class_line(lines: Seq<Seq<char>>) -> Option<Seq<char>>
    decreases lines.len(),
{
    if lines.len() == 0 {
        None
    } else if contains(lines[0], "Item Class:"@) {
        Some(lines[0])
    } else {
        class_line(lines.drop_first())
    }
}

/// The name of the class that the text declares: what follows the first
/// colon with a space behind it in the first line that holds `Item Class:`,
/// trimmed.
pub open spec fn declared_class(lines: Seq<Seq<char>>) -> Option<Seq<char>> {
    match class_line(lines) {
        Some(line) => match first_at(line, ": "@, 0) {
            Some(k) => Some(trim(line.skip(k + 2))),
            None => None,
        },
        None => None,
    }
}

/// The index of the base that `line` names: of the entries of `table`
/// whose name stands in the line, the last. A table lists a longer name
/// behind the shorter names that it holds, so the longest wins.
pub open spec fn named_base(line: Seq<char>, table: Seq<WeaponStats>) -> Option<int>
    decreases table.len(),
{
    if table.len() == 0 {
        None
    } else if contains(line, table.last().base@) {
        Some(table.len() - 1)
    } else {
        named_base(line, table.drop_last())
    }
}

/// What the head of a text gave: the index of the base in the table, the
/// quality, and the index of the line at which to go on.
pub struct Head {
    pub base: Option<int>,
    pub quality: Quality,
    pub next: int,
}

/// The base after one more line of the head: as long as none is found, the
/// base that the line names.
pub open spec fn base_after(
    base: Option<int>,
    line: Seq<char>,
    table: Seq<WeaponStats>,
) -> Option<int> {
    if base is None {
        named_base(line, table)
    } else {
        base
    }
}

/// Walks the head of the text from line `i` on, `base` being what was found
/// before. Every line is searched for the name of a base as long as none is
/// found, and is tested for the quality as well. A line that declares a
/// quality other than 0 ends the head with that quality, and one that
/// begins with `Item Level` ends it with quality 0; the walk goes on behind
/// that line.
pub open spec fn scan_head(
    lines: Seq<Seq<char>>,
    table: Seq<WeaponStats>,
    i: int,
    base: Option<int>,
) -> Head
    decreases lines.len() - i,
{
    if i < 0 || i >= lines.len() {
        Head { base, quality: Quality(0), next: lines.len() as int }
    } else if quality_of(lines[i]) is Some && quality_of(lines[i]) != Some(Quality(0)) {
        Head {
            base: base_after(base, lines[i], table),
            quality: quality_of(lines[i])->0,
            next: i + 1,
        }
    } else if starts_with(lines[i], "Item Level"@) {
        Head { base: base_after(base, lines[i], table), quality: Quality(0), next: i + 1 }
    } else {
        scan_head(lines, table, i + 1, base_after(base, lines[i], table))
    }
}

/// What the lines behind the head have given so far.
pub struct Mods {
    pub phys: Option<PhysModifier>,
    pub atk_spd: Option<AttackSpeedModifier>,
    pub flats: Seq<FlatDamage>,
    pub runes: Seq<Rune>,
}

/// What one more line gives. There are two states. As long as no increase
/// of physical damage is known, a line of runes adds its runes, and a line
/// that states the increase gives it. Once the increase is known, a line
/// that adds damage gives that damage, unless damage of its type is known
/// already. In either state a line that none of these took and that states
/// the increase of attack speed gives it. Any other line gives nothing.
pub open spec fn step(m: Mods, line: Seq<char>) -> Mods {
    if m.phys is None && runes_of(line) is Some {
        Mods { runes: m.runes + runes_of(line)->0, ..m }
    } else if m.phys is None && phys_modifier_of(line) is Some {
        Mods { phys: phys_modifier_of(line), ..m }
    } else if m.phys is Some && flat_damage_of(line) is Some {
        if first_of(m.flats, flat_damage_of(line)->0.damage_type) is None {
            Mods { flats: m.flats.push(flat_damage_of(line)->0), ..m }
        } else {
            m
        }
    } else if attack_speed_of(line) is Some {
        Mods { atk_spd: attack_speed_of(line), ..m }
    } else {
        m
    }
}

/// Walks the lines from line `i` on, up to the line that gives the increase
/// of attack speed or to the end.
pub open spec fn scan_mods(lines: Seq<Seq<char>>, i: int, m: Mods) -> Mods
    decreases lines.len() - i,
{
    if i < 0 || i >= lines.len() || m.atk_spd is Some {
        m
    } else {
        scan_mods(lines, i + 1, step(m, lines[i]))
    }
}

/// Whether no two entries of `flats` are of one damage type.
pub open spec fn distinct_types(flats: Seq<FlatDamage>) -> bool {
    forall|i: int, j: int|
        0 <= i < j < flats.len() ==> flats[i].damage_type != flats[j].damage_type
}

proof fn lemma_first_of_none(flats: Seq<FlatDamage>, t: DamageType, i: int)
    requires
        first_of(flats, t) is None,
        0 <= i < flats.len(),
    ensures
        flats[i].damage_type != t,
    decreases flats.len(),
{
    if i > 0 {
        assert(flats.drop_first()[i - 1] == flats[i]);
        lemma_first_of_none(flats.drop_first(), t, i - 1);
    }
}

/// The walk behind the head never takes damage of a type twice.
pub proof fn lemma_scan_keeps_types_distinct(lines: Seq<Seq<char>>, i: int, m: Mods)
    requires
        distinct_types(m.flats),
    ensures
        distinct_types(scan_mods(lines, i, m).flats),
    decreases lines.len() - i,
{
    if !(i < 0 || i >= lines.len() || m.atk_spd is Some) {
        let next = step(m, lines[i]);
        assert(distinct_types(next.flats)) by {
            if next.flats != m.flats {
                let added = flat_damage_of(lines[i])->0;
                assert(next.flats == m.flats.push(added));
                assert forall|a: int, b: int| 0 <= a < b < next.flats.len() implies next.flats[a].damage_type
                    != next.flats[b].damage_type by {
                    if b == m.flats.len() {
                        lemma_first_of_none(m.flats, added.damage_type, a);
                    }
                }
            }
        }
        lemma_scan_keeps_types_distinct(lines, i + 1, next);
    }
}

/// The base that a line names is an entry of the table.
pub proof fn lemma_named_base_in_table(line: Seq<char>, table: Seq<WeaponStats>)
    ensures
        named_base(line, table) is Some ==> 0 <= named_base(line, table)->0 < table.len(),
    decreases table.len(),
{
    if table.len() > 0 && !contains(line, table.last().base@) {
        lemma_named_base_in_table(line, table.drop_last());
    }
}

/// The base that the head gives is an entry of the table.
pub proof fn lemma_head_base_in_table(
    lines: Seq<Seq<char>>,
    table: Seq<WeaponStats>,
    i: int,
    base: Option<int>,
)
    requires
        base is Some ==> 0 <= base->0 < table.len(),
    ensures
        scan_head(lines, table, i, base).base is Some ==> 0 <= scan_head(
            lines,
            table,
            i,
            base,
        ).base->0 < table.len(),
    decreases lines.len() - i,
{
    if 0 <= i < lines.len() {
        lemma_named_base_in_table(lines[i], table);
        if quality_of(lines[i]) is Some && quality_of(lines[i]) != Some(Quality(0)) {
        } else if starts_with(lines[i], "Item Level"@) {
        } else {
            lemma_head_base_in_table(lines, table, i + 1, base_after(base, lines[i], table));
        }
    }
}

/// The index that a machine index stands for.
pub open spec fn as_index(k: Option<usize>) -> Option<int> {
    match k {
        Some(k) => Some(k as int),
        None => None,
    }
}

/// The lines of a text, cut and trimmed for the walk.
pub struct Lines {
    text: String,
    chars: Vec<char>,
    bounds: Vec<(usize, usize)>,
}

impl View for Lines {
    type V = Seq<Seq<char>>;

    closed spec fn view(&self) -> Seq<Seq<char>> {
        cut(self.chars@, self.bounds@)
    }
}

/// The bounds of the lines of a text as they are walked.
fn line_bounds(chars: &[char]) -> (r: Vec<(usize, usize)>)
    ensures
        in_bounds(chars@, r@),
        cut(chars@, r@) == lines_of(chars@),
{
    let mut raw = split_bounds(chars, '\n');
    let ghost pieces = split(chars@, '\n');
    if raw.len() > 0 {
        let (a, b) = raw[raw.len() - 1];
        assert(cut(chars@, raw@)[raw@.len() - 1].len() == b - a);
        if a == b {
            raw.pop();
        }
    }
    let ghost kept = without_empty_end(pieces);
    assert(cut(chars@, raw@) =~= kept);
    let mut lines: Vec<(usize, usize)> = Vec::new();
    let mut k: usize = 0;
    while k < raw.len()
        invariant
            k <= raw@.len(),
            lines@.len() == k,
            in_bounds(chars@, raw@),
            in_bounds(chars@, lines@),
            cut(chars@, raw@) == kept,
            forall|j: int| 0 <= j < k ==> #[trigger] cut(chars@, lines@)[j] == trim(kept[j]),
        decreases raw@.len() - k,
    {
        let (a, b) = raw[k];
        let whole = vstd::slice::slice_subrange(chars, a, b);
        let (c, d) = trim_bounds(whole);
        let ghost before = lines@;
        lines.push((a + c, a + d));
        proof {
            assert(whole@ == kept[k as int]);
            assert(chars@.subrange(a + c, a + d) =~= whole@.subrange(c as int, d as int));
            assert forall|j: int| 0 <= j < k + 1 implies #[trigger] cut(chars@, lines@)[j] == trim(
                kept[j],
            ) by {
                if j < k {
                    assert(cut(chars@, lines@)[j] == cut(chars@, before)[j]);
                }
            }
        }
        k += 1;
    }
    let ghost trimmed = Seq::new(kept.len(), |k: int| trim(kept[k]));
    assert(cut(chars@, lines@) =~= trimmed);
    if lines.len() > 0 {
        let (a, b) = lines[lines.len() - 1];
        assert(cut(chars@, lines@)[lines@.len() - 1].len() == b - a);
        if a == b {
            lines.pop();
        }
    }
    assert(cut(chars@, lines@) =~= without_empty_end(trimmed));
    lines
}

/// The names of the bases of a table, each as characters.
fn names_of(table: &Vec<WeaponStats>) -> (r: Vec<Vec<char>>)
    ensures
        r@.len() == table@.len(),
        forall|k: int| 0 <= k < r@.len() ==> (#[trigger] r@[k])@ == table@[k].base@,
{
    let mut names: Vec<Vec<char>> = Vec::new();
    let mut k: usize = 0;
    while k < table.len()
        invariant
            k <= table@.len(),
            names@.len() == k,
            forall|j: int| 0 <= j < k ==> (#[trigger] names@[j])@ == table@[j].base@,
        decreases table@.len() - k,
    {
        names.push(to_chars(table[k].base.as_str()));
        k += 1;
    }
    names
}

/// Finds the base that `line` names. `names` holds the names of the bases of
/// `table`.
fn base_named(line: &[char], table: &Vec<WeaponStats>, names: &Vec<Vec<char>>) -> (r: Option<
    usize,
>)
    requires
        names@.len() == table@.len(),
        forall|k: int| 0 <= k < names@.len() ==> (#[trigger] names@[k])@ == table@[k].base@,
    ensures
        as_index(r) == named_base(line@, table@),
        r is Some ==> r->0 < table@.len(),
{
    let mut k: usize = names.len();
    assert(table@.take(k as int) =~= table@);
    while k > 0
        invariant
            k <= names@.len() == table@.len(),
            forall|j: int| 0 <= j < names@.len() ==> (#[trigger] names@[j])@ == table@[j].base@,
            named_base(line@, table@) == named_base(line@, table@.take(k as int)),
        decreases k,
    {
        if has(line, names[k - 1].as_slice()) {
            return Some(k - 1);
        }
        assert(table@.take(k as int).drop_last() =~= table@.take(k - 1));
        k -= 1;
    }
    None
}

impl Lines {
    #[verifier::type_invariant]
    spec fn well_formed(self) -> bool {
        self.chars@ == self.text@ && in_bounds(self.chars@, self.bounds@)
    }

    /// The lines of `text`.
    pub fn of(text: &str) -> (r: Lines)
        ensures
            r@ == lines_of(text@),
    {
        let chars = to_chars(text);
        let bounds = line_bounds(chars.as_slice());
        Lines { text: String::from_str(text), chars, bounds }
    }

    /// The number of lines.
    pub fn len(&self) -> (n: usize)
        ensures
            n == self@.len(),
    {
        self.bounds.len()
    }

    /// The line at index `k`.
    fn line(&self, k: usize) -> (r: &[char])
        requires
            k < self@.len(),
        ensures
            r@ == self@[k as int],
    {
        proof {
            use_type_invariant(self);
        }
        piece(self.chars.as_slice(), &self.bounds, k)
    }

    /// The line at index `k`, where there is one.
    pub fn get(&self, k: usize) -> (r: Option<&[char]>)
        ensures
            match r {
                Some(line) => k < self@.len() && line@ == self@[k as int],
                None => k >= self@.len(),
            },
    {
        if k < self.len() {
            Some(self.line(k))
        } else {
            None
        }
    }

    /// The name of the class that the text declares.
    pub fn declared_class(&self) -> (r: Option<String>)
        ensures
            match r {
                Some(name) => declared_class(self@) == Some(name@),
                None => declared_class(self@) is None,
            },
    {
        let mark = to_chars("Item Class:");
        let colon = to_chars(": ");
        proof {
            reveal_strlit(": ");
            use_type_invariant(self);
        }
        let ghost all = self@;
        let mut i: usize = 0;
        assert(all.skip(0) =~= all);
        while i < self.len()
            invariant
                i <= self@.len(),
                all == self@,
                mark@ == "Item Class:"@,
                colon@ == ": "@,
                colon@.len() == 2,
                class_line(all) == class_line(all.skip(i as int)),
            decreases self@.len() - i,
        {
            let line = self.line(i);
            if has(line, mark.as_slice()) {
                assert(class_line(all) == Some(line@));
                match find(line, colon.as_slice()) {
                    Some(k) => {
                        proof {
                            use_type_invariant(self);
                        }
                        let rest = vstd::slice::slice_subrange(line, k + 2, line.len());
                        assert(rest@ =~= line@.skip(k + 2));
                        let (c, d) = trim_bounds(rest);
                        let start = self.bounds[i].0 + k + 2;
                        assert(self.chars@.subrange(start + c, start + d) =~= rest@.subrange(
                            c as int,
                            d as int,
                        ));
                        let name = self.text.as_str().substring_char(start + c, start + d);
                        return Some(String::from_str(name));
                    },
                    None => {
                        return None;
                    },
                }
            }
            assert(all.skip(i as int).drop_first() =~= all.skip(i + 1));
            i += 1;
        }
        None
    }
}

/// What the head of a text gave, in machine numbers.
#[derive(Debug, Clone, Copy, PartialEq, Eq)]
pub struct Header {
    /// The index of the base in the table.
    pub base: Option<usize>,
    pub quality: Quality,
    /// The index of the line at which to go on.
    pub next: usize,
}

impl View for Header {
    type V = Head;

    open spec fn view(&self) -> Head {
        Head {
            base: as_index(self.base),
            quality: self.quality,
            next: self.next as int,
        }
    }
}

/// Walks the head of the text.
pub fn read_head(lines: &Lines, table: &Vec<WeaponStats>) -> (r: Header)
    ensures
        r@ == scan_head(lines@, table@, 0, None),
        r.base is Some ==> r.base->0 < table@.len(),
        r.next <= lines@.len(),
{
    let names = names_of(table);
    let level = to_chars("Item Level");
    let mut base: Option<usize> = None;
    let mut i: usize = 0;
    while i < lines.len()
        invariant
            i <= lines@.len(),
            level@ == "Item Level"@,
            names@.len() == table@.len(),
            forall|k: int| 0 <= k < names@.len() ==> (#[trigger] names@[k])@ == table@[k].base@,
            base is Some ==> base->0 < table@.len(),
            scan_head(lines@, table@, 0, None) == scan_head(
                lines@,
                table@,
                i as int,
                as_index(base),
            ),
        decreases lines@.len() - i,
    {
        let line = lines.line(i);
        if base.is_none() {
            base = base_named(line, table, &names);
        }
        match read_quality(line) {
            Some(quality) => {
                if quality.0 != 0 {
                    return Header { base, quality, next: i + 1 };
                }
            },
            None => {},
        }
        if begins_with(line, level.as_slice()) {
            return Header { base, quality: Quality(0), next: i + 1 };
        }
        i += 1;
    }
    Header { base, quality: Quality(0), next: i }
}

/// Walks the lines behind the head from line `from` on, and returns the
/// explicit modifiers and the runes that they give.
pub fn read_mods(lines: &Lines, from: usize) -> (r: (Explicits, Vec<Rune>))
    ensures
        scan_mods(
            lines@,
            from as int,
            Mods { phys: None, atk_spd: None, flats: Seq::empty(), runes: Seq::empty() },
        ) == (Mods { phys: r.0.phys, atk_spd: r.0.atk_spd, flats: r.0.flats@, runes: r.1@ }),
{
    let ghost start = Mods {
        phys: None,
        atk_spd: None,
        flats: Seq::empty(),
        runes: Seq::empty(),
    };
    let mut phys: Option<PhysModifier> = None;
    let mut atk_spd: Option<AttackSpeedModifier> = None;
    let mut flats: Vec<FlatDamage> = Vec::new();
    let mut runes: Vec<Rune> = Vec::new();
    let mut i: usize = from;
    while i < lines.len() && atk_spd.is_none()
        invariant
            from <= i,
            scan_mods(lines@, from as int, start) == scan_mods(
                lines@,
                i as int,
                Mods { phys, atk_spd, flats: flats@, runes: runes@ },
            ),
        decreases lines@.len() - i,
    {
        let line = lines.line(i);
        let ghost m = Mods { phys, atk_spd, flats: flats@, runes: runes@ };
        let mut taken = false;
        if phys.is_none() {
            match read_runes(line) {
                Some(mut found) => {
                    runes.append(&mut found);
                    taken = true;
                },
                None => {
                    match read_phys_modifier(line) {
                        Some(p) => {
                            phys = Some(p);
                            taken = true;
                        },
                        None => {},
                    }
                },
            }
        } else {
            match read_flat_damage(line) {
                Some(flat) => {
                    if first_flat(&flats, flat.damage_type).is_none() {
                        flats.push(flat);
                    }
                    taken = true;
                },
                None => {},
            }
        }
        if !taken {
            match read_attack_speed(line) {
                Some(a) => {
                    atk_spd = Some(a);
                },
                None => {},
            }
        }
        assert(Mods { phys, atk_spd, flats: flats@, runes: runes@ } == step(m, line@));
        i += 1;
    }
    (Explicits { flats, phys, atk_spd }, runes)
}

} // verus!
