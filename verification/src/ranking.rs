//! Every choice of runes for a weapon's sockets, ranked by the damage per
//! second that the weapon has with it.
//!
//! A one-handed weapon has one socket and twelve choices. A two-handed
//! weapon has two sockets; the order of two runes does not matter, so a
//! choice is written with the earlier rune first, and there are 78. The
//! weapon keeps its own quality throughout.

use vstd::prelude::*;
use crate::dps::Dps;
use crate::rune::Rune;
use crate::weapon::{Handed, ItemView, Weapon, WeaponError, WeaponStats, lookup};

verus! {

/// One row of the ranking: a choice of runes, and the damage per second of
/// the weapon with these runes in its sockets.
#[derive(Debug, Clone, PartialEq)]
pub struct DpsWithRunes {
    pub runes: Vec<Rune>,
    pub dps: Dps,
}

/// Whether `runes` is a choice for a weapon that takes `hands`: one rune,
/// or two runes of which the first is not the later one.
pub open spec fn fills(hands: Handed, runes: Seq<Rune>) -> bool {
    match hands {
        Handed::OneHanded => runes.len() == 1,
        Handed::TwoHanded => runes.len() == 2 && runes[0].index() <= runes[1].index(),
    }
}

/// The number of choices for a weapon that takes `hands`.
pub open spec fn choices(hands: Handed) -> nat {
    match hands {
        Handed::OneHanded => 12,
        Handed::TwoHanded => 78,
    }
}

/// Whether the choice `a` is listed before the choice `b`: by its first
/// rune, and among choices with the same first rune by its second.
pub open spec fn precedes(a: Seq<Rune>, b: Seq<Rune>) -> bool {
    &&& a.len() == b.len()
    &&& a.len() >= 1
    &&& a[0].index() < b[0].index() || (a[0].index() == b[0].index() && a.len() >= 2
        && a[1].index() < b[1].index())
}

/// Whether the row `a` ranks before the row `b`: by the higher damage per
/// second in all, and among rows with the same by the order in which the
/// choices are listed.
pub open spec fn ranks_before(a: DpsWithRunes, b: DpsWithRunes) -> bool {
    a.dps.total > b.dps.total || (a.dps.total == b.dps.total && precedes(a.runes@, b.runes@))
}

/// Whether every row of `rows` ranks before the rows behind it.
pub open spec fn ranked(rows: Seq<DpsWithRunes>) -> bool {
    forall|i: int, j: int| 0 <= i < j < rows.len() ==> ranks_before(rows[i], rows[j])
}

/// Whether `rows` is the ranking of `w` on the base `stats`: every choice of
/// runes for the weapon's sockets has its row, every row holds a choice and
/// the weapon's figures with it, there are as many rows as choices, and
/// they stand in ranking order.
pub open spec fn is_ranking(rows: Seq<DpsWithRunes>, w: ItemView, stats: WeaponStats) -> bool {
    let hands = w.item_class.hands();
    &&& rows.len() == choices(hands)
    &&& forall|k: int|
        0 <= k < rows.len() ==> fills(hands, (#[trigger] rows[k]).runes@) && rows[k].dps.is_of(
            w.with_runes(rows[k].runes@),
            stats,
        )
    &&& forall|runes: Seq<Rune>| #[trigger]
        fills(hands, runes) ==> exists|k: int|
            0 <= k < rows.len() && (#[trigger] rows[k]).runes@ == runes
    &&& ranked(rows)
}

/// Whether the choice `runes` is listed before the one of the `i`-th rune
/// with the `j`-th.
pub open spec fn listed_before(runes: Seq<Rune>, i: int, j: int) -> bool {
    runes[0].index() < i || (runes[0].index() == i && runes.len() >= 2 && runes[1].index() < j)
}

/// The number of choices of two runes whose first rune is before the
/// `i`-th.
pub open spec fn pairs_before(i: nat) -> nat
    decreases i,
{
    if i == 0 {
        0
    } else {
        pairs_before((i - 1) as nat) + (12 - (i - 1)) as nat
    }
}

/// A rune stands in the fixed order at its index.
pub proof fn lemma_rune_index(r: Rune)
    ensures
        0 <= r.index() < 12,
        Rune::all()[r.index()] == r,
{
}

/// The index of the rune at a place of the fixed order is that place.
pub proof fn lemma_rune_at(i: int)
    requires
        0 <= i < 12,
    ensures
        Rune::all()[i].index() == i,
        Rune::all().len() == 12,
{
}

/// Two rows of one ranking hold different choices of runes.
pub proof fn lemma_choices_differ(
    rows: Seq<DpsWithRunes>,
    w: ItemView,
    stats: WeaponStats,
    i: int,
    j: int,
)
    requires
        is_ranking(rows, w, stats),
        0 <= i < rows.len(),
        0 <= j < rows.len(),
        i != j,
    ensures
        rows[i].runes@ != rows[j].runes@,
{
    if i < j {
        assert(ranks_before(rows[i], rows[j]));
    } else {
        assert(ranks_before(rows[j], rows[i]));
    }
}

/// A weapon has one ranking on a base: two rankings hold the same choice of
/// runes and the same figures row by row.
pub proof fn lemma_ranking_is_unique(
    a: Seq<DpsWithRunes>,
    b: Seq<DpsWithRunes>,
    w: ItemView,
    stats: WeaponStats,
    k: int,
)
    requires
        is_ranking(a, w, stats),
        is_ranking(b, w, stats),
        0 <= k < a.len(),
    ensures
        a.len() == b.len(),
        a[k].runes@ == b[k].runes@,
        a[k].dps == b[k].dps,
    decreases k,
{
    let hands = w.item_class.hands();
    // The choice of row k of the one ranking has its row in the other, and
    // there it cannot stand before row k, where the rankings agree.
    assert(fills(hands, a[k].runes@));
    let j = choose|j: int| 0 <= j < b.len() && (#[trigger] b[j]).runes@ == a[k].runes@;
    if j < k {
        lemma_ranking_is_unique(a, b, w, stats, j);
        lemma_choices_differ(a, w, stats, j, k);
    }
    assert(fills(hands, b[k].runes@));
    let i = choose|i: int| 0 <= i < a.len() && (#[trigger] a[i]).runes@ == b[k].runes@;
    if i < k {
        lemma_ranking_is_unique(a, b, w, stats, i);
        lemma_choices_differ(b, w, stats, i, k);
    }
    // Nor can it stand behind row k: the two rows would rank before each
    // other.
    if j > k {
        if i == k {
            lemma_choices_differ(b, w, stats, j, k);
        }
        assert(ranks_before(b[k], b[j]));
        assert(ranks_before(a[k], a[i]));
        assert(a[i].dps == b[k].dps);
        assert(b[j].dps == a[k].dps);
    }
    assert(j == k);
}

/// Whether two choices of two runes hold the same two runes, in the same
/// order or the other way round.
pub open spec fn same_pair(a: Seq<Rune>, b: Seq<Rune>) -> bool {
    (a[0] == b[0] && a[1] == b[1]) || (a[0] == b[1] && a[1] == b[0])
}

/// The ranking of a one-handed weapon has twelve rows, each with one rune,
/// no rune in two rows, the rows in falling order of the damage per second
/// in all.
pub proof fn lemma_one_handed_ranking(rows: Seq<DpsWithRunes>, w: ItemView, stats: WeaponStats)
    requires
        is_ranking(rows, w, stats),
        w.item_class.hands() == Handed::OneHanded,
    ensures
        rows.len() == 12,
        forall|k: int| 0 <= k < rows.len() ==> (#[trigger] rows[k]).runes@.len() == 1,
        forall|i: int, j: int|
            0 <= i < j < rows.len() ==> (#[trigger] rows[i]).dps.total >= (
            #[trigger] rows[j]).dps.total,
        forall|i: int, j: int|
            0 <= i < rows.len() && 0 <= j < rows.len() && i != j ==> (
            #[trigger] rows[i]).runes@[0] != (#[trigger] rows[j]).runes@[0],
{
    assert forall|i: int, j: int| 0 <= i < j < rows.len() implies (#[trigger] rows[i]).dps.total
        >= (#[trigger] rows[j]).dps.total && rows[i].runes@[0] != rows[j].runes@[0] by {
        assert(ranks_before(rows[i], rows[j]));
        assert(fills(Handed::OneHanded, rows[i].runes@));
        assert(fills(Handed::OneHanded, rows[j].runes@));
        if rows[i].runes@[0] == rows[j].runes@[0] {
            assert(rows[i].runes@ =~= rows[j].runes@);
        }
    }
}

/// The ranking of a two-handed weapon has 78 rows, each with two runes, no
/// two runes in two rows, be it in the same order or the other way round,
/// the rows in falling order of the damage per second in all.
pub proof fn lemma_two_handed_ranking(rows: Seq<DpsWithRunes>, w: ItemView, stats: WeaponStats)
    requires
        is_ranking(rows, w, stats),
        w.item_class.hands() == Handed::TwoHanded,
    ensures
        rows.len() == 78,
        forall|k: int| 0 <= k < rows.len() ==> (#[trigger] rows[k]).runes@.len() == 2,
        forall|i: int, j: int|
            0 <= i < j < rows.len() ==> (#[trigger] rows[i]).dps.total >= (
            #[trigger] rows[j]).dps.total,
        forall|i: int, j: int|
            0 <= i < rows.len() && 0 <= j < rows.len() && i != j ==> !same_pair(
                (#[trigger] rows[i]).runes@,
                (#[trigger] rows[j]).runes@,
            ),
{
    assert forall|i: int, j: int| 0 <= i < j < rows.len() implies (#[trigger] rows[i]).dps.total
        >= (#[trigger] rows[j]).dps.total && !same_pair(rows[i].runes@, rows[j].runes@) by {
        let a = rows[i].runes@;
        let b = rows[j].runes@;
        assert(ranks_before(rows[i], rows[j]));
        assert(fills(Handed::TwoHanded, a));
        assert(fills(Handed::TwoHanded, b));
        if same_pair(a, b) {
            lemma_rune_index(a[0]);
            lemma_rune_index(a[1]);
            assert(a =~= b);
        }
    }
}

/// Puts `row` into the ranked `rows` behind the rows that rank before it.
/// Every row there holds a choice that is listed before the new one.
fn place(rows: &mut Vec<DpsWithRunes>, row: DpsWithRunes) -> (p: usize)
    requires
        ranked(old(rows)@),
        forall|k: int|
            0 <= k < old(rows)@.len() ==> precedes((#[trigger] old(rows)@[k]).runes@, row.runes@),
    ensures
        p <= old(rows)@.len(),
        final(rows)@ == old(rows)@.insert(p as int, row),
        ranked(final(rows)@),
{
    let total = row.dps.total;
    let mut p: usize = 0;
    while p < rows.len() && rows[p].dps.total >= total
        invariant
            p <= rows@.len(),
            rows@ == old(rows)@,
            forall|k: int| 0 <= k < p ==> (#[trigger] rows@[k]).dps.total >= total,
        decreases rows@.len() - p,
    {
        p += 1;
    }
    let ghost before = rows@;
    rows.insert(p, row);
    proof {
        let after = rows@;
        assert forall|a: int, b: int| 0 <= a < b < after.len() implies ranks_before(
            after[a],
            after[b],
        ) by {
            if b < p {
                assert(ranks_before(before[a], before[b]));
            } else if a > p {
                assert(ranks_before(before[a - 1], before[b - 1]));
            } else if a < p && b > p {
                assert(ranks_before(before[a], before[b - 1]));
            } else if b == p {
                assert(before[a].dps.total >= total);
                assert(precedes(before[a].runes@, row.runes@));
            } else {
                assert(a == p && b > p);
                assert(before[p as int].dps.total < total);
                if b - 1 > p {
                    assert(ranks_before(before[p as int], before[b - 1]));
                }
            }
        }
    }
    p
}

impl Weapon {
    /// The ranking of the weapon on the base `stats`.
    pub fn with_different_runes_on(&self, stats: &WeaponStats) -> (rows: Vec<DpsWithRunes>)
        ensures
            is_ranking(rows@, self@, *stats),
    {
        let all = Rune::runes();
        let mut rows: Vec<DpsWithRunes> = Vec::new();
        match self.handed() {
            Handed::OneHanded => {
                let mut i: usize = 0;
                while i < 12
                    invariant
                        i <= 12,
                        all@ == Rune::all(),
                        self.item_class.hands() == Handed::OneHanded,
                        rows@.len() == i,
                        ranked(rows@),
                        forall|k: int|
                            0 <= k < rows@.len() ==> fills(
                                Handed::OneHanded,
                                (#[trigger] rows@[k]).runes@,
                            ) && rows@[k].dps.is_of(self@.with_runes(rows@[k].runes@), *stats)
                                && listed_before(rows@[k].runes@, i as int, 0),
                        forall|runes: Seq<Rune>| #[trigger]
                            fills(Handed::OneHanded, runes) && listed_before(runes, i as int, 0)
                                ==> exists|k: int|
                                0 <= k < rows@.len() && (#[trigger] rows@[k]).runes@ == runes,
                    decreases 12 - i,
                {
                    proof {
                        lemma_rune_at(i as int);
                    }
                    let runes = vec![all[i]];
                    let dps = self.dps_with(stats, &runes);
                    let row = DpsWithRunes { runes, dps };
                    let ghost before = rows@;
                    let p = place(&mut rows, row);
                    proof {
                        let after = rows@;
                        assert forall|k: int| 0 <= k < after.len() implies fills(
                            Handed::OneHanded,
                            (#[trigger] after[k]).runes@,
                        ) && after[k].dps.is_of(self@.with_runes(after[k].runes@), *stats)
                            && listed_before(after[k].runes@, i + 1, 0) by {
                            if k < p {
                                assert(after[k] == before[k]);
                            } else if k > p {
                                assert(after[k] == before[k - 1]);
                            }
                        }
                        assert forall|runes: Seq<Rune>| #[trigger]
                            fills(Handed::OneHanded, runes) && listed_before(
                                runes,
                                i + 1,
                                0,
                            ) implies exists|k: int|
                            0 <= k < after.len() && (#[trigger] after[k]).runes@ == runes by {
                            if listed_before(runes, i as int, 0) {
                                let k = choose|k: int|
                                    0 <= k < before.len() && (#[trigger] before[k]).runes@
                                        == runes;
                                if k < p {
                                    assert(after[k] == before[k]);
                                } else {
                                    assert(after[k + 1] == before[k]);
                                }
                            } else {
                                lemma_rune_index(runes[0]);
                                assert(runes =~= row.runes@);
                                assert(after[p as int] == row);
                            }
                        }
                    }
                    i += 1;
                }
                proof {
                    assert forall|runes: Seq<Rune>| #[trigger]
                        fills(Handed::OneHanded, runes) implies listed_before(runes, 12, 0) by {
                        lemma_rune_index(runes[0]);
                    }
                }
            },
            Handed::TwoHanded => {
                let mut i: usize = 0;
                while i < 12
                    invariant
                        i <= 12,
                        all@ == Rune::all(),
                        self.item_class.hands() == Handed::TwoHanded,
                        rows@.len() == pairs_before(i as nat),
                        ranked(rows@),
                        forall|k: int|
                            0 <= k < rows@.len() ==> fills(
                                Handed::TwoHanded,
                                (#[trigger] rows@[k]).runes@,
                            ) && rows@[k].dps.is_of(self@.with_runes(rows@[k].runes@), *stats)
                                && listed_before(rows@[k].runes@, i as int, i as int),
                        forall|runes: Seq<Rune>| #[trigger]
                            fills(Handed::TwoHanded, runes) && listed_before(
                                runes,
                                i as int,
                                i as int,
                            ) ==> exists|k: int|
                                0 <= k < rows@.len() && (#[trigger] rows@[k]).runes@ == runes,
                    decreases 12 - i,
                {
                    let mut j: usize = i;
                    while j < 12
                        invariant
                            i < 12,
                            i <= j <= 12,
                            all@ == Rune::all(),
                            self.item_class.hands() == Handed::TwoHanded,
                            rows@.len() == pairs_before(i as nat) + (j - i),
                            ranked(rows@),
                            forall|k: int|
                                0 <= k < rows@.len() ==> fills(
                                    Handed::TwoHanded,
                                    (#[trigger] rows@[k]).runes@,
                                ) && rows@[k].dps.is_of(
                                    self@.with_runes(rows@[k].runes@),
                                    *stats,
                                ) && listed_before(rows@[k].runes@, i as int, j as int),
                            forall|runes: Seq<Rune>| #[trigger]
                                fills(Handed::TwoHanded, runes) && listed_before(
                                    runes,
                                    i as int,
                                    j as int,
                                ) ==> exists|k: int|
                                    0 <= k < rows@.len() && (#[trigger] rows@[k]).runes@ == runes,
                        decreases 12 - j,
                    {
                        proof {
                            lemma_rune_at(i as int);
                            lemma_rune_at(j as int);
                        }
                        let runes = vec![all[i], all[j]];
                        let dps = self.dps_with(stats, &runes);
                        let row = DpsWithRunes { runes, dps };
                        let ghost before = rows@;
                        let p = place(&mut rows, row);
                        proof {
                            let after = rows@;
                            assert forall|k: int| 0 <= k < after.len() implies fills(
                                Handed::TwoHanded,
                                (#[trigger] after[k]).runes@,
                            ) && after[k].dps.is_of(self@.with_runes(after[k].runes@), *stats)
                                && listed_before(after[k].runes@, i as int, j + 1) by {
                                if k < p {
                                    assert(after[k] == before[k]);
                                } else if k > p {
                                    assert(after[k] == before[k - 1]);
                                }
                            }
                            assert forall|runes: Seq<Rune>| #[trigger]
                                fills(Handed::TwoHanded, runes) && listed_before(
                                    runes,
                                    i as int,
                                    j + 1,
                                ) implies exists|k: int|
                                0 <= k < after.len() && (#[trigger] after[k]).runes@ == runes by {
                                if listed_before(runes, i as int, j as int) {
                                    let k = choose|k: int|
                                        0 <= k < before.len() && (#[trigger] before[k]).runes@
                                            == runes;
                                    if k < p {
                                        assert(after[k] == before[k]);
                                    } else {
                                        assert(after[k + 1] == before[k]);
                                    }
                                } else {
                                    lemma_rune_index(runes[0]);
                                    lemma_rune_index(runes[1]);
                                    assert(runes =~= row.runes@);
                                    assert(after[p as int] == row);
                                }
                            }
                        }
                        j += 1;
                    }
                    proof {
                        assert forall|k: int| 0 <= k < rows@.len() implies listed_before(
                            (#[trigger] rows@[k]).runes@,
                            i + 1,
                            i + 1,
                        ) by {
                            lemma_rune_index(rows@[k].runes@[1]);
                        }
                        assert forall|runes: Seq<Rune>| #[trigger]
                            fills(Handed::TwoHanded, runes) && listed_before(
                                runes,
                                i + 1,
                                i + 1,
                            ) implies listed_before(runes, i as int, 12) by {
                            lemma_rune_index(runes[1]);
                        }
                    }
                    i += 1;
                }
                proof {
                    assert(pairs_before(12) == 78) by {
                        reveal_with_fuel(pairs_before, 13);
                    }
                    assert forall|runes: Seq<Rune>| #[trigger]
                        fills(Handed::TwoHanded, runes) implies listed_before(runes, 12, 12) by {
                        lemma_rune_index(runes[0]);
                    }
                }
            },
        }
        rows
    }

    /// The ranking of the weapon on its base as `table` has it: a row for
    /// every choice of runes for the weapon's sockets, the row with the
    /// highest damage per second first, rows with the same in the order in
    /// which the choices are listed.
    pub fn with_different_runes(&self, table: &Vec<WeaponStats>) -> (r: Result<
        Vec<DpsWithRunes>,
        WeaponError,
    >)
        ensures
            match r {
                Ok(rows) => lookup(table@, self.base@) is Some && is_ranking(
                    rows@,
                    self@,
                    lookup(table@, self.base@)->0,
                ),
                Err(WeaponError::BaseStatsNotFound(name)) => lookup(table@, self.base@) is None
                    && name@ == self.base@,
            },
    {
        match self.base_stats(table) {
            Ok(stats) => Ok(self.with_different_runes_on(stats)),
            Err(e) => Err(e),
        }
    }
}

} // verus!
