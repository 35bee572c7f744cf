//! The levels that the fields of a result row reach by the thresholds of a metric.

use vstd::prelude::*;

use crate::domain::query::contents;
use crate::domain::threshold::Double;
use crate::entities::thresholds::{rows, Model, Row};
use crate::json::{empty_object, entries, insert, number_under, text_under, Entries, Field, Json, Object};
use crate::text::same_text;

verus! {

/// The severity of a level: critical over warning over good over anything else.
pub open spec fn rank(level: Seq<char>) -> int {
    if level == "critical"@ {
        3
    } else if level == "warning"@ {
        2
    } else if level == "good"@ {
        1
    } else {
        0
    }
}

/// A field at level `current`, or at none, moves to level `new_level`.
pub open spec fn upgrades(current: Option<Seq<char>>, new_level: Seq<char>) -> bool {
    match current {
        Some(level) => rank(new_level) > rank(level),
        None => true,
    }
}

/// The number that a row holds in a field, as a bit pattern.
pub open spec fn reading(row: Entries, field: Seq<char>) -> Option<u64> {
    if row.contains_key(field) {
        match row[field] {
            Json::Number(bits) => Some(bits),
            _ => None,
        }
    } else {
        None
    }
}

/// A comparison of a field of a row with a threshold: does `value` stand to
/// `against` as `operator` says?
#[derive(Debug, PartialEq, Eq)]
pub struct Comparison<S = String> {
    pub value: Double,
    pub operator: S,
    pub against: Double,
}

impl View for Comparison {
    type V = Comparison<Seq<char>>;

    open spec fn view(&self) -> Comparison<Seq<char>> {
        Comparison { value: self.value, operator: self.operator@, against: self.against }
    }
}

/// The comparisons of a list; none for a threshold on whose field there is no
/// number.
pub open spec fn comparison_views(list: Seq<Option<Comparison>>) -> Seq<
    Option<Comparison<Seq<char>>>,
> {
    list.map_values(
        |c: Option<Comparison>|
            match c {
                Some(comparison) => Some(comparison@),
                None => None,
            },
    )
}

/// The comparison that a threshold calls for on a row.
pub open spec fn comparison(row: Entries, threshold: Row) -> Option<
    Comparison<Seq<char>>,
> {
    match reading(row, threshold.field_name) {
        Some(bits) => Some(
            Comparison {
                value: Double { bits },
                operator: threshold.operator,
                against: threshold.value,
            },
        ),
        None => None,
    }
}

/// The comparisons that the thresholds call for on a row, one by one.
pub open spec fn comparisons(row: Entries, thresholds: Seq<Row>) -> Seq<
    Option<Comparison<Seq<char>>>,
> {
    thresholds.map_values(|t: Row| comparison(row, t))
}

/// The `i`-th threshold matches on a row: its field holds a number there, and the
/// comparison came out true.
pub open spec fn fires(
    row: Entries,
    thresholds: Seq<Row>,
    verdicts: Seq<bool>,
    i: int,
) -> bool {
    &&& 0 <= i < thresholds.len()
    &&& reading(row, thresholds[i].field_name) is Some
    &&& i < verdicts.len()
    &&& verdicts[i]
}

/// The `i`-th threshold gives `field` its level on a row: of those on the field
/// that match, none is more severe, and none before it is as severe.
pub open spec fn decides(
    row: Entries,
    thresholds: Seq<Row>,
    verdicts: Seq<bool>,
    field: Seq<char>,
    i: int,
) -> bool {
    &&& fires(row, thresholds, verdicts, i)
    &&& thresholds[i].field_name == field
    &&& forall|j: int| #[trigger]
        fires(row, thresholds, verdicts, j) && thresholds[j].field_name == field ==> rank(
            thresholds[j].level,
        ) < rank(thresholds[i].level) || (rank(thresholds[j].level) == rank(thresholds[i].level)
            && i <= j)
}

/// Some threshold on `field` matches on a row.
pub open spec fn reached(
    row: Entries,
    thresholds: Seq<Row>,
    verdicts: Seq<bool>,
    field: Seq<char>,
) -> bool {
    exists|i: int| #[trigger]
        fires(row, thresholds, verdicts, i) && thresholds[i].field_name == field
}

/// The level of each field of a row on which a threshold matches.
pub open spec fn levels(
    row: Entries,
    thresholds: Seq<Row>,
    verdicts: Seq<bool>,
) -> Entries {
    Map::new(
        |field: Seq<char>| reached(row, thresholds, verdicts, field),
        |field: Seq<char>|
            Json::Text(
                thresholds[choose|i: int| decides(row, thresholds, verdicts, field, i)].level,
            ),
    )
}

/// A row with the levels of its fields under `_thresholds`.
pub open spec fn with_levels(
    row: Entries,
    thresholds: Seq<Row>,
    verdicts: Seq<bool>,
) -> Entries {
    row.insert("_thresholds"@, Json::Object(levels(row, thresholds, verdicts)))
}

/// At most one threshold gives a field its level.
pub proof fn lemma_decides_unique(
    row: Entries,
    thresholds: Seq<Row>,
    verdicts: Seq<bool>,
    field: Seq<char>,
    i: int,
    j: int,
)
    requires
        decides(row, thresholds, verdicts, field, i),
        decides(row, thresholds, verdicts, field, j),
    ensures
        i == j,
{
}

/// Where `i` gives `field` its level, `levels` shows the level of `i`.
pub proof fn lemma_levels_at(
    row: Entries,
    thresholds: Seq<Row>,
    verdicts: Seq<bool>,
    field: Seq<char>,
    i: int,
)
    requires
        decides(row, thresholds, verdicts, field, i),
    ensures
        levels(row, thresholds, verdicts).contains_key(field),
        levels(row, thresholds, verdicts)[field] == Json::Text(thresholds[i].level),
{
    let chosen = choose|k: int| decides(row, thresholds, verdicts, field, k);
    lemma_decides_unique(row, thresholds, verdicts, field, i, chosen);
    assert(fires(row, thresholds, verdicts, i));
}

/// What matches among all but the last threshold is what matches among all and is
/// not the last.
proof fn lemma_fires_before(
    row: Entries,
    thresholds: Seq<Row>,
    verdicts: Seq<bool>,
)
    requires
        thresholds.len() > 0,
    ensures
        forall|j: int| #[trigger]
            fires(row, thresholds.drop_last(), verdicts, j) <==> fires(row, thresholds, verdicts, j)
                && j < thresholds.len() - 1,
        forall|j: int| #[trigger]
            fires(row, thresholds, verdicts, j) ==> j == thresholds.len() - 1 || fires(
                row,
                thresholds.drop_last(),
                verdicts,
                j,
            ),
{
}

/// Where a threshold on a field matches, one of them gives the field its level.
pub proof fn lemma_decider(
    row: Entries,
    thresholds: Seq<Row>,
    verdicts: Seq<bool>,
    field: Seq<char>,
) -> (i: int)
    requires
        reached(row, thresholds, verdicts, field),
    ensures
        decides(row, thresholds, verdicts, field, i),
    decreases thresholds.len(),
{
    let last = thresholds.len() - 1;
    let before = thresholds.drop_last();
    lemma_fires_before(row, thresholds, verdicts);
    if reached(row, before, verdicts, field) {
        let k = lemma_decider(row, before, verdicts, field);
        if fires(row, thresholds, verdicts, last) && thresholds[last].field_name == field && rank(
            thresholds[last].level,
        ) > rank(thresholds[k].level) {
            last
        } else {
            k
        }
    } else {
        last
    }
}

/// How one threshold more changes the levels of a row.
proof fn lemma_levels_step(
    row: Entries,
    thresholds: Seq<Row>,
    verdicts: Seq<bool>,
    n: int,
)
    requires
        0 <= n < thresholds.len(),
    ensures
        ({
            let before = levels(row, thresholds.take(n), verdicts);
            let after = levels(row, thresholds.take(n + 1), verdicts);
            let field = thresholds[n].field_name;
            let current = if before.contains_key(field) {
                Some(before[field]->Text_0)
            } else {
                None
            };
            &&& before.contains_key(field) ==> before[field] is Text
            &&& after == if fires(row, thresholds, verdicts, n) && upgrades(
                current,
                thresholds[n].level,
            ) {
                before.insert(field, Json::Text(thresholds[n].level))
            } else {
                before
            }
        }),
{
    let shorter = thresholds.take(n);
    let longer = thresholds.take(n + 1);
    let before = levels(row, shorter, verdicts);
    let after = levels(row, longer, verdicts);
    let field = thresholds[n].field_name;
    assert(longer.drop_last() =~= shorter);
    lemma_fires_before(row, longer, verdicts);
    assert(fires(row, longer, verdicts, n) <==> fires(row, thresholds, verdicts, n));
    let current = if before.contains_key(field) {
        Some(before[field]->Text_0)
    } else {
        None
    };
    let expected = if fires(row, thresholds, verdicts, n) && upgrades(
        current,
        thresholds[n].level,
    ) {
        before.insert(field, Json::Text(thresholds[n].level))
    } else {
        before
    };
    assert forall|f: Seq<char>| #[trigger] after.contains_key(f) == expected.contains_key(f) by {
        if reached(row, shorter, verdicts, f) {
            let i = choose|i: int| #[trigger]
                fires(row, shorter, verdicts, i) && shorter[i].field_name == f;
            assert(fires(row, longer, verdicts, i));
        }
    }
    assert forall|f: Seq<char>| #[trigger] after.contains_key(f) implies after[f]
        == expected[f] by {
        let i = lemma_decider(row, longer, verdicts, f);
        lemma_levels_at(row, longer, verdicts, f, i);
        if reached(row, shorter, verdicts, f) {
            let k = lemma_decider(row, shorter, verdicts, f);
            lemma_levels_at(row, shorter, verdicts, f, k);
            assert(fires(row, longer, verdicts, k));
            if i < n {
                assert(fires(row, shorter, verdicts, i));
                assert(decides(row, shorter, verdicts, f, i)) by {
                    assert forall|j: int| #[trigger]
                        fires(row, shorter, verdicts, j) implies fires(row, longer, verdicts, j) by {
                    }
                }
                lemma_decides_unique(row, shorter, verdicts, f, i, k);
            }
        }
    }
    assert(after =~= expected);
}

/// The severity of a level.
fn rank_of(level: &str) -> (severity: u8)
    ensures
        severity == rank(level@),
{
    if same_text(level, "critical") {
        3
    } else if same_text(level, "warning") {
        2
    } else if same_text(level, "good") {
        1
    } else {
        0
    }
}

/// Whether `new_level` is of higher severity than `current`; any level is higher
/// than none.
pub fn should_upgrade_level(current: Option<&str>, new_level: &str) -> (upgrade: bool)
    ensures
        upgrade == match current {
            Some(level) => upgrades(Some(level@), new_level@),
            None => upgrades(None, new_level@),
        },
{
    match current {
        Some(level) => rank_of(new_level) > rank_of(level),
        None => true,
    }
}

/// The comparisons that `thresholds` call for on a row; none for a threshold on
/// whose field the row holds no number.
pub fn row_comparisons(row: &Object, thresholds: &Vec<Model>) -> (list: Vec<Option<Comparison>>)
    ensures
        comparison_views(list@) == comparisons(entries(*row), rows(thresholds@)),
{
    let mut list: Vec<Option<Comparison>> = Vec::new();
    for i in 0..thresholds.len()
        invariant
            list@.len() == i,
            forall|j: int|
                0 <= j < i ==> #[trigger] comparison_views(list@)[j] == comparisons(
                    entries(*row),
                    rows(thresholds@),
                )[j],
    {
        let threshold = &thresholds[i];
        let ghost before = list@;
        match number_under(row, threshold.field_name.as_str()) {
            Some(bits) => {
                list.push(
                    Some(
                        Comparison {
                            value: Double { bits },
                            operator: threshold.operator.clone(),
                            against: threshold.value,
                        },
                    ),
                );
            },
            None => {
                list.push(None);
            },
        }
        assert forall|j: int| 0 <= j < i + 1 implies #[trigger] comparison_views(list@)[j]
            == comparisons(entries(*row), rows(thresholds@))[j] by {
            if j < i {
                assert(list@[j] == before[j]);
                assert(comparison_views(before)[j] == comparison_views(list@)[j]);
            }
        }
    }
    assert(comparison_views(list@) =~= comparisons(entries(*row), rows(thresholds@)));
    list
}

/// Puts the levels that the fields of `row` reach under `_thresholds`: of the
/// thresholds that match on a field, the most severe one gives the level.
/// `verdicts` holds, for each threshold, how its comparison came out.
pub fn evaluate_thresholds(row: &mut Object, thresholds: &Vec<Model>, verdicts: &Vec<bool>)
    ensures
        entries(*final(row)) == with_levels(entries(*old(row)), rows(thresholds@), verdicts@),
{
    let ghost held = entries(*row);
    let ghost all = rows(thresholds@);
    let mut results = empty_object();
    assert(entries(results) =~= levels(held, all.take(0), verdicts@));
    for i in 0..thresholds.len()
        invariant
            held == entries(*row),
            all == rows(thresholds@),
            entries(results) == levels(held, all.take(i as int), verdicts@),
    {
        let threshold = &thresholds[i];
        proof {
            lemma_levels_step(held, all, verdicts@, i as int);
            assert(all[i as int] == threshold@);
        }
        let number = number_under(row, threshold.field_name.as_str());
        if number.is_some() && i < verdicts.len() && verdicts[i] {
            let current = text_under(&results, threshold.field_name.as_str());
            let upgrade = match &current {
                Some(level) => should_upgrade_level(Some(level.as_str()), threshold.level.as_str()),
                None => should_upgrade_level(None, threshold.level.as_str()),
            };
            if upgrade {
                insert(
                    &mut results,
                    threshold.field_name.clone(),
                    Field::Text(threshold.level.clone()),
                );
            }
        }
    }
    assert(all.take(all.len() as int) =~= all);
    insert(row, "_thresholds".to_owned(), Field::Object(results));
}

/// How comparisons came out, row by row.
pub open spec fn verdict_lists(lists: Seq<Vec<bool>>) -> Seq<Seq<bool>> {
    lists.map_values(|list: Vec<bool>| list@)
}

/// How the comparisons on the `r`-th row came out; for a row beyond the list,
/// none did.
pub open spec fn verdicts_of(verdicts: Seq<Seq<bool>>, r: int) -> Seq<bool> {
    if 0 <= r < verdicts.len() {
        verdicts[r]
    } else {
        Seq::empty()
    }
}

/// Rows with the levels of their fields under `_thresholds`.
pub open spec fn all_with_levels(
    items: Seq<Entries>,
    thresholds: Seq<Row>,
    verdicts: Seq<Seq<bool>>,
) -> Seq<Entries> {
    Seq::new(
        items.len(),
        |r: int| with_levels(items[r], thresholds, verdicts_of(verdicts, r)),
    )
}

/// The comparisons that thresholds call for on rows, row by row.
pub open spec fn all_comparisons(items: Seq<Entries>, thresholds: Seq<Row>) -> Seq<
    Seq<Option<Comparison<Seq<char>>>>,
> {
    items.map_values(|row: Entries| comparisons(row, thresholds))
}

/// The comparisons of lists, row by row.
pub open spec fn comparison_lists(lists: Seq<Vec<Option<Comparison>>>) -> Seq<
    Seq<Option<Comparison<Seq<char>>>>,
> {
    lists.map_values(|list: Vec<Option<Comparison>>| comparison_views(list@))
}

/// The comparisons that `thresholds` call for on rows, row by row.
pub fn items_comparisons(items: &Vec<Object>, thresholds: &Vec<Model>) -> (lists: Vec<
    Vec<Option<Comparison>>,
>)
    ensures
        comparison_lists(lists@) == all_comparisons(contents(items@), rows(thresholds@)),
{
    let mut lists: Vec<Vec<Option<Comparison>>> = Vec::new();
    for r in 0..items.len()
        invariant
            lists@.len() == r,
            forall|k: int|
                0 <= k < r ==> comparison_views((#[trigger] lists@[k])@) == comparisons(
                    entries(items@[k]),
                    rows(thresholds@),
                ),
    {
        lists.push(row_comparisons(&items[r], thresholds));
    }
    assert(comparison_lists(lists@) =~= all_comparisons(contents(items@), rows(thresholds@)));
    lists
}

/// Evaluates the thresholds on each row.
pub fn evaluate_items(items: Vec<Object>, thresholds: &Vec<Model>, verdicts: &Vec<Vec<bool>>) -> (
    evaluated: Vec<Object>)
    ensures
        contents(evaluated@) == all_with_levels(
            contents(items@),
            rows(thresholds@),
            verdict_lists(verdicts@),
        ),
{
    let ghost held = contents(items@);
    let mut evaluated: Vec<Object> = Vec::new();
    let none: Vec<bool> = Vec::new();
    for item in it: items
        invariant
            it.seq() == items@,
            held == contents(items@),
            none@ == Seq::<bool>::empty(),
            evaluated@.len() == it.index(),
            forall|k: int|
                0 <= k < evaluated@.len() ==> entries(#[trigger] evaluated@[k]) == with_levels(
                    held[k],
                    rows(thresholds@),
                    verdicts_of(verdict_lists(verdicts@), k),
                ),
    {
        let r: usize = evaluated.len();
        let mut row = item;
        assert(entries(row) == held[r as int]);
        if r < verdicts.len() {
            assert(verdict_lists(verdicts@)[r as int] == verdicts@[r as int]@);
            evaluate_thresholds(&mut row, thresholds, &verdicts[r]);
        } else {
            evaluate_thresholds(&mut row, thresholds, &none);
        }
        evaluated.push(row);
    }
    assert(contents(evaluated@) =~= all_with_levels(
        held,
        rows(thresholds@),
        verdict_lists(verdicts@),
    ));
    evaluated
}

} // verus!
