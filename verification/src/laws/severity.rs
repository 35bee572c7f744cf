//! The levels of a row are the most severe ones that its thresholds give it.

use vstd::prelude::*;

use crate::entities::thresholds::Row;
use crate::json::{Entries, Json};
use crate::levels::{
    all_comparisons, all_with_levels, comparisons, fires, lemma_decider, lemma_levels_at, levels,
    rank, reached, upgrades, with_levels, Comparison,
};

verus! {

/// To be of higher severity is a strict order: no level is higher than itself, of two
/// levels at most one is higher than the other, and what is higher than a higher level
/// is higher.
pub proof fn law_severity_is_an_order(a: Seq<char>, b: Seq<char>, c: Seq<char>)
    ensures
        !upgrades(Some(a), a),
        upgrades(Some(a), b) ==> !upgrades(Some(b), a),
        upgrades(Some(a), b) && upgrades(Some(b), c) ==> upgrades(Some(a), c),
{
}

/// Critical is higher than warning, warning than good, and good than any level that is
/// none of the three.
pub proof fn law_severity_of_the_levels(other: Seq<char>)
    requires
        other != "critical"@,
        other != "warning"@,
        other != "good"@,
    ensures
        upgrades(Some("warning"@), "critical"@),
        upgrades(Some("good"@), "warning"@),
        upgrades(Some(other), "good"@),
{
    reveal_strlit("critical");
    reveal_strlit("warning");
    reveal_strlit("good");
    assert("critical"@.len() == 8);
    assert("warning"@.len() == 7);
    assert("good"@.len() == 4);
}

/// A field has a level if and only if a threshold on it matches; the level is that of a
/// threshold on it that matches, and no threshold on it that matches is more severe.
pub proof fn law_level_is_the_most_severe(
    row: Entries,
    thresholds: Seq<Row>,
    verdicts: Seq<bool>,
    field: Seq<char>,
)
    ensures
        levels(row, thresholds, verdicts).contains_key(field) <==> reached(
            row,
            thresholds,
            verdicts,
            field,
        ),
        reached(row, thresholds, verdicts, field) ==> exists|i: int|
            {
                &&& #[trigger] fires(row, thresholds, verdicts, i)
                &&& thresholds[i].field_name == field
                &&& levels(row, thresholds, verdicts)[field] == Json::Text(thresholds[i].level)
            },
        forall|j: int| #[trigger]
            fires(row, thresholds, verdicts, j) && thresholds[j].field_name == field ==> rank(
                thresholds[j].level,
            ) <= rank(levels(row, thresholds, verdicts)[field]->Text_0),
{
    if reached(row, thresholds, verdicts, field) {
        let i = lemma_decider(row, thresholds, verdicts, field);
        lemma_levels_at(row, thresholds, verdicts, field, i);
    }
}

/// Every threshold that matches by the first list has one of the same field and level
/// that matches by the second.
pub open spec fn covers(
    row: Entries,
    thresholds: Seq<Row>,
    verdicts: Seq<bool>,
    others: Seq<Row>,
    other_verdicts: Seq<bool>,
) -> bool {
    forall|i: int| #[trigger]
        fires(row, thresholds, verdicts, i) ==> exists|j: int|
            {
                &&& #[trigger] fires(row, others, other_verdicts, j)
                &&& others[j].field_name == thresholds[i].field_name
                &&& others[j].level == thresholds[i].level
            }
}

/// The order of the thresholds does not matter, nor how many of them say the same: the
/// same fields have a level, of the same severity, and critical, warning and good are
/// the same levels.
pub proof fn law_order_of_thresholds_does_not_matter(
    row: Entries,
    thresholds: Seq<Row>,
    verdicts: Seq<bool>,
    others: Seq<Row>,
    other_verdicts: Seq<bool>,
    field: Seq<char>,
)
    requires
        covers(row, thresholds, verdicts, others, other_verdicts),
        covers(row, others, other_verdicts, thresholds, verdicts),
    ensures
        ({
            let one = levels(row, thresholds, verdicts);
            let other = levels(row, others, other_verdicts);
            &&& one.contains_key(field) <==> other.contains_key(field)
            &&& one.contains_key(field) ==> {
                &&& rank(one[field]->Text_0) == rank(other[field]->Text_0)
                &&& rank(one[field]->Text_0) > 0 ==> one[field] == other[field]
            }
        }),
{
    if reached(row, thresholds, verdicts, field) {
        lemma_covered_level(row, thresholds, verdicts, others, other_verdicts, field);
        let i = lemma_decider(row, thresholds, verdicts, field);
        lemma_levels_at(row, thresholds, verdicts, field, i);
        let j = lemma_decider(row, others, other_verdicts, field);
        lemma_levels_at(row, others, other_verdicts, field, j);
        lemma_covered_level(row, others, other_verdicts, thresholds, verdicts, field);
    }
    if reached(row, others, other_verdicts, field) {
        lemma_covered_level(row, others, other_verdicts, thresholds, verdicts, field);
    }
}

/// A list of thresholds that covers another gives no lower level.
proof fn lemma_covered_level(
    row: Entries,
    thresholds: Seq<Row>,
    verdicts: Seq<bool>,
    others: Seq<Row>,
    other_verdicts: Seq<bool>,
    field: Seq<char>,
)
    requires
        covers(row, thresholds, verdicts, others, other_verdicts),
        reached(row, thresholds, verdicts, field),
    ensures
        reached(row, others, other_verdicts, field),
        rank(levels(row, thresholds, verdicts)[field]->Text_0) <= rank(
            levels(row, others, other_verdicts)[field]->Text_0,
        ),
{
    let i = lemma_decider(row, thresholds, verdicts, field);
    lemma_levels_at(row, thresholds, verdicts, field, i);
    assert(fires(row, thresholds, verdicts, i));
    let k = choose|k: int|
        {
            &&& #[trigger] fires(row, others, other_verdicts, k)
            &&& others[k].field_name == thresholds[i].field_name
            &&& others[k].level == thresholds[i].level
        };
    let j = lemma_decider(row, others, other_verdicts, field);
    lemma_levels_at(row, others, other_verdicts, field, j);
}

/// A new level replaces another one in these cases and no others: critical replaces
/// whatever is not critical, warning whatever is neither critical nor warning, good
/// whatever is none of the three. Any level is taken where there is none.
pub proof fn law_which_levels_replace_which(current: Seq<char>, new_level: Seq<char>)
    ensures
        upgrades(None, new_level),
        upgrades(Some(current), new_level) <==> {
            ||| new_level == "critical"@ && current != "critical"@
            ||| new_level == "warning"@ && current != "critical"@ && current != "warning"@
            ||| new_level == "good"@ && current != "critical"@ && current != "warning"@ && current
                != "good"@
        },
{
    reveal_strlit("critical");
    reveal_strlit("warning");
    reveal_strlit("good");
    assert("critical"@.len() == 8);
    assert("warning"@.len() == 7);
    assert("good"@.len() == 4);
}

/// A row holds a number in a field.
pub open spec fn holds_number(row: Entries, field: Seq<char>) -> bool {
    row.contains_key(field) && row[field] is Number
}

/// The `i`-th threshold is on `field` and matches: the row holds a number there, and
/// the verdict on the `i`-th comparison is true.
pub open spec fn matches_on(
    row: Entries,
    thresholds: Seq<Row>,
    verdicts: Seq<bool>,
    field: Seq<char>,
    i: int,
) -> bool {
    &&& 0 <= i < thresholds.len()
    &&& i < verdicts.len()
    &&& thresholds[i].field_name == field
    &&& holds_number(row, field)
    &&& verdicts[i]
}

/// Some threshold of that level on `field` matches.
pub open spec fn some_matches(
    row: Entries,
    thresholds: Seq<Row>,
    verdicts: Seq<bool>,
    field: Seq<char>,
    level: Seq<char>,
) -> bool {
    exists|i: int| #[trigger]
        matches_on(row, thresholds, verdicts, field, i) && thresholds[i].level == level
}

/// `level` is the one that `field` is shown at: critical if some threshold of that level
/// on the field matches; else warning if some of that level does; else good if some of
/// that level does; else the level of the first one that matches.
pub open spec fn is_level_of(
    row: Entries,
    thresholds: Seq<Row>,
    verdicts: Seq<bool>,
    field: Seq<char>,
    level: Seq<char>,
) -> bool {
    if some_matches(row, thresholds, verdicts, field, "critical"@) {
        level == "critical"@
    } else if some_matches(row, thresholds, verdicts, field, "warning"@) {
        level == "warning"@
    } else if some_matches(row, thresholds, verdicts, field, "good"@) {
        level == "good"@
    } else {
        exists|i: int|
            {
                &&& #[trigger] matches_on(row, thresholds, verdicts, field, i)
                &&& forall|j: int| #[trigger]
                    matches_on(row, thresholds, verdicts, field, j) ==> i <= j
                &&& level == thresholds[i].level
            }
    }
}

/// `shown` is `row` with one entry more, `_thresholds`, which holds the level of each
/// field on which a threshold matches, and of no other field.
pub open spec fn shows_levels(
    row: Entries,
    thresholds: Seq<Row>,
    verdicts: Seq<bool>,
    shown: Entries,
) -> bool {
    &&& forall|key: Seq<char>|
        key != "_thresholds"@ ==> (#[trigger] shown.contains_key(key) <==> row.contains_key(key))
    &&& forall|key: Seq<char>|
        key != "_thresholds"@ && #[trigger] row.contains_key(key) ==> shown[key] == row[key]
    &&& shown.contains_key("_thresholds"@)
    &&& shown["_thresholds"@] matches Json::Object(found) && {
        &&& forall|field: Seq<char>| #[trigger]
            found.contains_key(field) <==> exists|i: int| #[trigger]
                matches_on(row, thresholds, verdicts, field, i)
        &&& forall|field: Seq<char>| #[trigger]
            found.contains_key(field) ==> found[field] is Text && is_level_of(
                row,
                thresholds,
                verdicts,
                field,
                found[field]->Text_0,
            )
    }
}

/// What matches by the verdicts is what gives levels.
proof fn lemma_matches(row: Entries, thresholds: Seq<Row>, verdicts: Seq<bool>, field: Seq<char>)
    ensures
        forall|i: int| #[trigger]
            matches_on(row, thresholds, verdicts, field, i) <==> fires(row, thresholds, verdicts, i)
                && thresholds[i].field_name == field,
{
}

/// The level of a field on which a threshold matches.
proof fn lemma_level_of(row: Entries, thresholds: Seq<Row>, verdicts: Seq<bool>, field: Seq<char>)
    requires
        reached(row, thresholds, verdicts, field),
    ensures
        levels(row, thresholds, verdicts)[field] is Text,
        is_level_of(
            row,
            thresholds,
            verdicts,
            field,
            levels(row, thresholds, verdicts)[field]->Text_0,
        ),
{
    reveal_strlit("critical");
    reveal_strlit("warning");
    reveal_strlit("good");
    assert("critical"@.len() == 8);
    assert("warning"@.len() == 7);
    assert("good"@.len() == 4);
    lemma_matches(row, thresholds, verdicts, field);
    let i = lemma_decider(row, thresholds, verdicts, field);
    lemma_levels_at(row, thresholds, verdicts, field, i);
    assert(matches_on(row, thresholds, verdicts, field, i));
    let level = thresholds[i].level;
    assert(level == "critical"@ || level == "warning"@ || level == "good"@ ==> some_matches(
        row,
        thresholds,
        verdicts,
        field,
        level,
    ));
    assert forall|j: int| #[trigger]
        matches_on(row, thresholds, verdicts, field, j) implies rank(thresholds[j].level)
        <= rank(level) && (rank(thresholds[j].level) == rank(level) ==> i <= j) by {
        assert(fires(row, thresholds, verdicts, j));
    }
}

/// A row is shown as it is, with the levels that the thresholds give its fields.
pub proof fn law_rows_show_their_levels(row: Entries, thresholds: Seq<Row>, verdicts: Seq<bool>)
    ensures
        shows_levels(row, thresholds, verdicts, with_levels(row, thresholds, verdicts)),
{
    let found = levels(row, thresholds, verdicts);
    assert forall|field: Seq<char>| #[trigger]
        found.contains_key(field) <==> exists|i: int| #[trigger]
            matches_on(row, thresholds, verdicts, field, i) by {
        lemma_matches(row, thresholds, verdicts, field);
        if exists|i: int| #[trigger] matches_on(row, thresholds, verdicts, field, i) {
            let i = choose|i: int| #[trigger] matches_on(row, thresholds, verdicts, field, i);
            assert(fires(row, thresholds, verdicts, i));
        }
        if reached(row, thresholds, verdicts, field) {
            let i = lemma_decider(row, thresholds, verdicts, field);
            assert(matches_on(row, thresholds, verdicts, field, i));
        }
    }
    assert forall|field: Seq<char>| #[trigger] found.contains_key(field) implies found[field] is Text
        && is_level_of(row, thresholds, verdicts, field, found[field]->Text_0) by {
        lemma_level_of(row, thresholds, verdicts, field);
    }
}

/// The verdicts on the comparisons of one row out of many; none if there are too few.
pub open spec fn verdicts_on(verdicts: Seq<Seq<bool>>, r: int) -> Seq<bool> {
    if r < verdicts.len() {
        verdicts[r]
    } else {
        Seq::empty()
    }
}

/// Rows are shown one by one, each with the levels by its own verdicts.
pub proof fn law_rows_are_evaluated_one_by_one(
    items: Seq<Entries>,
    thresholds: Seq<Row>,
    verdicts: Seq<Seq<bool>>,
)
    ensures
        all_with_levels(items, thresholds, verdicts).len() == items.len(),
        forall|r: int|
            0 <= r < items.len() ==> shows_levels(
                items[r],
                thresholds,
                verdicts_on(verdicts, r),
                #[trigger] all_with_levels(items, thresholds, verdicts)[r],
            ),
{
    assert forall|r: int| 0 <= r < items.len() implies shows_levels(
        items[r],
        thresholds,
        verdicts_on(verdicts, r),
        #[trigger] all_with_levels(items, thresholds, verdicts)[r],
    ) by {
        law_rows_show_their_levels(items[r], thresholds, verdicts_on(verdicts, r));
    }
}

/// `list` holds, for each threshold in turn, the comparison of the number that the row
/// holds in the field of the threshold with the value of the threshold, by the operator
/// of the threshold; and none where the row holds no number there.
pub open spec fn compares_with(
    row: Entries,
    thresholds: Seq<Row>,
    list: Seq<Option<Comparison<Seq<char>>>>,
) -> bool {
    &&& list.len() == thresholds.len()
    &&& forall|i: int|
        0 <= i < list.len() ==> match #[trigger] list[i] {
            Some(comparison) => {
                &&& holds_number(row, thresholds[i].field_name)
                &&& row[thresholds[i].field_name] == Json::Number(comparison.value.bits)
                &&& comparison.operator == thresholds[i].operator
                &&& comparison.against == thresholds[i].value
            },
            None => !holds_number(row, thresholds[i].field_name),
        }
}

/// Each threshold calls for its own comparison on each row.
pub proof fn law_thresholds_call_for_their_comparisons(items: Seq<Entries>, thresholds: Seq<Row>)
    ensures
        all_comparisons(items, thresholds).len() == items.len(),
        forall|r: int|
            0 <= r < items.len() ==> compares_with(
                items[r],
                thresholds,
                #[trigger] all_comparisons(items, thresholds)[r],
            ),
        forall|row: Entries|
            compares_with(row, thresholds, #[trigger] comparisons(row, thresholds)),
{
}

} // verus!
