//! What holds of the statements that queries run.

use vstd::prelude::*;

use crate::domain::query::QueryRequest;
use crate::ids::{hyphenated, lemma_hyphenated_is_injective, Uuid};
use crate::sql::{clause_if, date_bound, metric_query, odata_pattern, odata_value, page_size};
use crate::text::{
    decimal, first_occurrence, is_first_occurrence, lemma_first_occurrence, occurs_at,
};

verus! {

/// How often a character stands in a text.
pub open spec fn occurrences(text: Seq<char>, c: char) -> nat
    decreases text.len(),
{
    if text.len() == 0 {
        0
    } else {
        occurrences(text.drop_last(), c) + if text.last() == c {
            1nat
        } else {
            0nat
        }
    }
}

/// A character stands in a text as often as in its two parts together.
proof fn lemma_occurrences_of_parts(a: Seq<char>, b: Seq<char>, c: char)
    ensures
        occurrences(a + b, c) == occurrences(a, c) + occurrences(b, c),
    decreases b.len(),
{
    if b.len() == 0 {
        assert(a + b =~= a);
    } else {
        assert((a + b).drop_last() =~= a + b.drop_last());
        lemma_occurrences_of_parts(a, b.drop_last(), c);
    }
}

/// A character that is nowhere in a text stands in it no times.
proof fn lemma_no_occurrences(text: Seq<char>, c: char)
    requires
        forall|i: int| 0 <= i < text.len() ==> text[i] != c,
    ensures
        occurrences(text, c) == 0,
    decreases text.len(),
{
    if text.len() > 0 {
        lemma_no_occurrences(text.drop_last(), c);
    }
}

/// A numeral holds no question mark.
proof fn lemma_numeral_has_no_placeholder(n: nat)
    ensures
        occurrences(decimal(n), '?') == 0,
    decreases n,
{
    if n < 10 {
        lemma_no_occurrences(decimal(n), '?');
    } else {
        lemma_numeral_has_no_placeholder(n / 10);
        assert(decimal(n).drop_last() =~= decimal(n / 10));
    }
}

/// The fixed parts of a statement hold a question mark for each parameter.
proof fn lemma_placeholders_of_clauses()
    ensures
        occurrences("SELECT * FROM ("@, '?') == 0,
        occurrences(") AS _q WHERE insight_tenant_id = ?"@, '?') == 1,
        occurrences(" AND metric_date >= ?"@, '?') == 1,
        occurrences(" AND metric_date < ?"@, '?') == 1,
        occurrences(" ORDER BY "@, '?') == 0,
        occurrences(" LIMIT "@, '?') == 0,
{
    reveal_strlit("SELECT * FROM (");
    reveal_strlit(") AS _q WHERE insight_tenant_id = ?");
    reveal_strlit(" AND metric_date >= ?");
    reveal_strlit(" AND metric_date < ?");
    reveal_strlit(" ORDER BY ");
    reveal_strlit(" LIMIT ");
    lemma_no_occurrences("SELECT * FROM ("@, '?');
    lemma_no_occurrences(") AS _q WHERE insight_tenant_id = ?"@.drop_last(), '?');
    lemma_no_occurrences(" AND metric_date >= ?"@.drop_last(), '?');
    lemma_no_occurrences(" AND metric_date < ?"@.drop_last(), '?');
    lemma_no_occurrences(" ORDER BY "@, '?');
    lemma_no_occurrences(" LIMIT "@, '?');
}

/// The text of the order that a query asks for.
pub open spec fn order_text(orderby: Option<Seq<char>>) -> Seq<char> {
    match orderby {
        Some(order) => order,
        None => Seq::empty(),
    }
}

/// A statement has a question mark for each of its parameters, besides those that stand
/// in the text of the metric or of the order.
pub proof fn law_one_placeholder_per_parameter(
    query_ref: Seq<char>,
    tenant: Uuid,
    req: QueryRequest<Seq<char>>,
)
    ensures
        ({
            let query = metric_query(query_ref, tenant, req);
            occurrences(query.sql, '?') == query.params.len() + occurrences(query_ref, '?')
                + occurrences(order_text(req.orderby), '?')
        }),
{
    let from = date_bound(req.filter, "ge"@);
    let to = date_bound(req.filter, "lt"@);
    let order = match req.orderby {
        Some(order) => " ORDER BY "@ + order,
        None => Seq::empty(),
    };
    let numeral = decimal((page_size(req.top) + 1) as nat);
    lemma_placeholders_of_clauses();
    lemma_numeral_has_no_placeholder((page_size(req.top) + 1) as nat);
    let p1 = "SELECT * FROM ("@ + query_ref;
    let p2 = p1 + ") AS _q WHERE insight_tenant_id = ?"@;
    let p3 = p2 + clause_if(from is Some, " AND metric_date >= ?"@);
    let p4 = p3 + clause_if(to is Some, " AND metric_date < ?"@);
    let p5 = p4 + order;
    let p6 = p5 + " LIMIT "@;
    lemma_occurrences_of_parts("SELECT * FROM ("@, query_ref, '?');
    lemma_occurrences_of_parts(p1, ") AS _q WHERE insight_tenant_id = ?"@, '?');
    lemma_occurrences_of_parts(p2, clause_if(from is Some, " AND metric_date >= ?"@), '?');
    lemma_occurrences_of_parts(p3, clause_if(to is Some, " AND metric_date < ?"@), '?');
    lemma_occurrences_of_parts(p4, order, '?');
    lemma_occurrences_of_parts(p5, " LIMIT "@, '?');
    lemma_occurrences_of_parts(p6, numeral, '?');
    if let Some(text) = req.orderby {
        lemma_occurrences_of_parts(" ORDER BY "@, text, '?');
    }
}

/// The text of a filter never gets into the statement: what the statement says depends
/// on which date bounds the filter has and not on their values. Nor does the tenant.
pub proof fn law_filter_stays_out_of_the_statement(
    query_ref: Seq<char>,
    tenant: Uuid,
    other_tenant: Uuid,
    req: QueryRequest<Seq<char>>,
    filter: Option<Seq<char>>,
)
    requires
        date_bound(req.filter, "ge"@) is Some <==> date_bound(filter, "ge"@) is Some,
        date_bound(req.filter, "lt"@) is Some <==> date_bound(filter, "lt"@) is Some,
    ensures
        metric_query(query_ref, tenant, req).sql == metric_query(
            query_ref,
            other_tenant,
            QueryRequest { filter, ..req },
        ).sql,
{
}

/// Every statement selects within the tenant: it begins with the text of the metric and
/// the condition on the tenant, and the first parameter is the tenant, which is not the
/// first parameter of a statement for another tenant.
pub proof fn law_statements_select_within_the_tenant(
    query_ref: Seq<char>,
    tenant: Uuid,
    req: QueryRequest<Seq<char>>,
    other_ref: Seq<char>,
    other_tenant: Uuid,
    other_req: QueryRequest<Seq<char>>,
)
    ensures
        ("SELECT * FROM ("@ + query_ref + ") AS _q WHERE insight_tenant_id = ?"@).is_prefix_of(
            metric_query(query_ref, tenant, req).sql,
        ),
        1 <= metric_query(query_ref, tenant, req).params.len() <= 3,
        metric_query(query_ref, tenant, req).params[0] == hyphenated(tenant),
        metric_query(query_ref, tenant, req).params[0] == metric_query(
            other_ref,
            other_tenant,
            other_req,
        ).params[0] ==> tenant == other_tenant,
{
    if hyphenated(tenant) == hyphenated(other_tenant) {
        lemma_hyphenated_is_injective(tenant, other_tenant);
    }
}

/// A statement fetches one row more than a page holds: at least two, at most 201.
pub proof fn law_statements_are_limited(
    query_ref: Seq<char>,
    tenant: Uuid,
    req: QueryRequest<Seq<char>>,
)
    ensures
        1 <= page_size(req.top) <= 200,
        1 <= req.top <= 200 ==> page_size(req.top) == req.top,
        (" LIMIT "@ + decimal((page_size(req.top) + 1) as nat)).is_suffix_of(
            metric_query(query_ref, tenant, req).sql,
        ),
{
    let end = " LIMIT "@ + decimal((page_size(req.top) + 1) as nat);
    let sql = metric_query(query_ref, tenant, req).sql;
    assert(end =~= sql.subrange(sql.len() - end.len(), sql.len() as int));
}

/// A value that is taken from a filter holds no quote.
pub proof fn law_extracted_value_has_no_quote(
    filter: Seq<char>,
    field: Seq<char>,
    op: Seq<char>,
    value: Seq<char>,
)
    requires
        odata_value(filter, field, op) == Some(value),
    ensures
        !value.contains('\''),
{
    let start = first_occurrence(filter, odata_pattern(field, op))->0;
    let rest = filter.skip(start + odata_pattern(field, op).len());
    rest.index_of_first_ensures('\'');
}

/// A quoted value is taken from a filter as it was written: where the field, the
/// operator and an opening quote first stand in a filter, and a value without quotes and
/// a closing quote follow, that value is taken.
pub proof fn law_quoted_value_is_extracted(
    before: Seq<char>,
    field: Seq<char>,
    op: Seq<char>,
    value: Seq<char>,
    after: Seq<char>,
)
    requires
        !value.contains('\''),
        is_first_occurrence(
            before + odata_pattern(field, op) + value + seq!['\''] + after,
            odata_pattern(field, op),
            before.len() as int,
        ),
    ensures
        odata_value(
            before + odata_pattern(field, op) + value + seq!['\''] + after,
            field,
            op,
        ) == Some(value),
{
    let pattern = odata_pattern(field, op);
    let filter = before + pattern + value + seq!['\''] + after;
    lemma_first_occurrence(filter, pattern, before.len() as int);
    let rest = filter.skip((before.len() + pattern.len()) as int);
    assert(rest =~= value + seq!['\''] + after);
    rest.index_of_first_ensures('\'');
    assert(rest[value.len() as int] == '\'');
    let end = rest.index_of_first('\'')->0;
    if end < value.len() {
        assert(value[end] == rest[end]);
        assert(value.contains('\''));
    }
    assert(rest.take(end) =~= value);
}

/// `part` stands in `text` from position `at` on.
pub open spec fn holds_at(text: Seq<char>, part: Seq<char>, at: int) -> bool {
    &&& 0 <= at
    &&& at + part.len() <= text.len()
    &&& forall|k: int| 0 <= k < part.len() ==> text[at + k] == #[trigger] part[k]
}

/// `value` is what stands in `filter` between the first place of `opening`, which ends
/// in a quote, and the next quote.
pub open spec fn is_quoted_after(filter: Seq<char>, opening: Seq<char>, value: Seq<char>) -> bool {
    exists|at: int|
        {
            &&& #[trigger] holds_at(filter, opening, at)
            &&& forall|earlier: int| 0 <= earlier < at ==> !#[trigger] holds_at(
                filter,
                opening,
                earlier,
            )
            &&& holds_at(filter, value, at + opening.len())
            &&& !value.contains('\'')
            &&& holds_at(filter, seq!['\''], at + opening.len() + value.len())
        }
}

/// `part` stands at a place by its characters if and only if it is the text there.
proof fn lemma_holds_at(text: Seq<char>, part: Seq<char>, at: int)
    ensures
        holds_at(text, part, at) <==> occurs_at(text, part, at),
{
    if holds_at(text, part, at) {
        assert(text.subrange(at, at + part.len()) =~= part);
    }
    if occurs_at(text, part, at) {
        assert forall|k: int| 0 <= k < part.len() implies text[at + k]
            == #[trigger] part[k] by {
            assert(text.subrange(at, at + part.len())[k] == part[k]);
        }
    }
}

/// A text is found at its first place, character by character, and nowhere if it has
/// no place.
pub proof fn law_texts_are_found_at_their_first_place(hay: Seq<char>, needle: Seq<char>, at: int)
    ensures
        first_occurrence(hay, needle) == Some(at) <==> {
            &&& holds_at(hay, needle, at)
            &&& forall|earlier: int| 0 <= earlier < at ==> !#[trigger] holds_at(
                hay,
                needle,
                earlier,
            )
        },
        first_occurrence(hay, needle) is None <==> forall|place: int| !#[trigger] holds_at(
            hay,
            needle,
            place,
        ),
{
    assert forall|place: int| #[trigger] holds_at(hay, needle, place) <==> occurs_at(
        hay,
        needle,
        place,
    ) by {
        lemma_holds_at(hay, needle, place);
    }
    if holds_at(hay, needle, at) && forall|earlier: int| 0 <= earlier < at ==> !#[trigger] holds_at(
        hay,
        needle,
        earlier,
    ) {
        assert forall|earlier: int| 0 <= earlier < at implies !occurs_at(hay, needle, earlier) by {
            assert(!holds_at(hay, needle, earlier));
        }
        lemma_first_occurrence(hay, needle, at);
    }
    if exists|place: int| occurs_at(hay, needle, place) {
        let place = choose|place: int| occurs_at(hay, needle, place);
        assert(holds_at(hay, needle, place));
        let first = lemma_some_place_is_first(hay, needle, place);
        lemma_first_occurrence(hay, needle, first);
    }
}

/// Of the places at which a text stands, one is the first.
proof fn lemma_some_place_is_first(hay: Seq<char>, needle: Seq<char>, at: int) -> (first: int)
    requires
        occurs_at(hay, needle, at),
    ensures
        is_first_occurrence(hay, needle, first),
    decreases at,
{
    if exists|earlier: int| 0 <= earlier < at && occurs_at(hay, needle, earlier) {
        let earlier = choose|earlier: int| 0 <= earlier < at && occurs_at(hay, needle, earlier);
        lemma_some_place_is_first(hay, needle, earlier)
    } else {
        at
    }
}

/// A field, a space, an operator, a space and a quote.
pub open spec fn opening_of(field: Seq<char>, op: Seq<char>) -> Seq<char> {
    field + seq![' '] + op + seq![' ', '\'']
}

/// The value of a field and an operator is taken from a filter if and only if it stands
/// there in quotes after the first place of the field, a space, the operator, a space
/// and a quote.
pub proof fn law_value_is_what_stands_in_quotes(
    filter: Seq<char>,
    field: Seq<char>,
    op: Seq<char>,
    value: Seq<char>,
)
    ensures
        odata_value(filter, field, op) == Some(value) <==> is_quoted_after(
            filter,
            opening_of(field, op),
            value,
        ),
        odata_value(filter, field, op) is None <==> forall|other: Seq<char>|
            !#[trigger] is_quoted_after(filter, opening_of(field, op), other),
{
    let opening = opening_of(field, op);
    reveal_strlit(" ");
    reveal_strlit(" '");
    assert(odata_pattern(field, op) =~= opening);
    lemma_quoted_is_extracted(filter, field, op, value);
    assert forall|other: Seq<char>| #[trigger] is_quoted_after(filter, opening, other) implies
        odata_value(filter, field, op) == Some(other) by {
        lemma_quoted_is_extracted(filter, field, op, other);
    }
    if let Some(found) = odata_value(filter, field, op) {
        let at = first_occurrence(filter, opening)->0;
        law_texts_are_found_at_their_first_place(filter, opening, at);
        let rest = filter.skip(at + opening.len());
        rest.index_of_first_ensures('\'');
        assert(holds_at(filter, found, at + opening.len()));
        assert(holds_at(filter, seq!['\''], at + opening.len() + found.len()));
        assert(is_quoted_after(filter, opening, found));
    }
}

/// What stands in quotes is taken.
proof fn lemma_quoted_is_extracted(
    filter: Seq<char>,
    field: Seq<char>,
    op: Seq<char>,
    value: Seq<char>,
)
    requires
        odata_pattern(field, op) == opening_of(field, op),
    ensures
        is_quoted_after(filter, odata_pattern(field, op), value) ==> odata_value(filter, field, op)
            == Some(value),
{
    let opening = odata_pattern(field, op);
    if is_quoted_after(filter, opening, value) {
        let at = choose|at: int|
            {
                &&& #[trigger] holds_at(filter, opening, at)
                &&& forall|earlier: int| 0 <= earlier < at ==> !#[trigger] holds_at(
                    filter,
                    opening,
                    earlier,
                )
                &&& holds_at(filter, value, at + opening.len())
                &&& !value.contains('\'')
                &&& holds_at(filter, seq!['\''], at + opening.len() + value.len())
            };
        law_texts_are_found_at_their_first_place(filter, opening, at);
        let from = at + opening.len();
        let rest = filter.skip(from);
        rest.index_of_first_ensures('\'');
        assert(seq!['\''][0] == '\'');
        assert(rest[value.len() as int] == '\'');
        let end = rest.index_of_first('\'')->0;
        if end < value.len() {
            assert(filter[from + end] == value[end]);
            assert(value.contains('\''));
        }
        assert forall|k: int| 0 <= k < value.len() implies rest[k] == value[k] by {
            assert(filter[from + k] == value[k]);
        }
        assert(rest.take(end) =~= value);
    }
}

/// The number that a decimal digit stands for.
pub open spec fn digit_value(c: char) -> int {
    c as int - '0' as int
}

/// The number that a row of decimal digits stands for.
pub open spec fn number_value(text: Seq<char>) -> int
    decreases text.len(),
{
    if text.len() == 0 {
        0
    } else {
        10 * number_value(text.drop_last()) + digit_value(text.last())
    }
}

/// `text` is the decimal numeral of `n`: digits only, no zero in front of others, and
/// together they stand for `n`.
pub open spec fn is_numeral(text: Seq<char>, n: int) -> bool {
    &&& text.len() > 0
    &&& forall|i: int| 0 <= i < text.len() ==> 0 <= digit_value(#[trigger] text[i]) < 10
    &&& text.len() > 1 ==> text[0] != '0'
    &&& number_value(text) == n
}

/// Numerals stand for their numbers.
pub proof fn law_numerals_stand_for_their_numbers(n: nat)
    ensures
        is_numeral(decimal(n), n as int),
        n > 0 ==> decimal(n)[0] != '0',
    decreases n,
{
    if n < 10 {
        reveal_with_fuel(number_value, 2);
        assert(decimal(n).drop_last() =~= Seq::<char>::empty());
    } else {
        law_numerals_stand_for_their_numbers(n / 10);
        assert(decimal(n).drop_last() =~= decimal(n / 10));
        assert forall|i: int| 0 <= i < decimal(n).len() implies 0 <= digit_value(
            #[trigger] decimal(n)[i],
        ) < 10 by {
            if i < decimal(n).len() - 1 {
                assert(decimal(n)[i] == decimal(n / 10)[i]);
            }
        }
        assert(decimal(n)[0] == decimal(n / 10)[0]);
    }
}

/// A filter sets a bound: a value stands in quotes after `opening`.
pub open spec fn sets_bound(filter: Option<Seq<char>>, opening: Seq<char>) -> bool {
    filter matches Some(text) && exists|value: Seq<char>| #[trigger]
        is_quoted_after(text, opening, value)
}

/// `clause`, if it is called for.
pub open spec fn only_if(called_for: bool, clause: Seq<char>) -> Seq<char> {
    if called_for {
        clause
    } else {
        Seq::empty()
    }
}

/// One row more than a page holds: a page holds as many rows as are asked for, but at
/// least one and at most 200.
pub open spec fn row_limit(top: u64) -> int {
    if top == 0 {
        2
    } else if top >= 200 {
        201
    } else {
        top + 1
    }
}

/// A statement with its parameters selects what a query of a metric asks for: of the
/// rows of `query_ref`, those of the tenant, from the day after `metric_date ge` on and
/// before the day after `metric_date lt`, in the order asked for, and no more than one
/// row over the page. Each placeholder is filled with the value that belongs there.
pub open spec fn selects_as_asked(
    sql: Seq<char>,
    params: Seq<Seq<char>>,
    query_ref: Seq<char>,
    tenant: Uuid,
    req: QueryRequest<Seq<char>>,
) -> bool {
    let from = sets_bound(req.filter, "metric_date ge '"@);
    let to = sets_bound(req.filter, "metric_date lt '"@);
    &&& params[0] == hyphenated(tenant)
    &&& from ==> params.len() > 1 && is_quoted_after(
        req.filter->0,
        "metric_date ge '"@,
        params[1],
    )
    &&& to && !from ==> params.len() > 1 && is_quoted_after(
        req.filter->0,
        "metric_date lt '"@,
        params[1],
    )
    &&& to && from ==> params.len() > 2 && is_quoted_after(
        req.filter->0,
        "metric_date lt '"@,
        params[2],
    )
    &&& params.len() == 1 + (if from {
        1int
    } else {
        0int
    }) + (if to {
        1int
    } else {
        0int
    })
    &&& exists|numeral: Seq<char>|
        {
            &&& #[trigger] is_numeral(numeral, row_limit(req.top))
            &&& sql == "SELECT * FROM ("@ + query_ref + ") AS _q WHERE insight_tenant_id = ?"@
                + only_if(from, " AND metric_date >= ?"@) + only_if(to, " AND metric_date < ?"@)
                + (if req.orderby is Some {
                " ORDER BY "@ + req.orderby->0
            } else {
                Seq::empty()
            }) + " LIMIT "@ + numeral
        }
}

/// The date bound of a filter is what stands in quotes after the field and the operator.
proof fn lemma_date_bound(filter: Option<Seq<char>>, op: Seq<char>, opening: Seq<char>)
    requires
        opening == opening_of("metric_date"@, op),
    ensures
        date_bound(filter, op) is Some <==> sets_bound(filter, opening),
        date_bound(filter, op) matches Some(value) ==> is_quoted_after(filter->0, opening, value),
{
    if let Some(text) = filter {
        assert forall|value: Seq<char>| #[trigger] is_quoted_after(text, opening, value) <==>
            date_bound(filter, op) == Some(value) by {
            law_value_is_what_stands_in_quotes(text, "metric_date"@, op, value);
        }
        if date_bound(filter, op) is Some {
            assert(is_quoted_after(text, opening, date_bound(filter, op)->0));
        }
    }
}

/// The statement of a query and its parameters select what the query asks for.
pub proof fn law_statement_selects_as_asked(
    query_ref: Seq<char>,
    tenant: Uuid,
    req: QueryRequest<Seq<char>>,
)
    ensures
        selects_as_asked(
            metric_query(query_ref, tenant, req).sql,
            metric_query(query_ref, tenant, req).params,
            query_ref,
            tenant,
            req,
        ),
{
    let lower = "metric_date ge '"@;
    let upper = "metric_date lt '"@;
    reveal_strlit("metric_date ge '");
    reveal_strlit("metric_date lt '");
    reveal_strlit("metric_date");
    reveal_strlit("ge");
    reveal_strlit("lt");
    assert(lower =~= opening_of("metric_date"@, "ge"@));
    assert(upper =~= opening_of("metric_date"@, "lt"@));
    lemma_date_bound(req.filter, "ge"@, lower);
    lemma_date_bound(req.filter, "lt"@, upper);
    let numeral = decimal((page_size(req.top) + 1) as nat);
    law_numerals_stand_for_their_numbers((page_size(req.top) + 1) as nat);
    assert(is_numeral(numeral, row_limit(req.top)));
    let from = sets_bound(req.filter, lower);
    let to = sets_bound(req.filter, upper);
    let sql = metric_query(query_ref, tenant, req).sql;
    assert(sql == "SELECT * FROM ("@ + query_ref + ") AS _q WHERE insight_tenant_id = ?"@ + only_if(
        from,
        " AND metric_date >= ?"@,
    ) + only_if(to, " AND metric_date < ?"@) + (if req.orderby is Some {
        " ORDER BY "@ + req.orderby->0
    } else {
        Seq::empty()
    }) + " LIMIT "@ + numeral);
}

} // verus!
