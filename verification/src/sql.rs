//! The statement that a query of a metric runs, and its parameters.

use vstd::prelude::*;

use crate::auth::SecurityContext;
use crate::domain::query::QueryRequest;
use crate::ids::{hyphenated, id_text, Uuid};
use crate::text::{characters, decimal, decimal_text, find, first_occurrence, texts};

verus! {

/// A statement with a `?` for each of its parameters, and the parameters.
#[derive(Debug, PartialEq, Eq)]
pub struct MetricQuery {
    pub sql: String,
    pub params: Vec<String>,
}

/// A statement and its parameters.
pub struct MetricQueryView {
    pub sql: Seq<char>,
    pub params: Seq<Seq<char>>,
}

impl View for MetricQuery {
    type V = MetricQueryView;

    open spec fn view(&self) -> MetricQueryView {
        MetricQueryView { sql: self.sql@, params: texts(self.params@) }
    }
}

/// What stands before the value in a comparison of a filter: the field, the
/// operator and an opening quote.
pub open spec fn odata_pattern(field: Seq<char>, op: Seq<char>) -> Seq<char> {
    field + " "@ + op + " '"@
}

/// What stands before the first quote of `rest`, if there is one.
pub open spec fn before_quote(rest: Seq<char>) -> Option<Seq<char>> {
    match rest.index_of_first('\'') {
        Some(end) => Some(rest.take(end)),
        None => None,
    }
}

/// The value that `filter` compares `field` with by `op`: the quoted text after
/// the first place where the field, the operator and an opening quote stand.
pub open spec fn odata_value(filter: Seq<char>, field: Seq<char>, op: Seq<char>) -> Option<
    Seq<char>,
> {
    match first_occurrence(filter, odata_pattern(field, op)) {
        Some(start) => before_quote(filter.skip(start + odata_pattern(field, op).len())),
        None => None,
    }
}

/// The value that an optional filter compares `metric_date` with by `op`.
pub open spec fn date_bound(filter: Option<Seq<char>>, op: Seq<char>) -> Option<Seq<char>> {
    match filter {
        Some(text) => odata_value(text, "metric_date"@, op),
        None => None,
    }
}

/// The size of a page for a `$top` of `top`: at least one row, at most 200.
pub open spec fn page_size(top: u64) -> u64 {
    if top < 1 {
        1
    } else if top > 200 {
        200
    } else {
        top
    }
}

/// `clause` where it applies, else nothing.
pub open spec fn clause_if(applies: bool, clause: Seq<char>) -> Seq<char> {
    if applies {
        clause
    } else {
        Seq::empty()
    }
}

/// The text of a statement that selects from `query_ref`, within one tenant, with
/// or without a lower and an upper date bound, in the given order, and one row
/// more than a page holds.
pub open spec fn statement(
    query_ref: Seq<char>,
    from: bool,
    to: bool,
    orderby: Option<Seq<char>>,
    top: u64,
) -> Seq<char> {
    "SELECT * FROM ("@ + query_ref + ") AS _q WHERE insight_tenant_id = ?"@ + clause_if(
        from,
        " AND metric_date >= ?"@,
    ) + clause_if(to, " AND metric_date < ?"@) + (match orderby {
        Some(order) => " ORDER BY "@ + order,
        None => Seq::empty(),
    }) + " LIMIT "@ + decimal((page_size(top) + 1) as nat)
}

/// A list of what is there of `value`.
pub open spec fn present(value: Option<Seq<char>>) -> Seq<Seq<char>> {
    match value {
        Some(text) => seq![text],
        None => Seq::empty(),
    }
}

/// The statement that a query of a metric runs, and its parameters: the tenant,
/// then the lower and the upper date bound as far as the filter has them.
pub open spec fn metric_query(
    query_ref: Seq<char>,
    tenant: Uuid,
    req: QueryRequest<Seq<char>>,
) -> MetricQueryView {
    let from = date_bound(req.filter, "ge"@);
    let to = date_bound(req.filter, "lt"@);
    MetricQueryView {
        sql: statement(query_ref, from is Some, to is Some, req.orderby, req.top),
        params: seq![hyphenated(tenant)] + present(from) + present(to),
    }
}

/// The value that `filter` compares `field` with by `op`, taken from patterns
/// like `field op 'value'`.
pub fn extract_odata_value(filter: &str, field: &str, op: &str) -> (value: Option<String>)
    ensures
        match value {
            Some(text) => odata_value(filter@, field@, op@) == Some(text@),
            None => odata_value(filter@, field@, op@) is None,
        },
{
    let mut pattern = field.to_owned();
    pattern.append(" ");
    pattern.append(op);
    pattern.append(" '");
    let needle = characters(pattern.as_str());
    let chars = characters(filter);
    let from: usize = match find(&chars, &needle) {
        Some(start) => start + needle.len(),
        None => return None,
    };
    let ghost rest = filter@.skip(from as int);
    proof {
        rest.index_of_first_ensures('\'');
    }
    for end in from..chars.len()
        invariant
            chars@ == filter@,
            rest == filter@.skip(from as int),
            odata_value(filter@, field@, op@) == before_quote(rest),
            forall|j: int| 0 <= j < end - from ==> rest[j] != '\'',
            match rest.index_of_first('\'') {
                Some(index) => 0 <= index < rest.len() && rest[index] == '\'' && forall|j: int|
                    0 <= j < index ==> rest[j] != '\'',
                None => !rest.contains('\''),
            },
    {
        if chars[end] == '\'' {
            assert(rest[end - from] == '\'');
            assert(rest.contains('\''));
            assert(rest.take(end - from) =~= filter@.subrange(from as int, end as int));
            return Some(filter.substring_char(from, end).to_owned());
        }
        assert(rest[end - from] == filter@[end as int]);
    }
    None
}

/// The size of a page for a `$top` of `top`.
fn clamp_top(top: u64) -> (size: u64)
    ensures
        size == page_size(top),
{
    if top < 1 {
        1
    } else if top > 200 {
        200
    } else {
        top
    }
}

/// The statement that a query of a metric runs, and its parameters.
pub fn build_query(query_ref: &str, ctx: &SecurityContext, req: &QueryRequest) -> (query:
    MetricQuery)
    ensures
        query@ == metric_query(query_ref@, ctx.insight_tenant_id, req@),
{
    let top: u64 = clamp_top(req.top);
    let mut sql = String::new();
    sql.append("SELECT * FROM (");
    sql.append(query_ref);
    sql.append(") AS _q WHERE insight_tenant_id = ?");
    let mut params: Vec<String> = Vec::new();
    params.push(id_text(ctx.insight_tenant_id));
    let ghost from = date_bound(req@.filter, "ge"@);
    let ghost to = date_bound(req@.filter, "lt"@);
    if let Some(filter) = &req.filter {
        if let Some(date_from) = extract_odata_value(filter.as_str(), "metric_date", "ge") {
            sql.append(" AND metric_date >= ?");
            params.push(date_from);
        }
        if let Some(date_to) = extract_odata_value(filter.as_str(), "metric_date", "lt") {
            sql.append(" AND metric_date < ?");
            params.push(date_to);
        }
    }
    assert(texts(params@) =~= seq![hyphenated(ctx.insight_tenant_id)] + present(from) + present(
        to,
    ));
    if let Some(orderby) = &req.orderby {
        sql.append(" ORDER BY ");
        sql.append(orderby.as_str());
    }
    sql.append(" LIMIT ");
    sql.append(decimal_text(top + 1).as_str());
    assert(sql@ =~= statement(query_ref@, from is Some, to is Some, req@.orderby, req.top));
    MetricQuery { sql, params }
}

} // verus!
