//! The filtered look-up: a conjunctive statement over the stored records whose
//! filter values travel only as bound parameters.

use vstd::prelude::*;

verus! {

/// The statement that selects every stored record.
pub const SELECT_ALL: &'static str = "select * from air_quality where 1 = 1";

pub const ID_CLAUSE: &'static str = " and id = ?";
pub const REGION_CLAUSE: &'static str = " and region = ?";
pub const SUBREGION_CLAUSE: &'static str = " and subregion = ?";
pub const COUNTRY_CLAUSE: &'static str = " and country = ?";
pub const CITY_CLAUSE: &'static str = " and city = ?";
pub const END: &'static str = ";";

/// The optional equality filters of one look-up.
#[derive(Debug, Clone, PartialEq, Default)]
pub struct FilterSpec {
    pub id: Option<i64>,
    pub region: Option<String>,
    pub subregion: Option<String>,
    pub country: Option<String>,
    pub city: Option<String>,
}

/// A value bound to one `?` of a statement.
#[derive(Debug, Clone, PartialEq)]
pub enum SqlValue {
    Integer(i64),
    Text(String),
}

/// What a bound value holds.
pub enum Param {
    Integer(i64),
    Text(Seq<char>),
}

impl View for SqlValue {
    type V = Param;

    open spec fn view(&self) -> Param {
        match self {
            SqlValue::Integer(i) => Param::Integer(*i),
            SqlValue::Text(s) => Param::Text(s@),
        }
    }
}

/// A statement and the values for its `?` placeholders, in order.
#[derive(Debug, Clone)]
pub struct Query {
    pub sql: String,
    pub params: Vec<SqlValue>,
}

/// What a sequence of bound values holds.
pub open spec fn params_view(ps: Seq<SqlValue>) -> Seq<Param> {
    ps.map_values(|p: SqlValue| p@)
}

/// `text` where a filter is given, nothing otherwise.
pub open spec fn clause(given: bool, text: Seq<char>) -> Seq<char> {
    if given {
        text
    } else {
        Seq::empty()
    }
}

/// The bound value of a text filter, where it is given.
pub open spec fn text_param(v: Option<String>) -> Seq<Param> {
    match v {
        Some(s) => seq![Param::Text(s@)],
        None => Seq::empty(),
    }
}

/// The statement text for `f`: one equality clause per given filter.
pub open spec fn query_text(f: FilterSpec) -> Seq<char> {
    SELECT_ALL@ + clause(f.id is Some, ID_CLAUSE@) + clause(f.region is Some, REGION_CLAUSE@)
        + clause(f.subregion is Some, SUBREGION_CLAUSE@) + clause(
        f.country is Some,
        COUNTRY_CLAUSE@,
    ) + clause(f.city is Some, CITY_CLAUSE@) + END@
}

/// The values bound for `f`, in the order of its clauses.
pub open spec fn query_params(f: FilterSpec) -> Seq<Param> {
    (match f.id {
        Some(i) => seq![Param::Integer(i)],
        None => Seq::empty(),
    }) + text_param(f.region) + text_param(f.subregion) + text_param(f.country) + text_param(
        f.city,
    )
}

/// Both filters give the same keys.
pub open spec fn same_keys(f: FilterSpec, g: FilterSpec) -> bool {
    &&& (f.id is Some <==> g.id is Some)
    &&& (f.region is Some <==> g.region is Some)
    &&& (f.subregion is Some <==> g.subregion is Some)
    &&& (f.country is Some <==> g.country is Some)
    &&& (f.city is Some <==> g.city is Some)
}

fn add_text_filter(
    sql: &mut String,
    params: &mut Vec<SqlValue>,
    clause_text: &str,
    value: &Option<String>,
)
    ensures
        final(sql)@ == old(sql)@ + clause(*value is Some, clause_text@),
        params_view(final(params)@) == params_view(old(params)@) + text_param(*value),
{
    match value {
        Some(v) => {
            sql.append(clause_text);
            params.push(SqlValue::Text(v.clone()));
            assert(params_view(params@) =~= params_view(old(params)@) + text_param(*value));
        },
        None => {
            assert(sql@ =~= old(sql)@ + clause(false, clause_text@));
            assert(params_view(params@) =~= params_view(old(params)@) + text_param(*value));
        },
    }
}

/// Builds the look-up statement for `f`. Each given filter adds one equality
/// clause and binds its value; no filter value is ever part of the statement
/// text, and with no filter every record matches.
pub fn build_query(f: &FilterSpec) -> (q: Query)
    ensures
        q.sql@ == query_text(*f),
        params_view(q.params@) == query_params(*f),
{
    let mut sql = String::from_str(SELECT_ALL);
    let mut params: Vec<SqlValue> = Vec::new();
    match f.id {
        Some(i) => {
            sql.append(ID_CLAUSE);
            params.push(SqlValue::Integer(i));
        },
        None => {},
    }
    assert(sql@ =~= SELECT_ALL@ + clause(f.id is Some, ID_CLAUSE@));
    assert(params_view(params@) =~= (match f.id {
        Some(i) => seq![Param::Integer(i)],
        None => Seq::empty(),
    }));
    add_text_filter(&mut sql, &mut params, REGION_CLAUSE, &f.region);
    add_text_filter(&mut sql, &mut params, SUBREGION_CLAUSE, &f.subregion);
    add_text_filter(&mut sql, &mut params, COUNTRY_CLAUSE, &f.country);
    add_text_filter(&mut sql, &mut params, CITY_CLAUSE, &f.city);
    sql.append(END);
    Query { sql, params }
}

/// Filter values cannot change the shape of a look-up: two filters that give
/// the same keys yield the same statement text, whatever their values hold
/// (quotes, semicolons, keywords), and each value is bound as it is.
pub proof fn lemma_statement_ignores_values(f: FilterSpec, g: FilterSpec)
    requires
        same_keys(f, g),
    ensures
        query_text(f) == query_text(g),
        query_params(f).len() == query_params(g).len(),
{
}

} // verus!
