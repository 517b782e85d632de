//! A statement taken apart into its facets, and the facets translated into a
//! plan.
use vstd::prelude::*;
use crate::ast::{OrderByExpr, Query, SelectItem, SetExpr, SqlExpr, SqlValue, Statement, TableFactor, TableWithJoins};
use crate::error::QueryError;
use crate::number::{parse_i64, parse_usize, spec_parse_i64, spec_parse_usize};
use crate::plan::{Expr, Plan, PlanView};
use crate::translate::{spec_expr, spec_projection, translate_expr, translate_projection};

verus! {

/// The parts of a plain SELECT query that the translation reads, as parsed.
#[derive(Debug, PartialEq)]
pub struct QueryFacets {
    pub selection: Vec<SelectItem>,
    pub condition: Option<SqlExpr>,
    pub source: Vec<TableWithJoins>,
    pub order_by: Vec<OrderByExpr>,
    pub offset: Option<SqlExpr>,
    pub limit: Option<SqlExpr>,
}

pub open spec fn spec_decompose(s: Statement) -> Result<QueryFacets, QueryError> {
    match s {
        Statement::Query(q) => match q.body {
            SetExpr::Select(sel) => Ok(
                QueryFacets {
                    selection: sel.projection,
                    condition: sel.selection,
                    source: sel.from,
                    order_by: q.order_by,
                    offset: q.offset,
                    limit: q.limit,
                },
            ),
            SetExpr::Other(text) => Err(QueryError::UnsupportedStatement(text)),
        },
        Statement::Other(text) => Err(QueryError::UnsupportedStatement(text)),
    }
}

/// Takes a plain SELECT query apart, keeping every list in its order; any
/// other statement, or a compound query, is refused.
pub fn decompose(s: Statement) -> (r: Result<QueryFacets, QueryError>)
    ensures
        r == spec_decompose(s),
{
    match s {
        Statement::Query(q) => {
            let Query { body, order_by, limit, offset } = *q;
            match body {
                SetExpr::Select(sel) => {
                    let sel = *sel;
                    Ok(
                        QueryFacets {
                            selection: sel.projection,
                            condition: sel.selection,
                            source: sel.from,
                            order_by,
                            offset,
                            limit,
                        },
                    )
                },
                SetExpr::Other(text) => Err(QueryError::UnsupportedStatement(text)),
            }
        },
        Statement::Other(text) => Err(QueryError::UnsupportedStatement(text)),
    }
}

pub open spec fn spec_source(s: Seq<TableWithJoins>) -> Result<String, QueryError> {
    if s.len() != 1 {
        Err(QueryError::MultipleSources)
    } else if s[0].joins@.len() > 0 {
        Err(QueryError::JoinNotSupported)
    } else {
        match s[0].relation {
            TableFactor::Table { name } => if name@.len() > 0 {
                Ok(name@[0])
            } else {
                Err(QueryError::UnsupportedRelation(TableFactor::Table { name }))
            },
            other => Err(QueryError::UnsupportedRelation(other)),
        }
    }
}

/// The one table of FROM, without joins, by the first part of its name.
pub fn resolve_source(s: Vec<TableWithJoins>) -> (r: Result<String, QueryError>)
    ensures
        r == spec_source(s@),
{
    let mut s = s;
    if s.len() != 1 {
        return Err(QueryError::MultipleSources);
    }
    let t = s.pop().unwrap();
    if t.joins.len() > 0 {
        return Err(QueryError::JoinNotSupported);
    }
    match t.relation {
        TableFactor::Table { name } => {
            let mut name = name;
            if name.len() > 0 {
                Ok(name.remove(0))
            } else {
                Err(QueryError::UnsupportedRelation(TableFactor::Table { name }))
            }
        },
        other => Err(QueryError::UnsupportedRelation(other)),
    }
}

pub open spec fn spec_order_key(o: OrderByExpr) -> Result<(String, bool), QueryError> {
    match o.expr {
        SqlExpr::Identifier(name) => Ok(
            (
                name,
                match o.asc {
                    Some(asc) => !asc,
                    None => false,
                },
            ),
        ),
        other => Err(QueryError::UnsupportedOrderBy(other)),
    }
}

/// A sort key: a bare column name and whether it sorts descending (ascending
/// when unspecified).
pub fn translate_order_key(o: OrderByExpr) -> (r: Result<(String, bool), QueryError>)
    ensures
        r == spec_order_key(o),
{
    let OrderByExpr { expr, asc } = o;
    match expr {
        SqlExpr::Identifier(name) => {
            let descending = match asc {
                Some(a) => !a,
                None => false,
            };
            Ok((name, descending))
        },
        other => Err(QueryError::UnsupportedOrderBy(other)),
    }
}

pub open spec fn spec_offset(o: Option<SqlExpr>) -> i64 {
    match o {
        Some(SqlExpr::Value(SqlValue::Number(text))) => match spec_parse_i64(text@) {
            Some(v) => v,
            None => 0,
        },
        _ => 0,
    }
}

/// OFFSET as a row count: a numeric literal read as an integer; 0 when absent,
/// unreadable or not a numeric literal.
pub fn translate_offset(o: Option<SqlExpr>) -> (r: i64)
    ensures
        r == spec_offset(o),
{
    match o {
        Some(SqlExpr::Value(SqlValue::Number(text))) => match parse_i64(text.as_str()) {
            Some(v) => v,
            None => 0,
        },
        _ => 0,
    }
}

pub open spec fn spec_limit(l: Option<SqlExpr>) -> Option<usize> {
    match l {
        Some(SqlExpr::Value(SqlValue::Number(text))) => spec_parse_usize(text@),
        _ => None,
    }
}

/// LIMIT as a row count: a numeric literal read as an unsigned integer;
/// unbounded (`None`) when absent, unreadable or not a numeric literal.
pub fn translate_limit(l: Option<SqlExpr>) -> (r: Option<usize>)
    ensures
        r == spec_limit(l),
{
    match l {
        Some(SqlExpr::Value(SqlValue::Number(text))) => parse_usize(text.as_str()),
        _ => None,
    }
}

pub open spec fn spec_condition(c: Option<SqlExpr>) -> Result<Option<Expr>, QueryError> {
    match c {
        None => Ok(None),
        Some(e) => match spec_expr(e) {
            Ok(x) => Ok(Some(x)),
            Err(err) => Err(err),
        },
    }
}

/// Each element translated in order; the first failure is the result.
pub open spec fn spec_all<A, B>(s: Seq<A>, f: spec_fn(A) -> Result<B, QueryError>) -> Result<
    Seq<B>,
    QueryError,
>
    decreases s.len(),
{
    if s.len() == 0 {
        Ok(Seq::empty())
    } else {
        match spec_all(s.drop_last(), f) {
            Err(err) => Err(err),
            Ok(prefix) => match f(s.last()) {
                Err(err) => Err(err),
                Ok(x) => Ok(prefix.push(x)),
            },
        }
    }
}

proof fn lemma_all_err_extends<A, B>(s: Seq<A>, k: int, f: spec_fn(A) -> Result<B, QueryError>)
    requires
        0 <= k <= s.len(),
        spec_all(s.subrange(0, k), f) is Err,
    ensures
        spec_all(s, f) == spec_all(s.subrange(0, k), f),
    decreases s.len() - k,
{
    if k < s.len() {
        let next = s.subrange(0, k + 1);
        assert(next.drop_last() =~= s.subrange(0, k));
        lemma_all_err_extends(s, k + 1, f);
    } else {
        assert(s.subrange(0, k) =~= s);
    }
}

pub open spec fn spec_selection(items: Seq<SelectItem>) -> Result<Seq<Expr>, QueryError> {
    spec_all(items, |i: SelectItem| spec_projection(i))
}

proof fn lemma_selection_step(all: Seq<SelectItem>, i: int)
    requires
        0 <= i < all.len(),
    ensures
        spec_selection(all.subrange(0, i + 1)) == match spec_selection(all.subrange(0, i)) {
            Err(err) => Err(err),
            Ok(prefix) => match spec_projection(all[i]) {
                Err(err) => Err(err),
                Ok(x) => Ok(prefix.push(x)),
            },
        },
        spec_selection(all.subrange(0, i + 1)) is Err ==> spec_selection(all)
            == spec_selection(all.subrange(0, i + 1)),
{
    assert(all.subrange(0, i + 1).drop_last() =~= all.subrange(0, i));
    if spec_selection(all.subrange(0, i + 1)) is Err {
        lemma_all_err_extends(all, i + 1, |i: SelectItem| spec_projection(i));
    }
}

/// The projection items translated in order.
pub fn translate_selection(items: Vec<SelectItem>) -> (r: Result<Vec<Expr>, QueryError>)
    ensures
        r is Ok ==> spec_selection(items@) == Ok::<Seq<Expr>, QueryError>(r->Ok_0@),
        r is Err ==> spec_selection(items@) == Err::<Seq<Expr>, QueryError>(r->Err_0),
{
    let ghost all = items@;
    let mut rest = items;
    let mut out: Vec<Expr> = Vec::new();
    let n = rest.len();
    let mut i: usize = 0;
    assert(all.subrange(0, 0) =~= Seq::<SelectItem>::empty());
    while i < n
        invariant
            n == all.len(),
            all == items@,
            i <= n,
            rest@ == all.subrange(i as int, n as int),
            spec_selection(all.subrange(0, i as int)) == Ok::<Seq<Expr>, QueryError>(out@),
        decreases n - i,
    {
        let item = rest.remove(0);
        proof {
            lemma_selection_step(all, i as int);
            assert(all.subrange(i as int, n as int)[0] == all[i as int]);
        }
        match translate_projection(item) {
            Ok(x) => out.push(x),
            Err(e) => {
                return Err(e);
            },
        }
        i = i + 1;
        assert(rest@ =~= all.subrange(i as int, n as int));
    }
    assert(all.subrange(0, n as int) =~= all);
    Ok(out)
}

pub open spec fn spec_order_by(keys: Seq<OrderByExpr>) -> Result<Seq<(String, bool)>, QueryError> {
    spec_all(keys, |o: OrderByExpr| spec_order_key(o))
}

proof fn lemma_order_by_step(all: Seq<OrderByExpr>, i: int)
    requires
        0 <= i < all.len(),
    ensures
        spec_order_by(all.subrange(0, i + 1)) == match spec_order_by(all.subrange(0, i)) {
            Err(err) => Err(err),
            Ok(prefix) => match spec_order_key(all[i]) {
                Err(err) => Err(err),
                Ok(x) => Ok(prefix.push(x)),
            },
        },
        spec_order_by(all.subrange(0, i + 1)) is Err ==> spec_order_by(all)
            == spec_order_by(all.subrange(0, i + 1)),
{
    assert(all.subrange(0, i + 1).drop_last() =~= all.subrange(0, i));
    if spec_order_by(all.subrange(0, i + 1)) is Err {
        lemma_all_err_extends(all, i + 1, |o: OrderByExpr| spec_order_key(o));
    }
}

/// The ORDER BY items translated in order.
pub fn translate_order_by(keys: Vec<OrderByExpr>) -> (r: Result<Vec<(String, bool)>, QueryError>)
    ensures
        r is Ok ==> spec_order_by(keys@) == Ok::<Seq<(String, bool)>, QueryError>(r->Ok_0@),
        r is Err ==> spec_order_by(keys@) == Err::<Seq<(String, bool)>, QueryError>(r->Err_0),
{
    let ghost all = keys@;
    let mut rest = keys;
    let mut out: Vec<(String, bool)> = Vec::new();
    let n = rest.len();
    let mut i: usize = 0;
    assert(all.subrange(0, 0) =~= Seq::<OrderByExpr>::empty());
    while i < n
        invariant
            n == all.len(),
            all == keys@,
            i <= n,
            rest@ == all.subrange(i as int, n as int),
            spec_order_by(all.subrange(0, i as int)) == Ok::<Seq<(String, bool)>, QueryError>(out@),
        decreases n - i,
    {
        let key = rest.remove(0);
        proof {
            lemma_order_by_step(all, i as int);
            assert(all.subrange(i as int, n as int)[0] == all[i as int]);
        }
        match translate_order_key(key) {
            Ok(x) => out.push(x),
            Err(e) => {
                return Err(e);
            },
        }
        i = i + 1;
        assert(rest@ =~= all.subrange(i as int, n as int));
    }
    assert(all.subrange(0, n as int) =~= all);
    Ok(out)
}

pub open spec fn spec_plan(f: QueryFacets) -> Result<PlanView, QueryError> {
    match spec_selection(f.selection@) {
        Err(err) => Err(err),
        Ok(selection) => match spec_condition(f.condition) {
            Err(err) => Err(err),
            Ok(condition) => match spec_source(f.source@) {
                Err(err) => Err(err),
                Ok(source) => match spec_order_by(f.order_by@) {
                    Err(err) => Err(err),
                    Ok(order_by) => Ok(
                        PlanView {
                            selection,
                            condition,
                            source: source@,
                            order_by,
                            offset: spec_offset(f.offset),
                            limit: spec_limit(f.limit),
                        },
                    ),
                },
            },
        },
    }
}

/// Translates the facets of a query into a plan: projection, then condition,
/// then source, then sort keys; OFFSET and LIMIT never fail.
pub fn translate_facets(f: QueryFacets) -> (r: Result<Plan, QueryError>)
    ensures
        r is Ok ==> spec_plan(f) == Ok::<PlanView, QueryError>(r->Ok_0@),
        r is Err ==> spec_plan(f) == Err::<PlanView, QueryError>(r->Err_0),
{
    let QueryFacets { selection, condition, source, order_by, offset, limit } = f;
    let selection = match translate_selection(selection) {
        Ok(v) => v,
        Err(e) => return Err(e),
    };
    let condition = match condition {
        None => None,
        Some(e) => match translate_expr(e) {
            Ok(x) => Some(x),
            Err(err) => return Err(err),
        },
    };
    let source = match resolve_source(source) {
        Ok(s) => s,
        Err(e) => return Err(e),
    };
    let order_by = match translate_order_by(order_by) {
        Ok(v) => v,
        Err(e) => return Err(e),
    };
    let offset = translate_offset(offset);
    let limit = translate_limit(limit);
    Ok(Plan { selection, condition, source, order_by, offset, limit })
}

pub open spec fn spec_query(stmts: Seq<Statement>) -> Result<PlanView, QueryError> {
    if stmts.len() != 1 {
        Err(QueryError::MultipleStatements)
    } else {
        match spec_decompose(stmts[0]) {
            Err(err) => Err(err),
            Ok(f) => spec_plan(f),
        }
    }
}

/// The plan of a parsed input, which must be exactly one plain SELECT query.
pub fn plan_statements(stmts: Vec<Statement>) -> (r: Result<Plan, QueryError>)
    ensures
        r is Ok ==> spec_query(stmts@) == Ok::<PlanView, QueryError>(r->Ok_0@),
        r is Err ==> spec_query(stmts@) == Err::<PlanView, QueryError>(r->Err_0),
{
    let mut stmts = stmts;
    if stmts.len() != 1 {
        return Err(QueryError::MultipleStatements);
    }
    let s = stmts.pop().unwrap();
    match decompose(s) {
        Ok(f) => translate_facets(f),
        Err(e) => Err(e),
    }
}

/// A FROM clause with no table or several, or with a join, never yields a
/// plan: no table is picked silently. The source is refused with
/// `MultipleSources` or `JoinNotSupported`, and that is the query's error
/// unless the projection or the condition failed before it.
pub proof fn lemma_no_source_is_picked(f: QueryFacets)
    requires
        f.source@.len() != 1 || f.source@[0].joins@.len() > 0,
    ensures
        spec_plan(f) is Err,
        f.source@.len() != 1 ==> spec_source(f.source@) == Err::<String, QueryError>(
            QueryError::MultipleSources,
        ),
        f.source@.len() == 1 ==> spec_source(f.source@) == Err::<String, QueryError>(
            QueryError::JoinNotSupported,
        ),
        spec_selection(f.selection@) is Ok && spec_condition(f.condition) is Ok ==> spec_plan(f)
            == Err::<PlanView, QueryError>(spec_source(f.source@)->Err_0),
{
}

/// OFFSET and LIMIT never make a translation fail. Absent, not a numeric
/// literal, or a numeric literal that does not read as an integer of the
/// field's type, they give an offset of 0 and an unbounded limit.
pub proof fn lemma_offset_limit_defaults(f: QueryFacets)
    ensures
        spec_plan(f) is Ok <==> spec_selection(f.selection@) is Ok && spec_condition(f.condition) is Ok
            && spec_source(f.source@) is Ok && spec_order_by(f.order_by@) is Ok,
        spec_plan(f) is Ok ==> spec_plan(f)->Ok_0.offset == spec_offset(f.offset)
            && spec_plan(f)->Ok_0.limit == spec_limit(f.limit),
        f.offset is None ==> spec_offset(f.offset) == 0,
        f.limit is None ==> spec_limit(f.limit) is None,
        f.offset matches Some(e) && !(e matches SqlExpr::Value(SqlValue::Number(_))) ==> spec_offset(f.offset) == 0,
        f.limit matches Some(e) && !(e matches SqlExpr::Value(SqlValue::Number(_))) ==> spec_limit(f.limit) is None,
        f.offset matches Some(SqlExpr::Value(SqlValue::Number(t))) && spec_parse_i64(t@) is None ==> spec_offset(f.offset) == 0,
        f.limit matches Some(SqlExpr::Value(SqlValue::Number(t))) && spec_parse_usize(t@) is None ==> spec_limit(f.limit) is None,
{
}

} // verus!
