use sql2df::ast::{
    BinaryOperator, OrderByExpr, Query, Select, SelectItem, SetExpr, SqlExpr, SqlValue, Statement,
    TableFactor, TableWithJoins,
};
use sql2df::pipeline::{execution_steps, Step};
use sql2df::query::{
    decompose, plan_statements, resolve_source, translate_facets, translate_limit,
    translate_offset, translate_order_key, QueryFacets,
};
use sql2df::translate::{translate_expr, translate_literal, translate_operator, translate_projection};
use sql2df::{Expr, LiteralValue, Operator, Plan, QueryError};

fn ident(s: &str) -> SqlExpr {
    SqlExpr::Identifier(s.to_string())
}

fn num(s: &str) -> SqlExpr {
    SqlExpr::Value(SqlValue::Number(s.to_string()))
}

fn col(s: &str) -> Expr {
    Expr::Column(s.to_string())
}

fn table(name: &str) -> TableWithJoins {
    TableWithJoins {
        relation: TableFactor::Table { name: vec![name.to_string()] },
        joins: vec![],
    }
}

/// select a, b, c from {url} where a=1 order by c desc limit 5 offset 10
fn sample_statement(url: &str) -> Statement {
    Statement::Query(Box::new(Query {
        body: SetExpr::Select(Box::new(Select {
            projection: vec![
                SelectItem::UnnamedExpr(ident("a")),
                SelectItem::UnnamedExpr(ident("b")),
                SelectItem::UnnamedExpr(ident("c")),
            ],
            from: vec![table(url)],
            selection: Some(SqlExpr::BinaryOp {
                left: Box::new(ident("a")),
                op: BinaryOperator::Eq,
                right: Box::new(num("1")),
            }),
        })),
        order_by: vec![OrderByExpr { expr: ident("c"), asc: Some(false) }],
        limit: Some(num("5")),
        offset: Some(num("10")),
    }))
}

fn facets(from: Vec<TableWithJoins>) -> QueryFacets {
    QueryFacets {
        selection: vec![SelectItem::Wildcard],
        condition: None,
        source: from,
        order_by: vec![],
        offset: None,
        limit: None,
    }
}

#[test]
fn statement_2_sqloperation() {
    let url = "http://abc.xyz/abc?a=1&b=2";
    let statement = sample_statement(url);
    let res = decompose(statement);
    assert!(res.is_ok());
}

#[test]
fn parse_sql_works() {
    let url = "http://abc.xyz/abc?a=1&b=2";
    let statement = sample_statement(url);
    let sqlop = decompose(statement).unwrap();
    let dfop = translate_facets(sqlop).unwrap();
    assert_eq!(dfop.source, url);
    assert_eq!(dfop.limit, Some(5));
    assert_eq!(dfop.offset, 10);
    assert_eq!(dfop.order_by, vec![("c".to_string(), true)]);
    assert_eq!(dfop.selection, vec![col("a"), col("b"), col("c")]);
}

#[test]
fn round_trip_condition_and_whole_input() {
    let url = "http://abc.xyz/abc?a=1&b=2";
    let plan = plan_statements(vec![sample_statement(url)]).unwrap();
    assert_eq!(
        plan.condition,
        Some(Expr::BinaryExpr {
            left: Box::new(col("a")),
            op: Operator::Eq,
            right: Box::new(Expr::Literal(LiteralValue::Float64("1".to_string()))),
        })
    );
    assert_eq!(plan.source, url);
}

#[test]
fn single_statement_only() {
    let url = "file:///tmp/x.csv";
    assert_eq!(
        plan_statements(vec![sample_statement(url), sample_statement(url)]),
        Err(QueryError::MultipleStatements)
    );
    assert_eq!(plan_statements(vec![]), Err(QueryError::MultipleStatements));
}

#[test]
fn non_query_statements_are_refused() {
    assert_eq!(
        decompose(Statement::Other("UPDATE xx SET a = 1".to_string())),
        Err(QueryError::UnsupportedStatement("UPDATE xx SET a = 1".to_string()))
    );
    let union = Statement::Query(Box::new(Query {
        body: SetExpr::Other("SELECT a FROM t UNION SELECT a FROM u".to_string()),
        order_by: vec![],
        limit: None,
        offset: None,
    }));
    assert_eq!(
        decompose(union),
        Err(QueryError::UnsupportedStatement("SELECT a FROM t UNION SELECT a FROM u".to_string()))
    );
}

#[test]
fn every_supported_operator_maps() {
    let pairs = [
        (BinaryOperator::Plus, Operator::Plus),
        (BinaryOperator::Minus, Operator::Minus),
        (BinaryOperator::Multiply, Operator::Multiply),
        (BinaryOperator::Divide, Operator::Divide),
        (BinaryOperator::Modulo, Operator::Modulus),
        (BinaryOperator::Gt, Operator::Gt),
        (BinaryOperator::Lt, Operator::Lt),
        (BinaryOperator::GtEq, Operator::GtEq),
        (BinaryOperator::LtEq, Operator::LtEq),
        (BinaryOperator::Eq, Operator::Eq),
        (BinaryOperator::NotEq, Operator::NotEq),
        (BinaryOperator::And, Operator::And),
        (BinaryOperator::Or, Operator::Or),
    ];
    for (op, expected) in pairs {
        assert_eq!(translate_operator(op), Ok(expected));
    }
    assert_eq!(
        translate_operator(BinaryOperator::Other("||".to_string())),
        Err(QueryError::UnsupportedOperator("||".to_string()))
    );
}

#[test]
fn literals_are_coerced() {
    assert_eq!(
        translate_literal(SqlValue::Number("5".to_string())),
        Ok(LiteralValue::Float64("5".to_string()))
    );
    assert_eq!(
        translate_literal(SqlValue::Number("5.0".to_string())),
        Ok(LiteralValue::Float64("5.0".to_string()))
    );
    for text in ["5", "5.0"] {
        match translate_literal(SqlValue::Number(text.to_string())) {
            Ok(LiteralValue::Float64(t)) => assert_eq!(t.parse::<f64>().unwrap(), 5.0),
            other => panic!("unexpected {other:?}"),
        }
    }
    assert_eq!(translate_literal(SqlValue::Boolean(true)), Ok(LiteralValue::Boolean(true)));
    assert_eq!(translate_literal(SqlValue::Boolean(false)), Ok(LiteralValue::Boolean(false)));
    assert_eq!(translate_literal(SqlValue::Null), Ok(LiteralValue::Null));
    assert_eq!(
        translate_literal(SqlValue::Other("'abc'".to_string())),
        Err(QueryError::UnsupportedLiteral("'abc'".to_string()))
    );
    assert_eq!(
        translate_literal(SqlValue::Other("DATE '2020-01-01'".to_string())),
        Err(QueryError::UnsupportedLiteral("DATE '2020-01-01'".to_string()))
    );
}

#[test]
fn expressions_translate_node_for_node() {
    let e = SqlExpr::BinaryOp {
        left: Box::new(SqlExpr::IsNull(Box::new(ident("x")))),
        op: BinaryOperator::Or,
        right: Box::new(SqlExpr::IsNotNull(Box::new(SqlExpr::Value(SqlValue::Boolean(true))))),
    };
    assert_eq!(
        translate_expr(e),
        Ok(Expr::BinaryExpr {
            left: Box::new(Expr::IsNull(Box::new(col("x")))),
            op: Operator::Or,
            right: Box::new(Expr::IsNotNull(Box::new(Expr::Literal(LiteralValue::Boolean(true))))),
        })
    );
    assert_eq!(
        translate_expr(SqlExpr::Other("myfunc(b)".to_string())),
        Err(QueryError::UnsupportedExpression("myfunc(b)".to_string()))
    );
}

#[test]
fn first_failure_wins() {
    let e = SqlExpr::BinaryOp {
        left: Box::new(SqlExpr::Value(SqlValue::Other("'s'".to_string()))),
        op: BinaryOperator::Other("LIKE".to_string()),
        right: Box::new(SqlExpr::Other("f(x)".to_string())),
    };
    assert_eq!(translate_expr(e), Err(QueryError::UnsupportedLiteral("'s'".to_string())));
    let e = SqlExpr::BinaryOp {
        left: Box::new(ident("a")),
        op: BinaryOperator::Other("LIKE".to_string()),
        right: Box::new(SqlExpr::Other("f(x)".to_string())),
    };
    assert_eq!(translate_expr(e), Err(QueryError::UnsupportedOperator("LIKE".to_string())));
}

#[test]
fn projection_shapes() {
    assert_eq!(translate_projection(SelectItem::UnnamedExpr(ident("a"))), Ok(col("a")));
    assert_eq!(
        translate_projection(SelectItem::ExprWithAlias { expr: ident("location"), alias: "name".to_string() }),
        Ok(Expr::Alias(Box::new(col("location")), "name".to_string()))
    );
    assert_eq!(translate_projection(SelectItem::Wildcard), Ok(Expr::Wildcard));
    assert_eq!(translate_projection(SelectItem::QualifiedWildcard("t".to_string())), Ok(col("t")));
    assert_eq!(
        translate_projection(SelectItem::UnnamedExpr(num("123"))),
        Err(QueryError::UnsupportedProjection(SelectItem::UnnamedExpr(num("123"))))
    );
    assert_eq!(
        translate_projection(SelectItem::ExprWithAlias {
            expr: SqlExpr::Other("myfunc(b)".to_string()),
            alias: "f".to_string()
        }),
        Err(QueryError::UnsupportedProjection(SelectItem::ExprWithAlias {
            expr: SqlExpr::Other("myfunc(b)".to_string()),
            alias: "f".to_string()
        }))
    );
}

#[test]
fn sources_are_never_picked() {
    assert_eq!(resolve_source(vec![table("a"), table("b")]), Err(QueryError::MultipleSources));
    assert_eq!(resolve_source(vec![]), Err(QueryError::MultipleSources));
    let joined = TableWithJoins {
        relation: TableFactor::Table { name: vec!["a".to_string()] },
        joins: vec!["b".to_string()],
    };
    assert_eq!(resolve_source(vec![joined]), Err(QueryError::JoinNotSupported));
    assert_eq!(
        translate_facets(facets(vec![table("a"), table("b")])),
        Err(QueryError::MultipleSources)
    );
    let derived = TableWithJoins { relation: TableFactor::Other("(SELECT 1)".to_string()), joins: vec![] };
    assert_eq!(
        resolve_source(vec![derived]),
        Err(QueryError::UnsupportedRelation(TableFactor::Other("(SELECT 1)".to_string())))
    );
    let qualified = TableWithJoins {
        relation: TableFactor::Table { name: vec!["schema".to_string(), "t".to_string()] },
        joins: vec![],
    };
    assert_eq!(resolve_source(vec![qualified]), Ok("schema".to_string()));
}

#[test]
fn order_keys() {
    assert_eq!(
        translate_order_key(OrderByExpr { expr: ident("c"), asc: None }),
        Ok(("c".to_string(), false))
    );
    assert_eq!(
        translate_order_key(OrderByExpr { expr: ident("c"), asc: Some(true) }),
        Ok(("c".to_string(), false))
    );
    assert_eq!(
        translate_order_key(OrderByExpr { expr: ident("c"), asc: Some(false) }),
        Ok(("c".to_string(), true))
    );
    assert_eq!(
        translate_order_key(OrderByExpr { expr: num("1"), asc: None }),
        Err(QueryError::UnsupportedOrderBy(num("1")))
    );
}

#[test]
fn offset_and_limit_defaults() {
    assert_eq!(translate_offset(None), 0);
    assert_eq!(translate_limit(None), None);
    assert_eq!(translate_offset(Some(num("10"))), 10);
    assert_eq!(translate_limit(Some(num("5"))), Some(5));
    assert_eq!(translate_offset(Some(num("abc"))), 0);
    assert_eq!(translate_limit(Some(num("abc"))), None);
    assert_eq!(translate_offset(Some(num("2.5"))), 0);
    assert_eq!(translate_limit(Some(num("2.5"))), None);
    assert_eq!(translate_offset(Some(ident("x"))), 0);
    assert_eq!(translate_limit(Some(ident("x"))), None);
    assert_eq!(translate_offset(Some(num("-3"))), -3);
    assert_eq!(translate_limit(Some(num("-3"))), None);
    assert_eq!(translate_offset(Some(num("+7"))), 7);
    assert_eq!(translate_limit(Some(num("+7"))), Some(7));
    assert_eq!(translate_offset(Some(num(""))), 0);
    assert_eq!(translate_offset(Some(num("-"))), 0);
}

#[test]
fn integer_bounds() {
    assert_eq!(translate_offset(Some(num("9223372036854775807"))), i64::MAX);
    assert_eq!(translate_offset(Some(num("-9223372036854775808"))), i64::MIN);
    assert_eq!(translate_offset(Some(num("9223372036854775808"))), 0);
    assert_eq!(translate_limit(Some(num(&usize::MAX.to_string()))), Some(usize::MAX));
    assert_eq!(translate_limit(Some(num("99999999999999999999999"))), None);
}

#[test]
fn omitted_offset_limit_give_defaults_in_plan() {
    let plan = translate_facets(facets(vec![table("t")])).unwrap();
    assert_eq!(plan.offset, 0);
    assert_eq!(plan.limit, None);
    assert_eq!(plan.selection, vec![Expr::Wildcard]);
    assert_eq!(plan.condition, None);
}

#[test]
fn projection_is_the_last_step() {
    let plan = Plan {
        selection: vec![col("a")],
        condition: Some(col("keep")),
        source: "http://x".to_string(),
        order_by: vec![("b".to_string(), true), ("c".to_string(), false)],
        offset: 1,
        limit: Some(2),
    };
    let steps = execution_steps(plan);
    assert_eq!(
        steps,
        vec![
            Step::Filter(col("keep")),
            Step::Sort(vec![("b".to_string(), true), ("c".to_string(), false)]),
            Step::Slice { offset: 1, limit: Some(2) },
            Step::Select(vec![col("a")]),
        ]
    );
    let plan = Plan {
        selection: vec![Expr::Wildcard],
        condition: None,
        source: "http://x".to_string(),
        order_by: vec![],
        offset: 0,
        limit: None,
    };
    assert_eq!(
        execution_steps(plan),
        vec![Step::Slice { offset: 0, limit: None }, Step::Select(vec![Expr::Wildcard])]
    );
}
