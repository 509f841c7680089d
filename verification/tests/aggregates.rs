use logical_planner::common::types::Value;
use logical_planner::logical::parser::{from_str, parse_aggregate, ParseError};
use logical_planner::logical::types::{Aggregate, Expression, Named, NamedAggregate};
use logical_planner::syntax::ast;

fn column_item(name: &str) -> ast::SelectExpression {
    ast::SelectExpression::Expression(
        Box::new(ast::Expression::Value(Box::new(ast::ValueExpression::Column(name.to_string())))),
        None,
    )
}

fn call(name: &str, args: Vec<ast::SelectExpression>, alias: Option<&str>) -> ast::SelectExpression {
    ast::SelectExpression::Expression(
        Box::new(ast::Expression::Value(Box::new(ast::ValueExpression::FuncCall(
            name.to_string(),
            args,
            None,
        )))),
        alias.map(|text| text.to_string()),
    )
}

fn variable(name: &str) -> Named {
    Named::Expression(Expression::Variable(name.to_string()), Some(name.to_string()))
}

#[test]
fn each_name_gives_its_aggregate() {
    assert_eq!(from_str("avg", Named::Star), Ok(Aggregate::Avg(Named::Star)));
    assert_eq!(from_str("count", Named::Star), Ok(Aggregate::Count(Named::Star)));
    assert_eq!(from_str("first", Named::Star), Ok(Aggregate::First(Named::Star)));
    assert_eq!(from_str("last", Named::Star), Ok(Aggregate::Last(Named::Star)));
    assert_eq!(from_str("max", Named::Star), Ok(Aggregate::Max(Named::Star)));
    assert_eq!(from_str("min", Named::Star), Ok(Aggregate::Min(Named::Star)));
    assert_eq!(from_str("sum", Named::Star), Ok(Aggregate::Sum(Named::Star)));
}

#[test]
fn aggregate_keeps_its_operand() {
    assert_eq!(from_str("max", variable("a")), Ok(Aggregate::Max(variable("a"))));
}

#[test]
fn other_names_are_no_aggregate() {
    for name in ["AVG", "Avg", "Count", "SUM", "", "av", "avgs", " avg", "median", "mix"] {
        assert_eq!(from_str(name, Named::Star), Err(ParseError::NotAggregateFunction));
    }
}

#[test]
fn each_aggregate_of_a_column_is_classified() {
    let a = || variable("a");
    let cases = vec![
        ("avg", Aggregate::Avg(a())),
        ("count", Aggregate::Count(a())),
        ("first", Aggregate::First(a())),
        ("last", Aggregate::Last(a())),
        ("max", Aggregate::Max(a())),
        ("min", Aggregate::Min(a())),
        ("sum", Aggregate::Sum(a())),
    ];
    for (name, aggregate) in cases {
        let before = call(name, vec![column_item("a")], None);
        assert_eq!(parse_aggregate(&before), Ok(NamedAggregate::new(aggregate, None)));
    }
}

#[test]
fn upper_case_name_is_no_aggregate() {
    let before = call("AVG", vec![column_item("a")], None);
    assert_eq!(parse_aggregate(&before), Err(ParseError::NotAggregateFunction));
}

#[test]
fn alias_of_an_aggregate_is_kept() {
    let before = call("sum", vec![column_item("sent_bytes")], Some("total"));
    let expected = NamedAggregate::new(
        Aggregate::Sum(variable("sent_bytes")),
        Some("total".to_string()),
    );
    let ans = parse_aggregate(&before).unwrap();
    assert_eq!(ans.name_opt, Some("total".to_string()));
    assert_eq!(ans, expected);
}

#[test]
fn aggregate_of_the_wildcard() {
    let before = call("count", vec![ast::SelectExpression::Star], None);
    assert_eq!(
        parse_aggregate(&before),
        Ok(NamedAggregate::new(Aggregate::Count(Named::Star), None))
    );
}

#[test]
fn arguments_after_the_first_are_not_looked_at() {
    let bad = ast::SelectExpression::Expression(
        Box::new(ast::Expression::Not(Box::new(ast::Expression::Value(Box::new(
            ast::ValueExpression::Column("b".to_string()),
        ))))),
        None,
    );
    let before = call("min", vec![column_item("a"), column_item("b"), bad], None);
    assert_eq!(
        parse_aggregate(&before),
        Ok(NamedAggregate::new(Aggregate::Min(variable("a")), None))
    );
}

#[test]
fn error_of_the_operand_comes_before_the_name() {
    let bad = || {
        ast::SelectExpression::Expression(
            Box::new(ast::Expression::Not(Box::new(ast::Expression::Value(Box::new(
                ast::ValueExpression::Column("b".to_string()),
            ))))),
            None,
        )
    };
    assert_eq!(parse_aggregate(&call("avg", vec![bad()], None)), Err(ParseError::TypeMismatch));
    assert_eq!(parse_aggregate(&call("median", vec![bad()], None)), Err(ParseError::TypeMismatch));
}

#[test]
fn call_without_arguments_has_not_the_shape_of_an_aggregate() {
    assert_eq!(parse_aggregate(&call("count", vec![], None)), Err(ParseError::TypeMismatch));
    assert_eq!(parse_aggregate(&call("now", vec![], None)), Err(ParseError::TypeMismatch));
}

#[test]
fn what_is_no_call_has_not_the_shape_of_an_aggregate() {
    assert_eq!(parse_aggregate(&ast::SelectExpression::Star), Err(ParseError::TypeMismatch));
    assert_eq!(parse_aggregate(&column_item("avg")), Err(ParseError::TypeMismatch));
    let literal = ast::SelectExpression::Expression(
        Box::new(ast::Expression::Value(Box::new(ast::ValueExpression::Value(
            ast::Value::StringLiteral("avg".to_string()),
        )))),
        None,
    );
    assert_eq!(parse_aggregate(&literal), Err(ParseError::TypeMismatch));
    let sum = ast::SelectExpression::Expression(
        Box::new(ast::Expression::Value(Box::new(ast::ValueExpression::Operator(
            ast::ValueOperator::Plus,
            Box::new(ast::ValueExpression::Value(ast::Value::Integral(1))),
            Box::new(ast::ValueExpression::Value(ast::Value::Integral(2))),
        )))),
        None,
    );
    assert_eq!(parse_aggregate(&sum), Err(ParseError::TypeMismatch));
}

#[test]
fn boolean_item_has_not_the_shape_of_an_aggregate() {
    let call_in_not = ast::SelectExpression::Expression(
        Box::new(ast::Expression::Not(Box::new(ast::Expression::Value(Box::new(
            ast::ValueExpression::FuncCall("avg".to_string(), vec![column_item("a")], None),
        ))))),
        None,
    );
    assert_eq!(parse_aggregate(&call_in_not), Err(ParseError::TypeMismatch));
    let comparison = ast::SelectExpression::Expression(
        Box::new(ast::Expression::Condition(ast::Condition::ComparisonExpression(
            ast::RelationOperator::Equal,
            Box::new(ast::ValueExpression::Column("a".to_string())),
            Box::new(ast::ValueExpression::Value(ast::Value::Integral(1))),
        ))),
        None,
    );
    assert_eq!(parse_aggregate(&comparison), Err(ParseError::TypeMismatch));
}

#[test]
fn aggregate_of_an_expression_operand() {
    let operand = ast::SelectExpression::Expression(
        Box::new(ast::Expression::Value(Box::new(ast::ValueExpression::Operator(
            ast::ValueOperator::Times,
            Box::new(ast::ValueExpression::Column("a".to_string())),
            Box::new(ast::ValueExpression::Value(ast::Value::Integral(2))),
        )))),
        None,
    );
    let expected = NamedAggregate::new(
        Aggregate::Avg(Named::Expression(
            Expression::Function(
                "Times".to_string(),
                vec![
                    Named::Expression(Expression::Variable("a".to_string()), None),
                    Named::Expression(Expression::Constant(Value::Int(2)), None),
                ],
            ),
            None,
        )),
        None,
    );
    assert_eq!(parse_aggregate(&call("avg", vec![operand], None)), Ok(expected));
}
