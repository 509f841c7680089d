use logical_planner::common::types::Value;
use logical_planner::logical::parser::{
    parse_arithemetic, parse_expression, parse_relation, parse_value, parse_value_expression,
    ParseError,
};
use logical_planner::logical::types::{Expression, Named, Relation};
use logical_planner::syntax::ast;

fn literal(value: ast::Value) -> Box<ast::ValueExpression> {
    Box::new(ast::ValueExpression::Value(value))
}

fn column(name: &str) -> Box<ast::ValueExpression> {
    Box::new(ast::ValueExpression::Column(name.to_string()))
}

fn scalar_item(value_expr: ast::ValueExpression, alias: Option<&str>) -> ast::SelectExpression {
    ast::SelectExpression::Expression(
        Box::new(ast::Expression::Value(Box::new(value_expr))),
        alias.map(|name| name.to_string()),
    )
}

fn unnamed(expr: Expression) -> Named {
    Named::Expression(expr, None)
}

#[test]
fn literal_of_each_kind_becomes_a_constant() {
    assert_eq!(
        parse_value(&ast::Value::Boolean(true)),
        Ok(Box::new(Expression::Constant(Value::Boolean(true))))
    );
    assert_eq!(
        parse_value(&ast::Value::Integral(-7)),
        Ok(Box::new(Expression::Constant(Value::Int(-7))))
    );
    assert_eq!(
        parse_value(&ast::Value::StringLiteral("elb".to_string())),
        Ok(Box::new(Expression::Constant(Value::String("elb".to_string()))))
    );
    let bits = 1.5f32.to_bits();
    assert_eq!(bits, 0x3fc0_0000);
    assert_eq!(
        parse_value(&ast::Value::Float(bits)),
        Ok(Box::new(Expression::Constant(Value::Float(0x3fc0_0000))))
    );
}

#[test]
fn literal_select_item_has_no_alias() {
    let cases = vec![
        (ast::Value::Boolean(false), Value::Boolean(false)),
        (ast::Value::Integral(42), Value::Int(42)),
        (ast::Value::Float(0.25f32.to_bits()), Value::Float(0.25f32.to_bits())),
        (ast::Value::StringLiteral("x".to_string()), Value::String("x".to_string())),
    ];
    for (before, after) in cases {
        let item = scalar_item(ast::ValueExpression::Value(before), None);
        assert_eq!(
            parse_expression(&item),
            Ok(Box::new(Named::Expression(Expression::Constant(after), None)))
        );
    }
}

#[test]
fn integer_limits_are_kept() {
    assert_eq!(
        parse_value(&ast::Value::Integral(i32::MIN)),
        Ok(Box::new(Expression::Constant(Value::Int(i32::MIN))))
    );
    assert_eq!(
        parse_value(&ast::Value::Integral(i32::MAX)),
        Ok(Box::new(Expression::Constant(Value::Int(i32::MAX))))
    );
}

#[test]
fn column_becomes_a_variable() {
    assert_eq!(
        parse_value_expression(&column("backend_processing_time")),
        Ok(Box::new(Expression::Variable("backend_processing_time".to_string())))
    );
}

#[test]
fn each_operator_names_its_function() {
    let cases = vec![
        (ast::ValueOperator::Plus, "Plus"),
        (ast::ValueOperator::Minus, "Minus"),
        (ast::ValueOperator::Times, "Times"),
        (ast::ValueOperator::Divide, "Divide"),
    ];
    for (op, name) in cases {
        assert_eq!(op.to_string(), name);
        let before = ast::ValueExpression::Operator(
            op,
            literal(ast::Value::Integral(6)),
            literal(ast::Value::Integral(3)),
        );
        let expected = Box::new(Expression::Function(
            name.to_string(),
            vec![
                unnamed(Expression::Constant(Value::Int(6))),
                unnamed(Expression::Constant(Value::Int(3))),
            ],
        ));
        assert_eq!(parse_value_expression(&before), Ok(Box::new(expected.duplicate())));
        assert_eq!(parse_arithemetic(&before), Ok(expected));
    }
}

#[test]
fn arithmetic_keeps_operand_order() {
    let before = ast::ValueExpression::Operator(
        ast::ValueOperator::Minus,
        column("a"),
        literal(ast::Value::Integral(1)),
    );
    let expected = Box::new(Expression::Function(
        "Minus".to_string(),
        vec![
            unnamed(Expression::Variable("a".to_string())),
            unnamed(Expression::Constant(Value::Int(1))),
        ],
    ));
    assert_eq!(parse_value_expression(&before), Ok(expected));
}

#[test]
fn arithmetic_nests_to_the_right_as_parsed() {
    let before = ast::ValueExpression::Operator(
        ast::ValueOperator::Times,
        literal(ast::Value::Integral(1)),
        Box::new(ast::ValueExpression::Operator(
            ast::ValueOperator::Divide,
            literal(ast::Value::Integral(2)),
            literal(ast::Value::Integral(3)),
        )),
    );
    let expected = Box::new(Expression::Function(
        "Times".to_string(),
        vec![
            unnamed(Expression::Constant(Value::Int(1))),
            unnamed(Expression::Function(
                "Divide".to_string(),
                vec![
                    unnamed(Expression::Constant(Value::Int(2))),
                    unnamed(Expression::Constant(Value::Int(3))),
                ],
            )),
        ],
    ));
    assert_eq!(parse_value_expression(&before), Ok(expected));
}

#[test]
fn operand_of_arithmetic_never_gets_a_default_alias() {
    let before = ast::ValueExpression::Operator(ast::ValueOperator::Plus, column("a"), column("b"));
    let expected = Box::new(Expression::Function(
        "Plus".to_string(),
        vec![
            Named::Expression(Expression::Variable("a".to_string()), None),
            Named::Expression(Expression::Variable("b".to_string()), None),
        ],
    ));
    assert_eq!(parse_value_expression(&before), Ok(expected));
}

#[test]
fn function_call_translates_each_argument_as_a_select_item() {
    let before = ast::ValueExpression::FuncCall(
        "url_host".to_string(),
        vec![
            scalar_item(ast::ValueExpression::Column("request".to_string()), None),
            scalar_item(ast::ValueExpression::Value(ast::Value::Integral(2)), Some("n")),
            ast::SelectExpression::Star,
        ],
        None,
    );
    let expected = Box::new(Expression::Function(
        "url_host".to_string(),
        vec![
            Named::Expression(
                Expression::Variable("request".to_string()),
                Some("request".to_string()),
            ),
            Named::Expression(Expression::Constant(Value::Int(2)), Some("n".to_string())),
            Named::Star,
        ],
    ));
    assert_eq!(parse_value_expression(&before), Ok(expected));
}

#[test]
fn function_call_without_arguments() {
    let before = ast::ValueExpression::FuncCall("now".to_string(), vec![], None);
    assert_eq!(
        parse_value_expression(&before),
        Ok(Box::new(Expression::Function("now".to_string(), vec![])))
    );
}

#[test]
fn within_group_modifier_changes_nothing() {
    let args = || vec![scalar_item(ast::ValueExpression::Column("a".to_string()), None)];
    let plain = ast::ValueExpression::FuncCall("percentile_disc".to_string(), args(), None);
    let modified = ast::ValueExpression::FuncCall(
        "percentile_disc".to_string(),
        args(),
        Some(ast::WithinGroupClause {
            sort_term: ast::SortTerm {
                column_name: "a".to_string(),
                direction: ast::SortDirection::Desc,
            },
        }),
    );
    let expected = Expression::Function(
        "percentile_disc".to_string(),
        vec![Named::Expression(Expression::Variable("a".to_string()), Some("a".to_string()))],
    );
    assert_eq!(parse_value_expression(&plain), Ok(Box::new(expected.duplicate())));
    assert_eq!(parse_value_expression(&modified), Ok(Box::new(expected)));
}

#[test]
fn function_call_reports_the_error_of_an_argument() {
    let bad = ast::SelectExpression::Expression(
        Box::new(ast::Expression::Not(Box::new(ast::Expression::Value(column("a"))))),
        None,
    );
    let before = ast::ValueExpression::FuncCall(
        "f".to_string(),
        vec![scalar_item(ast::ValueExpression::Column("a".to_string()), None), bad],
        None,
    );
    assert_eq!(parse_value_expression(&before), Err(ParseError::TypeMismatch));
}

#[test]
fn arithmetic_reports_the_error_of_an_operand() {
    let bad_call = ast::ValueExpression::FuncCall(
        "f".to_string(),
        vec![ast::SelectExpression::Expression(
            Box::new(ast::Expression::Not(Box::new(ast::Expression::Value(column("a"))))),
            None,
        )],
        None,
    );
    let before = ast::ValueExpression::Operator(
        ast::ValueOperator::Plus,
        literal(ast::Value::Integral(1)),
        Box::new(bad_call),
    );
    assert_eq!(parse_value_expression(&before), Err(ParseError::TypeMismatch));
    assert_eq!(parse_arithemetic(&before), Err(ParseError::TypeMismatch));
}

#[test]
fn each_comparison_operator_has_its_relation() {
    assert_eq!(parse_relation(&ast::RelationOperator::Equal), Ok(Relation::Equal));
    assert_eq!(parse_relation(&ast::RelationOperator::NotEqual), Ok(Relation::NotEqual));
    assert_eq!(parse_relation(&ast::RelationOperator::GreaterEqual), Ok(Relation::GreaterEqual));
    assert_eq!(parse_relation(&ast::RelationOperator::LessEqual), Ok(Relation::LessEqual));
    assert_eq!(parse_relation(&ast::RelationOperator::LessThan), Ok(Relation::LessThan));
    assert_eq!(parse_relation(&ast::RelationOperator::MoreThan), Ok(Relation::MoreThan));
}
