//! Theorems about what planning computes.
use vstd::prelude::*;
use crate::common::types::{DataSourceModel, ValueModel};
use crate::logical::parser::ParseError;
use crate::logical::translation::{
    aggregate_from_name, aggregate_of, condition_of, formula_of, literal_of, plan_of,
    lemma_select_list_error_stays, projection_of, projections_of, scalar_of,
    select_item_supported, select_list_of, select_list_plannable, SelectListModel,
};
use crate::logical::types::{
    AggregateModel, ExpressionModel, FormulaModel, LogicInfixOp, LogicPrefixOp, NamedAggregateModel,
    NamedModel, NodeModel,
};
use crate::syntax::ast;

verus! {

/// The select item that holds a scalar expression under an optional alias.
pub open spec fn scalar_item(
    value_expr: ast::ValueExpressionModel,
    alias: Option<Seq<char>>,
) -> ast::SelectExpressionModel {
    ast::SelectExpressionModel::Expression(
        Box::new(ast::ExpressionModel::Value(Box::new(value_expr))),
        alias,
    )
}

/// The select item that holds only a literal.
pub open spec fn literal_item(value: ast::ValueModel) -> ast::SelectExpressionModel {
    scalar_item(ast::ValueExpressionModel::Value(value), None)
}

/// The select item that holds only a column reference.
pub open spec fn column_item(column: Seq<char>) -> ast::SelectExpressionModel {
    scalar_item(ast::ValueExpressionModel::Column(column), None)
}

/// A select item that holds only a literal is projected as the constant with
/// the same payload under the corresponding tag, without alias.
pub proof fn theorem_literal_projection(value: ast::ValueModel)
    ensures
        projection_of(literal_item(value)) == Ok::<NamedModel, ParseError>(
            NamedModel::Expression(ExpressionModel::Constant(literal_of(value)), None),
        ),
        value matches ast::ValueModel::Boolean(b) ==> literal_of(value) == ValueModel::Boolean(b),
        value matches ast::ValueModel::Float(bits) ==> literal_of(value) == ValueModel::Float(bits),
        value matches ast::ValueModel::Integral(i) ==> literal_of(value) == ValueModel::Int(i),
        value matches ast::ValueModel::StringLiteral(s) ==> literal_of(value) == ValueModel::String(
            s,
        ),
{
}

/// Whether a surface expression is built from `and`, `or` and `not` over
/// boolean literals alone.
pub open spec fn is_boolean_tree(expr: ast::ExpressionModel) -> bool
    decreases expr,
{
    match expr {
        ast::ExpressionModel::And(left, right) => is_boolean_tree(*left) && is_boolean_tree(*right),
        ast::ExpressionModel::Or(left, right) => is_boolean_tree(*left) && is_boolean_tree(*right),
        ast::ExpressionModel::Not(child) => is_boolean_tree(*child),
        ast::ExpressionModel::Value(value_expr) => *value_expr matches ast::ValueExpressionModel::Value(
            ast::ValueModel::Boolean(_),
        ),
        ast::ExpressionModel::Condition(_) => false,
    }
}

/// The formula of the same shape as a boolean tree: an infix operator for each
/// `and` and `or`, a prefix operator for each `not`, and for each literal the
/// constant of the same truth value.
pub open spec fn mirror_of(expr: ast::ExpressionModel) -> FormulaModel
    recommends
        is_boolean_tree(expr),
    decreases expr,
{
    match expr {
        ast::ExpressionModel::And(left, right) => FormulaModel::InfixOperator(
            LogicInfixOp::And,
            Box::new(mirror_of(*left)),
            Box::new(mirror_of(*right)),
        ),
        ast::ExpressionModel::Or(left, right) => FormulaModel::InfixOperator(
            LogicInfixOp::Or,
            Box::new(mirror_of(*left)),
            Box::new(mirror_of(*right)),
        ),
        ast::ExpressionModel::Not(child) => FormulaModel::PrefixOperator(
            LogicPrefixOp::Not,
            Box::new(mirror_of(*child)),
        ),
        ast::ExpressionModel::Value(value_expr) => match *value_expr {
            ast::ValueExpressionModel::Value(ast::ValueModel::Boolean(b)) => FormulaModel::Constant(b),
            _ => arbitrary(),
        },
        ast::ExpressionModel::Condition(_) => arbitrary(),
    }
}

/// The formula of a boolean tree has the shape of the tree, node for node,
/// and the truth value of every literal.
pub proof fn theorem_boolean_tree_is_mirrored(expr: ast::ExpressionModel)
    requires
        is_boolean_tree(expr),
    ensures
        formula_of(expr) == Ok::<FormulaModel, ParseError>(mirror_of(expr)),
    decreases expr,
{
    match expr {
        ast::ExpressionModel::And(left, right) => {
            theorem_boolean_tree_is_mirrored(*left);
            theorem_boolean_tree_is_mirrored(*right);
        },
        ast::ExpressionModel::Or(left, right) => {
            theorem_boolean_tree_is_mirrored(*left);
            theorem_boolean_tree_is_mirrored(*right);
        },
        ast::ExpressionModel::Not(child) => {
            theorem_boolean_tree_is_mirrored(*child);
        },
        _ => {},
    }
}

/// An arithmetic operation translates to a call of the function named after
/// the operator, with exactly two arguments: the translated left operand, then
/// the translated right operand, both without alias.
pub proof fn theorem_arithmetic_is_binary_call(
    op: ast::ValueOperator,
    left: ast::ValueExpressionModel,
    right: ast::ValueExpressionModel,
)
    requires
        scalar_of(left) is Ok,
        scalar_of(right) is Ok,
    ensures
        scalar_of(ast::ValueExpressionModel::Operator(op, Box::new(left), Box::new(right))) == Ok::<
            ExpressionModel,
            ParseError,
        >(
            ExpressionModel::Function(
                op.name(),
                seq![
                    NamedModel::Expression(scalar_of(left)->Ok_0, None),
                    NamedModel::Expression(scalar_of(right)->Ok_0, None),
                ],
            ),
        ),
{
}

/// An arithmetic operation on two literals translates to a call of the
/// function named after the operator on the two constants, left then right,
/// both without alias.
pub proof fn theorem_arithmetic_of_literals(
    op: ast::ValueOperator,
    left: ast::ValueModel,
    right: ast::ValueModel,
)
    ensures
        scalar_of(
            ast::ValueExpressionModel::Operator(
                op,
                Box::new(ast::ValueExpressionModel::Value(left)),
                Box::new(ast::ValueExpressionModel::Value(right)),
            ),
        ) == Ok::<ExpressionModel, ParseError>(
            ExpressionModel::Function(
                op.name(),
                seq![
                    NamedModel::Expression(ExpressionModel::Constant(literal_of(left)), None),
                    NamedModel::Expression(ExpressionModel::Constant(literal_of(right)), None),
                ],
            ),
        ),
{
    reveal_with_fuel(scalar_of, 2);
}

/// A boolean select item loses its alias: with any alias it has the projection
/// that it has without one, and that projection, where there is one, is a
/// formula without alias.
pub proof fn theorem_boolean_item_loses_alias(expr: ast::ExpressionModel, alias: Option<Seq<char>>)
    requires
        !(expr is Value),
    ensures
        projection_of(ast::SelectExpressionModel::Expression(Box::new(expr), alias))
            == projection_of(ast::SelectExpressionModel::Expression(Box::new(expr), None)),
        match formula_of(expr) {
            Ok(formula) => projection_of(
                ast::SelectExpressionModel::Expression(Box::new(expr), alias),
            ) == Ok::<NamedModel, ParseError>(
                NamedModel::Expression(ExpressionModel::Logic(Box::new(formula)), None),
            ),
            Err(e) => projection_of(ast::SelectExpressionModel::Expression(Box::new(expr), alias))
                == Err::<NamedModel, ParseError>(e),
        },
{
}

/// The select item that calls a function, under an optional alias.
pub open spec fn call_item(
    name: Seq<char>,
    args: Seq<ast::SelectExpressionModel>,
    alias: Option<Seq<char>>,
) -> ast::SelectExpressionModel {
    scalar_item(ast::ValueExpressionModel::FuncCall(name, args), alias)
}

/// Whether a name is one of the seven aggregate names.
pub open spec fn is_aggregate_name(name: Seq<char>) -> bool {
    ||| name == "avg"@
    ||| name == "count"@
    ||| name == "first"@
    ||| name == "last"@
    ||| name == "max"@
    ||| name == "min"@
    ||| name == "sum"@
}

/// The seven aggregate names are distinct, so each names its own kind.
pub proof fn theorem_aggregate_names(operand: NamedModel)
    ensures
        aggregate_from_name("avg"@, operand) == Ok::<AggregateModel, ParseError>(
            AggregateModel::Avg(operand),
        ),
        aggregate_from_name("count"@, operand) == Ok::<AggregateModel, ParseError>(
            AggregateModel::Count(operand),
        ),
        aggregate_from_name("first"@, operand) == Ok::<AggregateModel, ParseError>(
            AggregateModel::First(operand),
        ),
        aggregate_from_name("last"@, operand) == Ok::<AggregateModel, ParseError>(
            AggregateModel::Last(operand),
        ),
        aggregate_from_name("max"@, operand) == Ok::<AggregateModel, ParseError>(
            AggregateModel::Max(operand),
        ),
        aggregate_from_name("min"@, operand) == Ok::<AggregateModel, ParseError>(
            AggregateModel::Min(operand),
        ),
        aggregate_from_name("sum"@, operand) == Ok::<AggregateModel, ParseError>(
            AggregateModel::Sum(operand),
        ),
{
    reveal_strlit("avg");
    reveal_strlit("count");
    reveal_strlit("first");
    reveal_strlit("last");
    reveal_strlit("max");
    reveal_strlit("min");
    reveal_strlit("sum");
    assert("avg"@[0] == 'a' && "max"@[0] == 'm' && "min"@[1] == 'i' && "max"@[1] == 'a'
        && "sum"@[0] == 's' && "min"@[0] == 'm');
    assert("count"@[0] == 'c' && "first"@[0] == 'f');
}

/// A name is that of an aggregate exactly when it is one of the seven names;
/// any other name, such as one that differs in letter case only, is reported
/// as no aggregate function.
pub proof fn theorem_aggregate_name_decides(name: Seq<char>, operand: NamedModel)
    ensures
        is_aggregate_name(name) <==> aggregate_from_name(name, operand) is Ok,
        !is_aggregate_name(name) <==> aggregate_from_name(name, operand) == Err::<
            AggregateModel,
            ParseError,
        >(ParseError::NotAggregateFunction),
        aggregate_from_name(name, operand) matches Ok(aggregate) ==> aggregate.operand() == operand,
{
}

/// The upper-case spelling of an aggregate name is no aggregate name.
pub proof fn theorem_upper_case_is_no_aggregate_name()
    ensures
        !is_aggregate_name("AVG"@),
        !is_aggregate_name("COUNT"@),
        !is_aggregate_name("FIRST"@),
        !is_aggregate_name("LAST"@),
        !is_aggregate_name("MAX"@),
        !is_aggregate_name("MIN"@),
        !is_aggregate_name("SUM"@),
{
    reveal_strlit("avg");
    reveal_strlit("count");
    reveal_strlit("first");
    reveal_strlit("last");
    reveal_strlit("max");
    reveal_strlit("min");
    reveal_strlit("sum");
    reveal_strlit("AVG");
    reveal_strlit("COUNT");
    reveal_strlit("FIRST");
    reveal_strlit("LAST");
    reveal_strlit("MAX");
    reveal_strlit("MIN");
    reveal_strlit("SUM");
    assert("avg"@[0] == 'a' && "max"@[0] == 'm' && "min"@[0] == 'm' && "sum"@[0] == 's'
        && "count"@[0] == 'c' && "first"@[0] == 'f' && "last"@[0] == 'l');
}

/// The upper-case spelling of an aggregate name, applied to a bare column, is
/// reported as no aggregate function.
pub proof fn theorem_upper_case_call_is_no_aggregate(column: Seq<char>)
    ensures
        forall|name: Seq<char>|
            name == "AVG"@ || name == "COUNT"@ || name == "FIRST"@ || name == "LAST"@ || name
                == "MAX"@ || name == "MIN"@ || name == "SUM"@ ==> #[trigger] aggregate_of(
                call_item(name, seq![column_item(column)], None),
            ) == Err::<NamedAggregateModel, ParseError>(ParseError::NotAggregateFunction),
{
    theorem_upper_case_is_no_aggregate_name();
    reveal_with_fuel(projection_of, 2);
    reveal_with_fuel(scalar_of, 2);
}

/// An aggregate name applied to a bare column, the call without alias, is
/// classified as the aggregate of that name without alias, and its operand is
/// the column under its own name as alias.
pub proof fn theorem_aggregate_of_column(name: Seq<char>, column: Seq<char>)
    requires
        is_aggregate_name(name),
    ensures
        aggregate_of(call_item(name, seq![column_item(column)], None)) == Ok::<
            NamedAggregateModel,
            ParseError,
        >(
            NamedAggregateModel {
                aggregate: aggregate_from_name(
                    name,
                    NamedModel::Expression(ExpressionModel::Variable(column), Some(column)),
                )->Ok_0,
                name_opt: None,
            },
        ),
        aggregate_of(call_item(name, seq![column_item(column)], None))->Ok_0.aggregate.operand()
            == NamedModel::Expression(ExpressionModel::Variable(column), Some(column)),
{
    reveal_with_fuel(projection_of, 2);
    reveal_with_fuel(scalar_of, 2);
}

/// A call of a function whose name is no aggregate name, on a first argument
/// that translates, is reported as no aggregate function.
pub proof fn theorem_other_call_is_no_aggregate(
    name: Seq<char>,
    args: Seq<ast::SelectExpressionModel>,
    alias: Option<Seq<char>>,
)
    requires
        !is_aggregate_name(name),
        args.len() > 0,
        projection_of(args[0]) is Ok,
    ensures
        aggregate_of(call_item(name, args, alias)) == Err::<NamedAggregateModel, ParseError>(
            ParseError::NotAggregateFunction,
        ),
{
}

/// Whether a name is that of an aggregate whose operand is not projected.
pub open spec fn is_unprojected_aggregate_name(name: Seq<char>) -> bool {
    ||| name == "first"@
    ||| name == "last"@
    ||| name == "max"@
    ||| name == "min"@
    ||| name == "sum"@
}

/// The select items that planning does not handle are the calls of `first`,
/// `last`, `max`, `min` and `sum` on a first argument that translates.
pub proof fn theorem_unsupported_items(item: ast::SelectExpressionModel)
    ensures
        !select_item_supported(item) <==> exists|
            name: Seq<char>,
            args: Seq<ast::SelectExpressionModel>,
            alias: Option<Seq<char>>,
        |
            {
                &&& item == #[trigger] call_item(name, args, alias)
                &&& is_unprojected_aggregate_name(name)
                &&& args.len() > 0
                &&& projection_of(args[0]) is Ok
            },
{
    theorem_aggregate_names(NamedModel::Star);
    if !select_item_supported(item) {
        let expr = item->Expression_0;
        let alias = item->Expression_1;
        let value_expr = expr->Value_0;
        let name = value_expr->FuncCall_0;
        let args = value_expr->FuncCall_1;
        assert(item == call_item(name, args, alias));
    }
}

/// A statement that planning handles, with a non-empty select list and a
/// where-clause and without group-by and limit clauses, is planned as the
/// filter above the projection above the data source.
pub proof fn theorem_filter_above_projection(
    stmt: ast::SelectStatementModel,
    source: DataSourceModel,
)
    requires
        select_list_plannable(stmt.select_exprs),
        stmt.select_exprs.len() > 0,
        stmt.where_expr_opt is Some,
        stmt.group_by_exprs_opt is None,
        stmt.limit_expr_opt is None,
    ensures
        plan_of(stmt, source) is Ok <==> select_list_of(stmt.select_exprs) is Ok && formula_of(
            stmt.where_expr_opt->Some_0,
        ) is Ok,
        plan_of(stmt, source) is Ok ==> plan_of(stmt, source)->Ok_0 == NodeModel::Filter(
            Box::new(formula_of(stmt.where_expr_opt->Some_0)->Ok_0),
            Box::new(
                NodeModel::Mapping(
                    select_list_of(stmt.select_exprs)->Ok_0.projections,
                    Box::new(NodeModel::DataSource(source)),
                ),
            ),
        ),
{
}

/// The layer of a plan operator: the data source lowest, then the projection,
/// the filter, the grouping and the limit.
pub open spec fn layer(node: NodeModel) -> nat {
    match node {
        NodeModel::DataSource(_) => 0,
        NodeModel::Mapping(_, _) => 1,
        NodeModel::Filter(_, _) => 2,
        NodeModel::GroupBy(_, _, _) => 3,
        NodeModel::Limit(_, _) => 4,
    }
}

/// Whether every operator of a plan stands above an operator of a lower
/// layer.
pub open spec fn is_layered(node: NodeModel) -> bool
    decreases node,
{
    match node {
        NodeModel::DataSource(_) => true,
        NodeModel::Mapping(_, child) => layer(*child) < 1 && is_layered(*child),
        NodeModel::Filter(_, child) => layer(*child) < 2 && is_layered(*child),
        NodeModel::GroupBy(_, _, child) => layer(*child) < 3 && is_layered(*child),
        NodeModel::Limit(_, child) => layer(*child) < 4 && is_layered(*child),
    }
}

/// Whether a plan has an operator of the given layer.
pub open spec fn has_layer(node: NodeModel, l: nat) -> bool
    decreases node,
{
    layer(node) == l || match node {
        NodeModel::DataSource(_) => false,
        NodeModel::Mapping(_, child) => has_layer(*child, l),
        NodeModel::Filter(_, child) => has_layer(*child, l),
        NodeModel::GroupBy(_, _, child) => has_layer(*child, l),
        NodeModel::Limit(_, child) => has_layer(*child, l),
    }
}

/// Every plan of a statement that planning handles is layered in the fixed
/// order, with the data source at the bottom, and has each of the other
/// operators exactly when the statement has the clause for it.
pub proof fn theorem_plan_is_layered(stmt: ast::SelectStatementModel, source: DataSourceModel)
    requires
        select_list_plannable(stmt.select_exprs),
        plan_of(stmt, source) is Ok,
    ensures
        is_layered(plan_of(stmt, source)->Ok_0),
        has_layer(plan_of(stmt, source)->Ok_0, 0),
        has_layer(plan_of(stmt, source)->Ok_0, 1) <==> stmt.select_exprs.len() > 0,
        has_layer(plan_of(stmt, source)->Ok_0, 2) <==> stmt.where_expr_opt is Some,
        has_layer(plan_of(stmt, source)->Ok_0, 3) <==> stmt.group_by_exprs_opt is Some,
        has_layer(plan_of(stmt, source)->Ok_0, 4) <==> stmt.limit_expr_opt is Some,
{
    reveal_with_fuel(is_layered, 5);
    reveal_with_fuel(has_layer, 5);
}

/// A list of select items translates exactly when each item does, and then
/// item by item, in the same order.
pub proof fn theorem_projections_item_by_item(items: Seq<ast::SelectExpressionModel>)
    ensures
        projections_of(items) is Ok <==> forall|i: int|
            0 <= i < items.len() ==> projection_of(#[trigger] items[i]) is Ok,
        projections_of(items) matches Ok(list) ==> {
            &&& list.len() == items.len()
            &&& forall|i: int|
                0 <= i < items.len() ==> projection_of(#[trigger] items[i]) == Ok::<
                    NamedModel,
                    ParseError,
                >(list[i])
        },
    decreases items.len(),
{
    if items.len() > 0 {
        let front = items.drop_last();
        theorem_projections_item_by_item(front);
        assert forall|i: int| 0 <= i < front.len() implies front[i] == items[i] by {}
        if projections_of(items) is Ok {
            assert forall|i: int| 0 <= i < items.len() implies projection_of(
                #[trigger] items[i],
            ) is Ok by {}
        }
    }
}

/// Translation reports a type mismatch and nothing else: for a scalar
/// expression, a comparison, an expression in boolean position, a select item
/// and a list of select items.
pub proof fn theorem_translation_reports_type_mismatch(
    value_expr: ast::ValueExpressionModel,
    condition: ast::ConditionModel,
    expr: ast::ExpressionModel,
    item: ast::SelectExpressionModel,
    items: Seq<ast::SelectExpressionModel>,
)
    ensures
        scalar_of(value_expr) matches Err(e) ==> e == ParseError::TypeMismatch,
        condition_of(condition) matches Err(e) ==> e == ParseError::TypeMismatch,
        formula_of(expr) matches Err(e) ==> e == ParseError::TypeMismatch,
        projection_of(item) matches Err(e) ==> e == ParseError::TypeMismatch,
        projections_of(items) matches Err(e) ==> e == ParseError::TypeMismatch,
{
    lemma_scalar_error(value_expr);
    lemma_condition_error(condition);
    lemma_formula_error(expr);
    lemma_projection_error(item);
    lemma_projections_error(items);
}

/// A scalar expression reports nothing but a type mismatch.
proof fn lemma_scalar_error(value_expr: ast::ValueExpressionModel)
    ensures
        scalar_of(value_expr) matches Err(e) ==> e == ParseError::TypeMismatch,
    decreases value_expr,
{
    match value_expr {
        ast::ValueExpressionModel::Operator(_, left, right) => {
            lemma_scalar_error(*left);
            lemma_scalar_error(*right);
        },
        ast::ValueExpressionModel::FuncCall(_, args) => {
            lemma_projections_error(args);
        },
        _ => {},
    }
}

/// A list of select items reports nothing but a type mismatch.
proof fn lemma_projections_error(items: Seq<ast::SelectExpressionModel>)
    ensures
        projections_of(items) matches Err(e) ==> e == ParseError::TypeMismatch,
    decreases items,
{
    if items.len() > 0 {
        lemma_projections_error(items.drop_last());
        lemma_projection_error(items.last());
    }
}

/// A comparison reports nothing but a type mismatch.
proof fn lemma_condition_error(condition: ast::ConditionModel)
    ensures
        condition_of(condition) matches Err(e) ==> e == ParseError::TypeMismatch,
    decreases condition,
{
    match condition {
        ast::ConditionModel::ComparisonExpression(_, left, right) => {
            lemma_scalar_error(*left);
            lemma_scalar_error(*right);
        },
    }
}

/// An expression in boolean position reports nothing but a type mismatch.
proof fn lemma_formula_error(expr: ast::ExpressionModel)
    ensures
        formula_of(expr) matches Err(e) ==> e == ParseError::TypeMismatch,
    decreases expr,
{
    match expr {
        ast::ExpressionModel::Condition(condition) => {
            lemma_condition_error(condition);
        },
        ast::ExpressionModel::And(left, right) => {
            lemma_formula_error(*left);
            lemma_formula_error(*right);
        },
        ast::ExpressionModel::Or(left, right) => {
            lemma_formula_error(*left);
            lemma_formula_error(*right);
        },
        ast::ExpressionModel::Not(child) => {
            lemma_formula_error(*child);
        },
        ast::ExpressionModel::Value(_) => {},
    }
}

/// A select item reports nothing but a type mismatch.
proof fn lemma_projection_error(item: ast::SelectExpressionModel)
    ensures
        projection_of(item) matches Err(e) ==> e == ParseError::TypeMismatch,
    decreases item,
{
    match item {
        ast::SelectExpressionModel::Star => {},
        ast::SelectExpressionModel::Expression(expr, _) => match *expr {
            ast::ExpressionModel::Value(value_expr) => {
                lemma_scalar_error(*value_expr);
            },
            _ => {
                lemma_formula_error(*expr);
            },
        },
    }
}

/// Classification reports a type mismatch or that the function is no
/// aggregate, and nothing else.
pub proof fn theorem_classification_errors(item: ast::SelectExpressionModel)
    ensures
        aggregate_of(item) matches Err(e) ==> e == ParseError::TypeMismatch || e
            == ParseError::NotAggregateFunction,
{
    match item {
        ast::SelectExpressionModel::Expression(expr, _) => match *expr {
            ast::ExpressionModel::Value(value_expr) => match *value_expr {
                ast::ValueExpressionModel::FuncCall(_, args) => {
                    if args.len() > 0 {
                        lemma_projection_error(args[0]);
                    }
                },
                _ => {},
            },
            _ => {},
        },
        _ => {},
    }
}

/// Planning a statement that it handles reports a type mismatch and nothing
/// else: a select item that is no aggregate is planned as a projection.
pub proof fn theorem_planning_reports_type_mismatch(
    stmt: ast::SelectStatementModel,
    source: DataSourceModel,
)
    requires
        select_list_plannable(stmt.select_exprs),
    ensures
        plan_of(stmt, source) matches Err(e) ==> e == ParseError::TypeMismatch,
{
    lemma_select_list_error(stmt.select_exprs);
    if stmt.where_expr_opt is Some {
        lemma_formula_error(stmt.where_expr_opt->Some_0);
    }
}

/// The select list of a statement reports nothing but a type mismatch.
proof fn lemma_select_list_error(items: Seq<ast::SelectExpressionModel>)
    ensures
        select_list_of(items) matches Err(e) ==> e == ParseError::TypeMismatch,
    decreases items.len(),
{
    if items.len() > 0 {
        lemma_select_list_error(items.drop_last());
        lemma_projection_error(items.last());
    }
}

/// The item of a select list as the projection operator shows it: the operand
/// of an aggregate, the projection of any other item.
pub open spec fn shown_projection(item: ast::SelectExpressionModel) -> NamedModel {
    match aggregate_of(item) {
        Ok(named_aggregate) => named_aggregate.aggregate.operand(),
        Err(_) => projection_of(item)->Ok_0,
    }
}

/// Where planning handles a select list and no item has an error, the
/// projection operator shows one projection for each item, in the same order,
/// and the grouping operator gets the aggregates among the items, in the same
/// order.
pub proof fn theorem_select_list_item_by_item(items: Seq<ast::SelectExpressionModel>)
    requires
        select_list_plannable(items),
        select_list_of(items) is Ok,
    ensures
        select_list_of(items)->Ok_0.projections == items.map_values(
            |item: ast::SelectExpressionModel| shown_projection(item),
        ),
        select_list_of(items)->Ok_0.aggregates == items.filter(
            |item: ast::SelectExpressionModel| aggregate_of(item) is Ok,
        ).map_values(|item: ast::SelectExpressionModel| aggregate_of(item)->Ok_0),
    decreases items.len(),
{
    reveal(Seq::filter);
    if items.len() > 0 {
        let front = items.drop_last();
        assert(items.take(items.len() - 1) =~= front);
        assert forall|i: int|
            0 <= i < front.len() && select_list_of(
                #[trigger] front.take(i),
            ) is Ok implies select_item_supported(front[i]) by {
            assert(front.take(i) =~= items.take(i));
        }
        theorem_select_list_item_by_item(front);
    }
}

/// Planning handles a select list in which every item is one that it
/// handles, and a handled list without error holds only such items.
pub proof fn theorem_plannable_lists(items: Seq<ast::SelectExpressionModel>)
    ensures
        (forall|i: int| 0 <= i < items.len() ==> select_item_supported(#[trigger] items[i]))
            ==> select_list_plannable(items),
        select_list_plannable(items) && select_list_of(items) is Ok ==> forall|i: int|
            0 <= i < items.len() ==> select_item_supported(#[trigger] items[i]),
{
    if select_list_plannable(items) && select_list_of(items) is Ok {
        assert forall|i: int| 0 <= i < items.len() implies select_item_supported(
            #[trigger] items[i],
        ) by {
            if select_list_of(items.take(i)) is Err {
                lemma_select_list_error_stays(items, i);
            }
        }
    }
}

/// Planning handles every select list in which an item that it reaches has an
/// error, whatever stands behind that item, and reports that error.
pub proof fn theorem_error_ends_planning(items: Seq<ast::SelectExpressionModel>, k: int)
    requires
        0 <= k < items.len(),
        select_list_plannable(items.take(k)),
        select_list_of(items.take(k)) is Ok,
        aggregate_of(items[k]) is Err,
        projection_of(items[k]) is Err,
    ensures
        select_list_plannable(items),
        select_list_of(items) == Err::<SelectListModel, ParseError>(projection_of(items[k])->Err_0),
{
    let upto = items.take(k + 1);
    assert(upto.drop_last() =~= items.take(k));
    assert(upto.last() == items[k]);
    lemma_select_list_error_stays(items, k + 1);
    assert forall|i: int|
        0 <= i < items.len() && select_list_of(
            #[trigger] items.take(i),
        ) is Ok implies select_item_supported(items[i]) by {
        if i < k {
            assert(items.take(k).take(i) =~= items.take(i));
            assert(items.take(k)[i] == items[i]);
        } else if i > k {
            assert(items.take(i).take(k + 1) =~= upto);
            lemma_select_list_error_stays(items.take(i), k + 1);
        }
    }
}

} // verus!
