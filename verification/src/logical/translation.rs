//! What planning computes, stated on models.
//!
//! Each function here gives the canonical form of one kind of surface node, or
//! the error that planning reports for it. The planner's contracts say that it
//! computes exactly these.
use vstd::prelude::*;
use crate::common::types::{DataSourceModel, ValueModel};
use crate::logical::parser::ParseError;
use crate::logical::types::{
    AggregateModel, ExpressionModel, FormulaModel, LogicInfixOp, LogicPrefixOp, NamedAggregateModel,
    NamedModel, NodeModel, Relation,
};
use crate::syntax::ast;

verus! {

/// The canonical value of a literal: the same payload under the canonical tag.
pub open spec fn literal_of(value: ast::ValueModel) -> ValueModel {
    match value {
        ast::ValueModel::Boolean(b) => ValueModel::Boolean(b),
        ast::ValueModel::Float(bits) => ValueModel::Float(bits),
        ast::ValueModel::Integral(i) => ValueModel::Int(i),
        ast::ValueModel::StringLiteral(s) => ValueModel::String(s),
    }
}

/// The relation of a comparison operator.
pub open spec fn relation_of(op: ast::RelationOperator) -> Relation {
    match op {
        ast::RelationOperator::Equal => Relation::Equal,
        ast::RelationOperator::NotEqual => Relation::NotEqual,
        ast::RelationOperator::GreaterEqual => Relation::GreaterEqual,
        ast::RelationOperator::LessEqual => Relation::LessEqual,
        ast::RelationOperator::LessThan => Relation::LessThan,
        ast::RelationOperator::MoreThan => Relation::MoreThan,
    }
}

/// A projection without an alias.
pub open spec fn unnamed(expr: ExpressionModel) -> NamedModel {
    NamedModel::Expression(expr, None)
}

/// An arithmetic operation on two translated operands: a call of the
/// operator's function on the left and the right operand, in that order and
/// both without alias. The left operand's error comes first.
pub open spec fn arithmetic_of(
    op: ast::ValueOperator,
    left: Result<ExpressionModel, ParseError>,
    right: Result<ExpressionModel, ParseError>,
) -> Result<ExpressionModel, ParseError> {
    match left {
        Err(e) => Err(e),
        Ok(l) => match right {
            Err(e) => Err(e),
            Ok(r) => Ok(ExpressionModel::Function(op.name(), seq![unnamed(l), unnamed(r)])),
        },
    }
}

/// A function call on translated arguments.
pub open spec fn call_of(name: Seq<char>, args: Result<Seq<NamedModel>, ParseError>) -> Result<
    ExpressionModel,
    ParseError,
> {
    match args {
        Err(e) => Err(e),
        Ok(list) => Ok(ExpressionModel::Function(name, list)),
    }
}

/// A comparison of two translated operands. The left operand's error comes
/// first.
pub open spec fn predicate_of(
    op: ast::RelationOperator,
    left: Result<ExpressionModel, ParseError>,
    right: Result<ExpressionModel, ParseError>,
) -> Result<FormulaModel, ParseError> {
    match left {
        Err(e) => Err(e),
        Ok(l) => match right {
            Err(e) => Err(e),
            Ok(r) => Ok(FormulaModel::Predicate(relation_of(op), Box::new(l), Box::new(r))),
        },
    }
}

/// A prefix operator on a translated operand.
pub open spec fn prefix_of(op: LogicPrefixOp, child: Result<FormulaModel, ParseError>) -> Result<
    FormulaModel,
    ParseError,
> {
    match child {
        Err(e) => Err(e),
        Ok(c) => Ok(FormulaModel::PrefixOperator(op, Box::new(c))),
    }
}

/// An infix operator on two translated operands. The left operand's error
/// comes first.
pub open spec fn infix_of(
    op: LogicInfixOp,
    left: Result<FormulaModel, ParseError>,
    right: Result<FormulaModel, ParseError>,
) -> Result<FormulaModel, ParseError> {
    match left {
        Err(e) => Err(e),
        Ok(l) => match right {
            Err(e) => Err(e),
            Ok(r) => Ok(FormulaModel::InfixOperator(op, Box::new(l), Box::new(r))),
        },
    }
}

/// A scalar value in boolean position: a boolean literal is a constant
/// formula, and nothing else is accepted.
pub open spec fn boolean_of(value_expr: ast::ValueExpressionModel) -> Result<
    FormulaModel,
    ParseError,
> {
    match value_expr {
        ast::ValueExpressionModel::Value(ast::ValueModel::Boolean(b)) => Ok(
            FormulaModel::Constant(b),
        ),
        _ => Err(ParseError::TypeMismatch),
    }
}

/// A translated formula as an expression.
pub open spec fn logic_of(formula: Result<FormulaModel, ParseError>) -> Result<
    ExpressionModel,
    ParseError,
> {
    match formula {
        Err(e) => Err(e),
        Ok(f) => Ok(ExpressionModel::Logic(Box::new(f))),
    }
}

/// The projection of a boolean select item: the formula as an expression,
/// without alias, whatever alias the item had.
pub open spec fn boolean_projection_of(formula: Result<FormulaModel, ParseError>) -> Result<
    NamedModel,
    ParseError,
> {
    match logic_of(formula) {
        Err(e) => Err(e),
        Ok(expr) => Ok(unnamed(expr)),
    }
}

/// The alias of a scalar projection: the alias of the select item where it
/// has one; else the column's name where the expression is a bare column;
/// else none.
pub open spec fn alias_of(expr: ExpressionModel, alias: Option<Seq<char>>) -> Option<Seq<char>> {
    match alias {
        Some(name) => Some(name),
        None => match expr {
            ExpressionModel::Variable(column) => Some(column),
            _ => None,
        },
    }
}

/// The projection of a scalar select item.
pub open spec fn scalar_projection_of(
    expr: Result<ExpressionModel, ParseError>,
    alias: Option<Seq<char>>,
) -> Result<NamedModel, ParseError> {
    match expr {
        Err(e) => Err(e),
        Ok(e) => Ok(NamedModel::Expression(e, alias_of(e, alias))),
    }
}

/// The canonical expression of a scalar surface expression.
pub open spec fn scalar_of(value_expr: ast::ValueExpressionModel) -> Result<
    ExpressionModel,
    ParseError,
>
    decreases value_expr,
{
    match value_expr {
        ast::ValueExpressionModel::Value(value) => Ok(ExpressionModel::Constant(literal_of(value))),
        ast::ValueExpressionModel::Column(name) => Ok(ExpressionModel::Variable(name)),
        ast::ValueExpressionModel::Operator(op, left, right) => arithmetic_of(
            op,
            scalar_of(*left),
            scalar_of(*right),
        ),
        ast::ValueExpressionModel::FuncCall(name, args) => call_of(name, projections_of(args)),
    }
}

/// The projections of a list of select items, in the same order, or the error
/// of the first item that has one.
pub open spec fn projections_of(items: Seq<ast::SelectExpressionModel>) -> Result<
    Seq<NamedModel>,
    ParseError,
>
    decreases items,
{
    if items.len() == 0 {
        Ok(Seq::empty())
    } else {
        match projections_of(items.drop_last()) {
            Err(e) => Err(e),
            Ok(list) => match projection_of(items.last()) {
                Err(e) => Err(e),
                Ok(named) => Ok(list.push(named)),
            },
        }
    }
}

/// The formula of a comparison.
pub open spec fn condition_of(condition: ast::ConditionModel) -> Result<FormulaModel, ParseError>
    decreases condition,
{
    match condition {
        ast::ConditionModel::ComparisonExpression(op, left, right) => predicate_of(
            op,
            scalar_of(*left),
            scalar_of(*right),
        ),
    }
}

/// The canonical formula of a surface expression in boolean position.
pub open spec fn formula_of(expr: ast::ExpressionModel) -> Result<FormulaModel, ParseError>
    decreases expr,
{
    match expr {
        ast::ExpressionModel::Condition(condition) => condition_of(condition),
        ast::ExpressionModel::And(left, right) => infix_of(
            LogicInfixOp::And,
            formula_of(*left),
            formula_of(*right),
        ),
        ast::ExpressionModel::Or(left, right) => infix_of(
            LogicInfixOp::Or,
            formula_of(*left),
            formula_of(*right),
        ),
        ast::ExpressionModel::Not(child) => prefix_of(LogicPrefixOp::Not, formula_of(*child)),
        ast::ExpressionModel::Value(value_expr) => boolean_of(*value_expr),
    }
}

/// The projection of one select item.
pub open spec fn projection_of(item: ast::SelectExpressionModel) -> Result<NamedModel, ParseError>
    decreases item,
{
    match item {
        ast::SelectExpressionModel::Star => Ok(NamedModel::Star),
        ast::SelectExpressionModel::Expression(expr, alias) => match *expr {
            ast::ExpressionModel::Value(value_expr) => scalar_projection_of(
                scalar_of(*value_expr),
                alias,
            ),
            _ => boolean_projection_of(formula_of(*expr)),
        },
    }
}

/// The aggregate that a function name stands for, applied to an operand. The
/// seven names are matched exactly, letter case included.
pub open spec fn aggregate_from_name(name: Seq<char>, operand: NamedModel) -> Result<
    AggregateModel,
    ParseError,
> {
    if name == "avg"@ {
        Ok(AggregateModel::Avg(operand))
    } else if name == "count"@ {
        Ok(AggregateModel::Count(operand))
    } else if name == "first"@ {
        Ok(AggregateModel::First(operand))
    } else if name == "last"@ {
        Ok(AggregateModel::Last(operand))
    } else if name == "max"@ {
        Ok(AggregateModel::Max(operand))
    } else if name == "min"@ {
        Ok(AggregateModel::Min(operand))
    } else if name == "sum"@ {
        Ok(AggregateModel::Sum(operand))
    } else {
        Err(ParseError::NotAggregateFunction)
    }
}

/// An aggregate call on a translated operand, under the alias of its select
/// item. An error of the operand comes before one of the name.
pub open spec fn named_aggregate_of(
    name: Seq<char>,
    operand: Result<NamedModel, ParseError>,
    alias: Option<Seq<char>>,
) -> Result<NamedAggregateModel, ParseError> {
    match operand {
        Err(e) => Err(e),
        Ok(named) => match aggregate_from_name(name, named) {
            Err(e) => Err(e),
            Ok(aggregate) => Ok(NamedAggregateModel { aggregate, name_opt: alias }),
        },
    }
}

/// The aggregate of a select item. Only a function call with at least one
/// argument has the shape of an aggregate; its first argument is the operand,
/// and further arguments are not looked at.
pub open spec fn aggregate_of(item: ast::SelectExpressionModel) -> Result<
    NamedAggregateModel,
    ParseError,
> {
    match item {
        ast::SelectExpressionModel::Expression(expr, alias) => match *expr {
            ast::ExpressionModel::Value(value_expr) => match *value_expr {
                ast::ValueExpressionModel::FuncCall(name, args) => if args.len() > 0 {
                    named_aggregate_of(name, projection_of(args[0]), alias)
                } else {
                    Err(ParseError::TypeMismatch)
                },
                _ => Err(ParseError::TypeMismatch),
            },
            _ => Err(ParseError::TypeMismatch),
        },
        _ => Err(ParseError::TypeMismatch),
    }
}

/// Whether the operand of an aggregate is projected before grouping.
pub open spec fn projects_operand(aggregate: AggregateModel) -> bool {
    aggregate is Avg || aggregate is Count
}

/// Whether planning handles a select item: every item that is not an
/// aggregate, and of the aggregates those whose operand is projected.
pub open spec fn select_item_supported(item: ast::SelectExpressionModel) -> bool {
    aggregate_of(item) matches Ok(named_aggregate) ==> projects_operand(named_aggregate.aggregate)
}

/// What a select list contributes to a plan: the projections of the
/// projection operator, and the aggregates of the grouping operator.
pub struct SelectListModel {
    pub projections: Seq<NamedModel>,
    pub aggregates: Seq<NamedAggregateModel>,
}

/// A select list extended by one item. An item that is an aggregate joins the
/// aggregates, and its operand joins the projections; an item that is no
/// aggregate is translated as a projection and joins the projections only.
///
/// Planning is defined for the items that [`select_item_supported`] accepts.
/// For an aggregate whose operand is not projected this function leaves the
/// projections as they are, which no caller should rely on:
/// [`select_list_plannable`] says which lists planning handles.
pub open spec fn select_list_with(list: SelectListModel, item: ast::SelectExpressionModel) -> Result<
    SelectListModel,
    ParseError,
>
    recommends
        select_item_supported(item),
{
    match aggregate_of(item) {
        Ok(named_aggregate) => Ok(
            SelectListModel {
                projections: if projects_operand(named_aggregate.aggregate) {
                    list.projections.push(named_aggregate.aggregate.operand())
                } else {
                    list.projections
                },
                aggregates: list.aggregates.push(named_aggregate),
            },
        ),
        Err(_) => match projection_of(item) {
            Err(e) => Err(e),
            Ok(named) => Ok(
                SelectListModel {
                    projections: list.projections.push(named),
                    aggregates: list.aggregates,
                },
            ),
        },
    }
}

/// What a select list contributes to a plan, its items taken in order, or the
/// error of the first item that has one.
///
/// [`select_list_plannable`] says for which lists this is what planning
/// computes.
pub open spec fn select_list_of(items: Seq<ast::SelectExpressionModel>) -> Result<
    SelectListModel,
    ParseError,
>
    decreases items.len(),
{
    if items.len() == 0 {
        Ok(SelectListModel { projections: Seq::empty(), aggregates: Seq::empty() })
    } else {
        match select_list_of(items.drop_last()) {
            Err(e) => Err(e),
            Ok(list) => select_list_with(list, items.last()),
        }
    }
}

/// Whether planning handles a select list: every item that it reaches is one
/// that it handles. Planning takes the items in order and stops at the first
/// error, so it reaches an item exactly when the items before it have none.
pub open spec fn select_list_plannable(items: Seq<ast::SelectExpressionModel>) -> bool {
    forall|i: int|
        0 <= i < items.len() && select_list_of(#[trigger] items.take(i)) is Ok
            ==> select_item_supported(items[i])
}

/// Once a prefix of a select list has an error, the whole list has that
/// error.
pub proof fn lemma_select_list_error_stays(items: Seq<ast::SelectExpressionModel>, k: int)
    requires
        0 <= k <= items.len(),
        select_list_of(items.take(k)) is Err,
    ensures
        select_list_of(items) == select_list_of(items.take(k)),
    decreases items.len(),
{
    if k == items.len() {
        assert(items.take(k) =~= items);
    } else {
        assert(items.drop_last().take(k) =~= items.take(k));
        lemma_select_list_error_stays(items.drop_last(), k);
    }
}

/// The plan above the filter: the grouping, where the statement has a
/// group-by clause, and above it the limit, where it has a limit clause.
pub open spec fn grouped_and_limited(
    stmt: ast::SelectStatementModel,
    aggregates: Seq<NamedAggregateModel>,
    child: NodeModel,
) -> NodeModel {
    let grouped = match stmt.group_by_exprs_opt {
        Some(fields) => NodeModel::GroupBy(fields, aggregates, Box::new(child)),
        None => child,
    };
    match stmt.limit_expr_opt {
        Some(row_count) => NodeModel::Limit(row_count, Box::new(grouped)),
        None => grouped,
    }
}

/// The logical plan of a select statement over a data source.
///
/// From the bottom up: the data source; the projection, where the select list
/// is not empty; the filter, where there is a where-clause; the grouping, with
/// every aggregate of the select list, where there is a group-by clause; the
/// limit, where there is a limit clause. An error of the select list comes
/// before one of the where-clause.
pub open spec fn plan_of(stmt: ast::SelectStatementModel, source: DataSourceModel) -> Result<
    NodeModel,
    ParseError,
>
    recommends
        select_list_plannable(stmt.select_exprs),
{
    match select_list_of(stmt.select_exprs) {
        Err(e) => Err(e),
        Ok(list) => {
            let leaf = NodeModel::DataSource(source);
            let projected = if stmt.select_exprs.len() > 0 {
                NodeModel::Mapping(list.projections, Box::new(leaf))
            } else {
                leaf
            };
            match stmt.where_expr_opt {
                None => Ok(grouped_and_limited(stmt, list.aggregates, projected)),
                Some(condition) => match formula_of(condition) {
                    Err(e) => Err(e),
                    Ok(formula) => Ok(
                        grouped_and_limited(
                            stmt,
                            list.aggregates,
                            NodeModel::Filter(Box::new(formula), Box::new(projected)),
                        ),
                    ),
                },
            }
        },
    }
}

} // verus!
