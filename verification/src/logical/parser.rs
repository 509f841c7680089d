//! The planner: from the surface tree of a select statement to the logical
//! plan.
use vstd::prelude::*;
use crate::common::text::{copy_optional_text, same_text};
use crate::common::types::{DataSource, Value};
use crate::logical::translation::{
    lemma_select_list_error_stays,
    aggregate_from_name, aggregate_of, boolean_of, condition_of, formula_of, infix_of, literal_of,
    logic_of, plan_of, prefix_of, projection_of, projections_of, relation_of, scalar_of,
    select_item_supported, select_list_of, select_list_plannable, SelectListModel,
};
use crate::logical::types::{
    aggregate_models, named_models, Aggregate, Expression, ExpressionModel, Formula,
    LogicInfixOp, LogicPrefixOp, Named, NamedAggregate, NamedModel, Node, NodeModel, Relation,
};
use crate::syntax::ast;

verus! {

/// Why a surface tree could not be planned.
#[derive(Debug, Clone, Copy, PartialEq, Eq)]
pub enum ParseError {
    /// A value stands where its shape does not fit.
    TypeMismatch,
    /// A comparison operator without a relation. Every operator has one today.
    UnsupportedLogicOperator,
    /// A function call whose name is not that of an aggregate.
    NotAggregateFunction,
    /// A select expression that would need a name. Nothing reports it today.
    SelectExprMustBeNamed,
}

impl ParseError {
    /// The error in words.
    pub fn message(&self) -> (text: String)
        ensures
            *self == ParseError::TypeMismatch ==> text@ == "Type Mismatch"@,
            *self == ParseError::UnsupportedLogicOperator ==> text@
                == "Unsupported Logic Operator"@,
            *self == ParseError::NotAggregateFunction ==> text@ == "Not Aggregate Function"@,
            *self == ParseError::SelectExprMustBeNamed ==> text@
                == "Select Expression Must Be Named"@,
    {
        match self {
            ParseError::TypeMismatch => "Type Mismatch".to_string(),
            ParseError::UnsupportedLogicOperator => "Unsupported Logic Operator".to_string(),
            ParseError::NotAggregateFunction => "Not Aggregate Function".to_string(),
            ParseError::SelectExprMustBeNamed => "Select Expression Must Be Named".to_string(),
        }
    }
}

pub type ParseResult<T> = Result<T, ParseError>;

/// The model of a result: the model of the value, or the error as it is.
pub open spec fn result_view<T: View>(res: ParseResult<T>) -> Result<T::V, ParseError> {
    match res {
        Ok(value) => Ok(value@),
        Err(e) => Err(e),
    }
}

/// Translates a prefix operator applied to a surface expression: the operator
/// on the formula of the operand, or the operand's error.
pub fn parse_prefix_operator(op: LogicPrefixOp, child: &ast::Expression) -> (res: ParseResult<
    Box<Formula>,
>)
    ensures
        result_view(res) == prefix_of(op, formula_of(child@)),
    decreases ast::Expression::Not(Box::new(*child)), 0int,
{
    proof {
        let whole = ast::Expression::Not(Box::new(*child));
        assert(decreases_to!(whole => whole->Not_0));
    }
    let child_parsed = parse_logic(child)?;
    Ok(Box::new(Formula::PrefixOperator(op, child_parsed)))
}

/// Translates an infix operator applied to two surface expressions: the
/// operator on the formulas of the two operands, or the error of the first
/// operand that has one.
pub fn parse_infix_operator(op: LogicInfixOp, left: &ast::Expression, right: &ast::Expression) -> (res:
    ParseResult<Box<Formula>>)
    ensures
        result_view(res) == infix_of(op, formula_of(left@), formula_of(right@)),
    decreases
        (match op {
            LogicInfixOp::And => ast::Expression::And(Box::new(*left), Box::new(*right)),
            LogicInfixOp::Or => ast::Expression::Or(Box::new(*left), Box::new(*right)),
        }),
        0int,
{
    proof {
        let both = ast::Expression::And(Box::new(*left), Box::new(*right));
        let either = ast::Expression::Or(Box::new(*left), Box::new(*right));
        assert(decreases_to!(both => both->And_0));
        assert(decreases_to!(both => both->And_1));
        assert(decreases_to!(either => either->Or_0));
        assert(decreases_to!(either => either->Or_1));
    }
    let left_parsed = parse_logic(left)?;
    let right_parsed = parse_logic(right)?;
    Ok(Box::new(Formula::InfixOperator(op, left_parsed, right_parsed)))
}

/// Translates a surface expression in boolean position: a comparison becomes a
/// predicate, `and`, `or` and `not` become operators on the formulas of their
/// operands, and a boolean literal becomes a constant. Any other scalar value
/// is a type mismatch.
pub fn parse_logic(expr: &ast::Expression) -> (res: ParseResult<Box<Formula>>)
    ensures
        result_view(res) == formula_of(expr@),
    decreases expr, 1int,
{
    match expr {
        ast::Expression::Condition(c) => parse_condition(c),
        ast::Expression::And(l, r) => parse_infix_operator(LogicInfixOp::And, l, r),
        ast::Expression::Or(l, r) => parse_infix_operator(LogicInfixOp::Or, l, r),
        ast::Expression::Not(c) => parse_prefix_operator(LogicPrefixOp::Not, c),
        ast::Expression::Value(value_expr) => parse_boolean_value(value_expr),
    }
}

/// Translates a surface expression in boolean position into the expression
/// that holds its formula.
pub fn parse_logic_expression(expr: &ast::Expression) -> (res: ParseResult<Box<Expression>>)
    ensures
        result_view(res) == logic_of(formula_of(expr@)),
    decreases expr, 2int,
{
    let formula = parse_logic(expr)?;
    Ok(Box::new(Expression::Logic(formula)))
}

/// Translates a scalar surface expression in boolean position: a boolean
/// literal becomes a constant formula, and anything else is a type mismatch.
pub fn parse_boolean_value(value_expr: &ast::ValueExpression) -> (res: ParseResult<Box<Formula>>)
    ensures
        result_view(res) == boolean_of(value_expr@),
{
    match value_expr {
        ast::ValueExpression::Value(val) => match val {
            ast::Value::Boolean(b) => Ok(Box::new(Formula::Constant(*b))),
            _ => Err(ParseError::TypeMismatch),
        },
        _ => Err(ParseError::TypeMismatch),
    }
}

/// Translates a literal into the constant with the same payload. It never
/// fails.
pub fn parse_value(value: &ast::Value) -> (res: ParseResult<Box<Expression>>)
    ensures
        result_view(res) == Ok::<ExpressionModel, ParseError>(
            ExpressionModel::Constant(literal_of(value@)),
        ),
{
    match value {
        ast::Value::Boolean(b) => Ok(Box::new(Expression::Constant(Value::Boolean(*b)))),
        ast::Value::Float(bits) => Ok(Box::new(Expression::Constant(Value::Float(*bits)))),
        ast::Value::Integral(i) => Ok(Box::new(Expression::Constant(Value::Int(*i)))),
        ast::Value::StringLiteral(s) => Ok(Box::new(Expression::Constant(Value::String(s.clone())))),
    }
}

/// Translates a binary arithmetic operation into a call of the function named
/// after the operator, on the left and the right operand, both without alias.
///
/// The expression must be an arithmetic operation.
pub fn parse_arithemetic(value_expr: &ast::ValueExpression) -> (res: ParseResult<Box<Expression>>)
    requires
        value_expr is Operator,
    ensures
        result_view(res) == scalar_of(value_expr@),
    decreases value_expr, 0int,
{
    match value_expr {
        ast::ValueExpression::Operator(op, left_expr, right_expr) => {
            let func_name = op.to_string();
            let left = parse_value_expression(left_expr)?;
            let right = parse_value_expression(right_expr)?;
            let mut args: Vec<Named> = Vec::new();
            args.push(Named::Expression(*left, None));
            args.push(Named::Expression(*right, None));
            assert(named_models(args@) =~= seq![
                NamedModel::Expression(left@, None),
                NamedModel::Expression(right@, None),
            ]);
            Ok(Box::new(Expression::Function(func_name, args)))
        },
        _ => vstd::pervasive::unreached(),
    }
}

/// Translates a scalar surface expression: a literal becomes a constant, a
/// column a variable, an arithmetic operation a call of the operator's
/// function, and a function call a call of the same name whose arguments are
/// translated as select items, in order. The modifier of a function call is
/// not looked at.
pub fn parse_value_expression(value_expr: &ast::ValueExpression) -> (res: ParseResult<
    Box<Expression>,
>)
    ensures
        result_view(res) == scalar_of(value_expr@),
    decreases value_expr, 1int,
{
    match value_expr {
        ast::ValueExpression::Value(v) => parse_value(v),
        ast::ValueExpression::Column(column_name) => Ok(
            Box::new(Expression::Variable(column_name.clone())),
        ),
        ast::ValueExpression::Operator(_, _, _) => parse_arithemetic(value_expr),
        ast::ValueExpression::FuncCall(func_name, select_exprs, _) => {
            let mut args: Vec<Named> = Vec::new();
            let mut i: usize = 0;
            assert(named_models(args@) =~= Seq::empty());
            #[verifier::loop_isolation(false)]
            while i < select_exprs.len()
                invariant
                    i <= select_exprs.len(),
                    projections_of(ast::select_models(select_exprs@).take(i as int)) == Ok::<
                        Seq<NamedModel>,
                        ParseError,
                    >(named_models(args@)),
                decreases select_exprs.len() - i,
            {
                let ghost items = ast::select_models(select_exprs@);
                assert(items.take(i + 1).drop_last() =~= items.take(i as int));
                match parse_expression(&select_exprs[i]) {
                    Ok(arg) => {
                        let ghost before = named_models(args@);
                        args.push(*arg);
                        assert(named_models(args@) =~= before.push(arg@));
                    },
                    Err(e) => {
                        proof {
                            lemma_projections_error_stays(items, i + 1);
                        }
                        return Err(e);
                    },
                }
                i += 1;
            }
            assert(ast::select_models(select_exprs@).take(i as int) =~= ast::select_models(
                select_exprs@,
            ));
            Ok(Box::new(Expression::Function(func_name.clone(), args)))
        },
    }
}

/// Translates a comparison operator into its relation. It never fails.
pub fn parse_relation(op: &ast::RelationOperator) -> (res: ParseResult<Relation>)
    ensures
        res == Ok::<Relation, ParseError>(relation_of(*op)),
{
    match op {
        ast::RelationOperator::Equal => Ok(Relation::Equal),
        ast::RelationOperator::NotEqual => Ok(Relation::NotEqual),
        ast::RelationOperator::GreaterEqual => Ok(Relation::GreaterEqual),
        ast::RelationOperator::LessEqual => Ok(Relation::LessEqual),
        ast::RelationOperator::LessThan => Ok(Relation::LessThan),
        ast::RelationOperator::MoreThan => Ok(Relation::MoreThan),
    }
}

/// Translates a comparison into a predicate on its two translated operands,
/// or the error of the first operand that has one.
pub fn parse_condition(condition: &ast::Condition) -> (res: ParseResult<Box<Formula>>)
    ensures
        result_view(res) == condition_of(condition@),
    decreases condition, 0int,
{
    match condition {
        ast::Condition::ComparisonExpression(op, left_expr, right_expr) => {
            let left = parse_value_expression(left_expr)?;
            let right = parse_value_expression(right_expr)?;
            let rel_op = parse_relation(op)?;
            Ok(Box::new(Formula::Predicate(rel_op, left, right)))
        },
    }
}

/// Translates one entry of a select list. The wildcard becomes the star. A
/// scalar expression keeps the alias it has; without one, a bare column is
/// named after itself and anything else stays unnamed. A boolean expression
/// becomes a formula without alias, whatever alias the entry had.
pub fn parse_expression(select_expr: &ast::SelectExpression) -> (res: ParseResult<Box<Named>>)
    ensures
        result_view(res) == projection_of(select_expr@),
    decreases select_expr, 0int,
{
    match select_expr {
        ast::SelectExpression::Star => Ok(Box::new(Named::Star)),
        ast::SelectExpression::Expression(expr, name_opt) => match &**expr {
            ast::Expression::Value(value_expr) => {
                let e = parse_value_expression(value_expr)?;
                let alias = match name_opt {
                    Some(name) => Some(name.clone()),
                    None => match &*e {
                        Expression::Variable(column) => Some(column.clone()),
                        _ => None,
                    },
                };
                Ok(Box::new(Named::Expression(*e, alias)))
            },
            _ => {
                let e = parse_logic_expression(expr)?;
                Ok(Box::new(Named::Expression(*e, None)))
            },
        },
    }
}

/// Applies the aggregate that a function name stands for to an operand. The
/// names are `avg`, `count`, `first`, `last`, `max`, `min` and `sum`, in
/// exactly this spelling; any other name is no aggregate function.
pub fn from_str(value: &str, named: Named) -> (res: ParseResult<Aggregate>)
    ensures
        result_view(res) == aggregate_from_name(value@, named@),
{
    if same_text(value, "avg") {
        Ok(Aggregate::Avg(named))
    } else if same_text(value, "count") {
        Ok(Aggregate::Count(named))
    } else if same_text(value, "first") {
        Ok(Aggregate::First(named))
    } else if same_text(value, "last") {
        Ok(Aggregate::Last(named))
    } else if same_text(value, "max") {
        Ok(Aggregate::Max(named))
    } else if same_text(value, "min") {
        Ok(Aggregate::Min(named))
    } else if same_text(value, "sum") {
        Ok(Aggregate::Sum(named))
    } else {
        Err(ParseError::NotAggregateFunction)
    }
}

/// Classifies a select item as an aggregate. Only a scalar item that calls a
/// function with at least one argument has the shape of one, and anything else
/// is a type mismatch. The first argument is translated as the operand, the
/// function's name picks the aggregate, and the item's alias is kept; further
/// arguments are not looked at.
pub fn parse_aggregate(select_expr: &ast::SelectExpression) -> (res: ParseResult<NamedAggregate>)
    ensures
        result_view(res) == aggregate_of(select_expr@),
{
    match select_expr {
        ast::SelectExpression::Expression(expr, name_opt) => match &**expr {
            ast::Expression::Value(value_expr) => match &**value_expr {
                ast::ValueExpression::FuncCall(func_name, args, _) => {
                    if args.len() == 0 {
                        return Err(ParseError::TypeMismatch);
                    }
                    let named = parse_expression(&args[0])?;
                    let aggregate = from_str(func_name.as_str(), *named)?;
                    Ok(NamedAggregate::new(aggregate, copy_optional_text(name_opt)))
                },
                _ => Err(ParseError::TypeMismatch),
            },
            _ => Err(ParseError::TypeMismatch),
        },
        _ => Err(ParseError::TypeMismatch),
    }
}

/// Whether [`parse_query`] handles the statement's select list: whether every
/// item that planning reaches is one that it handles. Planning takes the items
/// in order and stops at the first error; of the aggregates it handles those
/// of the kinds `avg` and `count`.
pub fn is_plannable(query: &ast::SelectStatement) -> (plannable: bool)
    ensures
        plannable == select_list_plannable(query@.select_exprs),
{
    let ghost items = query@.select_exprs;
    let mut i: usize = 0;
    assert(items.take(0) =~= Seq::empty());
    while i < query.select_exprs.len()
        invariant
            i <= query.select_exprs.len(),
            items == query@.select_exprs,
            select_list_of(items.take(i as int)) is Ok,
            forall|j: int|
                0 <= j < i && select_list_of(#[trigger] items.take(j)) is Ok
                    ==> select_item_supported(items[j]),
        decreases query.select_exprs.len() - i,
    {
        assert(items.take(i + 1).drop_last() =~= items.take(i as int));
        assert(items.take(i + 1).last() == query.select_exprs[i as int]@);
        match parse_aggregate(&query.select_exprs[i]) {
            Ok(named_aggregate) => match named_aggregate.aggregate {
                Aggregate::Avg(_) => {},
                Aggregate::Count(_) => {},
                _ => {
                    return false;
                },
            },
            Err(_) => {
                if parse_expression(&query.select_exprs[i]).is_err() {
                    proof {
                        assert forall|k: int|
                            i < k < items.len() implies select_list_of(
                            #[trigger] items.take(k),
                        ) is Err by {
                            assert(items.take(k).take(i + 1) =~= items.take(i + 1));
                            lemma_select_list_error_stays(items.take(k), i + 1);
                        }
                    }
                    return true;
                }
            },
        }
        i += 1;
    }
    true
}

/// Builds the logical plan of a select statement over a data source.
///
/// From the bottom up, the plan is the data source; the projection, where the
/// select list is not empty; the filter, where the statement has a
/// where-clause; the grouping, where it has a group-by clause; and the limit,
/// where it has a limit clause. Each item of the select list is first tried as
/// an aggregate: an aggregate goes to the grouping and its operand to the
/// projection, and any other item goes to the projection. The first error
/// ends planning.
///
/// Of the aggregates, planning handles the kinds `avg` and `count`, whose
/// operand is projected. The items that planning reaches, those before which
/// no item has an error, must hold no aggregate of another kind;
/// [`is_plannable`] tests that.
pub fn parse_query(query: ast::SelectStatement, data_source: DataSource) -> (res: ParseResult<Node>)
    requires
        select_list_plannable(query@.select_exprs),
    ensures
        result_view(res) == plan_of(query@, data_source@),
{
    let ghost stmt = query@;
    let ghost items = stmt.select_exprs;
    let ast::SelectStatement {
        select_exprs,
        table_name: _,
        where_expr_opt,
        group_by_exprs_opt,
        order_by_expr_opt: _,
        limit_expr_opt,
    } = query;
    let mut root = Node::DataSource(data_source);
    let ghost leaf = NodeModel::DataSource(data_source@);
    assert(root@ == leaf);

    let mut named_aggregates: Vec<NamedAggregate> = Vec::new();
    assert(aggregate_models(named_aggregates@) =~= Seq::empty());
    if select_exprs.len() > 0 {
        let mut named_list: Vec<Named> = Vec::new();
        assert(named_models(named_list@) =~= Seq::empty());
        let mut i: usize = 0;
        #[verifier::loop_isolation(false)]
        while i < select_exprs.len()
            invariant
                i <= select_exprs.len(),
                select_list_of(items.take(i as int)) == Ok::<SelectListModel, ParseError>(
                    SelectListModel {
                        projections: named_models(named_list@),
                        aggregates: aggregate_models(named_aggregates@),
                    },
                ),
            decreases select_exprs.len() - i,
        {
            assert(items.take(i + 1).drop_last() =~= items.take(i as int));
            assert(items.take(i + 1).last() == select_exprs[i as int]@);
            let ghost projections = named_models(named_list@);
            let ghost aggregates = aggregate_models(named_aggregates@);
            match parse_aggregate(&select_exprs[i]) {
                Ok(named_aggregate) => {
                    match &named_aggregate.aggregate {
                        Aggregate::Avg(named) => {
                            named_list.push(named.duplicate());
                        },
                        Aggregate::Count(named) => {
                            named_list.push(named.duplicate());
                        },
                        _ => vstd::pervasive::unreached(),
                    }
                    named_aggregates.push(named_aggregate);
                    assert(named_models(named_list@) =~= projections.push(
                        named_aggregate@.aggregate.operand(),
                    ));
                    assert(aggregate_models(named_aggregates@) =~= aggregates.push(
                        named_aggregate@,
                    ));
                },
                Err(_) => {
                    match parse_expression(&select_exprs[i]) {
                        Ok(named) => {
                            named_list.push(*named);
                            assert(named_models(named_list@) =~= projections.push(named@));
                        },
                        Err(e) => {
                            proof {
                                lemma_select_list_error_stays(items, i + 1);
                            }
                            return Err(e);
                        },
                    }
                },
            }
            i += 1;
        }
        assert(items.take(i as int) =~= items);
        root = Node::Mapping(named_list, Box::new(root));
    }
    let ghost projected = root@;
    if let Some(where_expr) = where_expr_opt {
        let filter_formula = parse_logic(&where_expr.expr)?;
        root = Node::Filter(filter_formula, Box::new(root));
        assert(root@ == NodeModel::Filter(Box::new(filter_formula@), Box::new(projected)));
    }
    let ghost filtered = root@;
    if let Some(group_by) = group_by_exprs_opt {
        root = Node::GroupBy(group_by.exprs, named_aggregates, Box::new(root));
        assert(root@ == NodeModel::GroupBy(
            stmt.group_by_exprs_opt->Some_0,
            aggregate_models(named_aggregates@),
            Box::new(filtered),
        ));
    }
    let ghost grouped = root@;
    if let Some(limit_expr) = limit_expr_opt {
        root = Node::Limit(limit_expr.row_count, Box::new(root));
        assert(root@ == NodeModel::Limit(limit_expr.row_count as nat, Box::new(grouped)));
    }
    Ok(root)
}

/// Once a prefix of a select list has an error, the whole list has that error.
proof fn lemma_projections_error_stays(items: Seq<ast::SelectExpressionModel>, k: int)
    requires
        0 <= k <= items.len(),
        projections_of(items.take(k)) is Err,
    ensures
        projections_of(items) == projections_of(items.take(k)),
    decreases items.len(),
{
    if k == items.len() {
        assert(items.take(k) =~= items);
    } else {
        assert(items.drop_last().take(k) =~= items.take(k));
        lemma_projections_error_stays(items.drop_last(), k);
    }
}

} // verus!
