//! The surface tree of a select statement.
//!
//! Every type has a model that keeps what planning reads: names and literals
//! as mathematical values, argument lists as sequences. What planning never
//! consults (the table name, sort clauses, the modifier of a function call) is
//! left out of the models.
use vstd::prelude::*;
use crate::common::text::{optional_text, texts};

verus! {

/// A literal of the query text. A floating-point literal is carried as the
/// bit pattern of its IEEE 754 single-precision encoding.
#[derive(Debug, PartialEq, Eq)]
pub enum Value {
    Integral(i32),
    Float(u32),
    StringLiteral(String),
    Boolean(bool),
}

/// A binary arithmetic operator.
#[derive(Debug, Clone, Copy, PartialEq, Eq)]
pub enum ValueOperator {
    Plus,
    Minus,
    Times,
    Divide,
}

/// A comparison operator.
#[derive(Debug, Clone, Copy, PartialEq, Eq)]
pub enum RelationOperator {
    Equal,
    NotEqual,
    GreaterEqual,
    LessEqual,
    LessThan,
    MoreThan,
}

/// The direction of a sort.
#[derive(Debug, Clone, Copy, PartialEq, Eq)]
pub enum SortDirection {
    Asc,
    Desc,
}

/// One column to sort by.
#[derive(Debug, PartialEq, Eq)]
pub struct SortTerm {
    pub column_name: String,
    pub direction: SortDirection,
}

/// The `within group` modifier of a function call.
#[derive(Debug, PartialEq, Eq)]
pub struct WithinGroupClause {
    pub sort_term: SortTerm,
}

/// A scalar expression of the query text.
#[derive(Debug, PartialEq, Eq)]
pub enum ValueExpression {
    Value(Value),
    Column(String),
    Operator(ValueOperator, Box<ValueExpression>, Box<ValueExpression>),
    FuncCall(String, Vec<SelectExpression>, Option<WithinGroupClause>),
}

/// A comparison of two scalar expressions.
#[derive(Debug, PartialEq, Eq)]
pub enum Condition {
    ComparisonExpression(RelationOperator, Box<ValueExpression>, Box<ValueExpression>),
}

/// An expression of the query text, boolean or scalar.
#[derive(Debug, PartialEq, Eq)]
pub enum Expression {
    Condition(Condition),
    And(Box<Expression>, Box<Expression>),
    Or(Box<Expression>, Box<Expression>),
    Not(Box<Expression>),
    Value(Box<ValueExpression>),
}

/// One entry of a select list: the wildcard, or an expression with an
/// optional alias.
#[derive(Debug, PartialEq, Eq)]
pub enum SelectExpression {
    Star,
    Expression(Box<Expression>, Option<String>),
}

/// The where-clause.
#[derive(Debug, PartialEq, Eq)]
pub struct WhereExpression {
    pub expr: Expression,
}

/// The group-by clause: the names of the fields to group by.
#[derive(Debug, PartialEq, Eq)]
pub struct GroupByExpression {
    pub exprs: Vec<String>,
}

/// The order-by clause.
#[derive(Debug, PartialEq, Eq)]
pub struct OrderByExpression {
    pub sort_terms: Vec<SortTerm>,
}

/// The limit clause.
#[derive(Debug, PartialEq, Eq)]
pub struct LimitExpression {
    pub row_count: u32,
}

/// A select statement.
#[derive(Debug, PartialEq, Eq)]
pub struct SelectStatement {
    pub select_exprs: Vec<SelectExpression>,
    pub table_name: String,
    pub where_expr_opt: Option<WhereExpression>,
    pub group_by_exprs_opt: Option<GroupByExpression>,
    pub order_by_expr_opt: Option<OrderByExpression>,
    pub limit_expr_opt: Option<LimitExpression>,
}

/// The model of a [`Value`].
pub enum ValueModel {
    Integral(int),
    Float(nat),
    StringLiteral(Seq<char>),
    Boolean(bool),
}

/// The model of a [`ValueExpression`]. A function call keeps its name and its
/// arguments.
pub enum ValueExpressionModel {
    Value(ValueModel),
    Column(Seq<char>),
    Operator(ValueOperator, Box<ValueExpressionModel>, Box<ValueExpressionModel>),
    FuncCall(Seq<char>, Seq<SelectExpressionModel>),
}

/// The model of a [`Condition`].
pub enum ConditionModel {
    ComparisonExpression(RelationOperator, Box<ValueExpressionModel>, Box<ValueExpressionModel>),
}

/// The model of an [`Expression`].
pub enum ExpressionModel {
    Condition(ConditionModel),
    And(Box<ExpressionModel>, Box<ExpressionModel>),
    Or(Box<ExpressionModel>, Box<ExpressionModel>),
    Not(Box<ExpressionModel>),
    Value(Box<ValueExpressionModel>),
}

/// The model of a [`SelectExpression`].
pub enum SelectExpressionModel {
    Star,
    Expression(Box<ExpressionModel>, Option<Seq<char>>),
}

/// The model of a [`SelectStatement`]: the select list and the three clauses
/// that planning reads.
pub struct SelectStatementModel {
    pub select_exprs: Seq<SelectExpressionModel>,
    pub where_expr_opt: Option<ExpressionModel>,
    pub group_by_exprs_opt: Option<Seq<Seq<char>>>,
    pub limit_expr_opt: Option<nat>,
}

/// The models of the entries of a select list, in the same order.
pub open spec fn select_models(items: Seq<SelectExpression>) -> Seq<SelectExpressionModel>
    decreases items,
{
    Seq::new(
        items.len(),
        |i: int|
            if 0 <= i < items.len() {
                items[i].model()
            } else {
                SelectExpressionModel::Star
            },
    )
}

impl WhereExpression {
    /// A where-clause with the given condition.
    pub fn new(expr: Expression) -> (clause: WhereExpression)
        ensures
            clause.expr == expr,
    {
        WhereExpression { expr }
    }
}

impl GroupByExpression {
    /// A group-by clause over the given field names.
    pub fn new(exprs: Vec<String>) -> (clause: GroupByExpression)
        ensures
            clause.exprs == exprs,
    {
        GroupByExpression { exprs }
    }
}

impl OrderByExpression {
    /// An order-by clause over the given terms.
    pub fn new(sort_terms: Vec<SortTerm>) -> (clause: OrderByExpression)
        ensures
            clause.sort_terms == sort_terms,
    {
        OrderByExpression { sort_terms }
    }
}

impl LimitExpression {
    /// A limit clause of the given number of rows.
    pub fn new(row_count: u32) -> (clause: LimitExpression)
        ensures
            clause.row_count == row_count,
    {
        LimitExpression { row_count }
    }
}

impl SelectStatement {
    /// A select statement over the named table.
    pub fn new(
        select_exprs: Vec<SelectExpression>,
        table_name: &str,
        where_expr_opt: Option<WhereExpression>,
        group_by_exprs_opt: Option<GroupByExpression>,
        order_by_expr_opt: Option<OrderByExpression>,
        limit_expr_opt: Option<LimitExpression>,
    ) -> (stmt: SelectStatement)
        ensures
            stmt.select_exprs == select_exprs,
            stmt.table_name@ == table_name@,
            stmt.where_expr_opt == where_expr_opt,
            stmt.group_by_exprs_opt == group_by_exprs_opt,
            stmt.order_by_expr_opt == order_by_expr_opt,
            stmt.limit_expr_opt == limit_expr_opt,
    {
        SelectStatement {
            select_exprs,
            table_name: table_name.to_string(),
            where_expr_opt,
            group_by_exprs_opt,
            order_by_expr_opt,
            limit_expr_opt,
        }
    }
}

impl ValueOperator {
    /// The operator's name, as it appears in the logical plan.
    pub open spec fn name(self) -> Seq<char> {
        match self {
            ValueOperator::Plus => "Plus"@,
            ValueOperator::Minus => "Minus"@,
            ValueOperator::Times => "Times"@,
            ValueOperator::Divide => "Divide"@,
        }
    }

    /// The operator's name as a string.
    pub fn to_string(&self) -> (text: String)
        ensures
            text@ == self.name(),
    {
        match self {
            ValueOperator::Plus => "Plus".to_string(),
            ValueOperator::Minus => "Minus".to_string(),
            ValueOperator::Times => "Times".to_string(),
            ValueOperator::Divide => "Divide".to_string(),
        }
    }
}

impl Value {
    /// The model of the literal.
    pub open spec fn model(&self) -> ValueModel {
        match self {
            Value::Integral(i) => ValueModel::Integral(*i as int),
            Value::Float(bits) => ValueModel::Float(*bits as nat),
            Value::StringLiteral(s) => ValueModel::StringLiteral(s@),
            Value::Boolean(b) => ValueModel::Boolean(*b),
        }
    }
}

impl ValueExpression {
    /// The model of the expression, node for node. The modifier of a function call
    /// is left out.
    pub open spec fn model(&self) -> ValueExpressionModel
        decreases self,
    {
        match self {
            ValueExpression::Value(value) => ValueExpressionModel::Value(value.model()),
            ValueExpression::Column(name) => ValueExpressionModel::Column(name@),
            ValueExpression::Operator(op, left, right) => ValueExpressionModel::Operator(
                *op,
                Box::new(left.model()),
                Box::new(right.model()),
            ),
            ValueExpression::FuncCall(name, args, _) => ValueExpressionModel::FuncCall(
                name@,
                select_models(args@),
            ),
        }
    }
}

impl Condition {
    /// The model of the comparison.
    pub open spec fn model(&self) -> ConditionModel
        decreases self,
    {
        match self {
            Condition::ComparisonExpression(op, left, right) => ConditionModel::ComparisonExpression(
                *op,
                Box::new(left.model()),
                Box::new(right.model()),
            ),
        }
    }
}

impl Expression {
    /// The model of the expression, node for node.
    pub open spec fn model(&self) -> ExpressionModel
        decreases self,
    {
        match self {
            Expression::Condition(condition) => ExpressionModel::Condition(condition.model()),
            Expression::And(left, right) => ExpressionModel::And(
                Box::new(left.model()),
                Box::new(right.model()),
            ),
            Expression::Or(left, right) => ExpressionModel::Or(
                Box::new(left.model()),
                Box::new(right.model()),
            ),
            Expression::Not(child) => ExpressionModel::Not(Box::new(child.model())),
            Expression::Value(value_expr) => ExpressionModel::Value(Box::new(value_expr.model())),
        }
    }
}

impl SelectExpression {
    /// The model of the select item.
    pub open spec fn model(&self) -> SelectExpressionModel
        decreases self,
    {
        match self {
            SelectExpression::Star => SelectExpressionModel::Star,
            SelectExpression::Expression(expr, alias) => SelectExpressionModel::Expression(
                Box::new(expr.model()),
                optional_text(*alias),
            ),
        }
    }
}

impl View for Value {
    type V = ValueModel;

    open spec fn view(&self) -> ValueModel {
        self.model()
    }
}

impl View for ValueExpression {
    type V = ValueExpressionModel;

    open spec fn view(&self) -> ValueExpressionModel {
        self.model()
    }
}

impl View for Condition {
    type V = ConditionModel;

    open spec fn view(&self) -> ConditionModel {
        self.model()
    }
}

impl View for Expression {
    type V = ExpressionModel;

    open spec fn view(&self) -> ExpressionModel {
        self.model()
    }
}

impl View for SelectExpression {
    type V = SelectExpressionModel;

    open spec fn view(&self) -> SelectExpressionModel {
        self.model()
    }
}

impl View for WhereExpression {
    type V = ExpressionModel;

    /// The condition of the clause.
    open spec fn view(&self) -> ExpressionModel {
        self.expr@
    }
}

impl View for GroupByExpression {
    type V = Seq<Seq<char>>;

    /// The names of the fields, in order.
    open spec fn view(&self) -> Seq<Seq<char>> {
        texts(self.exprs@)
    }
}

impl View for LimitExpression {
    type V = nat;

    /// The number of rows.
    open spec fn view(&self) -> nat {
        self.row_count as nat
    }
}

impl View for SelectStatement {
    type V = SelectStatementModel;

    open spec fn view(&self) -> SelectStatementModel {
        SelectStatementModel {
            select_exprs: select_models(self.select_exprs@),
            where_expr_opt: match self.where_expr_opt {
                Some(clause) => Some(clause@),
                None => None,
            },
            group_by_exprs_opt: match self.group_by_exprs_opt {
                Some(clause) => Some(clause@),
                None => None,
            },
            limit_expr_opt: match self.limit_expr_opt {
                Some(clause) => Some(clause@),
                None => None,
            },
        }
    }
}

} // verus!
