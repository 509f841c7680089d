//! The canonical algebra: scalar expressions, formulas, aggregates and plan
//! operators.
use vstd::prelude::*;
use crate::common::text::{copy_optional_text, optional_text, texts};
use crate::common::types::{DataSource, DataSourceModel, Value, ValueModel};

verus! {

/// A relation between two scalar values.
#[derive(Debug, Clone, Copy, PartialEq, Eq)]
pub enum Relation {
    Equal,
    NotEqual,
    GreaterEqual,
    LessEqual,
    LessThan,
    MoreThan,
}

/// A connective of two formulas.
#[derive(Debug, Clone, Copy, PartialEq, Eq)]
pub enum LogicInfixOp {
    And,
    Or,
}

/// A connective of one formula.
#[derive(Debug, Clone, Copy, PartialEq, Eq)]
pub enum LogicPrefixOp {
    Not,
}

/// A computation over a row: a constant, a column, a function applied to
/// projections, or a formula.
#[derive(Debug, PartialEq, Eq)]
pub enum Expression {
    Constant(Value),
    Variable(String),
    Function(String, Vec<Named>),
    Logic(Box<Formula>),
}

/// One output column: the wildcard, or an expression with an optional alias.
#[derive(Debug, PartialEq, Eq)]
pub enum Named {
    Expression(Expression, Option<String>),
    Star,
}

/// A boolean predicate over a row.
#[derive(Debug, PartialEq, Eq)]
pub enum Formula {
    Constant(bool),
    Predicate(Relation, Box<Expression>, Box<Expression>),
    PrefixOperator(LogicPrefixOp, Box<Formula>),
    InfixOperator(LogicInfixOp, Box<Formula>, Box<Formula>),
}

/// An accumulation over the rows of a group, applied to one projection.
#[derive(Debug, PartialEq, Eq)]
pub enum Aggregate {
    Avg(Named),
    Count(Named),
    First(Named),
    Last(Named),
    Max(Named),
    Min(Named),
    Sum(Named),
}

/// An aggregate with the alias the query gave it, if any.
#[derive(Debug, PartialEq, Eq)]
pub struct NamedAggregate {
    pub aggregate: Aggregate,
    pub name_opt: Option<String>,
}

/// An operator of the logical plan. Every operator but the data source has
/// exactly one child.
#[derive(Debug, PartialEq, Eq)]
pub enum Node {
    DataSource(DataSource),
    Mapping(Vec<Named>, Box<Node>),
    Filter(Box<Formula>, Box<Node>),
    GroupBy(Vec<String>, Vec<NamedAggregate>, Box<Node>),
    Limit(u32, Box<Node>),
}

/// The model of an [`Expression`]: names as character sequences, arguments as
/// a sequence of models.
pub enum ExpressionModel {
    Constant(ValueModel),
    Variable(Seq<char>),
    Function(Seq<char>, Seq<NamedModel>),
    Logic(Box<FormulaModel>),
}

/// The model of a [`Named`].
pub enum NamedModel {
    Expression(ExpressionModel, Option<Seq<char>>),
    Star,
}

/// The model of a [`Formula`].
pub enum FormulaModel {
    Constant(bool),
    Predicate(Relation, Box<ExpressionModel>, Box<ExpressionModel>),
    PrefixOperator(LogicPrefixOp, Box<FormulaModel>),
    InfixOperator(LogicInfixOp, Box<FormulaModel>, Box<FormulaModel>),
}

/// The model of an [`Aggregate`].
pub enum AggregateModel {
    Avg(NamedModel),
    Count(NamedModel),
    First(NamedModel),
    Last(NamedModel),
    Max(NamedModel),
    Min(NamedModel),
    Sum(NamedModel),
}

/// The model of a [`NamedAggregate`].
pub struct NamedAggregateModel {
    pub aggregate: AggregateModel,
    pub name_opt: Option<Seq<char>>,
}

/// The model of a [`Node`].
pub enum NodeModel {
    DataSource(DataSourceModel),
    Mapping(Seq<NamedModel>, Box<NodeModel>),
    Filter(Box<FormulaModel>, Box<NodeModel>),
    GroupBy(Seq<Seq<char>>, Seq<NamedAggregateModel>, Box<NodeModel>),
    Limit(nat, Box<NodeModel>),
}

/// The models of a sequence of projections, in the same order.
pub open spec fn named_models(items: Seq<Named>) -> Seq<NamedModel>
    decreases items,
{
    Seq::new(
        items.len(),
        |i: int|
            if 0 <= i < items.len() {
                items[i].model()
            } else {
                NamedModel::Star
            },
    )
}

impl Expression {
    /// The model of the expression, node for node.
    pub open spec fn model(&self) -> ExpressionModel
        decreases self,
    {
        match self {
            Expression::Constant(value) => ExpressionModel::Constant(value@),
            Expression::Variable(name) => ExpressionModel::Variable(name@),
            Expression::Function(name, args) => ExpressionModel::Function(
                name@,
                named_models(args@),
            ),
            Expression::Logic(formula) => ExpressionModel::Logic(Box::new(formula.model())),
        }
    }
}

impl Named {
    /// The model of the projection.
    pub open spec fn model(&self) -> NamedModel
        decreases self,
    {
        match self {
            Named::Expression(expr, alias) => NamedModel::Expression(
                expr.model(),
                optional_text(*alias),
            ),
            Named::Star => NamedModel::Star,
        }
    }
}

impl Formula {
    /// The model of the formula, node for node.
    pub open spec fn model(&self) -> FormulaModel
        decreases self,
    {
        match self {
            Formula::Constant(b) => FormulaModel::Constant(*b),
            Formula::Predicate(rel, left, right) => FormulaModel::Predicate(
                *rel,
                Box::new(left.model()),
                Box::new(right.model()),
            ),
            Formula::PrefixOperator(op, child) => FormulaModel::PrefixOperator(
                *op,
                Box::new(child.model()),
            ),
            Formula::InfixOperator(op, left, right) => FormulaModel::InfixOperator(
                *op,
                Box::new(left.model()),
                Box::new(right.model()),
            ),
        }
    }
}

impl AggregateModel {
    /// The projection that the aggregate is applied to.
    pub open spec fn operand(self) -> NamedModel {
        match self {
            AggregateModel::Avg(named) => named,
            AggregateModel::Count(named) => named,
            AggregateModel::First(named) => named,
            AggregateModel::Last(named) => named,
            AggregateModel::Max(named) => named,
            AggregateModel::Min(named) => named,
            AggregateModel::Sum(named) => named,
        }
    }
}

/// The models of a sequence of aggregates, in the same order.
pub open spec fn aggregate_models(items: Seq<NamedAggregate>) -> Seq<NamedAggregateModel> {
    Seq::new(items.len(), |i: int| items[i]@)
}

impl Node {
    /// The model of the plan, operator for operator.
    pub open spec fn model(&self) -> NodeModel
        decreases self,
    {
        match self {
            Node::DataSource(source) => NodeModel::DataSource(source@),
            Node::Mapping(projections, child) => NodeModel::Mapping(
                named_models(projections@),
                Box::new(child.model()),
            ),
            Node::Filter(formula, child) => NodeModel::Filter(
                Box::new(formula@),
                Box::new(child.model()),
            ),
            Node::GroupBy(fields, aggregates, child) => NodeModel::GroupBy(
                texts(fields@),
                aggregate_models(aggregates@),
                Box::new(child.model()),
            ),
            Node::Limit(row_count, child) => NodeModel::Limit(
                *row_count as nat,
                Box::new(child.model()),
            ),
        }
    }
}

impl View for Aggregate {
    type V = AggregateModel;

    open spec fn view(&self) -> AggregateModel {
        match self {
            Aggregate::Avg(named) => AggregateModel::Avg(named@),
            Aggregate::Count(named) => AggregateModel::Count(named@),
            Aggregate::First(named) => AggregateModel::First(named@),
            Aggregate::Last(named) => AggregateModel::Last(named@),
            Aggregate::Max(named) => AggregateModel::Max(named@),
            Aggregate::Min(named) => AggregateModel::Min(named@),
            Aggregate::Sum(named) => AggregateModel::Sum(named@),
        }
    }
}

impl View for NamedAggregate {
    type V = NamedAggregateModel;

    open spec fn view(&self) -> NamedAggregateModel {
        NamedAggregateModel { aggregate: self.aggregate@, name_opt: optional_text(self.name_opt) }
    }
}

impl View for Node {
    type V = NodeModel;

    open spec fn view(&self) -> NodeModel {
        self.model()
    }
}

impl View for Expression {
    type V = ExpressionModel;

    open spec fn view(&self) -> ExpressionModel {
        self.model()
    }
}

impl View for Named {
    type V = NamedModel;

    open spec fn view(&self) -> NamedModel {
        self.model()
    }
}

impl View for Formula {
    type V = FormulaModel;

    open spec fn view(&self) -> FormulaModel {
        self.model()
    }
}

impl NamedAggregate {
    /// An aggregate under an optional alias.
    pub fn new(aggregate: Aggregate, name_opt: Option<String>) -> (named_aggregate: NamedAggregate)
        ensures
            named_aggregate.aggregate == aggregate,
            named_aggregate.name_opt == name_opt,
    {
        NamedAggregate { aggregate, name_opt }
    }
}

impl Expression {
    /// A copy with the same model.
    pub fn duplicate(&self) -> (copy: Expression)
        ensures
            copy@ == self@,
        decreases self,
    {
        match self {
            Expression::Constant(value) => Expression::Constant(value.clone()),
            Expression::Variable(name) => Expression::Variable(name.clone()),
            Expression::Function(name, args) => {
                let mut copies: Vec<Named> = Vec::new();
                let mut i: usize = 0;
                #[verifier::loop_isolation(false)]
                while i < args.len()
                    invariant
                        i <= args.len(),
                        copies.len() == i,
                        forall|j: int| 0 <= j < i ==> copies[j]@ == args[j]@,
                    decreases args.len() - i,
                {
                    copies.push(args[i].duplicate());
                    i += 1;
                }
                assert(named_models(copies@) =~= named_models(args@));
                Expression::Function(name.clone(), copies)
            },
            Expression::Logic(formula) => Expression::Logic(Box::new(formula.duplicate())),
        }
    }
}

impl Named {
    /// A copy with the same model.
    pub fn duplicate(&self) -> (copy: Named)
        ensures
            copy@ == self@,
        decreases self,
    {
        match self {
            Named::Expression(expr, alias) => Named::Expression(expr.duplicate(), copy_optional_text(alias)),
            Named::Star => Named::Star,
        }
    }
}

impl Formula {
    /// A copy with the same model.
    pub fn duplicate(&self) -> (copy: Formula)
        ensures
            copy@ == self@,
        decreases self,
    {
        match self {
            Formula::Constant(b) => Formula::Constant(*b),
            Formula::Predicate(rel, left, right) => Formula::Predicate(
                *rel,
                Box::new(left.duplicate()),
                Box::new(right.duplicate()),
            ),
            Formula::PrefixOperator(op, child) => Formula::PrefixOperator(
                *op,
                Box::new(child.duplicate()),
            ),
            Formula::InfixOperator(op, left, right) => Formula::InfixOperator(
                *op,
                Box::new(left.duplicate()),
                Box::new(right.duplicate()),
            ),
        }
    }
}

} // verus!
