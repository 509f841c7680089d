//! Literal values and data-source descriptors.
use vstd::prelude::*;

verus! {

/// A literal value.
///
/// A floating-point literal is carried as the bit pattern of its IEEE 754
/// single-precision encoding, so that two values are equal exactly when they
/// hold the same bits.
#[derive(Debug, PartialEq, Eq)]
pub enum Value {
    Int(i32),
    Float(u32),
    Boolean(bool),
    String(String),
}

/// The mathematical content of a [`Value`].
pub enum ValueModel {
    Int(int),
    Float(nat),
    Boolean(bool),
    String(Seq<char>),
}

impl View for Value {
    type V = ValueModel;

    open spec fn view(&self) -> ValueModel {
        match self {
            Value::Int(i) => ValueModel::Int(*i as int),
            Value::Float(bits) => ValueModel::Float(*bits as nat),
            Value::Boolean(b) => ValueModel::Boolean(*b),
            Value::String(s) => ValueModel::String(s@),
        }
    }
}

impl Clone for Value {
    fn clone(&self) -> (copy: Self)
        ensures
            copy@ == self@,
    {
        match self {
            Value::Int(i) => Value::Int(*i),
            Value::Float(bits) => Value::Float(*bits),
            Value::Boolean(b) => Value::Boolean(*b),
            Value::String(s) => Value::String(s.clone()),
        }
    }
}

/// Where the rows of a query come from. Planning carries the descriptor
/// through and never looks inside.
#[derive(Debug, PartialEq, Eq)]
pub enum DataSource {
    File(String),
    Stdin,
}

/// The mathematical content of a [`DataSource`].
pub enum DataSourceModel {
    File(Seq<char>),
    Stdin,
}

impl View for DataSource {
    type V = DataSourceModel;

    open spec fn view(&self) -> DataSourceModel {
        match self {
            DataSource::File(path) => DataSourceModel::File(path@),
            DataSource::Stdin => DataSourceModel::Stdin,
        }
    }
}

impl Clone for DataSource {
    fn clone(&self) -> (copy: Self)
        ensures
            copy@ == self@,
    {
        match self {
            DataSource::File(path) => DataSource::File(path.clone()),
            DataSource::Stdin => DataSource::Stdin,
        }
    }
}

} // verus!
