//! Comparison operators for filtering rows by a column.
use vstd::prelude::*;

verus! {

/// A comparison of a column with a value.
#[derive(Debug)]
pub enum ColumnOperator<T> {
    Equal(T),
    NotEqual(T),
    GreaterThan(T),
    LessThan(T),
}

/// A membership test of an array column.
#[derive(Debug)]
pub enum ArrayColumnOperator<T> {
    Contains(T),
    NotContains(T),
}

} // verus!
