//! The comparison queries that the host passes to a rich comparison.

use std::cmp::Ordering;
use vstd::prelude::*;

verus! {

/// One of the six comparison operators of the host language.
#[derive(Clone, Copy, Debug, PartialEq, Eq, Structural)]
pub enum CompareOp {
    /// `<`
    Lt,
    /// `<=`
    Le,
    /// `==`
    Eq,
    /// `!=`
    Ne,
    /// `>`
    Gt,
    /// `>=`
    Ge,
}

impl CompareOp {
    /// Whether an ordering answers this query with yes.
    pub open spec fn accepts(self, result: Ordering) -> bool {
        match self {
            CompareOp::Eq => result == Ordering::Equal,
            CompareOp::Ne => result != Ordering::Equal,
            CompareOp::Lt => result == Ordering::Less,
            CompareOp::Le => result != Ordering::Greater,
            CompareOp::Gt => result == Ordering::Greater,
            CompareOp::Ge => result != Ordering::Less,
        }
    }

    /// Calls `pyo3::pyclass::CompareOp::matches` on the operator of the same
    /// name. Trusted: that the answer is the table of [`CompareOp::accepts`],
    /// which is the body of that method.
    #[verifier::external_body]
    pub(crate) fn matches(self, result: Ordering) -> (r: bool)
        ensures
            r == self.accepts(result),
    {
        let op = match self {
            CompareOp::Lt => pyo3::pyclass::CompareOp::Lt,
            CompareOp::Le => pyo3::pyclass::CompareOp::Le,
            CompareOp::Eq => pyo3::pyclass::CompareOp::Eq,
            CompareOp::Ne => pyo3::pyclass::CompareOp::Ne,
            CompareOp::Gt => pyo3::pyclass::CompareOp::Gt,
            CompareOp::Ge => pyo3::pyclass::CompareOp::Ge,
        };
        op.matches(result)
    }
}

} // verus!
