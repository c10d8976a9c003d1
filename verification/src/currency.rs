//! The currencies the library knows.

use vstd::prelude::*;

verus! {

/// A currency code. The set is closed: two currencies are equal exactly when
/// they are the same code.
#[derive(Debug, Clone, Copy, PartialEq, Eq, Hash, Structural)]
pub enum Currency {
    /// United States dollar.
    USD,
    /// Swiss franc.
    CHE,
}

} // verus!
