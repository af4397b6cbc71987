//! Where the components of a tensor live in its flat storage.

use vstd::prelude::*;

verus! {

/// Number of components of a 4×4 tensor stored flat.
pub const TENSOR_LEN: usize = 16;

/// Row-major place of component `(mu, nu)` of a 4×4 tensor.
pub open spec fn component_index_of(mu: int, nu: int) -> int {
    4 * mu + nu
}

/// Index of component `(mu, nu)` in the 16 contiguous row-major values of a
/// 4×4 tensor, coordinates ordered `(t, r, θ, φ) = (0, 1, 2, 3)`.
pub fn component_index(mu: usize, nu: usize) -> (r: usize)
    requires
        mu < 4,
        nu < 4,
    ensures
        r as int == component_index_of(mu as int, nu as int),
        r < TENSOR_LEN,
{
    4 * mu + nu
}

} // verus!
