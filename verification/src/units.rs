//! The typographic length unit of the library.
//!
//! A `Pt` carries a length in hundredths of a typographic point, so the
//! common page sizes (595.28 by 841.89 points, and the like) are exact
//! integer values and serialization needs no rounding.

use vstd::prelude::*;

verus! {

/// A length in hundredths of a point.
#[derive(Debug, Clone, Copy, PartialEq, Eq, Structural)]
pub struct Pt(pub i64);

} // verus!
