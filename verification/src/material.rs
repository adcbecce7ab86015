//! What a surface is made of.

use crate::pattern::Pattern;
use vstd::prelude::*;

verus! {

/// The reflectance of a surface and the pattern that colors it. The three
/// coefficients are meant to lie in `[0, 1]` and the shininess to be positive;
/// nothing rests on it.
#[derive(Clone, Copy, Debug, PartialEq)]
pub struct Material<T> {
    pub color: Pattern<T>,
    pub ambient: T,
    pub diffuse: T,
    pub specular: T,
    pub shininess: T,
}

} // verus!
