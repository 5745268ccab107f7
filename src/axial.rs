//! Axial coordinates: a cube coordinate given by `q` and `r` alone.
use vstd::prelude::*;

verus! {

/// A cube coordinate held in 32-bit components, made from its axial form.
#[derive(Debug, Clone, Copy, PartialEq, Eq, Structural)]
pub struct Hex {
    pub q: i32,
    pub r: i32,
    pub s: i32,
}

impl Hex {
    /// The coordinate with axial components `q` and `r`; `s` is `-q - r`.
    pub fn build(q: i32, r: i32) -> (h: Hex)
        requires
            i32::MIN <= -q - r <= i32::MAX,
        ensures
            h == (Hex { q, r, s: (-q - r) as i32 }),
            h.q + h.r + h.s == 0,
    {
        let s: i32 = if q != i32::MIN {
            -q - r
        } else {
            -r - q
        };
        Hex { q, r, s }
    }
}

} // verus!
