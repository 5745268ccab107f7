//! Offset coordinates: `(col, row)` addressing of a hex grid laid out in a
//! rectangle. Odd columns (the q family) or odd rows (the r family) are
//! shifted by half a cell; the parity sentinel says which way.
use vstd::prelude::*;

use crate::cube::{fits, Hex, HexError};

verus! {

#[derive(Debug, Clone, Copy, PartialEq, Eq, Structural)]
pub struct Offset {
    pub col: i64,
    pub row: i64,
}

/// The two parity sentinels.
pub open spec fn valid_parity(parity: int) -> bool {
    parity == 1 || parity == -1
}

/// `(x + parity * (x & 1)) / 2`: half of `x`, rounded up for `EVEN` and down
/// for `ODD` when `x` is odd. The numerator is always even.
pub open spec fn offset_shift(x: int, parity: int) -> int {
    (x + parity * (x % 2)) / 2
}

/// The q-family offset of `h`: its column is `q`.
pub open spec fn q_offset_of(parity: int, h: Hex) -> Offset {
    Offset { col: h.q, row: (h.r + offset_shift(h.q as int, parity)) as i64 }
}

/// The r-family offset of `h`: its row is `r`.
pub open spec fn r_offset_of(parity: int, h: Hex) -> Offset {
    Offset { col: (h.q + offset_shift(h.r as int, parity)) as i64, row: h.r }
}

/// Whether the q-family cell `(col, row)` names a hex whose components fit.
pub open spec fn q_cell_fits(col: int, row: int, parity: int) -> bool {
    fits(row - offset_shift(col, parity)) && fits(-col - (row - offset_shift(col, parity)))
}

/// Whether the r-family cell `(col, row)` names a hex whose components fit.
pub open spec fn r_cell_fits(col: int, row: int, parity: int) -> bool {
    fits(col - offset_shift(row, parity)) && fits(-(col - offset_shift(row, parity)) - row)
}

/// The hex at the q-family cell `(col, row)`.
pub open spec fn q_hex_of(col: int, row: int, parity: int) -> Hex {
    let r: int = row - offset_shift(col, parity);
    Hex { q: col as i64, r: r as i64, s: (-col - r) as i64 }
}

/// The hex at the r-family cell `(col, row)`.
pub open spec fn r_hex_of(col: int, row: int, parity: int) -> Hex {
    let q: int = col - offset_shift(row, parity);
    Hex { q: q as i64, r: row as i64, s: (-q - row) as i64 }
}

/// `offset_shift` computed without an intermediate that can overflow.
fn shift(x: i64, parity: i64) -> (d: i64)
    requires
        valid_parity(parity as int),
    ensures
        d == offset_shift(x as int, parity as int),
{
    let odd: i64 = x & 1;
    proof {
        assert(x & 1 == x % 2) by (bit_vector);
    }
    let half: i64 = (x - odd) / 2;
    if parity == Offset::EVEN {
        half + odd
    } else {
        half
    }
}

impl Offset {
    pub const EVEN: i64 = 1;

    pub const ODD: i64 = -1;

    pub fn new(col: i64, row: i64) -> (o: Offset)
        ensures
            o == (Offset { col, row }),
    {
        Offset { col, row }
    }

    /// `Ok` for the two parity sentinels, `InvalidParity` for any other value.
    pub fn check_parity(parity: i64) -> (res: Result<i64, HexError>)
        ensures
            valid_parity(parity as int) <==> res is Ok,
            res is Ok ==> res->Ok_0 == parity,
            res is Err ==> res->Err_0 == HexError::InvalidParity,
    {
        if parity == Offset::EVEN || parity == Offset::ODD {
            Ok(parity)
        } else {
            Err(HexError::InvalidParity)
        }
    }

    /// The q-family cell of `h`, for flat-top grids.
    pub fn qoffset(offset: i64, h: &Hex) -> (o: Offset)
        requires
            valid_parity(offset as int),
            h.wf(),
            fits(h.r + offset_shift(h.q as int, offset as int)),
        ensures
            o == q_offset_of(offset as int, *h),
    {
        let col: i64 = h.q;
        let row: i64 = h.r + shift(h.q, offset);
        Offset { col, row }
    }

    /// The r-family cell of `h`, for pointy-top grids.
    pub fn roffset(offset: i64, h: &Hex) -> (o: Offset)
        requires
            valid_parity(offset as int),
            h.wf(),
            fits(h.q + offset_shift(h.r as int, offset as int)),
        ensures
            o == r_offset_of(offset as int, *h),
    {
        let col: i64 = h.q + shift(h.r, offset);
        let row: i64 = h.r;
        Offset { col, row }
    }

    /// The hex at the q-family cell `(col, row)`, for flat-top grids.
    pub fn q_to_hex(col: i64, row: i64, offset: i64) -> (h: Hex)
        requires
            valid_parity(offset as int),
            q_cell_fits(col as int, row as int, offset as int),
        ensures
            h == q_hex_of(col as int, row as int, offset as int),
            h.wf(),
    {
        let q: i64 = col;
        let r: i64 = row - shift(col, offset);
        Hex::axial(q, r)
    }

    /// The hex at the r-family cell `(col, row)`, for pointy-top grids.
    pub fn r_to_hex(col: i64, row: i64, offset: i64) -> (h: Hex)
        requires
            valid_parity(offset as int),
            r_cell_fits(col as int, row as int, offset as int),
        ensures
            h == r_hex_of(col as int, row as int, offset as int),
            h.wf(),
    {
        let q: i64 = col - shift(row, offset);
        let r: i64 = row;
        Hex::axial(q, r)
    }
}

/// From a hex to its q-family cell and back gives the same hex.
pub proof fn lemma_qoffset_round_trip(h: Hex, parity: int)
    requires
        valid_parity(parity),
        h.wf(),
        fits(h.r + offset_shift(h.q as int, parity)),
    ensures
        q_cell_fits(q_offset_of(parity, h).col as int, q_offset_of(parity, h).row as int, parity),
        q_hex_of(q_offset_of(parity, h).col as int, q_offset_of(parity, h).row as int, parity) == h,
{
}

/// From a q-family cell to its hex and back gives the same cell.
pub proof fn lemma_q_to_hex_round_trip(col: i64, row: i64, parity: int)
    requires
        valid_parity(parity),
        q_cell_fits(col as int, row as int, parity),
    ensures
        q_hex_of(col as int, row as int, parity).wf(),
        fits(q_hex_of(col as int, row as int, parity).r + offset_shift(col as int, parity)),
        q_offset_of(parity, q_hex_of(col as int, row as int, parity)) == (Offset { col, row }),
{
}

/// From a hex to its r-family cell and back gives the same hex.
pub proof fn lemma_roffset_round_trip(h: Hex, parity: int)
    requires
        valid_parity(parity),
        h.wf(),
        fits(h.q + offset_shift(h.r as int, parity)),
    ensures
        r_cell_fits(r_offset_of(parity, h).col as int, r_offset_of(parity, h).row as int, parity),
        r_hex_of(r_offset_of(parity, h).col as int, r_offset_of(parity, h).row as int, parity) == h,
{
}

/// From an r-family cell to its hex and back gives the same cell.
pub proof fn lemma_r_to_hex_round_trip(col: i64, row: i64, parity: int)
    requires
        valid_parity(parity),
        r_cell_fits(col as int, row as int, parity),
    ensures
        r_hex_of(col as int, row as int, parity).wf(),
        fits(r_hex_of(col as int, row as int, parity).q + offset_shift(row as int, parity)),
        r_offset_of(parity, r_hex_of(col as int, row as int, parity)) == (Offset { col, row }),
{
}

} // verus!
