use hexgrid::{Hex, HexError, Offset};

#[test]
fn offset_qroundtrip() {
    let hex = Hex::new(3, 4, -7);
    let noff = Offset::qoffset(Offset::EVEN, &hex);
    assert_eq!(hex, Offset::q_to_hex(noff.col, noff.row, Offset::EVEN));

    let noff = Offset::qoffset(Offset::ODD, &hex);
    assert_eq!(hex, Offset::q_to_hex(noff.col, noff.row, Offset::ODD));

    let offset = Offset::new(1, -3);
    let nhex = Offset::q_to_hex(offset.col, offset.row, Offset::EVEN);
    assert_eq!(offset, Offset::qoffset(Offset::EVEN, &nhex));

    let nhex = Offset::q_to_hex(offset.col, offset.row, Offset::ODD);
    assert_eq!(offset, Offset::qoffset(Offset::ODD, &nhex));
}

#[test]
fn offset_rroundtrip() {
    let hex = Hex::new(3, 4, -7);
    let noff = Offset::roffset(Offset::EVEN, &hex);
    assert_eq!(hex, Offset::r_to_hex(noff.col, noff.row, Offset::EVEN));

    let noff = Offset::roffset(Offset::ODD, &hex);
    assert_eq!(hex, Offset::r_to_hex(noff.col, noff.row, Offset::ODD));

    let offset = Offset::new(1, -3);
    let nhex = Offset::r_to_hex(offset.col, offset.row, Offset::EVEN);
    assert_eq!(offset, Offset::roffset(Offset::EVEN, &nhex));

    let nhex = Offset::r_to_hex(offset.col, offset.row, Offset::ODD);
    assert_eq!(offset, Offset::roffset(Offset::ODD, &nhex));
}

#[test]
fn qoffset_exact_values() {
    let hex = Hex::new(3, 4, -7);
    assert_eq!(Offset::qoffset(Offset::EVEN, &hex), Offset::new(3, 6));
    assert_eq!(Offset::qoffset(Offset::ODD, &hex), Offset::new(3, 5));
    assert_eq!(Offset::q_to_hex(1, -3, Offset::EVEN), Hex::new(1, -4, 3));
    assert_eq!(Offset::q_to_hex(1, -3, Offset::ODD), Hex::new(1, -3, 2));
    assert_eq!(Offset::q_to_hex(-3, 0, Offset::EVEN), Hex::new(-3, 1, 2));
    assert_eq!(Offset::q_to_hex(-3, 0, Offset::ODD), Hex::new(-3, 2, 1));
}

#[test]
fn roffset_exact_values() {
    let hex = Hex::new(3, 4, -7);
    assert_eq!(Offset::roffset(Offset::EVEN, &hex), Offset::new(5, 4));
    assert_eq!(Offset::roffset(Offset::ODD, &hex), Offset::new(5, 4));
    assert_eq!(Offset::r_to_hex(1, -3, Offset::EVEN), Hex::new(2, -3, 1));
    assert_eq!(Offset::r_to_hex(1, -3, Offset::ODD), Hex::new(3, -3, 0));
}

#[test]
fn families_differ() {
    assert_ne!(Offset::q_to_hex(1, 1, Offset::EVEN), Offset::r_to_hex(1, 1, Offset::EVEN));
}

#[test]
fn round_trips_over_a_grid() {
    for col in -5..6i64 {
        for row in -5..6i64 {
            for parity in [Offset::EVEN, Offset::ODD] {
                let h = Offset::q_to_hex(col, row, parity);
                assert_eq!(Offset::qoffset(parity, &h), Offset::new(col, row));
                let g = Offset::r_to_hex(col, row, parity);
                assert_eq!(Offset::roffset(parity, &g), Offset::new(col, row));
            }
        }
    }
}

#[test]
fn extreme_odd_column() {
    let h = Offset::q_to_hex(i64::MAX, 0, Offset::EVEN);
    assert_eq!(h, Hex::axial(i64::MAX, -(i64::MAX / 2) - 1));
    assert_eq!(Offset::qoffset(Offset::EVEN, &h), Offset::new(i64::MAX, 0));
}

#[test]
fn parity_is_checked() {
    assert_eq!(Offset::check_parity(1), Ok(Offset::EVEN));
    assert_eq!(Offset::check_parity(-1), Ok(Offset::ODD));
    assert_eq!(Offset::check_parity(0), Err(HexError::InvalidParity));
    assert_eq!(Offset::check_parity(2), Err(HexError::InvalidParity));
}
