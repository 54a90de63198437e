use chaes::square::{Square, SquareError};

#[test]
fn test_to_u8() {
    assert_eq!(Square::H1 as u8, 63);
    assert_eq!(Square::C8 as u8, 2);
    assert_eq!(Square::C7 as u8, 10);
    assert_eq!(Square::A1 as u8, 56);
}

#[test]
fn test_from_u8() {
    assert_eq!(Square::try_from(50).unwrap(), Square::C2);
    assert_eq!(Square::try_from(63).unwrap(), Square::H1);
    assert!(Square::try_from(69).is_err());
}

#[test]
fn test_round_trip_all_indices() {
    // Every index in [0, 64) converts to a square whose index it is, and
    // every square converts back to itself.
    for i in 0..64u8 {
        let sq = Square::try_from(i).unwrap();
        assert_eq!(sq.index(), i);
        assert_eq!(Square::try_from(sq.index()).unwrap(), sq);
    }
}

#[test]
fn test_out_of_domain_conversions() {
    // 64 is the first integer past the board; 255 stands in for any larger
    // out-of-domain value (the conversion takes an unsigned argument, so a
    // negative value cannot even be supplied).
    assert_eq!(Square::try_from(64), Err(SquareError::OutOfRange));
    assert_eq!(Square::try_from(255), Err(SquareError::OutOfRange));
    let low = Square::try_from(0).unwrap();
    let high = Square::try_from(63).unwrap();
    assert_ne!(low, high);
    assert_eq!(low, Square::A8);
    assert_eq!(high, Square::H1);
}
