use pong_serv::{Side, SideCastError};
use rand::Rng;

#[test]
fn side_inversion() {
    assert_eq!(!Side::Left, Side::Right);
    assert_eq!(!Side::Right, Side::Left);
}

#[test]
fn side_to_u8() {
    assert_eq!(u8::from(Side::Left), 0u8);
    assert_eq!(u8::from(Side::Right), 1u8);
}

#[test]
fn u8_to_side() {
    // Ok
    assert_eq!(Side::try_from(0u8), Ok(Side::Left));
    assert_eq!(Side::try_from(1u8), Ok(Side::Right));

    // Err
    assert_eq!(Side::try_from(5u8), Err(SideCastError::InvalidInteger(5u8)));
    let invalid_u8 = rand::thread_rng().gen_range(2u8..=u8::MAX);
    assert_eq!(
        Side::try_from(invalid_u8),
        Err(SideCastError::InvalidInteger(invalid_u8))
    );
}

#[test]
fn side_round_trip_through_u8() {
    for n in 0u8..=1 {
        assert_eq!(u8::from(Side::try_from(n).unwrap()), n);
    }
    assert_eq!(Side::try_from(u8::from(Side::Left)), Ok(Side::Left));
    assert_eq!(Side::try_from(u8::from(Side::Right)), Ok(Side::Right));
    assert_eq!(Side::try_from(255u8), Err(SideCastError::InvalidInteger(255)));
}

#[test]
fn side_from_coin_and_index() {
    assert_eq!(Side::from_coin(true), Side::Left);
    assert_eq!(Side::from_coin(false), Side::Right);
    assert_eq!(Side::Left.index(), 0);
    assert_eq!(Side::Right.index(), 1);
    assert_eq!(Side::Left.opposite(), Side::Right);
}
