use brainfoamkit_lib::{Byte, Nybble};

#[test]
fn byte_round_trips_every_integer() {
    for n in 0u8..=255 {
        assert_eq!(Byte::from_u8(n).to_u8(), n);
    }
}

#[test]
fn byte_increment_and_decrement_are_inverse() {
    for n in 0u8..=255 {
        let b = Byte::from_u8(n);
        let mut up_down = b;
        up_down.increment();
        up_down.decrement();
        assert_eq!(up_down, b);
        let mut down_up = b;
        down_up.decrement();
        down_up.increment();
        assert_eq!(down_up, b);
    }
}

#[test]
fn byte_wraps_at_the_boundary() {
    let mut b = Byte::from_u8(255);
    b.increment();
    assert_eq!(b, Byte::from_u8(0));
    let mut c = Byte::from_u8(0);
    c.decrement();
    assert_eq!(c, Byte::from_u8(255));
}

#[test]
fn byte_carries_between_nybbles() {
    let mut b = Byte::from_u8(0x0F);
    b.increment();
    assert_eq!(b.to_u8(), 0x10);
    assert_eq!(b.high().to_u8(), 1);
    assert_eq!(b.low().to_u8(), 0);
    b.decrement();
    assert_eq!(b.to_u8(), 0x0F);
}

#[test]
fn byte_is_composed_of_nybbles() {
    for high in 0u8..16 {
        for low in 0u8..16 {
            let b = Byte::from_nybbles(Nybble::from_u8(high), Nybble::from_u8(low));
            assert_eq!(b.to_u8(), high * 16 + low);
            assert_eq!(b, Byte::from_u8(high * 16 + low));
        }
    }
    let b = Byte::from_u8(0xA7);
    assert_eq!(b.high().to_u8(), 0xA);
    assert_eq!(b.low().to_u8(), 0x7);
}

#[test]
fn byte_default_is_zero() {
    assert_eq!(Byte::default().to_u8(), 0);
    assert!(Byte::default().is_zero());
    assert!(!Byte::from_u8(16).is_zero());
}
