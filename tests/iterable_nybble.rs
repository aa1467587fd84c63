use brainfoamkit_lib::{Bit, IterableNybble, Nybble};

#[test]
fn test_iterable_nybble() {
    let nybble = Nybble::from_u8(0b1010); // Dec: 10; Hex: 0xA; Oct: 0o12
    let mut iter = nybble.iter();

    assert_eq!(iter.next(), Some(Bit::one()));
    assert_eq!(iter.next(), Some(Bit::zero()));
    assert_eq!(iter.next(), Some(Bit::one()));
    assert_eq!(iter.next(), Some(Bit::zero()));
    assert_eq!(iter.next(), None);
}

fn collect(iter: &mut IterableNybble<'_>) -> Vec<Bit> {
    let mut bits = Vec::new();
    while let Some(bit) = iter.next() {
        bits.push(bit);
    }
    bits
}

#[test]
fn nybble_iteration_reads_back_as_its_value() {
    for n in 0u8..16 {
        let nybble = Nybble::from_u8(n);
        let bits = collect(&mut IterableNybble::new(&nybble));
        assert_eq!(bits.len(), 4);
        let mut value = 0u8;
        for bit in bits.iter() {
            value = value * 2 + bit.to_u8();
        }
        assert_eq!(value, n);
    }
}

#[test]
fn nybble_iteration_restarts_after_the_end() {
    let nybble = Nybble::from_u8(0b0011);
    let mut iter = nybble.iter();
    let first = collect(&mut iter);
    let second = collect(&mut iter);
    assert_eq!(first, second);
    assert_eq!(first, vec![Bit::zero(), Bit::zero(), Bit::one(), Bit::one()]);
    let fresh = collect(&mut nybble.iter());
    assert_eq!(first, fresh);
}

#[test]
fn nybble_get_bit_weights() {
    let nybble = Nybble::from_u8(0b1000);
    assert_eq!(nybble.get_bit(3), Bit::one());
    assert_eq!(nybble.get_bit(0), Bit::zero());
    assert!(Bit::one().is_set());
    assert!(!Bit::from_bool(false).is_set());
}

#[test]
fn nybble_masks_to_low_four_bits() {
    assert_eq!(Nybble::from_u8(0xF3).to_u8(), 3);
    assert_eq!(Nybble::from_u8(0x10).to_u8(), 0);
}

#[test]
fn nybble_wraps_both_ways() {
    let mut n = Nybble::from_u8(15);
    n.increment();
    assert_eq!(n.to_u8(), 0);
    n.decrement();
    assert_eq!(n.to_u8(), 15);
    n.decrement();
    assert_eq!(n.to_u8(), 14);
}

#[test]
fn nybble_one_iterates_with_its_set_bit_last() {
    let nybble = Nybble::from_u8(1);
    let bits = collect(&mut nybble.iter());
    assert_eq!(bits, vec![Bit::zero(), Bit::zero(), Bit::zero(), Bit::one()]);
}
