use rangescan::order::compare;
use std::cmp::Ordering;

#[test]
fn equal_keys_compare_equal() {
    assert_eq!(compare(b"abc", b"abc"), Ordering::Equal);
    assert_eq!(compare(b"", b""), Ordering::Equal);
    assert_eq!(compare(&[0xFF, 0x00], &[0xFF, 0x00]), Ordering::Equal);
}

#[test]
fn first_differing_byte_decides() {
    assert_eq!(compare(&[1, 2, 3], &[1, 3, 0]), Ordering::Less);
    assert_eq!(compare(&[1, 3, 0], &[1, 2, 3]), Ordering::Greater);
    assert_eq!(compare(&[2], &[1, 9, 9, 9]), Ordering::Greater);
    assert_eq!(compare(&[1, 9, 9, 9], &[2]), Ordering::Less);
}

#[test]
fn bytes_compare_unsigned() {
    assert_eq!(compare(&[0x7F], &[0x80]), Ordering::Less);
    assert_eq!(compare(&[0xFF], &[0x00]), Ordering::Greater);
    assert_eq!(compare(&[0x00], &[0xFF]), Ordering::Less);
}

#[test]
fn prefix_sorts_before_its_extensions() {
    assert_eq!(compare(b"", b"a"), Ordering::Less);
    assert_eq!(compare(b"ab", b"abc"), Ordering::Less);
    assert_eq!(compare(b"abc", b"ab"), Ordering::Greater);
    assert_eq!(compare(&[0x10], &[0x10, 0x00]), Ordering::Less);
    assert_eq!(compare(&[0xFF], &[0xFF, 0x00]), Ordering::Less);
}

#[test]
fn swapping_operands_flips_the_order() {
    let keys: Vec<Vec<u8>> = vec![
        vec![],
        vec![0],
        vec![0, 0],
        vec![1],
        vec![1, 2],
        vec![1, 2, 3],
        vec![1, 3],
        vec![255],
        vec![255, 255],
    ];
    for a in &keys {
        for b in &keys {
            let there = compare(a, b);
            let back = compare(b, a);
            assert_eq!(there, back.reverse());
            assert_eq!(there == Ordering::Equal, a == b);
        }
    }
}

#[test]
fn order_is_transitive() {
    let keys: Vec<Vec<u8>> = vec![
        vec![],
        vec![0],
        vec![0, 0],
        vec![0, 1],
        vec![1],
        vec![1, 0],
        vec![7, 7, 7],
        vec![7, 8],
        vec![255],
    ];
    for a in &keys {
        for b in &keys {
            for c in &keys {
                if compare(a, b) != Ordering::Greater && compare(b, c) != Ordering::Greater {
                    assert_ne!(compare(a, c), Ordering::Greater);
                    if compare(a, b) == Ordering::Less || compare(b, c) == Ordering::Less {
                        assert_eq!(compare(a, c), Ordering::Less);
                    }
                }
            }
        }
    }
}

#[test]
fn order_agrees_with_slice_order() {
    let keys: Vec<Vec<u8>> = vec![
        vec![],
        vec![0],
        vec![0, 255],
        vec![1],
        vec![1, 0, 0],
        vec![16],
        vec![16, 32],
        vec![255],
    ];
    for a in &keys {
        for b in &keys {
            assert_eq!(compare(a, b), a.as_slice().cmp(b.as_slice()));
        }
    }
}
