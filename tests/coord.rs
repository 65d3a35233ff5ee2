use hex_chess::coord::HexCoord;

#[test]
fn distance_values() {
    let o = HexCoord::new(0, 0);
    assert_eq!(o.distance(&o), 0);
    assert_eq!(HexCoord::new(3, -1).distance(&o), 3);
    assert_eq!(HexCoord::new(2, 2).distance(&o), 4);
    assert_eq!(HexCoord::new(-2, 5).distance(&HexCoord::new(1, 1)), 4);
    assert_eq!(HexCoord::new(i32::MAX, 0).distance(&HexCoord::new(i32::MIN, 0)), u32::MAX as u64);
}

#[test]
fn offset_and_equals() {
    let a = HexCoord::new(4, -7);
    let b = a.offset(-2, 3);
    assert_eq!(b, HexCoord::new(2, -4));
    assert!(b.equals(&HexCoord::new(2, -4)));
    assert!(!a.equals(&b));
}

#[test]
fn neighbors_order_and_distance() {
    let c = HexCoord::new(1, 2);
    let n = c.neighbors();
    let expected = vec![
        HexCoord::new(2, 1),
        HexCoord::new(1, 1),
        HexCoord::new(0, 2),
        HexCoord::new(0, 3),
        HexCoord::new(1, 3),
        HexCoord::new(2, 2),
    ];
    assert_eq!(n, expected);
    for x in n.iter() {
        assert_eq!(x.distance(&c), 1);
    }
}
