use threejs4wasm::TwoI16;

#[test]
fn split_low_and_high_halves() {
    let p = TwoI16::from(0x0002_0001);
    assert_eq!(p, TwoI16 { x: 1, y: 2 });
    let p = TwoI16::from(-1);
    assert_eq!(p, TwoI16 { x: -1, y: -1 });
    let p = TwoI16::from(0x0000_FFFF);
    assert_eq!(p, TwoI16 { x: -1, y: 0 });
    let p = TwoI16::from(i32::MIN);
    assert_eq!(p, TwoI16 { x: 0, y: -32768 });
    let p = TwoI16::from(0x7FFF_8000);
    assert_eq!(p, TwoI16 { x: -32768, y: 32767 });
    assert_eq!(TwoI16::from(0), TwoI16::default());
}

#[test]
fn pack_places_halves() {
    assert_eq!(TwoI16 { x: 1, y: 2 }.pack(), 0x0002_0001);
    assert_eq!(TwoI16 { x: -1, y: 0 }.pack(), 0x0000_FFFF);
    assert_eq!(TwoI16 { x: -1, y: -1 }.pack(), -1);
    assert_eq!(TwoI16 { x: 0, y: -32768 }.pack(), i32::MIN);
    assert_eq!(TwoI16 { x: -5, y: 3 }.pack(), 3 * 65536 + 65531);
}

#[test]
fn pack_of_split_is_identity() {
    let words: [i32; 8] = [0, 1, -1, i32::MIN, i32::MAX, 0x0001_8000, -123_456_789, 0x7FFF_8000];
    for v in words {
        assert_eq!(TwoI16::from(v).pack(), v);
    }
}

#[test]
fn split_of_pack_is_identity() {
    let pairs: [(i16, i16); 5] = [(0, 0), (-32768, 32767), (32767, -32768), (-1, 1), (100, -200)];
    for (x, y) in pairs {
        assert_eq!(TwoI16::from(TwoI16 { x, y }.pack()), TwoI16 { x, y });
    }
}
