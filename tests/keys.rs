use threejs4wasm::KeysSet;

#[test]
fn five_key_mask_reads_each_key() {
    let k = KeysSet(0b10111);
    assert!(k.a());
    assert!(k.s());
    assert!(k.d());
    assert!(!k.w());
    assert!(k.space());
    assert!(k.wsad());
    assert!(k.any());
}

#[test]
fn key_constants_are_single_bits() {
    assert_eq!(KeysSet::A, 1);
    assert_eq!(KeysSet::S, 2);
    assert_eq!(KeysSet::D, 4);
    assert_eq!(KeysSet::W, 8);
    assert_eq!(KeysSet::SPACE, 16);
}

#[test]
fn diff_is_and_not() {
    let pairs: [(i32, i32); 5] = [
        (0b10111, 0b00101),
        (0, 0b11111),
        (-1, 0b1000),
        (i32::MIN, -1),
        (0x1234_5678, 0x0F0F_0F0F),
    ];
    for (a, b) in pairs {
        assert_eq!(KeysSet(a).diff(&KeysSet(b)), KeysSet(a & !b));
        assert_eq!(KeysSet(a).and(&KeysSet(b)), KeysSet(a & b));
        assert_eq!(KeysSet(a).or(&KeysSet(b)), KeysSet(a | b));
    }
    assert_eq!(KeysSet(0b10111).diff(&KeysSet(0b00101)), KeysSet(0b10010));
}

#[test]
fn any_iff_nonzero() {
    assert!(!KeysSet(0).any());
    assert!(KeysSet(1).any());
    assert!(KeysSet(-1).any());
    assert!(KeysSet(i32::MIN).any());
    assert!(!KeysSet::default().any());
}

#[test]
fn wsad_ignores_space_and_higher_bits() {
    assert!(!KeysSet(0b10000).wsad());
    assert!(!KeysSet(0x7FFF_FFF0).wsad());
    assert!(KeysSet(0b1000).wsad());
    assert!(!KeysSet(0b10000).w());
    assert!(KeysSet(0b10000).space());
}

#[test]
fn from_wraps_the_raw_mask() {
    assert_eq!(KeysSet::from(0b10111), KeysSet(0b10111));
    assert_eq!(KeysSet::from(-5).0, -5);
}
