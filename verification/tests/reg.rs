use chip8::reg::{RegisterError, Registers};

#[test]
fn test_from_as_array() {
    let mut reg = Registers::new();
    reg.from_array(&[1, 2, 3, 4, 5, 6, 7, 8, 9, 10, 11, 12, 13, 14, 15, 16]);
    assert_eq!(reg.v0, 1);
    assert_eq!(reg.v1, 2);
    assert_eq!(reg.v2, 3);
    assert_eq!(reg.v3, 4);
    assert_eq!(reg.v4, 5);
    assert_eq!(reg.v5, 6);
    assert_eq!(reg.v6, 7);
    assert_eq!(reg.v7, 8);
    assert_eq!(reg.v8, 9);
    assert_eq!(reg.v9, 10);
    assert_eq!(reg.va, 11);
    assert_eq!(reg.vb, 12);
    assert_eq!(reg.vc, 13);
    assert_eq!(reg.vd, 14);
    assert_eq!(reg.ve, 15);
    assert_eq!(reg.vf, 16);

    assert_eq!(reg.as_array(), [1, 2, 3, 4, 5, 6, 7, 8, 9, 10, 11, 12, 13, 14, 15, 16]);
}

#[test]
fn mod_test_get_set() {
    let mut reg = Registers::new();
    for i in 0..15 {
        let r = reg.set(i, i + 1);
        assert!(matches!(r, Ok(())));
    }
    for i in 0..15 {
        let r = reg.get(i);
        assert!(matches!(r, Ok(_)));
        assert_eq!(r.unwrap(), i + 1);
    }
}

#[test]
fn test_roundtrip_every_index() {
    let mut reg = Registers::new();
    // Every valid index round-trips the value written.
    for i in 0..=15u8 {
        assert!(matches!(reg.set(i, 0xa0 | i), Ok(())));
        assert_eq!(reg.get(i).unwrap(), 0xa0 | i);
    }
    // Writing one register leaves the others alone.
    assert_eq!(reg.get(0).unwrap(), 0xa0);
    assert_eq!(reg.get(14).unwrap(), 0xae);
    // Index 16 is rejected by both accessors, with the index in the error.
    assert!(matches!(reg.set(16, 1), Err(RegisterError(16))));
    assert!(matches!(reg.get(16), Err(RegisterError(16))));
    assert!(matches!(reg.get(255), Err(RegisterError(255))));
}
