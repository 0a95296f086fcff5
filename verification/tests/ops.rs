use chip8::ops::Opcode;

#[test]
fn test_opcode_parse() {
    assert!(matches!(Opcode::parse([0xab, 0xcd]), Ok(Opcode::SetI { addr: 0xbcd })));
    assert!(matches!(
        Opcode::parse([0x62, 0xfe]),
        Ok(Opcode::SetRegister {
            register: 0x2,
            value: 0xfe
        })
    ));
}

#[test]
fn test_opcode_parse_classes() {
    assert!(matches!(Opcode::parse([0x00, 0xe0]), Ok(Opcode::Display)));
    assert!(matches!(Opcode::parse([0x00, 0xee]), Ok(Opcode::Return)));
    assert!(matches!(Opcode::parse([0x01, 0x23]), Ok(Opcode::Call { addr: 0x123 })));
    assert!(matches!(Opcode::parse([0x1a, 0xbc]), Ok(Opcode::Goto { addr: 0xabc })));
    assert!(matches!(Opcode::parse([0x24, 0x00]), Ok(Opcode::CallSubroutine { addr: 0x400 })));
    assert!(matches!(
        Opcode::parse([0x8d, 0xe4]),
        Ok(Opcode::AddRegisters {
            value_register: 0xd,
            operand_register: 0xe
        })
    ));
    assert!(matches!(
        Opcode::parse([0xf8, 0x55]),
        Ok(Opcode::DumpRegisters { end_register: 8 })
    ));
}

#[test]
fn test_opcode_parse_rejects_uncovered() {
    // Classes the larger decoder knows but this table does not cover,
    // and patterns neither knows.
    for bytes in [
        [0xb2u8, 0x34u8],
        [0xc5, 0x0f],
        [0xda, 0xb5],
        [0xf3, 0x0a],
        [0xf0, 0x00],
        [0x5a, 0xb1],
        [0xff, 0xff],
    ] {
        match Opcode::parse(bytes) {
            Err(e) => assert_eq!(e.bytes, bytes),
            Ok(_) => panic!("pattern {:02x?} should not decode in this table", bytes),
        }
    }
}
