use chip8::mem::Memory;
use chip8::proc::{map_key_char, ErrorKind, Processor, Status};

fn load_test_program(mem: &mut Memory) {
    // ** Construct a test program in Memory
    let jmp: [u8; 2] = [0x14, 0xd2]; // Goto 0x4d2 (1234)

    let subroutine: [u8; 10] = [
        0x68, 0x32, // Set V8 to 50
        0x69, 0x2a, // Set V9 to 42
        0x88, 0x95, // V8 =- V9
        0x88, 0x95, // V8 =- V9
        0x00, 0xee, // return
    ];

    let main: [u8; 18] = [
        0x6a, 0xFA, // Set VA to 250
        0x7a, 0x05, // Add 5 to VA
        0xA0, 0xFF, // Set I = 255
        0xF8, 0x55, // reg dump V0 - V8 (inclusive) to 0xFF
        0x6e, 0x2a, // Set VE to 42
        0x8A, 0xE4, // Add register VE to VA
        0x24, 0x00, // Call Subroutine at 1024
        0x3a, 0x29, // skip if VA == 41 (true)
        0xff, 0xff, // Illegal instruction
    ];
    let _ = mem.set_word(512, jmp);
    let _ = mem.load_array(1024, &subroutine);
    let _ = mem.load_array(1234, &main);
}

#[test]
fn test_run_program() {
    let mut mem = Memory::new();
    load_test_program(&mut mem);

    let mut proc = Processor::new(mem);
    proc.registers
        .from_array(&[1, 2, 3, 4, 5, 6, 7, 8, 9, 10, 11, 12, 13, 14, 15, 16]);

    // Execute jmp to 1234 (0x4d2)
    let r = proc.execute();
    assert!(matches!(r, Ok(_)));
    assert_eq!(proc.pc, 1234);

    // Set VA = 250
    let r = proc.execute();
    assert!(matches!(r, Ok(_)));

    assert_eq!(proc.registers.va, 250);

    // VA += 255
    let r = proc.execute();
    assert!(matches!(r, Ok(_)));
    assert_eq!(proc.registers.va, 255);

    // Set I = 255
    let r = proc.execute();
    assert!(matches!(r, Ok(_)));
    assert_eq!(proc.i, 255);

    // Dump registers VA-V8 to memory starting at 255 (0xff)
    let r = proc.execute();
    for i in 255..264 {
        let v = proc.memory.get_byte(i).unwrap();
        let e = (i - 254) as u8;
        assert_eq!(v, e);
    }
    assert!(matches!(r, Ok(_)));
    assert_eq!(proc.memory.get_byte(264).unwrap(), 0);

    // Set VE = 42
    let r = proc.execute();
    assert!(matches!(r, Ok(_)));
    assert_eq!(proc.registers.ve, 42);

    // VE += VA (overflows)
    let r = proc.execute();
    assert!(matches!(r, Ok(_)));
    assert_eq!(proc.registers.va, 41);
    assert_eq!(proc.registers.vf, 1);

    // Call Subroutine at 0x400 (1024)
    let r = proc.execute();
    assert!(matches!(r, Ok(_)));
    assert_eq!(proc.pc, 1024);
    assert_eq!(proc.sp, 1);
    assert_eq!(proc.stack[0], 1248);

    // Set V8 = 50
    let r = proc.execute();
    assert!(matches!(r, Ok(_)));
    assert_eq!(proc.registers.v8, 50);

    // Set V9 = 42
    let r = proc.execute();
    assert!(matches!(r, Ok(_)));
    assert_eq!(proc.registers.v9, 42);

    // V8 -= V9
    let r = proc.execute();
    assert!(matches!(r, Ok(_)));
    assert_eq!(proc.registers.v8, 8);
    assert_eq!(proc.registers.vf, 0);

    // V8 -= V9 (again, overflows)
    let r = proc.execute();
    assert!(matches!(r, Ok(_)));
    assert_eq!(proc.registers.v8, 222);
    assert_eq!(proc.registers.vf, 1);

    // return from subroutine
    let r = proc.execute();
    assert!(matches!(r, Ok(_)));
    assert_eq!(proc.sp, 0);
    assert_eq!(proc.pc, proc.stack[proc.sp] as usize);

    let pre_skip_pc = proc.pc;
    // skip if VA == 41 (true)
    let r = proc.execute();
    assert!(matches!(r, Ok(_)));
    assert_eq!(proc.pc, pre_skip_pc + 4);
}

#[test]
fn test_add_registers_carry_flag() {
    // 0xFF + 0x01 wraps to 0x00 and sets the flag register.
    let mut mem = Memory::new();
    let _ = mem.load_array(512, &[0x8a, 0xb4, 0x8c, 0xd4]);
    let mut proc = Processor::new(mem);
    proc.registers.va = 0xFF;
    proc.registers.vb = 0x01;
    proc.registers.vc = 0x01;
    proc.registers.vd = 0x01;
    assert!(matches!(proc.execute(), Ok(())));
    assert_eq!(proc.registers.va, 0x00);
    assert_eq!(proc.registers.vf, 1);
    // 0x01 + 0x01 gives 0x02 with the flag cleared.
    assert!(matches!(proc.execute(), Ok(())));
    assert_eq!(proc.registers.vc, 0x02);
    assert_eq!(proc.registers.vf, 0);
}

#[test]
fn test_call_and_return_restores_pc() {
    // Call a subroutine at 1024 whose body does one thing and returns:
    // the return lands immediately after the call instruction.
    let mut mem = Memory::new();
    let _ = mem.load_array(512, &[0x24, 0x00]); // CallSubroutine 0x400
    let _ = mem.load_array(1024, &[0x61, 0x07, 0x00, 0xee]); // Set V1; Return
    let mut proc = Processor::new(mem);

    assert!(matches!(proc.execute(), Ok(())));
    assert_eq!(proc.pc, 1024);
    assert_eq!(proc.sp, 1);
    assert!(matches!(proc.execute(), Ok(())));
    assert_eq!(proc.registers.v1, 7);
    assert!(matches!(proc.execute(), Ok(())));
    assert_eq!(proc.pc, 514);
    assert_eq!(proc.sp, 0);
    assert!(matches!(proc.status, Status::Running));
}

#[test]
fn test_draw_loop_is_periodic() {
    // SetI 0x050; Set VA = 1; Set VB = 8; Draw 5 rows at (VA, VB); Goto 0x200.
    let mut mem = Memory::new();
    let _ = mem.load_array(
        512,
        &[
            0xa0, 0x50, // Set I = 0x050 (glyph 0)
            0x6a, 0x01, // Set VA = 1
            0x6b, 0x08, // Set VB = 8
            0xda, 0xb5, // Draw at (VA, VB), 5 rows
            0x12, 0x00, // Goto 0x200
        ],
    );
    let mut proc = Processor::new(mem);

    // One full loop, then snapshot the framebuffer.
    for _ in 0..6 {
        assert!(matches!(proc.execute(), Ok(())));
    }
    let snapshot = proc.framebuffer.clone();

    // Glyph 0's first row is 0xF0: bits 4..8 set, so columns 5..9 of row 8.
    assert_eq!(proc.framebuffer[8 * 64 + 5], 1);
    assert_eq!(proc.framebuffer[8 * 64 + 8], 1);
    assert_eq!(proc.framebuffer[8 * 64 + 1], 0);
    assert_eq!(proc.framebuffer[8 * 64 + 9], 0);

    // Stepping on never errors and reproduces the same pattern every 6 steps.
    for _ in 0..10 {
        for _ in 0..6 {
            assert!(matches!(proc.execute(), Ok(())));
        }
        assert_eq!(proc.framebuffer, snapshot);
    }
}

#[test]
fn test_unknown_instruction_halts() {
    let mut mem = Memory::new();
    let _ = mem.load_array(512, &[0xff, 0xff]);
    let mut proc = Processor::new(mem);
    let r = proc.execute();
    match r {
        Err(e) => assert!(matches!(e.kind, ErrorKind::InstructionInvalid([0xff, 0xff]))),
        Ok(_) => panic!("an unknown instruction must halt the run"),
    }
    assert!(matches!(
        proc.status,
        Status::Halted {
            kind: ErrorKind::InstructionInvalid([0xff, 0xff])
        }
    ));
    // The program counter advanced past the bad word before the halt.
    assert_eq!(proc.pc, 514);
}

#[test]
fn test_fetch_out_of_bounds_halts() {
    let mut mem = Memory::new();
    let _ = mem.load_array(512, &[0x1f, 0xfe]); // Goto 0xffe (4094)
    let mut proc = Processor::new(mem);
    assert!(matches!(proc.execute(), Ok(())));
    assert_eq!(proc.pc, 4094);
    // The word at 4094 is zero: the legacy machine-code call, a no-op.
    assert!(matches!(proc.execute(), Ok(())));
    assert_eq!(proc.pc, 4096);
    // Fetching at 4096 is out of bounds and halts.
    let r = proc.execute();
    match r {
        Err(e) => assert!(matches!(e.kind, ErrorKind::InvalidMemoryAccess(4096))),
        Ok(_) => panic!("a fetch past the end of memory must halt the run"),
    }
}

#[test]
fn test_stack_overflow() {
    // A subroutine that calls itself fills the 128-slot stack, then halts.
    let mut mem = Memory::new();
    let _ = mem.load_array(512, &[0x22, 0x00]); // CallSubroutine 0x200
    let mut proc = Processor::new(mem);
    for depth in 1..=128 {
        assert!(matches!(proc.execute(), Ok(())));
        assert_eq!(proc.sp, depth);
    }
    let r = proc.execute();
    match r {
        Err(e) => assert!(matches!(e.kind, ErrorKind::StackOverflow)),
        Ok(_) => panic!("the 129th nested call must overflow the stack"),
    }
    assert_eq!(proc.sp, 128);
    assert!(matches!(proc.status, Status::Halted { kind: ErrorKind::StackOverflow }));
}

#[test]
fn test_stack_underflow() {
    let mut mem = Memory::new();
    let _ = mem.load_array(512, &[0x00, 0xee]); // Return with an empty stack
    let mut proc = Processor::new(mem);
    let r = proc.execute();
    match r {
        Err(e) => assert!(matches!(e.kind, ErrorKind::StackUnderflow)),
        Ok(_) => panic!("a return with an empty stack must underflow"),
    }
}

#[test]
fn test_get_key_waits_then_stores() {
    let mut mem = Memory::new();
    let _ = mem.load_array(512, &[0xf3, 0x0a]); // GetKey into V3
    let mut proc = Processor::new(mem);
    assert!(matches!(proc.execute(), Ok(())));
    assert!(matches!(proc.status, Status::WaitingForKey { register: 3 }));
    proc.provide_key(7);
    assert!(matches!(proc.status, Status::Running));
    assert_eq!(proc.registers.v3, 7);
    assert_eq!(proc.pc, 514);
}

#[test]
fn test_get_key_failure_halts() {
    let mut mem = Memory::new();
    let _ = mem.load_array(512, &[0xf3, 0x0a]);
    let mut proc = Processor::new(mem);
    assert!(matches!(proc.execute(), Ok(())));
    assert!(matches!(proc.status, Status::WaitingForKey { register: 3 }));
    let e = proc.report_key_failure();
    assert!(matches!(e.kind, ErrorKind::KeyboardError));
    assert!(matches!(proc.status, Status::Halted { kind: ErrorKind::KeyboardError }));
}

#[test]
fn test_random_register_is_masked() {
    let mut mem = Memory::new();
    let _ = mem.load_array(512, &[0xc5, 0x0f, 0xc6, 0x00]);
    let mut proc = Processor::new(mem);
    assert!(matches!(proc.execute(), Ok(())));
    // Whatever byte was drawn, only the operand's bits can be set.
    assert_eq!(proc.registers.v5 & 0xf0, 0);
    // An operand of zero forces zero.
    assert!(matches!(proc.execute(), Ok(())));
    assert_eq!(proc.registers.v6, 0);
}

#[test]
fn test_dump_registers_partial_on_bounds() {
    // Dump V0..=V2 with only two bytes of room: the two writes land, the
    // third halts, and the index register stays where it stopped.
    let mut mem = Memory::new();
    let _ = mem.load_array(512, &[0xaf, 0xfe, 0xf2, 0x55]); // SetI 0xffe; dump V0..=V2
    let mut proc = Processor::new(mem);
    proc.registers.v0 = 9;
    proc.registers.v1 = 8;
    proc.registers.v2 = 7;
    assert!(matches!(proc.execute(), Ok(())));
    assert_eq!(proc.i, 4094);
    let r = proc.execute();
    match r {
        Err(e) => assert!(matches!(e.kind, ErrorKind::InvalidMemoryAccess(4096))),
        Ok(_) => panic!("the dump must halt at the end of memory"),
    }
    assert_eq!(proc.memory.get_byte(4094).unwrap(), 9);
    assert_eq!(proc.memory.get_byte(4095).unwrap(), 8);
    assert_eq!(proc.i, 4096);
}

#[test]
fn test_draw_out_of_bounds_halts_partway() {
    // Drawing at (60, 30): row 30 fits (columns bleed within the buffer),
    // row 31 crosses the 2048-cell boundary and halts the draw.
    let mut mem = Memory::new();
    let _ = mem.load_array(
        512,
        &[
            0xa0, 0x50, // Set I = 0x050
            0x6a, 0x3c, // Set VA = 60
            0x6b, 0x1e, // Set VB = 30
            0xda, 0xb5, // Draw at (VA, VB), 5 rows
        ],
    );
    let mut proc = Processor::new(mem);
    for _ in 0..3 {
        assert!(matches!(proc.execute(), Ok(())));
    }
    let r = proc.execute();
    match r {
        Err(e) => assert!(matches!(e.kind, ErrorKind::InvalidMemoryAccess(2048))),
        Ok(_) => panic!("a draw past the framebuffer must halt the run"),
    }
}

#[test]
fn test_clear_display() {
    let mut mem = Memory::new();
    let _ = mem.load_array(
        512,
        &[
            0xa0, 0x50, // Set I = 0x050
            0x6a, 0x01, // Set VA = 1
            0x6b, 0x08, // Set VB = 8
            0xda, 0xb5, // Draw
            0x00, 0xe0, // ClearDisplay
        ],
    );
    let mut proc = Processor::new(mem);
    for _ in 0..4 {
        assert!(matches!(proc.execute(), Ok(())));
    }
    assert!(proc.framebuffer.iter().any(|c| *c == 1));
    assert!(matches!(proc.execute(), Ok(())));
    assert!(proc.framebuffer.iter().all(|c| *c == 0));
}

#[test]
fn test_reset_after_halt() {
    let mut mem = Memory::new();
    let _ = mem.load_array(512, &[0x6a, 0x2a, 0xff, 0xff]);
    let mut proc = Processor::new(mem);
    assert!(matches!(proc.execute(), Ok(())));
    assert!(matches!(proc.execute(), Err(_)));
    assert!(matches!(proc.status, Status::Halted { .. }));
    proc.reset();
    assert_eq!(proc.pc, 512);
    assert_eq!(proc.sp, 0);
    assert!(matches!(proc.status, Status::Running));
    // Memory and registers are untouched by the reset.
    assert_eq!(proc.registers.va, 0x2a);
    assert_eq!(proc.memory.get_byte(512).unwrap(), 0x6a);
    // The machine runs again from the reset vector.
    assert!(matches!(proc.execute(), Ok(())));
    assert_eq!(proc.registers.va, 0x2a);
}

#[test]
fn test_goto_plus_v0_and_skips() {
    let mut mem = Memory::new();
    let _ = mem.load_array(
        512,
        &[
            0x60, 0x04, // Set V0 = 4
            0xb2, 0x02, // Goto 0x202 + V0 = 0x206
        ],
    );
    let _ = mem.load_array(
        0x206,
        &[
            0x30, 0x04, // skip if V0 == 4 (true)
            0xff, 0xff, // skipped
            0x40, 0x04, // skip if V0 != 4 (false)
            0x81, 0x00, // V1 = V0
            0x51, 0x00, // skip if V1 == V0 (true)
        ],
    );
    let mut proc = Processor::new(mem);
    assert!(matches!(proc.execute(), Ok(())));
    assert!(matches!(proc.execute(), Ok(())));
    assert_eq!(proc.pc, 0x206);
    assert!(matches!(proc.execute(), Ok(())));
    assert_eq!(proc.pc, 0x20a); // skipped the illegal word
    assert!(matches!(proc.execute(), Ok(())));
    assert_eq!(proc.pc, 0x20c); // no skip
    assert!(matches!(proc.execute(), Ok(())));
    assert_eq!(proc.registers.v1, 4);
    assert!(matches!(proc.execute(), Ok(())));
    assert_eq!(proc.pc, 0x212); // skipped again
}

#[test]
fn test_map_key_char_table() {
    let table: [(char, u8); 16] = [
        ('1', 0),
        ('2', 1),
        ('3', 2),
        ('4', 3),
        ('q', 4),
        ('w', 5),
        ('e', 6),
        ('r', 7),
        ('a', 8),
        ('s', 9),
        ('d', 10),
        ('f', 11),
        ('z', 12),
        ('x', 13),
        ('c', 14),
        ('v', 15),
    ];
    for (c, v) in table {
        assert_eq!(map_key_char(c), Some(v));
    }
    assert_eq!(map_key_char('5'), None);
    assert_eq!(map_key_char('g'), None);
    assert_eq!(map_key_char(' '), None);
}
