//! End-to-end scenarios: small programs loaded at the ROM start and run
//! cycle by cycle through fetch, decode and execute.

use chip8::instruction::{decode, Instruction};
use chip8::vm::{Fault, VirtualMachine};

fn vm_with_rom(rom: &[u8]) -> VirtualMachine {
    let mut vm = VirtualMachine::new();
    vm.load_rom(rom);
    vm
}

fn run_cycles(vm: &mut VirtualMachine, n: usize) {
    for _ in 0..n {
        vm.cycle(0).unwrap();
    }
}

#[test]
fn initial_state_layout() {
    let vm = VirtualMachine::new();
    assert_eq!(vm.pc(), 0x200);
    assert_eq!(vm.index_register(), 0);
    assert_eq!(vm.stack_depth(), 0);
    assert!(!vm.is_waiting_for_key());
    // The font sits at the bottom of memory: glyph 0 starts with 0xF0,
    // glyph F ends with 0x80, and the byte after the font is zero.
    assert_eq!(vm.memory_at(0), 0xF0);
    assert_eq!(vm.memory_at(79), 0x80);
    assert_eq!(vm.memory_at(80), 0);
    assert_eq!(vm.memory_at(0x200), 0);
    for vx in 0..16 {
        assert_eq!(vm.register(vx), 0);
    }
    for y in 0..32 {
        for x in 0..64 {
            assert!(!vm.pixel(x, y));
        }
    }
}

#[test]
fn load_rom_copies_and_truncates() {
    let rom = vec![0xAB; 4000];
    let vm = vm_with_rom(&rom);
    assert_eq!(vm.memory_at(0x200), 0xAB);
    assert_eq!(vm.memory_at(4095), 0xAB);
    // Nothing below the ROM start is touched.
    assert_eq!(vm.memory_at(0x1FF), 0);
    assert_eq!(vm.memory_at(0), 0xF0);
}

#[test]
fn decode_examples_from_the_opcode_table() {
    assert_eq!(decode(0x00E0).unwrap(), Instruction::Cls);
    assert_eq!(decode(0x00EE).unwrap(), Instruction::Ret);
    assert_eq!(decode(0x1ABC).unwrap(), Instruction::Jp { address: 0xABC });
    assert_eq!(decode(0x2ABC).unwrap(), Instruction::Call { address: 0xABC });
}

#[test]
fn decode_single_key_families_never_fail() {
    for word in 0..=0xFFFFu16 {
        let family = word >> 12;
        if (1..=7).contains(&family) || (9..=0xD).contains(&family) {
            assert!(decode(word).is_ok(), "decode failed on {word:04x}");
        }
    }
}

#[test]
fn add_vx_vy_sets_carry() {
    // V0 = 0xFF plus V1 = 0x01 wraps to 0x00 with VF = 1.
    let mut vm = vm_with_rom(&[0x60, 0xFF, 0x61, 0x01, 0x80, 0x14]);
    run_cycles(&mut vm, 3);
    assert_eq!(vm.register(0), 0x00);
    assert_eq!(vm.register(0xF), 1);
    assert_eq!(vm.pc(), 0x206);
}

#[test]
fn add_vx_vy_without_carry() {
    let mut vm = vm_with_rom(&[0x60, 0x12, 0x61, 0x22, 0x80, 0x14]);
    run_cycles(&mut vm, 3);
    assert_eq!(vm.register(0), 0x34);
    assert_eq!(vm.register(0xF), 0);
}

#[test]
fn sub_vx_vy_without_borrow() {
    // V0 = 5 minus V1 = 3: VF = 1 says no borrow happened.
    let mut vm = vm_with_rom(&[0x60, 0x05, 0x61, 0x03, 0x80, 0x15]);
    run_cycles(&mut vm, 3);
    assert_eq!(vm.register(0), 0x02);
    assert_eq!(vm.register(0xF), 1);
}

#[test]
fn sub_vx_vy_with_borrow_wraps() {
    let mut vm = vm_with_rom(&[0x60, 0x03, 0x61, 0x05, 0x80, 0x15]);
    run_cycles(&mut vm, 3);
    assert_eq!(vm.register(0), 0xFE);
    assert_eq!(vm.register(0xF), 0);
}

#[test]
fn subn_vx_vy_subtracts_the_other_way() {
    let mut vm = vm_with_rom(&[0x60, 0x03, 0x61, 0x05, 0x80, 0x17]);
    run_cycles(&mut vm, 3);
    assert_eq!(vm.register(0), 0x02);
    assert_eq!(vm.register(0xF), 1);
}

#[test]
fn shr_stores_shifted_out_bit_in_flag() {
    // V0 = 3: shifted right to 1, and the low bit that fell out was 1.
    let mut vm = vm_with_rom(&[0x60, 0x03, 0x80, 0x16]);
    run_cycles(&mut vm, 2);
    assert_eq!(vm.register(0), 0x01);
    assert_eq!(vm.register(0xF), 1);
}

#[test]
fn shl_flag_reflects_bit_seven() {
    let mut vm = vm_with_rom(&[0x60, 0x81, 0x80, 0x1E]);
    run_cycles(&mut vm, 2);
    assert_eq!(vm.register(0), 0x02);
    assert_eq!(vm.register(0xF), 1);

    let mut vm2 = vm_with_rom(&[0x60, 0x40, 0x80, 0x1E]);
    run_cycles(&mut vm2, 2);
    assert_eq!(vm2.register(0), 0x80);
    assert_eq!(vm2.register(0xF), 0);
}

#[test]
fn logic_ops_on_registers() {
    let mut vm = vm_with_rom(&[0x60, 0x0C, 0x61, 0x0A, 0x80, 0x11]);
    run_cycles(&mut vm, 3);
    assert_eq!(vm.register(0), 0x0E);

    let mut vm2 = vm_with_rom(&[0x60, 0x0C, 0x61, 0x0A, 0x80, 0x12]);
    run_cycles(&mut vm2, 3);
    assert_eq!(vm2.register(0), 0x08);

    let mut vm3 = vm_with_rom(&[0x60, 0x0C, 0x61, 0x0A, 0x80, 0x13]);
    run_cycles(&mut vm3, 3);
    assert_eq!(vm3.register(0), 0x06);
}

#[test]
fn skip_if_equal_byte() {
    let mut vm = vm_with_rom(&[0x60, 0x05, 0x30, 0x05]);
    run_cycles(&mut vm, 2);
    assert_eq!(vm.pc(), 0x206);

    let mut vm2 = vm_with_rom(&[0x60, 0x05, 0x30, 0x06]);
    run_cycles(&mut vm2, 2);
    assert_eq!(vm2.pc(), 0x204);
}

#[test]
fn add_vx_byte_wraps_without_flag() {
    let mut vm = vm_with_rom(&[0x60, 0xFF, 0x70, 0x02]);
    run_cycles(&mut vm, 2);
    assert_eq!(vm.register(0), 0x01);
    assert_eq!(vm.register(0xF), 0);
}

#[test]
fn bcd_store_decomposes_decimal_digits() {
    // V0 = 234: memory at I, I+1, I+2 becomes 2, 3, 4.
    let mut vm = vm_with_rom(&[0x60, 0xEA, 0xA3, 0x00, 0xF0, 0x33]);
    run_cycles(&mut vm, 3);
    assert_eq!(vm.memory_at(0x300), 2);
    assert_eq!(vm.memory_at(0x301), 3);
    assert_eq!(vm.memory_at(0x302), 4);
    assert_eq!(vm.index_register(), 0x300);
}

#[test]
fn register_block_round_trip() {
    // Store V0..=V3, zero them, read them back: the original values return
    // and the index register never moves.
    let mut vm = vm_with_rom(&[
        0x60, 0x11, 0x61, 0x22, 0x62, 0x33, 0x63, 0x44, // V0..V3
        0xA3, 0x00, // I = 0x300
        0xF3, 0x55, // LD [I],V3
        0x60, 0x00, 0x61, 0x00, 0x62, 0x00, 0x63, 0x00, // zero V0..V3
        0xF3, 0x65, // LD V3,[I]
    ]);
    run_cycles(&mut vm, 11);
    assert_eq!(vm.register(0), 0x11);
    assert_eq!(vm.register(1), 0x22);
    assert_eq!(vm.register(2), 0x33);
    assert_eq!(vm.register(3), 0x44);
    assert_eq!(vm.index_register(), 0x300);
}

#[test]
fn call_ret_round_trip() {
    // CALL from 0x200 to 0x206, then RET: back to 0x202 with the stack at
    // its pre-call depth.
    let mut vm = vm_with_rom(&[0x22, 0x06, 0x00, 0x00, 0x00, 0x00, 0x00, 0xEE]);
    vm.cycle(0).unwrap();
    assert_eq!(vm.pc(), 0x206);
    assert_eq!(vm.stack_depth(), 1);
    vm.cycle(0).unwrap();
    assert_eq!(vm.pc(), 0x202);
    assert_eq!(vm.stack_depth(), 0);
}

#[test]
fn draw_twice_toggles_back_and_sets_collision() {
    let mut vm = vm_with_rom(&[
        0xA2, 0x08, // I = 0x208 (the sprite below)
        0xD0, 0x05, // DRW V0,V0,5 at (0,0)
        0xD0, 0x05, // same draw again
        0x00, 0x00, // padding
        0xF0, 0x90, 0x90, 0x90, 0xF0, // the 0 glyph shape
    ]);
    run_cycles(&mut vm, 2);
    assert_eq!(vm.register(0xF), 0);
    assert!(vm.pixel(0, 0));
    assert!(vm.pixel(3, 0));
    assert!(!vm.pixel(1, 1));
    vm.cycle(0).unwrap();
    assert_eq!(vm.register(0xF), 1);
    for y in 0..32 {
        for x in 0..64 {
            assert!(!vm.pixel(x, y));
        }
    }
}

#[test]
fn cls_clears_the_screen() {
    let mut vm = vm_with_rom(&[0xA2, 0x08, 0xD0, 0x01, 0x00, 0xE0, 0x00, 0x00, 0xFF]);
    run_cycles(&mut vm, 2);
    assert!(vm.pixel(0, 0));
    vm.cycle(0).unwrap();
    for x in 0..64 {
        assert!(!vm.pixel(x, 0));
    }
    assert_eq!(vm.pc(), 0x206);
}

#[test]
fn key_wait_latches_until_a_key_is_pressed() {
    // LD V5,K parks the machine; cycles run nothing until a key shows up,
    // then the key index lands in V5.
    let mut vm = vm_with_rom(&[0xF5, 0x0A]);
    vm.cycle(0).unwrap();
    assert!(vm.is_waiting_for_key());
    assert_eq!(vm.pc(), 0x202);
    vm.cycle(0).unwrap();
    assert!(vm.is_waiting_for_key());
    assert_eq!(vm.pc(), 0x202);
    vm.set_key(9, true);
    vm.cycle(0).unwrap();
    assert!(!vm.is_waiting_for_key());
    assert_eq!(vm.register(5), 9);
}

#[test]
fn key_wait_takes_lowest_pressed_key() {
    let mut vm = vm_with_rom(&[0xF0, 0x0A]);
    vm.cycle(0).unwrap();
    vm.set_key(0xC, true);
    vm.set_key(0x4, true);
    vm.cycle(0).unwrap();
    assert_eq!(vm.register(0), 0x4);
}

#[test]
fn skip_on_key_state() {
    let mut vm = vm_with_rom(&[0x60, 0x07, 0xE0, 0x9E]);
    vm.cycle(0).unwrap();
    vm.set_key(7, true);
    vm.cycle(0).unwrap();
    assert_eq!(vm.pc(), 0x206);

    // SKNP skips when the key is up.
    let mut vm2 = vm_with_rom(&[0x60, 0x07, 0xE0, 0xA1]);
    run_cycles(&mut vm2, 2);
    assert_eq!(vm2.pc(), 0x206);
}

#[test]
fn timers_decay_with_the_wall_clock() {
    let mut vm = vm_with_rom(&[
        0x60, 0x05, // V0 = 5
        0xF0, 0x15, // DT = V0
        0xF0, 0x18, // ST = V0
        0x00, 0x00, // padding
        0xF1, 0x07, // V1 = DT
    ]);
    vm.cycle(0).unwrap();
    vm.cycle(0).unwrap();
    vm.cycle(0).unwrap();
    assert_eq!(vm.delay_timer().value, 5);
    assert_eq!(vm.sound_timer().value, 5);
    // 10 ms is less than one 60 Hz interval: no decay yet.
    vm.cycle(10).unwrap();
    assert_eq!(vm.delay_timer().value, 5);
    // 100 ms later both timers drop by exactly one, and LD V1,DT sees it.
    vm.cycle(100).unwrap();
    assert_eq!(vm.delay_timer().value, 4);
    assert_eq!(vm.sound_timer().value, 4);
    assert_eq!(vm.register(1), 4);
}

#[test]
fn rnd_masks_the_random_byte() {
    let mut vm = vm_with_rom(&[0xC0, 0x0F]);
    vm.cycle(0).unwrap();
    assert_eq!(vm.register(0) & 0xF0, 0);
    assert_eq!(vm.pc(), 0x202);

    // A zero mask pins the result whatever the generator produced.
    let mut vm2 = vm_with_rom(&[0xC1, 0x00]);
    vm2.cycle(0).unwrap();
    assert_eq!(vm2.register(1), 0);
}

#[test]
fn undecodable_word_advances_and_continues() {
    // 0xF0FF decodes to no instruction; the machine treats it as a no-op
    // and moves on rather than looping on the same address.
    let mut vm = vm_with_rom(&[0xF0, 0xFF, 0x60, 0x09]);
    vm.cycle(0).unwrap();
    assert_eq!(vm.pc(), 0x202);
    vm.cycle(0).unwrap();
    assert_eq!(vm.register(0), 9);
}

#[test]
fn load_f_points_at_the_glyph() {
    let mut vm = vm_with_rom(&[0x60, 0x07, 0xF0, 0x29]);
    run_cycles(&mut vm, 2);
    assert_eq!(vm.index_register(), 35);
    // The glyph for 7 starts with 0xF0, 0x10.
    assert_eq!(vm.memory_at(35), 0xF0);
    assert_eq!(vm.memory_at(36), 0x10);
}

#[test]
fn add_i_advances_the_index() {
    let mut vm = vm_with_rom(&[0x60, 0x05, 0xA1, 0x00, 0xF0, 0x1E]);
    run_cycles(&mut vm, 3);
    assert_eq!(vm.index_register(), 0x105);
}

#[test]
fn jp_v0_plus_addr_offsets_the_jump() {
    let mut vm = vm_with_rom(&[0x60, 0x04, 0xB2, 0x00]);
    run_cycles(&mut vm, 2);
    assert_eq!(vm.pc(), 0x204);
}

#[test]
fn ret_with_empty_stack_faults() {
    let mut vm = vm_with_rom(&[0x00, 0xEE]);
    assert_eq!(vm.cycle(0), Err(Fault::StackUnderflow));
    assert_eq!(vm.pc(), 0x200);
}

#[test]
fn seventeenth_nested_call_faults() {
    // CALL 0x200 from 0x200 forever: sixteen frames fit, the next faults.
    let mut vm = vm_with_rom(&[0x22, 0x00]);
    for _ in 0..16 {
        vm.cycle(0).unwrap();
    }
    assert_eq!(vm.stack_depth(), 16);
    assert_eq!(vm.cycle(0), Err(Fault::StackOverflow));
    assert_eq!(vm.stack_depth(), 16);
}

#[test]
fn register_block_past_memory_end_faults() {
    let mut vm = vm_with_rom(&[0xAF, 0xFF, 0xF3, 0x55]);
    vm.cycle(0).unwrap();
    assert_eq!(vm.cycle(0), Err(Fault::MemoryOutOfRange));
}

#[test]
fn sprite_read_past_memory_end_faults() {
    let mut vm = vm_with_rom(&[0xAF, 0xFF, 0xD0, 0x02]);
    vm.cycle(0).unwrap();
    assert_eq!(vm.cycle(0), Err(Fault::MemoryOutOfRange));
}

#[test]
fn skip_on_key_above_fifteen_faults() {
    let mut vm = vm_with_rom(&[0x60, 0x10, 0xE0, 0x9E]);
    vm.cycle(0).unwrap();
    assert_eq!(vm.cycle(0), Err(Fault::KeyOutOfRange));
}

#[test]
fn pc_at_memory_end_faults() {
    let mut vm = vm_with_rom(&[0x1F, 0xFF]);
    vm.cycle(0).unwrap();
    assert_eq!(vm.pc(), 0xFFF);
    assert_eq!(vm.cycle(0), Err(Fault::PcOutOfRange));
}

#[test]
fn add_i_past_the_index_register_faults() {
    // I starts at 0xFFF and V0 = 255 is added in a tight loop until the
    // 16-bit index register would overflow.
    let mut vm = vm_with_rom(&[
        0x60, 0xFF, // V0 = 255
        0xAF, 0xFF, // I = 0xFFF
        0xF0, 0x1E, // ADD I,V0
        0x12, 0x04, // JP 0x204
    ]);
    let mut fault = None;
    for _ in 0..2000 {
        if let Err(f) = vm.cycle(0) {
            fault = Some(f);
            break;
        }
    }
    assert_eq!(fault, Some(Fault::IndexOverflow));
    assert_eq!(vm.index_register(), 65295);
}
