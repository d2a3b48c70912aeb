use asteroids::dvg_simple::{VectorMove, DVG_Simple};

/// Writes little endian instruction words into vector RAM from word 0.
fn load_program(dvg: &mut DVG_Simple, words: &[u16]) {
    for (i, word) in words.iter().enumerate() {
        dvg.write_byte(2 * i, (word & 0xFF) as u8);
        dvg.write_byte(2 * i + 1, (word >> 8) as u8);
    }
}

fn run(words: &[u16], steps: usize) -> (DVG_Simple, Vec<VectorMove>) {
    let mut dvg = DVG_Simple::new([0; 0x800]);
    load_program(&mut dvg, words);
    dvg.resume();
    let mut moves = Vec::new();
    for _ in 0..steps {
        if let Some(m) = dvg.step() {
            moves.push(m);
        }
    }
    (dvg, moves)
}

fn coords(m: &VectorMove) -> (u16, u16, u16, u16, Option<u8>) {
    (m.source_x, m.source_y, m.dest_x, m.dest_y, m.intensity)
}

#[test]
fn new_generator_is_halted_and_still() {
    let mut dvg = DVG_Simple::new([7; 0x800]);
    assert!(dvg.is_halted);
    assert!(dvg.ram.iter().all(|b| *b == 0));
    assert!(dvg.rom.iter().all(|b| *b == 7));
    assert!(dvg.step().is_none());
    assert!(dvg.is_halted);
}

#[test]
fn long_vector_at_full_scale_moves_by_its_coordinates() {
    // VCTR scale 9: y = 0x100, x = 0x050, intensity 15
    let (_, moves) = run(&[0x9100, 0xF050], 1);
    assert_eq!(moves.len(), 1);
    assert_eq!(coords(&moves[0]), (0, 0, 0x50, 0x100, Some(15)));
}

#[test]
fn long_vector_scale_halves_the_length() {
    // VCTR scale 8: y = 0x100, x = 0x050 move by half
    let (_, moves) = run(&[0x8100, 0x7050], 1);
    assert_eq!(coords(&moves[0]), (0, 0, 0x28, 0x80, Some(7)));
}

#[test]
fn labs_sets_position_and_global_scale() {
    // LABS x = 0x200, y = 0x180, global scale 1; then VCTR scale 8: 8 + 1 = 9
    let (_, moves) = run(&[0xA180, 0x1200, 0x8010, 0x3020], 2);
    assert_eq!(moves.len(), 1);
    assert_eq!(coords(&moves[0]), (0x200, 0x180, 0x220, 0x190, Some(3)));
}

#[test]
fn negative_vectors_stop_at_the_screen_edge() {
    // VCTR scale 9 with x = -0x010, y = -0x020 from the origin
    let (_, moves) = run(&[0x9420, 0xF410], 1);
    assert_eq!(coords(&moves[0]), (0, 0, 0, 0, Some(15)));
}

#[test]
fn positive_vectors_stop_at_the_screen_edge() {
    // LABS to (1000, 1000), then VCTR scale 9 by (+0x3FF, +0x3FF)
    let (_, moves) = run(&[0xA3E8, 0x03E8, 0x93FF, 0xF3FF], 2);
    assert_eq!(coords(&moves[0]), (1000, 1000, 1023, 1023, Some(15)));
}

#[test]
fn scale_of_ten_or_more_draws_a_point() {
    // LABS to (0x100, 0x100) with global scale 2, then VCTR scale 9: 11
    let (_, moves) = run(&[0xA100, 0x2100, 0x9100, 0xF100], 2);
    assert_eq!(coords(&moves[0]), (0x100, 0x100, 0x100, 0x100, Some(15)));
}

#[test]
fn short_vector_uses_its_scale_bits() {
    // SVEC: x = 2, y = 1, intensity 5, scale bits 0: local scale 2
    // (2 << 8) >> 7 = 4 and (1 << 8) >> 7 = 2
    let (_, moves) = run(&[0xF152], 1);
    assert_eq!(coords(&moves[0]), (0, 0, 4, 2, Some(5)));
    // scale bit high (bit 3) set: local scale 4, shift by 5
    let (_, moves) = run(&[0xF15A], 1);
    assert_eq!(coords(&moves[0]), (0, 0, 16, 8, Some(5)));
    // scale bit low (bit 11) set: local scale 3, shift by 6
    let (_, moves) = run(&[0xF952], 1);
    assert_eq!(coords(&moves[0]), (0, 0, 8, 4, Some(5)));
}

#[test]
fn halt_stops_the_generator() {
    let (mut dvg, moves) = run(&[0xB000, 0x9100, 0xF050], 3);
    assert!(moves.is_empty());
    assert!(dvg.is_halted);
    assert!(dvg.step().is_none());
}

#[test]
fn subroutine_call_returns_after_the_call() {
    // 0: JSRL 0x10; 1..2: VCTR; 0x10: RTSL
    let mut words = vec![0u16; 0x11];
    words[0] = 0xC010;
    words[1] = 0x9100;
    words[2] = 0xF050;
    words[0x10] = 0xD000;
    let (_, moves) = run(&words, 3);
    assert_eq!(moves.len(), 1);
    assert_eq!(coords(&moves[0]), (0, 0, 0x50, 0x100, Some(15)));
}

#[test]
fn jump_goes_to_the_target() {
    // 0: JMPL 3; 1..2: a vector that is skipped; 3..4: VCTR
    let (_, moves) = run(&[0xE003, 0x9100, 0xF050, 0x9010, 0xF020], 2);
    assert_eq!(moves.len(), 1);
    assert_eq!(coords(&moves[0]), (0, 0, 0x20, 0x10, Some(15)));
}

#[test]
fn reset_halts_and_returns_to_the_origin() {
    let (mut dvg, moves) = run(&[0xA100, 0x2100], 1);
    assert!(moves.is_empty());
    dvg.reset();
    assert!(dvg.is_halted);
    assert!(dvg.step().is_none());
    load_program(&mut dvg, &[0x9010, 0xF020]);
    dvg.resume();
    let m = dvg.step().unwrap();
    // Global scale was reset to 0, position to the origin
    assert_eq!(coords(&m), (0, 0, 0x20, 0x10, Some(15)));
}

#[test]
fn read_word_is_little_endian_over_ram_and_rom() {
    let mut rom = [0u8; 0x800];
    rom[0] = 0x34;
    rom[1] = 0x12;
    rom[0x7FE] = 0xCD;
    rom[0x7FF] = 0xAB;
    let mut dvg = DVG_Simple::new(rom);
    dvg.write_byte(0x10, 0x78);
    dvg.write_byte(0x11, 0x56);
    assert_eq!(dvg.read_word(0x10), 0x5678);
    assert_eq!(dvg.read_word(0x1000), 0x1234);
    assert_eq!(dvg.read_word(0x17FE), 0xABCD);
    assert_eq!(dvg.read_word(0x1800), 0);
    assert_eq!(dvg.read_word(0x4000), 0);
}

#[test]
fn writes_outside_ram_are_ignored() {
    let mut dvg = DVG_Simple::new([0; 0x800]);
    dvg.write_byte(0x1000, 0xFF);
    dvg.write_byte(0x0FFF, 0x42);
    assert_eq!(dvg.read_word(0x1000), 0);
    assert_eq!(dvg.ram[0xFFF], 0x42);
    assert_eq!(dvg.read_word(0xFFE), 0x4200);
}

#[test]
fn read_next_word_advances_the_pc() {
    let mut dvg = DVG_Simple::new([0; 0x800]);
    load_program(&mut dvg, &[0x1111, 0x2222]);
    dvg.resume();
    assert_eq!(dvg.read_next_word(), 0x1111);
    assert_eq!(dvg.read_next_word(), 0x2222);
    assert_eq!(dvg.read_next_word(), 0);
}

#[test]
fn vector_ram_read_after_write_law() {
    let mut dvg = DVG_Simple::new([0; 0x800]);
    dvg.write_byte(0x200, 0x99);
    dvg.write_byte(0x201, 0x11);
    dvg.write_byte(0x200, 0x5A);
    assert_eq!(dvg.read_word(0x200) & 0xFF, 0x5A);
    assert_eq!(dvg.read_word(0x200) >> 8, 0x11);
}
