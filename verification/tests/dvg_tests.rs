use asteroids::dvg::DVG;
use asteroids::types::DrawCommand;

/// A state PROM whose next state depends on the current state alone:
/// 0 -> Latch1 -> Latch0 -> Latch3 -> Latch2 -> `after`.
fn sequencing_prom(after: u8) -> [u8; 0x100] {
    let mut prom = [0u8; 0x100];
    for address in 0..0x100usize {
        prom[address] = match address & 0xF {
            0x0 => 0xD,
            0xD => 0xC,
            0xC => 0xF,
            0xF => 0xE,
            0xE => after,
            _ => 0,
        };
    }
    prom
}

fn load(dvg: &mut DVG, bytes: &[u8]) {
    for (i, b) in bytes.iter().enumerate() {
        dvg.write_byte(i, *b);
    }
}

/// Runs the five latch and vector states, returning the commands.
fn run_vector(bytes: &[u8], after: u8) -> (DVG, Vec<DrawCommand>, Vec<u16>) {
    let mut dvg = DVG::new([0; 0x800], sequencing_prom(after));
    load(&mut dvg, bytes);
    dvg.godvg();
    let mut commands = Vec::new();
    let mut ticks = Vec::new();
    for i in 0..6u64 {
        ticks.push(dvg.step(100 + i, &mut commands));
    }
    (dvg, commands, ticks)
}

#[test]
fn full_scale_vector_traces_its_magnitude() {
    // VCTR scale 9: dvy = 0x100, dvx = 0x080, intensity 15
    let (_, commands, ticks) = run_vector(&[0x00, 0x91, 0x80, 0xF0], 0xA);
    assert_eq!(commands.len(), 1);
    let c = &commands[0];
    assert_eq!((c.start_x, c.start_y, c.dest_x, c.dest_y), (0, 0, 0x80, 0x100));
    assert_eq!(c.duration_ticks, 1024);
    assert_eq!(c.intensity, 15);
    assert_eq!(c.start_tick, 105);
    assert!(!c.moving_negative_x && !c.moving_negative_y);
    assert_eq!(ticks, vec![1, 1, 1, 1, 1, 1025]);
}

#[test]
fn scaled_vector_length_rounds_half_up() {
    // VCTR scale 8: dvy = 3, dvx = 5: 3 / 2 rounded up is 2, 5 / 2 is 3
    let (_, commands, _) = run_vector(&[0x03, 0x80, 0x05, 0x40], 0xA);
    let c = &commands[0];
    assert_eq!((c.dest_x, c.dest_y), (3, 2));
    assert_eq!(c.duration_ticks, 512);
    assert_eq!(c.intensity, 4);
}

#[test]
fn scale_zero_vector_takes_two_ticks() {
    // VCTR scale 0: dvx = 0x300 (magnitude 0x300: bits 9 and 8 set), dvy = 0x200
    let (_, commands, ticks) = run_vector(&[0x00, 0x02, 0x00, 0x13], 0xA);
    let c = &commands[0];
    // 0x300 / 512 = 1, rounded up by bit 8: 2; 0x200 / 512 = 1
    assert_eq!((c.dest_x, c.dest_y), (2, 1));
    assert_eq!(ticks[5], 3);
}

#[test]
fn negative_vector_wraps_at_twelve_bits() {
    // VCTR scale 9, dvx = 0x401 (negative x by 1), dvy = 0x400 | 0x002
    let (_, commands, _) = run_vector(&[0x02, 0x94, 0x01, 0xF4], 0xA);
    let c = &commands[0];
    assert!(c.moving_negative_x && c.moving_negative_y);
    assert_eq!((c.dest_x, c.dest_y), (4095, 4094));
}

#[test]
fn labs_snaps_the_beam_and_loads_the_global_scale() {
    // LABS (opcode 0xA): dvy = 0x123, dvx = 0x456, intensity (global scale) 3,
    // then the halt strobe with the low opcode bit clear
    let (dvg, commands, _) = run_vector(&[0x23, 0xA1, 0x56, 0x34], 0xB);
    assert_eq!(commands.len(), 1);
    let c = &commands[0];
    assert_eq!((c.start_x, c.start_y, c.dest_x, c.dest_y), (0, 0, 0x456, 0x123));
    assert_eq!(c.duration_ticks, 0);
    assert_eq!(c.intensity, 0);
    assert!(!dvg.is_halted);
}

#[test]
fn halt_strobe_halts_on_odd_opcode() {
    // HALT (opcode 0xB): the halt strobe with the low opcode bit set
    let (dvg, commands, _) = run_vector(&[0x00, 0xB0, 0x00, 0x00], 0xB);
    assert!(commands.is_empty());
    assert!(dvg.is_halted);
}

#[test]
fn reset_and_godvg_return_to_state_zero() {
    let mut dvg = DVG::new([0; 0x800], sequencing_prom(0));
    assert!(dvg.is_halted);
    dvg.godvg();
    assert!(!dvg.is_halted);
    let mut commands = Vec::new();
    assert_eq!(dvg.step(0, &mut commands), 1);
    dvg.reset();
    // Back in state 0, a NOP
    assert_eq!(dvg.step(1, &mut commands), 1);
    assert!(commands.is_empty());
}

#[test]
fn read_byte_maps_ram_and_rom() {
    let mut rom = [0u8; 0x800];
    rom[5] = 0x77;
    let mut dvg = DVG::new(rom, [0; 0x100]);
    dvg.write_byte(3, 0x66);
    dvg.write_byte(0x1003, 0x55);
    assert_eq!(dvg.read_byte(3), 0x66);
    assert_eq!(dvg.read_byte(0x1005), 0x77);
    assert_eq!(dvg.read_byte(0x1003), 0);
    assert_eq!(dvg.read_byte(0x2000), 0);
}

/// A state PROM that sequences JSRL, RTSL and VCTR as the hardware does:
/// Latch1, Latch0, then push and load (JSRL, RTSL) or Latch3, Latch2 and
/// the go strobe (VCTR).
fn subroutine_prom() -> [u8; 0x100] {
    let mut prom = [0u8; 0x100];
    for address in 0..0x100usize {
        let state = address & 0xF;
        let opcode = (address >> 4) & 0x7;
        prom[address] = match (state, opcode) {
            (0x0, _) => 0xD,
            (0xD, _) => 0xC,
            (0xC, 4) | (0xC, 5) => 0x8,
            (0xC, _) => 0xF,
            (0x8, _) => 0x9,
            (0x9, _) => 0xD,
            (0xF, _) => 0xE,
            (0xE, _) => 0xA,
            (0xA, _) => 0xD,
            _ => 0,
        };
    }
    prom
}

#[test]
fn microcoded_subroutine_returns_after_the_call() {
    let mut dvg = DVG::new([0; 0x800], subroutine_prom());
    // Word 0: JSRL 0x010; word 1..2: VCTR scale 9 (0x050, 0x100); word 0x10: RTSL
    load(&mut dvg, &[0x10, 0xC0, 0x00, 0x91, 0x50, 0xF0]);
    dvg.write_byte(0x20, 0x00);
    dvg.write_byte(0x21, 0xD0);
    dvg.godvg();
    let mut commands = Vec::new();
    for tick in 0..14u64 {
        dvg.step(tick, &mut commands);
    }
    assert_eq!(commands.len(), 1);
    let c = &commands[0];
    assert_eq!((c.start_x, c.start_y, c.dest_x, c.dest_y), (0, 0, 0x50, 0x100));
    assert_eq!(c.start_tick, 13);
}

#[test]
fn return_from_an_empty_stack_keeps_running() {
    let mut dvg = DVG::new([0; 0x800], subroutine_prom());
    // Word 0: RTSL with nothing pushed; the PC goes to 0xFFF, where fetches
    // read 0, and wraps to 0, where word 0 is then read as a VCTR scale 0
    load(&mut dvg, &[0x00, 0xD0]);
    dvg.godvg();
    let mut commands = Vec::new();
    for tick in 0..10u64 {
        dvg.step(tick, &mut commands);
    }
    assert_eq!(commands.len(), 1);
    let c = &commands[0];
    assert_eq!((c.start_x, c.start_y, c.dest_x, c.dest_y), (0, 0, 0, 0));
    assert_eq!(c.duration_ticks, 2);
    assert_eq!(c.intensity, 0xD);
    assert_eq!(c.start_tick, 9);
}
