use asteroids::bus::{Bus, WATCHDOG_PERIOD};
use asteroids::dvg_simple::VectorMove;
use asteroids::rom::ROM;

fn test_rom() -> ROM {
    let mut program = [0u8; 0x1800];
    program[0] = 0x11;
    program[0x17FF] = 0x22;
    let mut vector = [0u8; 0x800];
    vector[0] = 0x33;
    ROM { program, vector, dvg_state_prom: [0; 0x100] }
}

#[test]
fn bus_ram_reads_back_what_was_written() {
    let mut bus = Bus::new(test_rom());
    assert_eq!(bus.get_byte(0x0010), 0);
    bus.set_byte(0x0010, 0xAB);
    assert_eq!(bus.get_byte(0x0010), 0xAB);
    // The top address bit is ignored
    assert_eq!(bus.get_byte(0x8010), 0xAB);
    bus.set_byte(0x83FF, 0x5C);
    assert_eq!(bus.get_byte(0x03FF), 0x5C);
    // Other addresses are untouched
    assert_eq!(bus.get_byte(0x0011), 0);
}

#[test]
fn bus_maps_the_program_rom_at_0x6800() {
    let bus = Bus::new(test_rom());
    assert_eq!(bus.get_byte(0x6800), 0x11);
    assert_eq!(bus.get_byte(0x7FFF), 0x22);
    assert_eq!(bus.get_byte(0xFFFF), 0x22);
    assert_eq!(bus.get_byte(0xE800), 0x11);
}

#[test]
fn bus_vector_memory_window() {
    let mut bus = Bus::new(test_rom());
    bus.set_byte(0x4010, 0x99);
    assert_eq!(bus.get_byte(0x4010), 0x99);
    // The vector ROM appears at 0x5000
    assert_eq!(bus.get_byte(0x5000), 0x33);
    // Writes to the vector ROM are ignored
    bus.set_byte(0x5000, 0x44);
    assert_eq!(bus.get_byte(0x5000), 0x33);
}

#[test]
fn bus_switches_and_unmapped_addresses_read_zero() {
    let bus = Bus::new(test_rom());
    for address in [0x2003u16, 0x2004, 0x2005, 0x2006, 0x2007, 0x2400, 0x2405, 0x2407, 0x1000, 0x6000] {
        assert_eq!(bus.get_byte(address), 0);
    }
}

#[test]
fn bus_clock_input_follows_the_cycle_count() {
    let mut bus = Bus::new(test_rom());
    let mut moves: Vec<VectorMove> = Vec::new();
    assert_eq!(bus.get_byte(0x2001), 0x7F);
    assert!(!bus.run_steps(0x100, &mut moves));
    assert_eq!(bus.get_byte(0x2001), 0x80);
    assert!(!bus.run_steps(0x100, &mut moves));
    assert_eq!(bus.get_byte(0x2001), 0x7F);
    assert!(moves.is_empty());
}

#[test]
fn bus_godvg_starts_the_vector_generator() {
    let mut bus = Bus::new(test_rom());
    assert_eq!(bus.get_byte(0x2002), 0x7F);
    // VCTR scale 9 in vector RAM at word 0: y = 0x100, x = 0x050
    bus.set_byte(0x4000, 0x00);
    bus.set_byte(0x4001, 0x91);
    bus.set_byte(0x4002, 0x50);
    bus.set_byte(0x4003, 0xF0);
    // HALT
    bus.set_byte(0x4004, 0x00);
    bus.set_byte(0x4005, 0xB0);
    bus.set_byte(0x3000, 0);
    assert_eq!(bus.get_byte(0x2002), 0x80);
    let mut moves = Vec::new();
    bus.run_steps(3, &mut moves);
    assert_eq!(moves.len(), 1);
    assert_eq!((moves[0].dest_x, moves[0].dest_y), (0x50, 0x100));
    assert_eq!(bus.get_byte(0x2002), 0x7F);
}

#[test]
fn bus_watchdog_fires_unless_kicked() {
    let mut bus = Bus::new(test_rom());
    let mut moves = Vec::new();
    assert!(!bus.run_steps(WATCHDOG_PERIOD - 1, &mut moves));
    assert!(bus.run_steps(1, &mut moves));
    // The count starts over after firing
    assert!(!bus.run_steps(WATCHDOG_PERIOD - 1, &mut moves));
    bus.set_byte(0x3400, 0);
    assert!(!bus.run_steps(WATCHDOG_PERIOD - 1, &mut moves));
    assert!(bus.run_steps(1, &mut moves));
}

#[test]
fn bus_nmi_request_is_cleared_by_running() {
    let mut bus = Bus::new(test_rom());
    assert!(!bus.nmi_pending());
    bus.request_nmi();
    assert!(bus.nmi_pending());
    let mut moves = Vec::new();
    bus.run_steps(1, &mut moves);
    assert!(!bus.nmi_pending());
}

#[test]
fn bus_reset_dvg_halts_it() {
    let mut bus = Bus::new(test_rom());
    bus.set_byte(0x3000, 0);
    assert_eq!(bus.get_byte(0x2002), 0x80);
    bus.reset_dvg();
    assert_eq!(bus.get_byte(0x2002), 0x7F);
}

#[test]
fn bus_runs_add_up() {
    // A vector program of three VCTRs and a HALT, run as 1 + 3 steps and as 4
    let program: [u8; 14] = [
        0x10, 0x90, 0x10, 0xF0, 0x20, 0x90, 0x20, 0xF0, 0x30, 0x90, 0x30, 0xF0, 0x00, 0xB0,
    ];
    let run = |splits: &[usize]| {
        let mut bus = Bus::new(test_rom());
        for (i, b) in program.iter().enumerate() {
            bus.set_byte(0x4000 + i as u16, *b);
        }
        bus.set_byte(0x3000, 0);
        let mut moves = Vec::new();
        for n in splits {
            bus.run_steps(*n, &mut moves);
        }
        moves.iter().map(|m| (m.dest_x, m.dest_y)).collect::<Vec<_>>()
    };
    assert_eq!(run(&[1, 3]), run(&[4]));
    assert_eq!(run(&[4]), vec![(0x10, 0x10), (0x30, 0x30), (0x60, 0x60)]);
}
