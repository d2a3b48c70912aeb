use asteroids::machine::{cpu_time_nanos, CycleOutcome, FrameScheduler, NMI_PERIOD_TICKS};

#[test]
fn nmi_is_requested_once_per_period() {
    let mut s = FrameScheduler::new();
    let mut cycles = 0u64;
    let mut nmis = 0;
    for _ in 0..(NMI_PERIOD_TICKS / 3 * 5) {
        cycles += 3;
        match s.on_cycles(3, cycles) {
            CycleOutcome::Continue => {}
            _ => nmis += 1,
        }
    }
    // 5 periods of cycles
    assert_eq!(nmis, 5);
}

#[test]
fn every_fourth_nmi_completes_a_frame() {
    let mut s = FrameScheduler::new();
    let mut outcomes = Vec::new();
    for i in 1..=8u64 {
        outcomes.push(s.on_cycles(NMI_PERIOD_TICKS, i * 1000));
    }
    let frames: Vec<(usize, u64)> = outcomes
        .iter()
        .enumerate()
        .filter_map(|(i, o)| match o {
            CycleOutcome::NmiAndFrame { frame_tick_count } => Some((i, *frame_tick_count)),
            _ => None,
        })
        .collect();
    // The 4th and 8th NMI; each reports the cycle count of the previous frame
    assert_eq!(frames, vec![(3, 0), (7, 4000)]);
    assert!(matches!(outcomes[0], CycleOutcome::Nmi));
}

#[test]
fn leftover_cycles_carry_into_the_next_period() {
    let mut s = FrameScheduler::new();
    assert!(matches!(s.on_cycles(NMI_PERIOD_TICKS - 1, 0), CycleOutcome::Continue));
    assert!(matches!(s.on_cycles(7, 0), CycleOutcome::Nmi));
    // 6 cycles were carried over
    assert!(matches!(s.on_cycles(NMI_PERIOD_TICKS - 7, 0), CycleOutcome::Continue));
    assert!(matches!(s.on_cycles(1, 0), CycleOutcome::Nmi));
}

#[test]
fn cpu_time_is_cycles_over_clock_speed() {
    assert_eq!(cpu_time_nanos(0), 0);
    assert_eq!(cpu_time_nanos(1_512_000), 1_000_000_000);
    assert_eq!(cpu_time_nanos(3), 1984);
    let big = u64::MAX;
    let exact = (big as u128) * 1_000_000_000 / 1_512_000;
    assert_eq!(cpu_time_nanos(big), exact as u64);
}
