use crate::types::BeamStep;
use vstd::prelude::*;

verus! {

/// The 6502 clock, in Hz.
pub const CLOCK_SPEED: usize = 1_512_000;

/// CPU cycles between NMIs: 1_512_000 / 246.09
pub const NMI_PERIOD_TICKS: usize = 6144;

/// The display is driven every fourth NMI (~60Hz)
pub const NMIS_PER_FRAME: usize = 4;

/// The commands of one display frame.
pub struct Frame {
    pub commands: Vec<BeamStep>,
    pub frame_tick_count: u64,
}

/// What the machine does after a CPU step.
pub enum CycleOutcome {
    /// Keep stepping the CPU.
    Continue,
    /// Request an NMI, then keep stepping.
    Nmi,
    /// Request an NMI and complete a display frame; `frame_tick_count` is the
    /// CPU cycle count at which the previous frame completed.
    NmiAndFrame { frame_tick_count: u64 },
}

/// The NMI and frame timing of the machine.
pub struct FrameScheduler {
    nmi_counter: usize,
    nmi_count: usize,
    last_frame_ticks: u64,
}

/// The counters of the frame timing.
pub struct SchedulerState {
    /// CPU cycles since the last NMI.
    pub nmi_counter: nat,
    /// NMIs requested so far.
    pub nmi_count: nat,
    /// CPU cycle count at the last completed frame.
    pub last_frame_ticks: u64,
}

impl View for FrameScheduler {
    type V = SchedulerState;

    closed spec fn view(&self) -> SchedulerState {
        SchedulerState {
            nmi_counter: self.nmi_counter as nat,
            nmi_count: self.nmi_count as nat,
            last_frame_ticks: self.last_frame_ticks,
        }
    }
}

/// After a CPU step of `new_cycles` cycles, when the CPU has run `cpu_cycles`
/// cycles in all: an NMI is due when a whole NMI period has accumulated, and
/// every fourth NMI completes a frame.
pub open spec fn scheduler_step(s: SchedulerState, new_cycles: nat, cpu_cycles: u64) -> (SchedulerState, CycleOutcome) {
    let counter = s.nmi_counter + new_cycles;
    if counter < NMI_PERIOD_TICKS {
        (SchedulerState { nmi_counter: counter, ..s }, CycleOutcome::Continue)
    } else {
        let count = s.nmi_count + 1;
        let t = SchedulerState {
            nmi_counter: (counter - NMI_PERIOD_TICKS) as nat,
            nmi_count: count,
            ..s
        };
        if count % (NMIS_PER_FRAME as nat) == 0 {
            (
                SchedulerState { last_frame_ticks: cpu_cycles, ..t },
                CycleOutcome::NmiAndFrame { frame_tick_count: s.last_frame_ticks },
            )
        } else {
            (t, CycleOutcome::Nmi)
        }
    }
}

impl FrameScheduler {
    /// No cycles counted, no NMI requested, no frame completed.
    pub fn new() -> (f: Self)
        ensures
            f@ == (SchedulerState { nmi_counter: 0, nmi_count: 0, last_frame_ticks: 0 }),
    {
        FrameScheduler { nmi_counter: 0, nmi_count: 0, last_frame_ticks: 0 }
    }

    /// CPU cycles counted since the last NMI.
    pub fn nmi_counter(&self) -> (n: usize)
        ensures
            n == self@.nmi_counter,
    {
        self.nmi_counter
    }

    /// NMIs requested so far.
    pub fn nmi_count(&self) -> (n: usize)
        ensures
            n == self@.nmi_count,
    {
        self.nmi_count
    }

    /// Counts the cycles of a CPU step and says whether to request an NMI
    /// and whether a frame is complete.
    pub fn on_cycles(&mut self, new_cycles: usize, cpu_cycles: u64) -> (r: CycleOutcome)
        requires
            old(self)@.nmi_counter + new_cycles <= usize::MAX,
            old(self)@.nmi_count < usize::MAX,
        ensures
            (final(self)@, r) == scheduler_step(old(self)@, new_cycles as nat, cpu_cycles),
    {
        self.nmi_counter = self.nmi_counter + new_cycles;
        if self.nmi_counter < NMI_PERIOD_TICKS {
            return CycleOutcome::Continue;
        }
        // Request NMI to be picked up by next CPU step. It will be cleared on next machine step
        self.nmi_counter = self.nmi_counter - NMI_PERIOD_TICKS;
        self.nmi_count = self.nmi_count + 1;
        let did_render = self.nmi_count % NMIS_PER_FRAME == 0;
        if did_render {
            let frame_tick_count = self.last_frame_ticks;
            self.last_frame_ticks = cpu_cycles;
            CycleOutcome::NmiAndFrame { frame_tick_count }
        } else {
            CycleOutcome::Nmi
        }
    }
}

/// The wall time at which the CPU reaches `cycles` cycles, in nanoseconds
/// since it started, truncated to 64 bits.
pub open spec fn cpu_time_nanos_spec(cycles: u64) -> u64 {
    ((cycles * 1_000_000_000 / CLOCK_SPEED as int) % 0x1_0000_0000_0000_0000) as u64
}

/// The wall time at which the CPU reaches `cycles` cycles, in nanoseconds.
pub fn cpu_time_nanos(cycles: u64) -> (nanos: u64)
    ensures
        nanos == cpu_time_nanos_spec(cycles),
{
    let product = cycles as u128 * 1_000_000_000;
    let quotient = product / CLOCK_SPEED as u128;
    proof {
        crate::bits::lemma_u128_truncate(quotient);
    }
    quotient as u64
}


/// No CPU cycle is lost or counted twice: the cycles fed in are the NMI
/// periods passed plus the cycles since the last NMI, and at most one NMI
/// is requested per step.
pub proof fn lemma_cycles_conserved(s: SchedulerState, new_cycles: nat, cpu_cycles: u64)
    ensures
        ({
            let t = scheduler_step(s, new_cycles, cpu_cycles).0;
            &&& t.nmi_count * NMI_PERIOD_TICKS + t.nmi_counter == s.nmi_count * NMI_PERIOD_TICKS
                + s.nmi_counter + new_cycles
            &&& t.nmi_count == s.nmi_count || t.nmi_count == s.nmi_count + 1
        }),
{
}

/// The cycle count of the last completed frame changes only when a frame
/// completes: a step that completes no frame leaves it as it was, and a step
/// that completes one sets it to the step's cycle count and reports the one
/// it replaces. So each frame reports the cycle count passed with the
/// previous frame, and 0 before the first.
pub proof fn lemma_frame_ticks_change_only_on_frames(s: SchedulerState, new_cycles: nat, cpu_cycles: u64)
    ensures
        ({
            let (t, outcome) = scheduler_step(s, new_cycles, cpu_cycles);
            &&& !(outcome is NmiAndFrame) ==> t.last_frame_ticks == s.last_frame_ticks
            &&& outcome matches CycleOutcome::NmiAndFrame { frame_tick_count } ==> (
            frame_tick_count == s.last_frame_ticks && t.last_frame_ticks == cpu_cycles)
        }),
{
}

/// Two steps in a row: the frame that the second step completes reports the
/// cycle count of the first step when the first completed a frame, and
/// otherwise the count reported before the first step.
pub proof fn lemma_frame_reports_previous_frame(
    s: SchedulerState,
    c1: nat,
    t1: u64,
    c2: nat,
    t2: u64,
)
    ensures
        ({
            let (u, first) = scheduler_step(s, c1, t1);
            let (v, second) = scheduler_step(u, c2, t2);
            second matches CycleOutcome::NmiAndFrame { frame_tick_count } ==> frame_tick_count == (
            if first is NmiAndFrame { t1 } else { s.last_frame_ticks })
        }),
{
}

/// While fewer than NMI_PERIOD_TICKS cycles have accumulated, an NMI is
/// requested exactly when the count reaches the period, and a frame is
/// completed exactly on every fourth NMI, reporting the cycle count at which
/// the previous frame completed.
pub proof fn lemma_frame_every_fourth_nmi(s: SchedulerState, new_cycles: nat, cpu_cycles: u64)
    requires
        s.nmi_counter < NMI_PERIOD_TICKS,
        new_cycles <= NMI_PERIOD_TICKS,
    ensures
        ({
            let (t, outcome) = scheduler_step(s, new_cycles, cpu_cycles);
            &&& t.nmi_counter < NMI_PERIOD_TICKS
            &&& (outcome is Continue) == (s.nmi_counter + new_cycles < NMI_PERIOD_TICKS)
            &&& (outcome is NmiAndFrame) == (!(outcome is Continue) && t.nmi_count % 4 == 0)
            &&& outcome matches CycleOutcome::NmiAndFrame { frame_tick_count } ==> (
            frame_tick_count == s.last_frame_ticks && t.last_frame_ticks == cpu_cycles)
        }),
{
}

} // verus!
