use vstd::prelude::*;

verus! {

/// One vector traced by the microcoded vector generator.
#[derive(Debug)]
pub struct DrawCommand {
    pub start_tick: u64,
    /// The duration of the draw command
    pub duration_ticks: u16,
    // Positions are 12 bit beam coordinates
    pub start_x: u16,
    pub start_y: u16,
    pub dest_x: u16,
    pub dest_y: u16,
    pub moving_negative_x: bool,
    pub moving_negative_y: bool,
    // 4 bit
    pub intensity: u8,
}

/// One position of the beam, held for `active_ticks` ticks.
#[derive(Clone, Copy, Debug)]
pub struct BeamStep {
    pub tick: u64,
    /// The time the beam stays "lingering" on this step
    pub active_ticks: u32,
    // 12 bit beam position
    pub x: u16,
    pub y: u16,
    // 4 bit
    pub intensity: u8,
}

} // verus!
