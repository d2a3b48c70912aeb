use crate::types::{BeamStep, DrawCommand};
use crate::decimal::{append_decimal, decimal};
use vstd::prelude::*;
use vstd::string::StringExecFns;
use vstd::std_specs::convert::FromSpecImpl;

verus! {

pub const DISPLAY_RESOLUTION: usize = 1024;
pub const SUPERSAMPLE_MULTIPLIER: usize = 4;
pub const RENDER_RESOLUTION: usize = DISPLAY_RESOLUTION * SUPERSAMPLE_MULTIPLIER;
/// The side of the square image that the emulator presents.
pub const EMULATION_OUTPUT_RESOLUTION: usize = DISPLAY_RESOLUTION;

/// The WGSL declarations of the display resolution and the supersampling
/// factor, which the shaders read.
pub open spec fn injected_constants() -> Seq<char> {
    "const DISPLAY_RESOLUTION: f32 = "@ + decimal(DISPLAY_RESOLUTION as nat) + ".0;\n            const SUPERSAMPLE_MULTIPLIER: i32 = "@
        + decimal(SUPERSAMPLE_MULTIPLIER as nat) + ";"@
}

/// A shader's source with the constants appended; WGSL doesn't care about
/// declaration order, and prepending would mess up line numbers.
pub fn shader_source(contents: &str) -> (source: String)
    ensures
        source@ == contents@ + "\n"@ + injected_constants(),
{
    let mut source = String::from_str(contents);
    source.append("\n");
    source.append("const DISPLAY_RESOLUTION: f32 = ");
    append_decimal(&mut source, DISPLAY_RESOLUTION);
    source.append(".0;\n            const SUPERSAMPLE_MULTIPLIER: i32 = ");
    append_decimal(&mut source, SUPERSAMPLE_MULTIPLIER);
    source.append(";");
    assert(source@ =~= contents@ + "\n"@ + injected_constants());
    source
}

/// The side of the output image.
pub fn output_resolution() -> (r: u32)
    ensures
        r == EMULATION_OUTPUT_RESOLUTION,
{
    EMULATION_OUTPUT_RESOLUTION as u32
}

/// A traced vector as the line shader reads it.
pub struct LineInstance {
    // DVG 12-bit coordinates
    pub start: [u16; 2],
    pub dest: [u16; 2],
    // 4 bit
    pub intensity: u32,
    // Bitfield
    // [0]: delta X negative
    // [1]: delta Y negative
    pub flags: u32,
}

/// The direction flags of a traced vector: bit 0 for negative X, bit 1 for
/// negative Y.
pub open spec fn direction_flags(negative_x: bool, negative_y: bool) -> u32 {
    ((if negative_x { 1u32 } else { 0u32 }) + (if negative_y { 2u32 } else { 0u32 })) as u32
}

impl FromSpecImpl<DrawCommand> for LineInstance {
    open spec fn obeys_from_spec() -> bool {
        true
    }

    open spec fn from_spec(v: DrawCommand) -> Self {
        LineInstance {
            start: [v.start_x, v.start_y],
            dest: [v.dest_x, v.dest_y],
            intensity: v.intensity as u32,
            flags: direction_flags(v.moving_negative_x, v.moving_negative_y),
        }
    }
}

impl From<DrawCommand> for LineInstance {
    fn from(value: DrawCommand) -> (r: Self) {
        let mut flags: u32 = 0;
        if value.moving_negative_x {
            flags |= 0x1;
        }
        if value.moving_negative_y {
            let f = flags;
            flags |= 0x2;
            proof {
                crate::bits::lemma_u32_flags(f);
            }
        }
        proof {
            crate::bits::lemma_u32_flags(0);
        }
        LineInstance {
            start: [value.start_x, value.start_y],
            dest: [value.dest_x, value.dest_y],
            intensity: value.intensity as u32,
            flags,
        }
    }
}

/// A beam position as the beam tracing shader reads it.
pub struct BeamStepInstance {
    pub active_ticks: u32,
    // DVG 12-bit coordinates
    pub dest: [u16; 2],
    // 4 bit
    pub intensity: u32,
}

impl FromSpecImpl<BeamStep> for BeamStepInstance {
    open spec fn obeys_from_spec() -> bool {
        true
    }

    open spec fn from_spec(v: BeamStep) -> Self {
        BeamStepInstance { active_ticks: v.active_ticks, dest: [v.x, v.y], intensity: v.intensity as u32 }
    }
}

impl From<BeamStep> for BeamStepInstance {
    fn from(value: BeamStep) -> (r: Self) {
        Self { active_ticks: value.active_ticks, dest: [value.x, value.y], intensity: value.intensity as u32 }
    }
}

} // verus!
