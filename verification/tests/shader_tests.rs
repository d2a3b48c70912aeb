use asteroids::shader::{
    output_resolution, BeamStepInstance, LineInstance, DISPLAY_RESOLUTION, RENDER_RESOLUTION,
};
use asteroids::types::{BeamStep, DrawCommand};

fn command(negative_x: bool, negative_y: bool) -> DrawCommand {
    DrawCommand {
        start_tick: 9,
        duration_ticks: 16,
        start_x: 1,
        start_y: 2,
        dest_x: 3,
        dest_y: 4,
        moving_negative_x: negative_x,
        moving_negative_y: negative_y,
        intensity: 12,
    }
}

#[test]
fn line_instance_flags_give_the_directions() {
    let l = LineInstance::from(command(false, false));
    assert_eq!((l.start, l.dest, l.intensity, l.flags), ([1, 2], [3, 4], 12, 0));
    assert_eq!(LineInstance::from(command(true, false)).flags, 1);
    assert_eq!(LineInstance::from(command(false, true)).flags, 2);
    assert_eq!(LineInstance::from(command(true, true)).flags, 3);
}

#[test]
fn beam_step_instance_keeps_position_and_intensity() {
    let i = BeamStepInstance::from(BeamStep { tick: 5, active_ticks: 7, x: 100, y: 200, intensity: 9 });
    assert_eq!((i.active_ticks, i.dest, i.intensity), (7, [100, 200], 9));
}

#[test]
fn resolutions() {
    assert_eq!(output_resolution(), 1024);
    assert_eq!(RENDER_RESOLUTION, 4 * DISPLAY_RESOLUTION);
}

#[test]
fn shader_source_appends_the_constants() {
    assert_eq!(
        asteroids::shader::shader_source("fn main() {}"),
        "fn main() {}\nconst DISPLAY_RESOLUTION: f32 = 1024.0;\n            const SUPERSAMPLE_MULTIPLIER: i32 = 4;"
    );
}
