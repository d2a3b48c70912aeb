# asteroids

The emulation core of the Atari Asteroids arcade board, verified with Verus.

- `src/dvg_simple.rs`: the instruction level vector generator (VCTR, LABS,
  HALT, JSRL, RTSL, JMPL, SVEC) that the bus drives.
- `src/dvg.rs`, `src/dvg_length.rs`: the microcoded vector generator, state
  PROM sequencing and the 7497 rate multiplier beam tracing, with the proof
  that a vector is traced to its scaled length.
- `src/bus.rs`: the 6502's memory map, clock, watchdog and NMI request.
- `src/machine.rs`: NMI and display frame timing, CPU time.
- `src/rom.rs`: loading MAME's ROM archive through the `zip` crate.
- `src/input.rs`, `src/shader.rs`, `src/pixels.rs`, `src/types.rs`: controls,
  renderer data and image readback.
- `app/`: the desktop program: the 6502 core (`mos6502`), the window
  (`winit`) and the renderer (`wgpu`).
