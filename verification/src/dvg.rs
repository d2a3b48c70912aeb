use crate::bits::{
    lemma_prom_address, lemma_u16_fields, lemma_u16_rate, lemma_u16_pair, lemma_u8_fields, lemma_usize_fields,
};
use crate::types::DrawCommand;
use vstd::arithmetic::power2::{lemma2_to64, lemma_pow2_strictly_increases, lemma_pow2_unfold, pow2};
use vstd::prelude::*;

verus! {

/// The registers and memories of the microcoded vector generator.
#[verifier::ext_equal]
pub struct DvgState {
    pub pc: u16,
    pub rom: Seq<u8>,
    pub ram: Seq<u8>,
    pub state_prom: Seq<u8>,
    pub is_halted: bool,
    pub stack: Seq<u16>,
    pub stack_depth: u8,
    pub dvx: u16,
    pub dvy: u16,
    pub current_x: u16,
    pub current_y: u16,
    pub global_scale: u8,
    pub opcode: u8,
    pub intensity: u8,
    pub state: u8,
}

/// The vector generator as the hardware builds it: a 4 bit state machine
/// sequenced by the state PROM, which latches vector words from memory into
/// the DVX/DVY registers and traces them with a pair of 7497 rate multipliers.
pub struct DVG {
    // 12 bit PC
    pc: u16,
    rom: [u8; 0x800],
    ram: [u8; 0x1000],
    state_prom: [u8; 0x100],
    pub is_halted: bool,
    // Stack is a set of 4, 12 bit registers
    stack: [u16; 4],
    // How many of the stack registers hold a return address, from the top
    stack_depth: u8,
    // 12 bits. In real hardware, top 4 bits are intensity (split out here though)
    dvx: u16,
    // 12 bits. In real hardware, top 4 bits are opcode (split out here though)
    dvy: u16,
    // 12 bits each
    current_x: u16,
    current_y: u16,
    global_scale: u8,
    // 4 bits
    opcode: u8,
    intensity: u8,
    // 4 bits
    state: u8,
}

impl View for DVG {
    type V = DvgState;

    closed spec fn view(&self) -> DvgState {
        DvgState {
            pc: self.pc,
            rom: self.rom@,
            ram: self.ram@,
            state_prom: self.state_prom@,
            is_halted: self.is_halted,
            stack: self.stack@,
            stack_depth: self.stack_depth,
            dvx: self.dvx,
            dvy: self.dvy,
            current_x: self.current_x,
            current_y: self.current_y,
            global_scale: self.global_scale,
            opcode: self.opcode,
            intensity: self.intensity,
            state: self.state,
        }
    }
}

/// The register widths of the hardware: 12 bit PC, stack, vector and
/// position registers, 4 bit scale, opcode, intensity and state, and a stack
/// at most 4 deep.
pub open spec fn dvg_wf(s: DvgState) -> bool {
    &&& s.rom.len() == 0x800
    &&& s.ram.len() == 0x1000
    &&& s.state_prom.len() == 0x100
    &&& s.pc <= 0xFFF
    &&& s.stack.len() == 4
    &&& forall|i: int| 0 <= i < 4 ==> #[trigger] s.stack[i] <= 0xFFF
    &&& s.stack_depth <= 4
    &&& s.dvx <= 0xFFF
    &&& s.dvy <= 0xFFF
    &&& s.current_x <= 0xFFF
    &&& s.current_y <= 0xFFF
    &&& s.global_scale <= 0xF
    &&& s.opcode <= 0xF
    &&& s.intensity <= 0xF
    &&& s.state <= 0xF
}

/// A byte of the vector generator's address space: RAM below 0x1000, the
/// vector ROM from 0x1000 to 0x1800, and 0 elsewhere.
pub open spec fn dvg_read_byte(s: DvgState, address: int) -> u8 {
    if 0 <= address < 0x1000 {
        s.ram[address]
    } else if 0x1000 <= address < 0x1800 {
        s.rom[address - 0x1000]
    } else {
        0
    }
}

/// The byte that the current state fetches: the PC is a word address, and
/// the low bit of the state selects the high byte.
pub open spec fn dvg_fetched_byte(s: DvgState) -> u8 {
    dvg_read_byte(s, 2 * s.pc + (s.state % 2))
}

/// Where a pop from the empty stack leaves the PC: the top of the 12 bit
/// address space, past the vector ROM, where fetches read 0 and the next
/// increment wraps to 0.
pub const EMPTY_STACK_PC: u16 = 0xFFF;

/// The PC after an increment, wrapping at 12 bits.
pub open spec fn next_pc(pc: u16) -> u16 {
    ((pc + 1) % 0x1000) as u16
}

/// Latch3: the low nibble of the fetched byte becomes the high nibble of
/// DVX, the high nibble becomes the intensity.
pub open spec fn dvg_latch3(s: DvgState) -> DvgState {
    let byte = dvg_fetched_byte(s);
    DvgState {
        dvx: ((s.dvx % 0x100) + (byte % 0x10) * 0x100) as u16,
        intensity: byte / 0x10,
        ..s
    }
}

/// One position step of the beam on a 12 bit axis, `k` steps at once.
pub open spec fn axis_moved(p: u16, negative: bool, k: nat) -> u16 {
    if negative {
        ((p - k) % 0x1000) as u16
    } else {
        ((p + k) % 0x1000) as u16
    }
}

/// Whether bit `b` of the 12 bit 7497 counter fires at tick `t` (bit 0 fires
/// on every second tick, bit 1 on every fourth, ...) and the matching
/// frequency bit of `rate` is set.
pub open spec fn bit_pulses(rate: u16, t: nat, b: nat) -> bool {
    &&& t % pow2(b + 1) == pow2(b) - 1
    &&& (rate as nat / pow2((11 - b) as nat)) % 2 == 1
}

/// Whether any of the first `n` counter bits pulses at tick `t`.
pub open spec fn pulses_within(rate: u16, t: nat, n: nat) -> bool
    decreases n,
{
    if n == 0 {
        false
    } else {
        pulses_within(rate, t, (n - 1) as nat) || bit_pulses(rate, t, (n - 1) as nat)
    }
}

/// Whether the rate multiplier pair outputs a pulse at tick `t`.
pub open spec fn pulses(rate: u16, t: nat) -> bool {
    pulses_within(rate, t, 12)
}

/// The number of pulses output during the first `n` ticks.
pub open spec fn pulse_count(rate: u16, n: nat) -> nat
    decreases n,
{
    if n == 0 {
        0
    } else {
        pulse_count(rate, (n - 1) as nat) + if pulses(rate, (n - 1) as nat) {
            1nat
        } else {
            0nat
        }
    }
}

/// The pulse rate for an axis: the low 10 bits of the vector register,
/// shifted so that its bit 9 stands for half of the ticks.
pub open spec fn axis_rate(dv: u16) -> u16 {
    ((dv * 4) % 0x1000) as u16
}

/// The scale of a vector instruction: VCTR opcodes give it directly, SVEC
/// builds it from the high bits of the latched DVX and DVY.
pub open spec fn local_scale(s: DvgState) -> u8 {
    if s.opcode == 0xF {
        (2 + 2 * ((s.dvx / 0x800) % 2) + ((s.dvy / 0x800) % 2)) as u8
    } else {
        s.opcode
    }
}

/// The number of ticks a vector is traced for: 2^(scale + 1), where a scale
/// above 9 collapses the vector to a point.
pub open spec fn vector_ticks(s: DvgState) -> u16 {
    let scale = (s.global_scale + local_scale(s)) % 0x10;
    if scale > 9 {
        0
    } else {
        pow2((scale + 1) as nat) as u16
    }
}

/// Go strobe: the beam moves from the current position along the rate
/// multiplier pulses for the vector's ticks; the traced vector is reported.
pub open spec fn dvg_go_strobe(s: DvgState, tick_counter: u64) -> (DvgState, DrawCommand) {
    let ticks = vector_ticks(s);
    let negative_x = s.dvx & 0x400 != 0;
    let negative_y = s.dvy & 0x400 != 0;
    let x = axis_moved(s.current_x, negative_x, pulse_count(axis_rate(s.dvx), ticks as nat));
    let y = axis_moved(s.current_y, negative_y, pulse_count(axis_rate(s.dvy), ticks as nat));
    (
        DvgState { current_x: x, current_y: y, ..s },
        DrawCommand {
            start_tick: tick_counter,
            duration_ticks: ticks,
            start_x: s.current_x,
            start_y: s.current_y,
            dest_x: x,
            dest_y: y,
            moving_negative_x: negative_x,
            moving_negative_y: negative_y,
            intensity: s.intensity,
        },
    )
}


/// One microinstruction, selected by the current state. Returns the new
/// registers, the vector traced if any, and the ticks spent.
pub open spec fn dvg_microinstruction(s: DvgState, tick_counter: u64) -> (
    DvgState,
    Option<DrawCommand>,
    u16,
) {
    let opcode_low = s.opcode % 2 == 1;
    if s.state < 0x8 {
        // NOP
        (s, None, 1)
    } else if s.state == 0x8 {
        // Push the PC, unless the low opcode bit is set; a full stack loses
        // its deepest address
        if !opcode_low {
            (
                DvgState {
                    stack: seq![s.pc, s.stack[0], s.stack[1], s.stack[2]],
                    stack_depth: if s.stack_depth < 4 { (s.stack_depth + 1) as u8 } else { 4 },
                    ..s
                },
                None,
                1,
            )
        } else {
            (s, None, 1)
        }
    } else if s.state == 0x9 {
        // Pop the PC from the stack, or load it from DVY; popping an empty
        // stack leaves the PC at EMPTY_STACK_PC
        if opcode_low {
            if s.stack_depth > 0 {
                (
                    DvgState {
                        pc: s.stack[0],
                        stack: seq![s.stack[1], s.stack[2], s.stack[3], 0u16],
                        stack_depth: (s.stack_depth - 1) as u8,
                        ..s
                    },
                    None,
                    1,
                )
            } else {
                (DvgState { pc: EMPTY_STACK_PC, ..s }, None, 1)
            }
        } else {
            (DvgState { pc: s.dvy, ..s }, None, 1)
        }
    } else if s.state == 0xA {
        let (t, command) = dvg_go_strobe(s, tick_counter);
        (t, Some(command), (vector_ticks(s) + 1) as u16)
    } else if s.state == 0xB {
        // Halt strobe: halt on the low opcode bit, otherwise LABS snaps the
        // beam to DVX/DVY and reports a blank move
        if opcode_low {
            (DvgState { is_halted: true, ..s }, None, 1)
        } else {
            (
                DvgState { is_halted: false, current_x: s.dvx, current_y: s.dvy, ..s },
                Some(
                    DrawCommand {
                        start_tick: tick_counter,
                        duration_ticks: 0,
                        start_x: s.current_x,
                        start_y: s.current_y,
                        dest_x: s.dvx,
                        dest_y: s.dvy,
                        moving_negative_x: false,
                        moving_negative_y: false,
                        intensity: 0,
                    },
                ),
                1,
            )
        }
    } else if s.state == 0xC {
        // Latch0: the low byte of DVY; SVEC takes Latch3's action instead
        // and clears the low byte
        let t = if s.opcode == 0xF {
            let l = dvg_latch3(s);
            DvgState { dvy: ((l.dvy / 0x100) * 0x100) as u16, ..l }
        } else {
            DvgState {
                dvy: ((s.dvy / 0x100) * 0x100 + dvg_fetched_byte(s)) as u16,
                ..s
            }
        };
        (DvgState { pc: next_pc(t.pc), ..t }, None, 1)
    } else if s.state == 0xD {
        // Latch1: the high nibble of DVY and the opcode; SVEC clears the low
        // bytes of DVX and DVY
        let byte = dvg_fetched_byte(s);
        let dvy = ((s.dvy % 0x100) + (byte % 0x10) * 0x100) as u16;
        let opcode = byte / 0x10;
        if opcode == 0xF {
            (
                DvgState {
                    dvx: ((s.dvx / 0x100) * 0x100) as u16,
                    dvy: ((dvy / 0x100) * 0x100) as u16,
                    opcode,
                    ..s
                },
                None,
                1,
            )
        } else {
            (DvgState { dvy, opcode, ..s }, None, 1)
        }
    } else if s.state == 0xE {
        // Latch2: the low byte of DVX; LABS also loads the global scale
        let t = DvgState {
            dvx: ((s.dvx / 0x100) * 0x100 + dvg_fetched_byte(s)) as u16,
            pc: next_pc(s.pc),
            ..s
        };
        if s.opcode & 0xA == 0xA {
            (DvgState { global_scale: s.intensity, ..t }, None, 1)
        } else {
            (t, None, 1)
        }
    } else {
        // Latch3
        (dvg_latch3(s), None, 1)
    }
}

/// The state PROM address: {~halt, opcode[2:0] if opcode[3], state[3:0]},
/// from the opcode and halt flag latched before the microinstruction.
pub open spec fn prom_address(state: u8, opcode: u8, is_halted: bool) -> int {
    let prom_opcode = if opcode >= 8 { opcode % 8 } else { 0 };
    state + 16 * prom_opcode + if is_halted { 0int } else { 128int }
}

/// One clock of the vector generator: the microinstruction for the current
/// state, then the next state from the state PROM.
pub open spec fn dvg_step(s: DvgState, tick_counter: u64) -> (DvgState, Option<DrawCommand>, u16) {
    let (t, command, ticks) = dvg_microinstruction(s, tick_counter);
    let next_state = s.state_prom[prom_address(s.state, s.opcode, s.is_halted)] % 0x10;
    (DvgState { state: next_state as u8, ..t }, command, ticks)
}



proof fn lemma_pow2_small(e: nat)
    requires
        e <= 13,
    ensures
        1 <= pow2(e) <= pow2(13),
        pow2(13) == 8192,
        pow2(12) == 4096,
        pow2(11) == 2048,
        pow2(10) == 1024,
        pow2(0) == 1,
{
    lemma2_to64();
    if e < 13 {
        lemma_pow2_strictly_increases(e, 13);
    }
}

/// 2^e as a `u16`.
fn pow2_u16(e: u8) -> (r: u16)
    requires
        e <= 15,
    ensures
        r == pow2(e as nat),
{
    proof {
        lemma2_to64();
    }
    let mut r: u16 = 1;
    let mut i: u8 = 0;
    while i < e
        invariant
            i <= e <= 15,
            r == pow2(i as nat),
        decreases e - i,
    {
        proof {
            lemma2_to64();
            lemma_pow2_unfold((i + 1) as nat);
            lemma_pow2_strictly_increases((i + 1) as nat, 16);
        }
        r = r * 2;
        i = i + 1;
    }
    r
}

/// Whether the rate multipliers pulse the X and the Y axis at tick `counter`.
fn rate_multiplier_pulses(rate_x: u16, rate_y: u16, counter: usize) -> (r: (bool, bool))
    ensures
        r.0 == pulses(rate_x, counter as nat),
        r.1 == pulses(rate_y, counter as nat),
{
    let mut step_x = false;
    let mut step_y = false;
    // Each step, we strobe the two 7497s
    // 2x 6-bit counter, so 12 bits. They are designed to only have one bit active at a time, so we OR all bits to see if we pulse
    // Bit 0 fires every second tick, bit 1 every fourth tick, etc...
    let mut active_bit: u8 = 0;
    let mut period: usize = 2;
    let mut pulse_rate_mask: u16 = 0x800;
    proof {
        lemma_pow2_small(0);
        lemma_pow2_unfold(1);
    }
    while active_bit < 12
        invariant
            active_bit <= 12,
            period == pow2((active_bit + 1) as nat),
            active_bit < 12 ==> pulse_rate_mask == pow2((11 - active_bit) as nat),
            step_x == pulses_within(rate_x, counter as nat, active_bit as nat),
            step_y == pulses_within(rate_y, counter as nat, active_bit as nat),
        decreases 12 - active_bit,
    {
        proof {
            lemma_pow2_small((active_bit + 1) as nat);
            lemma_pow2_small((11 - active_bit) as nat);
            lemma_pow2_unfold((active_bit + 1) as nat);
            lemma_pow2_unfold((active_bit + 2) as nat);
            if active_bit < 11 {
                lemma_pow2_unfold((11 - active_bit) as nat);
            }
        }
        proof {
            let k = (11 - active_bit) as u16;
            if active_bit < 12 {
                vstd::bits::lemma_u16_shl_is_mul(1, k);
                vstd::bits::lemma_u16_shr_is_div(rate_x, k);
                vstd::bits::lemma_u16_shr_is_div(rate_y, k);
                lemma_u16_pair(rate_x, k);
                lemma_u16_pair(rate_y, k);
            }
        }
        let phase = period / 2 - 1;
        // Match the bit in dvx/y with the bit representing the same frequency in the 7497s
        // Bit 0 of 7497s fires 1/2 of the time. Bit 11 of dvx/y represents 2^11 / 4096 = 2048 / 4096 = 1/2
        if counter % period == phase {
            if (rate_x & pulse_rate_mask) != 0 {
                step_x = true;
            }
            if (rate_y & pulse_rate_mask) != 0 {
                step_y = true;
            }
        }
        period = period * 2;
        pulse_rate_mask = pulse_rate_mask / 2;
        active_bit = active_bit + 1;
    }
    (step_x, step_y)
}

/// Moves a 12 bit beam coordinate one step, wrapping at both ends.
fn step_position(current: u16, negative: bool) -> (r: u16)
    requires
        current < 0xFFFF,
    ensures
        r == (if negative {
            if current == 0 {
                4095
            } else {
                current - 1
            }
        } else {
            (current + 1) % 0x1000
        }),
        current <= 0xFFF ==> r == axis_moved(current, negative, 1),
{
    if negative {
        if current == 0 {
            4095
        } else {
            current - 1
        }
    } else {
        let n = current + 1;
        proof {
            lemma_u16_fields(n);
        }
        n & 0xFFF
    }
}

proof fn lemma_axis_moved_step(p: u16, negative: bool, k: nat)
    requires
        p <= 0xFFF,
    ensures
        axis_moved(p, negative, k) <= 0xFFF,
        axis_moved(axis_moved(p, negative, k), negative, 1) == axis_moved(p, negative, k + 1),
{
    let q = axis_moved(p, negative, k);
    if negative {
        assert((((p - k) % 0x1000) - 1) % 0x1000 == (p - (k + 1)) % 0x1000) by {
            vstd::arithmetic::div_mod::lemma_add_mod_noop(p - k, -1, 0x1000);
            vstd::arithmetic::div_mod::lemma_mod_self_0(0x1000);
            vstd::arithmetic::div_mod::lemma_mod_twice(-1, 0x1000);
        }
    } else {
        assert((((p + k) % 0x1000) + 1) % 0x1000 == (p + (k + 1)) % 0x1000) by {
            vstd::arithmetic::div_mod::lemma_add_mod_noop(p + k, 1, 0x1000);
        }
    }
}


impl DVG {
    /// A halted vector generator in state 0 with an empty stack and zeroed
    /// registers and RAM.
    pub fn new(rom: [u8; 0x800], state_prom: [u8; 0x100]) -> (d: Self)
        ensures
            dvg_wf(d@),
            d@.rom == rom@,
            d@.state_prom == state_prom@,
            d@.ram == Seq::new(0x1000, |i: int| 0u8),
            d@.pc == 0,
            d@.is_halted,
            d@.stack_depth == 0,
            d@.stack == seq![0u16, 0u16, 0u16, 0u16],
            d@.dvx == 0 && d@.dvy == 0 && d@.current_x == 0 && d@.current_y == 0,
            d@.global_scale == 0 && d@.opcode == 0 && d@.intensity == 0 && d@.state == 0,
    {
        let d = DVG {
            pc: 0,
            rom,
            ram: [0; 0x1000],
            state_prom,
            is_halted: true,
            stack: [0; 4],
            stack_depth: 0,
            dvx: 0,
            dvy: 0,
            current_x: 0,
            current_y: 0,
            global_scale: 0,
            opcode: 0,
            intensity: 0,
            state: 0,
        };
        assert(d@.ram =~= Seq::new(0x1000, |i: int| 0u8));
        assert(d@.stack =~= seq![0u16, 0u16, 0u16, 0u16]);
        d
    }

    /// Runs one clock of the vector generator: the microinstruction of the
    /// current state, then the transition that the state PROM gives. A traced
    /// vector is appended to `commands`; returns the ticks spent.
    pub fn step(&mut self, tick_counter: u64, commands: &mut Vec<DrawCommand>) -> (ticks: u16)
        requires
            dvg_wf(old(self)@),
        ensures
            dvg_wf(final(self)@),
            ({
                let (t, command, n) = dvg_step(old(self)@, tick_counter);
                &&& final(self)@ == t
                &&& ticks == n
                &&& final(commands)@ == match command {
                    Some(c) => old(commands)@.push(c),
                    None => old(commands)@,
                }
            }),
    {
        let latched_opcode = self.opcode;
        let latched_is_halted = self.is_halted;
        let opcode_low = latched_opcode & 0x1 != 0;
        let tick_count = self.perform_microinstruction(
            latched_opcode,
            opcode_low,
            tick_counter,
            commands,
        );
        let prom_opcode = if (latched_opcode & 0x8) != 0 {
            // Only use opcode if high bit is set
            latched_opcode & 0x7
        } else {
            0
        };
        let not_halt_int: u8 = if latched_is_halted {
            0
        } else {
            1
        };
        // Address is {~halt, opcode[2:0], current_state[3:0]}
        let mut prom_address = self.state;
        prom_address |= prom_opcode << 4;
        prom_address |= not_halt_int << 7;
        proof {
            let st = old(self)@.state;
            assert(st == self.state);
            lemma_u8_fields(latched_opcode);
            lemma_prom_address(st, prom_opcode, not_halt_int);
        }
        let next = self.state_prom[prom_address as usize];
        self.state = next & 0xF;
        proof {
            lemma_u8_fields(next);
        }
        tick_count
    }

    /// Returns to state 0 with a cleared opcode and DVY.
    pub fn reset(&mut self)
        ensures
            dvg_wf(old(self)@) ==> dvg_wf(final(self)@),
            final(self)@ == (DvgState { state: 0, dvy: 0, opcode: 0, ..old(self)@ }),
    {
        self.state = 0;
        self.dvy = 0;
        self.opcode = 0;
    }

    /// The GODVG strobe: leaves the halt and clears the opcode and DVY.
    pub fn godvg(&mut self)
        ensures
            dvg_wf(old(self)@) ==> dvg_wf(final(self)@),
            final(self)@ == (DvgState { is_halted: false, dvy: 0, opcode: 0, ..old(self)@ }),
    {
        self.is_halted = false;
        self.dvy = 0;
        self.opcode = 0;
    }

    fn perform_microinstruction(
        &mut self,
        latched_opcode: u8,
        opcode_low: bool,
        tick_counter: u64,
        commands: &mut Vec<DrawCommand>,
    ) -> (ticks: u16)
        requires
            dvg_wf(old(self)@),
            latched_opcode == old(self)@.opcode,
            opcode_low == (latched_opcode & 0x1 != 0),
        ensures
            dvg_wf(final(self)@),
            final(self)@.state == old(self)@.state,
            ({
                let (t, command, n) = dvg_microinstruction(old(self)@, tick_counter);
                &&& final(self)@ == t
                &&& ticks == n
                &&& final(commands)@ == match command {
                    Some(c) => old(commands)@.push(c),
                    None => old(commands)@,
                }
            }),
    {
        proof {
            lemma_u8_fields(latched_opcode);
        }
        // state[3]: Enable (~halt)
        // state[2]: If set, data latch. If unset, DVG control
        // DVG Control:
        //   state[1]: If set, bit 0 controls halt DVG/go draw vector. If unset, bit 0 controls load/store
        // Data Latch:
        //   state[1]: If set, write to DVX. If unset, write to DVY
        //   state[0]: If set, write to high byte. If unset, write to low byte
        if self.state < 0x8 {
            // NOP
        } else if self.state == 0x8 {
            // DMA Push: push PC to stack
            if !opcode_low {
                // Prevent pushing to stack on startup
                self.stack[3] = self.stack[2];
                self.stack[2] = self.stack[1];
                self.stack[1] = self.stack[0];
                self.stack[0] = self.pc;
                if self.stack_depth < 4 {
                    self.stack_depth = self.stack_depth + 1;
                }
                assert(self@.stack =~= seq![
                    old(self)@.pc,
                    old(self)@.stack[0],
                    old(self)@.stack[1],
                    old(self)@.stack[2],
                ]);
            }
        } else if self.state == 0x9 {
            // DMA Load: pop PC from stack/dvy
            if opcode_low {
                // Low bit is high, pop PC
                if self.stack_depth > 0 {
                    self.pc = self.stack[0];
                    self.stack[0] = self.stack[1];
                    self.stack[1] = self.stack[2];
                    self.stack[2] = self.stack[3];
                    self.stack[3] = 0;
                    self.stack_depth = self.stack_depth - 1;
                    assert(self@.stack =~= seq![
                        old(self)@.stack[1],
                        old(self)@.stack[2],
                        old(self)@.stack[3],
                        0u16,
                    ]);
                } else {
                    self.pc = EMPTY_STACK_PC;
                }
            } else {
                self.pc = self.dvy;
            }
        } else if self.state == 0xA {
            // Go Strobe: Start drawing vector
            return self.go_strobe(latched_opcode, tick_counter, commands);
        } else if self.state == 0xB {
            // Halt Strobe: Enter halt conditionally
            self.is_halted = opcode_low;
            if !opcode_low {
                // LABS
                // Needs to emit blank move in addition to just setting the position
                let start_x = self.current_x;
                let start_y = self.current_y;
                self.current_x = self.dvx;
                self.current_y = self.dvy;
                // This snaps directly to the location, but it will have physical latency as the coils/caps can't just jump straight there
                commands.push(
                    DrawCommand {
                        start_tick: tick_counter,
                        duration_ticks: 0,
                        start_x,
                        start_y,
                        dest_x: self.current_x,
                        dest_y: self.current_y,
                        moving_negative_x: false,
                        moving_negative_y: false,
                        intensity: 0,
                    },
                );
            }
        } else if self.state == 0xC {
            // Latch0: Latch low byte into DVY
            if latched_opcode == 0xF {
                // SVEC
                // This fetches the low byte, unlike what Latch3 would normally do
                self.perform_latch3();
                let dvy = self.dvy;
                self.dvy = dvy & 0xF00;
                proof {
                    lemma_u16_fields(dvy);
                }
            } else {
                let byte = self.fetch_byte() as u16;
                let dvy = self.dvy;
                self.dvy = (dvy & 0xF00) | byte;
                proof {
                    lemma_u16_pair(dvy, byte);
                }
            }
            self.increment_pc();
        } else if self.state == 0xD {
            // Latch1: Latch high byte into DVY
            let byte = self.fetch_byte();
            let low_nibble = (byte & 0xF) as u16;
            let dvy = self.dvy;
            self.dvy = (dvy & 0xFF) | (low_nibble << 8);
            self.opcode = (byte >> 4) & 0xF;
            proof {
                lemma_u8_fields(byte);
                lemma_u16_pair(dvy, low_nibble);
            }
            if self.opcode == 0xF {
                // SVEC
                let dvx = self.dvx;
                let dvy = self.dvy;
                self.dvx = dvx & 0xF00;
                self.dvy = dvy & 0xF00;
                proof {
                    lemma_u16_fields(dvx);
                    lemma_u16_fields(dvy);
                }
            }
        } else if self.state == 0xE {
            // Latch2: Latch low byte into DVX
            let byte = self.fetch_byte() as u16;
            let dvx = self.dvx;
            self.dvx = (dvx & 0xF00) | byte;
            proof {
                lemma_u16_pair(dvx, byte);
            }
            self.increment_pc();
            if (latched_opcode & 0xA) == 0xA {
                // LABS
                self.global_scale = self.intensity;
            }
        } else {
            // Latch3: Latch high byte into DVX
            self.perform_latch3();
        }
        // Everything except Gostrobe takes 1 tick
        1
    }

    /// Traces the latched vector, stepping the beam on every rate
    /// multiplier pulse, and reports it.
    fn go_strobe(&mut self, latched_opcode: u8, tick_counter: u64, commands: &mut Vec<DrawCommand>) -> (ticks: u16)
        requires
            dvg_wf(old(self)@),
            old(self)@.state == 0xA,
            latched_opcode == old(self)@.opcode,
        ensures
            dvg_wf(final(self)@),
            ({
                let (t, command) = dvg_go_strobe(old(self)@, tick_counter);
                &&& final(self)@ == t
                &&& final(commands)@ == old(commands)@.push(command)
                &&& ticks == vector_ticks(old(self)@) + 1
            }),
    {
        // This places the DVG into drawing mode, and it will hold there until that vector is complete
        // For the next 2^(scale + 1) ~1.5MHz ticks, it will tick the 7497 6-bit rate multipliers, which outputs sporadic pulses based on the configured value (value / 64 * ~1.5MHz).
        // The goal is to step the CRT emitter from its current position to vector destination in a "smooth" line. The 7497 does not uniformly distribute the output,
        // which results in the line being less smooth than it could be.
        let dvx = self.dvx;
        let dvy = self.dvy;
        // --- Scale ---
        let local_scale = if latched_opcode == 0xF {
            // SVEC
            // Extract X/Y high bits as described in Pemberton, just from the latched dvx/dvy values
            let dvx_bit = (dvx >> 11) & 1;
            let dvy_bit = (dvy >> 11) & 1;
            proof {
                lemma_u16_fields(dvx);
                lemma_u16_fields(dvy);
                lemma_u16_fields(dvx_bit);
            }
            (2 + (dvx_bit << 1) + dvy_bit) as u8
        } else {
            latched_opcode
        };
        // In the general case, the scale is the 0x0-0x9 VCTR opcode value, plus the global scale
        let sum = self.global_scale + local_scale;
        let scale = sum & 0xF;
        proof {
            lemma_u8_fields(sum);
        }
        // --- Duration ---
        let tick_count: u16 = if scale > 9 {
            // Hardware bug collapses this to a point vector
            0
        } else {
            pow2_u16(scale + 1)
        };
        proof {
            if scale <= 9 {
                lemma_pow2_small((scale + 1) as nat);
                if scale < 9 {
                    lemma_pow2_strictly_increases((scale + 1) as nat, 10);
                }
            }
        }
        let moving_negative_x = (dvx & 0x400) != 0;
        let moving_negative_y = (dvy & 0x400) != 0;
        let tick_rate_x = (dvx << 2) & 0xFFF;
        let tick_rate_y = (dvy << 2) & 0xFFF;
        proof {
            lemma_u16_rate(dvx);
            lemma_u16_rate(dvy);
        }
        let start_x = self.current_x;
        let start_y = self.current_y;
        let ghost before = self@;
        // 12 bit counter, separate from tick_count
        let mut counter: usize = 0;
        let mut tick: u16 = 0;
        while tick < tick_count
            invariant
                tick <= tick_count <= 1024,
                counter == tick,
                start_x <= 0xFFF && start_y <= 0xFFF,
                self.current_x == axis_moved(
                    start_x,
                    moving_negative_x,
                    pulse_count(tick_rate_x, tick as nat),
                ),
                self.current_y == axis_moved(
                    start_y,
                    moving_negative_y,
                    pulse_count(tick_rate_y, tick as nat),
                ),
                self@ == (DvgState { current_x: self.current_x, current_y: self.current_y, ..before }),
            decreases tick_count - tick,
        {
            proof {
                lemma_axis_moved_step(start_x, moving_negative_x, pulse_count(tick_rate_x, tick as nat));
                lemma_axis_moved_step(start_y, moving_negative_y, pulse_count(tick_rate_y, tick as nat));
            }
            // We know that only one bit at most could have fired for each of X and Y, so we don't have to track each bit's step bool separately
            let (step_x, step_y) = rate_multiplier_pulses(tick_rate_x, tick_rate_y, counter);
            if step_x {
                self.current_x = step_position(self.current_x, moving_negative_x);
            }
            if step_y {
                self.current_y = step_position(self.current_y, moving_negative_y);
            }
            let next = counter + 1;
            proof {
                lemma_usize_fields(next);
            }
            counter = next & 0xFFF;
            tick = tick + 1;
        }
        proof {
            lemma_axis_moved_step(start_x, moving_negative_x, pulse_count(tick_rate_x, tick as nat));
            lemma_axis_moved_step(start_y, moving_negative_y, pulse_count(tick_rate_y, tick as nat));
        }
        // Finished tracking from previous position to endpoint of the latest vector. Ready to return to the DVG state machine
        commands.push(
            DrawCommand {
                start_tick: tick_counter,
                duration_ticks: tick_count,
                start_x,
                start_y,
                dest_x: self.current_x,
                dest_y: self.current_y,
                moving_negative_x,
                moving_negative_y,
                intensity: self.intensity,
            },
        );
        // 1 cycle for this execution
        tick_count + 1
    }

    /// A byte of the vector generator's address space.
    pub fn read_byte(&self, address: usize) -> (b: u8)
        ensures
            b == dvg_read_byte(self@, address as int),
    {
        if address < 0x1000 {
            self.ram[address]
        } else if address < 0x1800 {
            self.rom[address - 0x1000]
        } else {
            0
        }
    }

    /// Writes a byte of the vector RAM; writes elsewhere are ignored.
    pub fn write_byte(&mut self, address: usize, value: u8)
        ensures
            dvg_wf(old(self)@) ==> dvg_wf(final(self)@),
            final(self)@ == (if address < 0x1000 {
                DvgState { ram: old(self)@.ram.update(address as int, value), ..old(self)@ }
            } else {
                old(self)@
            }),
    {
        if address < 0x1000 {
            self.ram[address] = value;
        }
    }

    fn fetch_byte(&self) -> (b: u8)
        requires
            dvg_wf(self@),
        ensures
            b == dvg_fetched_byte(self@),
    {
        let state = self.state;
        let high_byte = (state & 0x1) as usize;
        let pc = self.pc as usize;
        proof {
            lemma_u8_fields(state);
            lemma_usize_fields(pc);
        }
        // PC is a word address
        let address = (pc << 1) + high_byte;
        self.read_byte(address)
    }

    fn increment_pc(&mut self)
        requires
            old(self)@.pc < 0xFFFF,
        ensures
            final(self)@ == (DvgState { pc: next_pc(old(self)@.pc), ..old(self)@ }),
    {
        let n = self.pc + 1;
        proof {
            lemma_u16_fields(n);
        }
        self.pc = n & 0xFFF;
    }

    fn perform_latch3(&mut self)
        requires
            dvg_wf(old(self)@),
        ensures
            dvg_wf(final(self)@),
            final(self)@ == dvg_latch3(old(self)@),
    {
        let byte = self.fetch_byte();
        let low_nibble = (byte & 0xF) as u16;
        let dvx = self.dvx;
        self.dvx = (dvx & 0xFF) | (low_nibble << 8);
        self.intensity = (byte >> 4) & 0xF;
        proof {
            lemma_u8_fields(byte);
            lemma_u16_pair(dvx, low_nibble);
        }
    }
}

/// The stack of return addresses: a push (state 8 with an even opcode, as
/// JSRL latches) followed by a pop (state 9 with an odd opcode, as RTSL
/// latches) gives back the pushed PC and the three upper stack registers;
/// the depth is as it was, unless the stack was full, when the deepest
/// address is lost.
pub proof fn lemma_dvg_push_then_pop(s: DvgState, tick_counter: u64, return_opcode: u8)
    requires
        dvg_wf(s),
        s.state == 0x8,
        s.opcode % 2 == 0,
        return_opcode % 2 == 1,
    ensures
        ({
            let t = dvg_microinstruction(s, tick_counter).0;
            let u = dvg_microinstruction(DvgState { state: 0x9, opcode: return_opcode, ..t }, tick_counter).0;
            &&& u.pc == s.pc
            &&& u.stack == seq![s.stack[0], s.stack[1], s.stack[2], 0u16]
            &&& u.stack_depth == if s.stack_depth < 4 { s.stack_depth } else { 3 }
            &&& u == (DvgState {
                stack: u.stack,
                stack_depth: u.stack_depth,
                state: 0x9,
                opcode: return_opcode,
                ..s
            })
        }),
{
    let t = dvg_microinstruction(s, tick_counter).0;
    let u = dvg_microinstruction(DvgState { state: 0x9, opcode: return_opcode, ..t }, tick_counter).0;
    assert(u.stack =~= seq![s.stack[0], s.stack[1], s.stack[2], 0u16]);
}

/// A short vector (SVEC) is traced for 2^(scale + 1) ticks, where the scale
/// is the global scale plus 2, plus 2 for DVX bit 11 (the word's bit 3) and
/// 1 for DVY bit 11 (the word's bit 11), modulo 16; a scale above 9 traces
/// no ticks. The go strobe takes one tick more than the trace.
pub proof fn lemma_svec_duration(s: DvgState, tick_counter: u64)
    requires
        dvg_wf(s),
        s.state == 0xA,
        s.opcode == 0xF,
    ensures
        ({
            let scale = (s.global_scale + 2 + 2 * ((s.dvx / 0x800) % 2) + (s.dvy / 0x800) % 2) % 16;
            let ticks: nat = if scale > 9 { 0 } else { pow2((scale + 1) as nat) };
            let (t, command, n) = dvg_microinstruction(s, tick_counter);
            &&& command matches Some(c) && c.duration_ticks == ticks
            &&& n == ticks + 1
        }),
{
    let scale = (s.global_scale + local_scale(s)) % 0x10;
    if scale <= 9 {
        lemma_pow2_small((scale + 1) as nat);
        if scale < 9 {
            lemma_pow2_strictly_increases((scale + 1) as nat, 10);
        }
    }
}

/// The scale bits of a short vector word reach the go strobe: Latch1 and
/// Latch0 of an SVEC word put its bit 3 (bit 3 of the low byte) in DVX bit
/// 11 and its bit 11 (bit 3 of the high byte) in DVY bit 11, so the vector
/// is traced for 2^(global scale + 2 + 2 * bit 3 + bit 11 + 1) ticks.
pub proof fn lemma_svec_word_scale(s: DvgState, tick_counter: u64)
    requires
        dvg_wf(s),
        s.state == 0xD,
        dvg_fetched_byte(s) / 0x10 == 0xF,
    ensures
        ({
            let high = dvg_read_byte(s, 2 * s.pc + 1);
            let low = dvg_read_byte(s, 2 * s.pc);
            let t1 = dvg_microinstruction(s, tick_counter).0;
            let t2 = dvg_microinstruction(DvgState { state: 0xC, ..t1 }, tick_counter).0;
            let u = DvgState { state: 0xA, ..t2 };
            let scale = (s.global_scale + 2 + 2 * ((low / 8) % 2) + (high / 8) % 2) % 16;
            let ticks: nat = if scale > 9 { 0 } else { pow2((scale + 1) as nat) };
            &&& (u.dvx / 0x800) % 2 == (low / 8) % 2
            &&& (u.dvy / 0x800) % 2 == (high / 8) % 2
            &&& dvg_microinstruction(u, tick_counter).1 matches Some(c) && c.duration_ticks == ticks
        }),
{
    let t1 = dvg_microinstruction(s, tick_counter).0;
    let t2 = dvg_microinstruction(DvgState { state: 0xC, ..t1 }, tick_counter).0;
    let u = DvgState { state: 0xA, ..t2 };
    assert(dvg_wf(u));
    lemma_svec_duration(u, tick_counter);
}

/// Stepping a beam coordinate one way and then back returns it to where it
/// was, at the edges of the 12 bit range too.
pub proof fn lemma_step_position_inverse(c: u16)
    requires
        c <= 0xFFF,
    ensures
        axis_moved(axis_moved(c, false, 1), true, 1) == c,
        axis_moved(axis_moved(c, true, 1), false, 1) == c,
{
}

} // verus!
