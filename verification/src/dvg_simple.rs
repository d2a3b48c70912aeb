use crate::bits::{lemma_u16_fields, lemma_u16_pair, lemma_u8_fields, lemma_usize_fields};
use vstd::arithmetic::power2::{lemma2_to64, pow2};
use vstd::prelude::*;

verus! {

/// Beam positions are kept within [0, MAX_SCREEN_SIZE).
pub const MAX_SCREEN_SIZE: u16 = 1024;

/// The registers and memories of the instruction level vector generator.
#[verifier::ext_equal]
pub struct DvgSimpleState {
    pub pc: u16,
    pub rom: Seq<u8>,
    pub ram: Seq<u8>,
    pub is_halted: bool,
    pub stack: Seq<u16>,
    pub current_x: u16,
    pub current_y: u16,
    pub global_scale: u8,
}

/// A vector generator that executes one vector instruction per step:
/// VCTR, LABS, HALT, JSRL, RTSL, JMPL and SVEC.
pub struct DVG_Simple {
    // 12 bit PC
    pub(crate) pc: u16,
    pub rom: [u8; 0x800],
    pub ram: [u8; 0x1000],
    pub is_halted: bool,
    // Stack is a set of 4 registers
    pub(crate) stack: [u16; 4],
    pub(crate) current_x: u16,
    pub(crate) current_y: u16,
    pub(crate) global_scale: u8,
}

/// A move of the beam.
#[derive(Debug)]
pub struct VectorMove {
    // Positions are global, [0, 1024)
    pub source_x: u16,
    pub source_y: u16,
    pub dest_x: u16,
    pub dest_y: u16,
    // 4 bit intensity level. `None` implies no drawing
    pub intensity: Option<u8>,
}

enum StepResult {
    Move(VectorMove),
    Halt,
    Continue,
}

impl View for DVG_Simple {
    type V = DvgSimpleState;

    closed spec fn view(&self) -> DvgSimpleState {
        DvgSimpleState {
            pc: self.pc,
            rom: self.rom@,
            ram: self.ram@,
            is_halted: self.is_halted,
            stack: self.stack@,
            current_x: self.current_x,
            current_y: self.current_y,
            global_scale: self.global_scale,
        }
    }
}

/// Inside the crate, the view is made of the fields.
pub(crate) broadcast proof fn lemma_dvg_simple_view(d: &DVG_Simple)
    ensures
        #[trigger] d@ == (DvgSimpleState {
            pc: d.pc,
            rom: d.rom@,
            ram: d.ram@,
            is_halted: d.is_halted,
            stack: d.stack@,
            current_x: d.current_x,
            current_y: d.current_y,
            global_scale: d.global_scale,
        }),
{
}

/// A halted vector generator with an empty stack, zeroed RAM, at the
/// origin with global scale 0.
pub open spec fn dvg_simple_initial(rom: Seq<u8>) -> DvgSimpleState {
    DvgSimpleState {
        pc: 0,
        rom,
        ram: Seq::new(0x1000, |i: int| 0u8),
        is_halted: true,
        stack: seq![0xFFFFu16, 0xFFFFu16, 0xFFFFu16, 0xFFFFu16],
        current_x: 0,
        current_y: 0,
        global_scale: 0,
    }
}

/// A little endian word.
pub open spec fn le_word(low: u8, high: u8) -> u16 {
    (low + 256 * high) as u16
}

/// The word at a byte address: RAM below 0x1000, the vector ROM from 0x1000
/// to 0x1800, and 0 elsewhere.
pub open spec fn simple_read_word(s: DvgSimpleState, address: int) -> u16 {
    if 0 <= address < 0x1000 {
        le_word(s.ram[address], s.ram[address + 1])
    } else if 0x1000 <= address < 0x1800 {
        le_word(s.rom[address - 0x1000], s.rom[address - 0x1000 + 1])
    } else {
        0
    }
}

/// A word read at the last byte of RAM or of the ROM runs past its end.
pub open spec fn read_word_out_of_bounds(address: int) -> bool {
    address == 0xFFF || address == 0x17FF
}

/// The instruction word at the PC (a word address), and the state with the
/// PC advanced, wrapping at 16 bits.
pub open spec fn simple_fetch(s: DvgSimpleState) -> (u16, DvgSimpleState) {
    (simple_read_word(s, 2 * s.pc), DvgSimpleState { pc: ((s.pc + 1) % 0x10000) as u16, ..s })
}

/// A sign and magnitude coordinate.
pub open spec fn signed_value(base: u16, sign: bool) -> int {
    if sign {
        -(base as int)
    } else {
        base as int
    }
}

/// The beam displacement of a coordinate at a local scale: the magnitude is
/// shifted right by 9 - (global scale + local scale) mod 16, and scales of
/// 10 and more give no displacement.
pub open spec fn scaled_delta(global_scale: u8, value: int, local_scale: u8) -> int {
    let scale = ((global_scale + local_scale) % 16) as nat;
    if scale >= 10 {
        0
    } else {
        let magnitude = (if value < 0 {
            -value
        } else {
            value
        }) / (pow2((9 - scale) as nat) as int);
        if value > 0 {
            magnitude
        } else {
            -magnitude
        }
    }
}

/// `unsigned`, read as a signed 16 bit number, plus `signed`, kept within
/// [0, bound).
pub open spec fn bounded_sum(unsigned: u16, signed: int, bound: u16) -> u16 {
    let sum = (unsigned as i16) + signed;
    if sum < 0 {
        0
    } else if sum >= bound {
        (bound - 1) as u16
    } else {
        sum as u16
    }
}

/// Moves the beam by the scaled coordinates, reporting the move.
pub open spec fn simple_delta_move(s: DvgSimpleState, x: int, y: int, modifier: u8, local_scale: u8) -> (DvgSimpleState, VectorMove) {
    let dest_x = bounded_sum(s.current_x, scaled_delta(s.global_scale, x, local_scale), MAX_SCREEN_SIZE);
    let dest_y = bounded_sum(s.current_y, scaled_delta(s.global_scale, y, local_scale), MAX_SCREEN_SIZE);
    (
        DvgSimpleState { current_x: dest_x, current_y: dest_y, ..s },
        VectorMove {
            source_x: s.current_x,
            source_y: s.current_y,
            dest_x,
            dest_y,
            intensity: Some(modifier),
        },
    )
}

/// The operands of a two word instruction: Y and its sign in the first
/// word, X, its sign and a 4 bit modifier in the second word.
pub open spec fn simple_read_xy(s: DvgSimpleState, word: u16) -> (DvgSimpleState, int, int, u8) {
    let (second, t) = simple_fetch(s);
    (
        t,
        signed_value(second & 0x3FF, (second & 0x400) != 0),
        signed_value(word & 0x3FF, (word & 0x400) != 0),
        ((second >> 12) & 0xF) as u8,
    )
}

/// A 16 bit two's complement value as its unsigned bit pattern.
pub open spec fn to_u16_bits(x: int) -> u16 {
    if x < 0 {
        (x + 0x10000) as u16
    } else {
        x as u16
    }
}

/// An unsigned 16 bit pattern read as two's complement.
pub open spec fn to_i16_value(x: u16) -> int {
    if x < 0x8000 {
        x as int
    } else {
        x - 0x10000
    }
}

proof fn lemma_u16_as_i16(u: u16, b: i16)
    by (bit_vector)
    requires
        b == u as i16,
    ensures
        b as int == to_i16_value(u),
{
}

proof fn lemma_i16_as_u16(x: i16)
    by (bit_vector)
    ensures
        (x as u16) as int == to_u16_bits(x as int),
{
}

/// One instruction: the new state, and the move it draws, if any.
pub open spec fn simple_execute(s: DvgSimpleState) -> (DvgSimpleState, Option<VectorMove>) {
    let (word, t) = simple_fetch(s);
    let opcode = (word >> 12) & 0xF;
    if opcode < 0xA {
        // VCTR: long vector, the opcode is the local scale
        let (u, x, y, modifier) = simple_read_xy(t, word);
        let (v, m) = simple_delta_move(u, x, y, modifier, opcode as u8);
        (v, Some(m))
    } else if opcode == 0xA {
        // LABS: load absolute position and global scale
        let (u, x, y, modifier) = simple_read_xy(t, word);
        (DvgSimpleState { global_scale: modifier, current_x: to_u16_bits(x), current_y: to_u16_bits(y), ..u }, None)
    } else if opcode == 0xB {
        // HALT
        (DvgSimpleState { is_halted: true, ..t }, None)
    } else if opcode == 0xC {
        // JSRL
        (
            DvgSimpleState {
                stack: seq![t.pc, t.stack[0], t.stack[1], t.stack[2]],
                pc: word & 0xFFF,
                ..t
            },
            None,
        )
    } else if opcode == 0xD {
        // RTSL
        (
            DvgSimpleState {
                pc: t.stack[0],
                stack: seq![t.stack[1], t.stack[2], t.stack[3], 0xFFFFu16],
                ..t
            },
            None,
        )
    } else if opcode == 0xE {
        // JMPL
        (DvgSimpleState { pc: word & 0xFFF, ..t }, None)
    } else {
        // SVEC: short vector, 2 bit coordinates at 8 bits up, local scale
        // 2 + the two scale bits
        let scale = (((word >> 3) & 0x1) << 1) | ((word >> 11) & 0x1);
        simple_delta_move_some(
            t,
            signed_value(((word & 0x3) << 8) as u16, (word & 0x4) != 0),
            signed_value((((word >> 8) & 0x3) << 8) as u16, (word & 0x400) != 0),
            ((word >> 4) & 0xF) as u8,
            (scale + 2) as u8,
        )
    }
}

pub open spec fn simple_delta_move_some(s: DvgSimpleState, x: int, y: int, modifier: u8, local_scale: u8) -> (DvgSimpleState, Option<VectorMove>) {
    let (v, m) = simple_delta_move(s, x, y, modifier, local_scale);
    (v, Some(m))
}

/// One step: a halted vector generator stays as it is, otherwise it
/// executes the instruction at the PC.
pub open spec fn simple_step(s: DvgSimpleState) -> (DvgSimpleState, Option<VectorMove>) {
    if s.is_halted {
        (s, None)
    } else {
        simple_execute(s)
    }
}


struct XYRead {
    x: i16,
    y: i16,
    modifier: u8,
}

impl XYRead {
    fn new(x: u16, x_sign: bool, y: u16, y_sign: bool, modifier: u16) -> (r: Self)
        requires
            !(x_sign && x == 0x8000),
            !(y_sign && y == 0x8000),
        ensures
            r.x == (if x_sign { -to_i16_value(x) } else { to_i16_value(x) }),
            r.y == (if y_sign { -to_i16_value(y) } else { to_i16_value(y) }),
            r.modifier == modifier as u8,
    {
        let x = get_signed_int(x, x_sign);
        let y = get_signed_int(y, y_sign);
        Self { x, y, modifier: (modifier as u8) }
    }
}

fn get_signed_int(base: u16, sign: bool) -> (r: i16)
    requires
        !(sign && base == 0x8000),
    ensures
        r == (if sign { -to_i16_value(base) } else { to_i16_value(base) }),
{
    let b = base as i16;
    proof {
        lemma_u16_as_i16(base, b);
    }
    let sign: i16 = if sign {
        -1
    } else {
        1
    };
    b * sign
}

/// Bounds an addition to be within [0, bound)
fn bounded_u16_i16_add(unsigned: u16, signed: i16, bound: u16) -> (r: u16)
    requires
        bound > 0,
    ensures
        r == bounded_sum(unsigned, signed as int, bound),
        r < bound,
{
    let sum: i32 = (unsigned as i16) as i32 + signed as i32;
    if sum < 0 {
        0
    } else if sum >= bound as i32 {
        bound - 1
    } else {
        sum as u16
    }
}

impl DVG_Simple {
    /// A halted vector generator with an empty stack, zeroed RAM, at the
    /// origin with global scale 0.
    pub fn new(rom: [u8; 0x800]) -> (d: Self)
        ensures
            d@ == dvg_simple_initial(rom@),
    {
        let d = Self {
            pc: 0,
            rom,
            ram: [0; 0x1000],
            is_halted: true,
            stack: [0xFFFF; 4],
            current_x: 0,
            current_y: 0,
            global_scale: 0,
        };
        assert(d@.ram =~= Seq::new(0x1000, |i: int| 0u8));
        assert(d@.stack =~= seq![0xFFFFu16, 0xFFFFu16, 0xFFFFu16, 0xFFFFu16]);
        d
    }

    /// Starts execution at address 0.
    pub fn resume(&mut self)
        ensures
            final(self)@ == (DvgSimpleState { is_halted: false, pc: 0, ..old(self)@ }),
    {
        self.is_halted = false;
        self.pc = 0;
    }

    /// Halts at address 0 with an empty stack, at the origin with global
    /// scale 0; the memories are kept.
    pub fn reset(&mut self)
        ensures
            final(self)@ == (DvgSimpleState {
                pc: 0,
                is_halted: true,
                stack: seq![0xFFFFu16, 0xFFFFu16, 0xFFFFu16, 0xFFFFu16],
                current_x: 0,
                current_y: 0,
                global_scale: 0,
                ..old(self)@
            }),
    {
        self.pc = 0;
        self.is_halted = true;
        self.stack = [0xFFFF; 4];
        self.current_x = 0;
        self.current_y = 0;
        self.global_scale = 0;
        assert(self@.stack =~= seq![0xFFFFu16, 0xFFFFu16, 0xFFFFu16, 0xFFFFu16]);
    }

    /// Executes one instruction unless halted; returns the move it draws.
    pub fn step(&mut self) -> (m: Option<VectorMove>)
        ensures
            (final(self)@, m) == simple_step(old(self)@),
    {
        if self.is_halted {
            return None;
        }
        if let StepResult::Move(vector_move) = self.execute_instruction() {
            Some(vector_move)
        } else {
            None
        }
    }

    /// Execute a single instruction. Reports HALT as `Halt`, the vector
    /// instructions as the `Move` they draw, and the instructions that draw
    /// nothing (LABS, JSRL, RTSL, JMPL) as `Continue`.
    fn execute_instruction(&mut self) -> (r: StepResult)
        ensures
            (final(self)@, match r {
                StepResult::Move(m) => Some(m),
                _ => None,
            }) == simple_execute(old(self)@),
            ({
                let opcode = (simple_fetch(old(self)@).0 >> 12) & 0xF;
                &&& (r is Halt) <==> opcode == 0xB
                &&& (r is Move) <==> (opcode < 0xA || opcode == 0xF)
                &&& (r is Continue) <==> (opcode == 0xA || opcode == 0xC || opcode == 0xD || opcode == 0xE)
            }),
    {
        let instruction_word = self.read_next_word();
        let opcode = (instruction_word >> 12) & 0xF;
        proof {
            lemma_u16_fields(instruction_word);
        }
        if opcode < 0xA {
            // VCTR: Draw long vector
            let read = self.read_xy(Some(opcode), instruction_word);
            return StepResult::Move(self.apply_delta_move(read, opcode as u8));
        } else if opcode == 0xA {
            // LABS: Load absolute, resetting the current emitter position
            let read = self.read_xy(None, instruction_word);
            self.global_scale = read.modifier;
            let x = read.x;
            let y = read.y;
            self.current_x = x as u16;
            self.current_y = y as u16;
            proof {
                lemma_i16_as_u16(x);
                lemma_i16_as_u16(y);
            }
        } else if opcode == 0xB {
            // HALT
            self.is_halted = true;
            return StepResult::Halt;
        } else if opcode == 0xC {
            // JSRL: Jump to subroutine
            self.stack[3] = self.stack[2];
            self.stack[2] = self.stack[1];
            self.stack[1] = self.stack[0];
            self.stack[0] = self.pc;
            self.pc = instruction_word & 0xFFF;
            assert(self@.stack =~= seq![old(self)@.pc, old(self)@.stack[0], old(self)@.stack[1], old(self)@.stack[2]].update(0, simple_fetch(old(self)@).1.pc));
        } else if opcode == 0xD {
            // RTSL: Return from subroutine
            self.pc = self.stack[0];
            self.stack[0] = self.stack[1];
            self.stack[1] = self.stack[2];
            self.stack[2] = self.stack[3];
            self.stack[3] = 0xFFFF;
            assert(self@.stack =~= seq![old(self)@.stack[1], old(self)@.stack[2], old(self)@.stack[3], 0xFFFFu16]);
        } else if opcode == 0xE {
            // JMPL: Jump
            self.pc = instruction_word & 0xFFF;
        } else {
            // SVEC: Draw short vector
            let x = instruction_word & 0x3;
            let x_sign = (instruction_word & 0x4) != 0;
            let scale_factor_high = (instruction_word >> 3) & 0x1;
            let intensity = (instruction_word >> 4) & 0xF;
            let y = (instruction_word >> 8) & 0x3;
            let y_sign = (instruction_word & 0x400) != 0;
            let scale_factor_low = (instruction_word >> 11) & 0x1;
            let scale = (scale_factor_high << 1) | scale_factor_low;
            proof {
                lemma_u16_fields(instruction_word);
                lemma_u16_fields(x);
                lemma_u16_fields(y);
                lemma_u16_pair(scale_factor_high, scale_factor_low);
            }
            let x = x << 8;
            let y = y << 8;
            let read = XYRead::new(x, x_sign, y, y_sign, intensity);
            return StepResult::Move(self.apply_delta_move(read, (scale + 2) as u8));
        }
        assert(self@ =~= simple_execute(old(self)@).0);
        StepResult::Continue
    }

    fn read_xy(&mut self, opcode_shift: Option<u16>, instruction_word: u16) -> (read: XYRead)
        ensures
            (final(self)@, read.x as int, read.y as int, read.modifier) == simple_read_xy(old(self)@, instruction_word),
            -0x3FF <= read.x <= 0x3FF,
            -0x3FF <= read.y <= 0x3FF,
    {
        let second_word = self.read_next_word();
        let y = instruction_word & 0x3FF;
        let y_sign = (instruction_word & 0x400) != 0;
        let x = second_word & 0x3FF;
        let x_sign = (second_word & 0x400) != 0;
        // Intensity/scale factor
        let modifier = (second_word >> 12) & 0xF;
        proof {
            lemma_u16_fields(instruction_word);
            lemma_u16_fields(second_word);
        }
        XYRead::new(x, x_sign, y, y_sign, modifier)
    }

    /// Reads the word at the PC and advances the PC.
    pub fn read_next_word(&mut self) -> (w: u16)
        ensures
            (w, final(self)@) == simple_fetch(old(self)@),
    {
        // The PC is a word address
        let pc = self.pc as usize;
        self.pc = self.pc.wrapping_add(1);
        proof {
            lemma_usize_fields(pc);
        }
        self.read_word(pc << 1)
    }

    /// `address` is a byte address
    pub fn read_word(&self, address: usize) -> (w: u16)
        requires
            !read_word_out_of_bounds(address as int),
        ensures
            w == simple_read_word(self@, address as int),
    {
        let bytes: [u8; 2] = if address < 0x1000 {
            [self.ram[address], self.ram[address + 1]]
        } else if address < 0x1800 {
            let address = address - 0x1000;
            [self.rom[address], self.rom[address + 1]]
        } else {
            [0, 0]
        };
        bytes[0] as u16 + 256 * (bytes[1] as u16)
    }

    /// `address` is a byte address; writes outside of RAM are ignored.
    pub fn write_byte(&mut self, address: usize, value: u8)
        ensures
            final(self)@ == (if address < 0x1000 {
                DvgSimpleState { ram: old(self)@.ram.update(address as int, value), ..old(self)@ }
            } else {
                old(self)@
            }),
    {
        if address < 0x1000 {
            self.ram[address] = value;
        }
    }

    /// Computes the global scale bitshift as bits shifted left or right
    fn apply_scale(&self, value: i16, local_scale: u8) -> (r: i16)
        requires
            !(value == i16::MIN && (self.global_scale + local_scale) % 16 == 9),
        ensures
            r == scaled_delta(self.global_scale, value as int, local_scale),
    {
        let sum = self.global_scale.wrapping_add(local_scale);
        let scale = sum & 0xF;
        proof {
            lemma_u8_fields(sum);
            vstd::arithmetic::div_mod::lemma_mod_mod(self.global_scale + local_scale, 16, 16);
            assert((self.global_scale + local_scale) % 256 % 16 == (self.global_scale + local_scale) % 16);
        }
        if scale >= 10 {
            return 0;
        }
        let abs: u16 = if value < 0 {
            (0 - (value as i32)) as u16
        } else {
            value as u16
        };
        let shift = (9 - scale) as u16;
        let shifted = abs >> shift;
        proof {
            vstd::bits::lemma_u16_shr_is_div(abs, shift);
            lemma2_to64();
            if shift > 0 {
                vstd::arithmetic::power2::lemma_pow2_strictly_increases(0, shift as nat);
                vstd::arithmetic::div_mod::lemma_div_is_ordered_by_denominator(abs as int, 2, pow2(shift as nat) as int);
            }
        }
        let magnitude = shifted as i16;
        if value > 0 {
            magnitude
        } else {
            -magnitude
        }
    }

    fn apply_delta_move(&mut self, read: XYRead, local_scale: u8) -> (m: VectorMove)
        requires
            -0x3FF <= read.x <= 0x3FF,
            -0x3FF <= read.y <= 0x3FF,
        ensures
            (final(self)@, m) == simple_delta_move(old(self)@, read.x as int, read.y as int, read.modifier, local_scale),
    {
        let source_x = self.current_x;
        let source_y = self.current_y;
        let delta_x = self.apply_scale(read.x, local_scale);
        let delta_y = self.apply_scale(read.y, local_scale);
        let x = bounded_u16_i16_add(source_x, delta_x, MAX_SCREEN_SIZE);
        let y = bounded_u16_i16_add(source_y, delta_y, MAX_SCREEN_SIZE);
        self.current_x = x;
        self.current_y = y;
        VectorMove {
            source_x,
            source_y,
            dest_x: x,
            dest_y: y,
            intensity: Some(read.modifier),
        }
    }
}


proof fn lemma_scaled_delta_sign(global_scale: u8, value: int, local_scale: u8)
    ensures
        value >= 0 ==> scaled_delta(global_scale, value, local_scale) >= 0,
        value <= 0 ==> scaled_delta(global_scale, value, local_scale) <= 0,
{
    let scale = ((global_scale + local_scale) % 16) as nat;
    if scale < 10 {
        let d = pow2((9 - scale) as nat) as int;
        vstd::arithmetic::power2::lemma_pow2_pos((9 - scale) as nat);
        let a = if value < 0 { -value } else { value };
        vstd::arithmetic::div_mod::lemma_div_pos_is_pos(a, d);
    }
}

proof fn lemma_bounded_sum_direction(unsigned: u16, signed: int)
    requires
        unsigned < MAX_SCREEN_SIZE,
    ensures
        signed >= 0 ==> bounded_sum(unsigned, signed, MAX_SCREEN_SIZE) >= unsigned,
        signed <= 0 ==> bounded_sum(unsigned, signed, MAX_SCREEN_SIZE) <= unsigned,
{
    lemma_u16_as_i16(unsigned, unsigned as i16);
}

/// A short vector (SVEC) moves the beam left exactly when bit 2 of its word
/// is set, and down exactly when bit 10 is set; otherwise right and up (or
/// not at all, at the edge of the screen or when its scale shrinks it to
/// nothing). It draws at the intensity in bits 4 to 7.
pub proof fn lemma_svec_direction(s: DvgSimpleState)
    requires
        !s.is_halted,
        (simple_fetch(s).0 >> 12) & 0xF == 0xF,
        s.current_x < MAX_SCREEN_SIZE,
        s.current_y < MAX_SCREEN_SIZE,
    ensures
        simple_step(s).1 matches Some(m) && {
            let w = simple_fetch(s).0;
            &&& m.source_x == s.current_x && m.source_y == s.current_y
            &&& (w & 0x4 != 0 ==> m.dest_x <= m.source_x)
            &&& (w & 0x4 == 0 ==> m.dest_x >= m.source_x)
            &&& (w & 0x400 != 0 ==> m.dest_y <= m.source_y)
            &&& (w & 0x400 == 0 ==> m.dest_y >= m.source_y)
            &&& m.intensity == Some(((w >> 4) & 0xF) as u8)
        },
{
    let (word, t) = simple_fetch(s);
    let scale = (((word >> 3) & 0x1) << 1) | ((word >> 11) & 0x1);
    let x = signed_value(((word & 0x3) << 8) as u16, (word & 0x4) != 0);
    let y = signed_value((((word >> 8) & 0x3) << 8) as u16, (word & 0x400) != 0);
    lemma_scaled_delta_sign(t.global_scale, x, (scale + 2) as u8);
    lemma_scaled_delta_sign(t.global_scale, y, (scale + 2) as u8);
    lemma_bounded_sum_direction(t.current_x, scaled_delta(t.global_scale, x, (scale + 2) as u8));
    lemma_bounded_sum_direction(t.current_y, scaled_delta(t.global_scale, y, (scale + 2) as u8));
}

/// A long vector (VCTR) moves the beam left exactly when bit 10 of its
/// second word is set, and down exactly when bit 10 of its first word is
/// set; otherwise right and up (or not at all, at the edge of the screen or
/// when its scale shrinks it to nothing). It draws at the intensity in the
/// top 4 bits of the second word.
pub proof fn lemma_vctr_direction(s: DvgSimpleState)
    requires
        !s.is_halted,
        (simple_fetch(s).0 >> 12) & 0xF < 0xA,
        s.current_x < MAX_SCREEN_SIZE,
        s.current_y < MAX_SCREEN_SIZE,
    ensures
        simple_step(s).1 matches Some(m) && {
            let (first, t) = simple_fetch(s);
            let second = simple_fetch(t).0;
            &&& m.source_x == s.current_x && m.source_y == s.current_y
            &&& (second & 0x400 != 0 ==> m.dest_x <= m.source_x)
            &&& (second & 0x400 == 0 ==> m.dest_x >= m.source_x)
            &&& (first & 0x400 != 0 ==> m.dest_y <= m.source_y)
            &&& (first & 0x400 == 0 ==> m.dest_y >= m.source_y)
            &&& m.intensity == Some(((second >> 12) & 0xF) as u8)
        },
{
    let (word, t) = simple_fetch(s);
    let (u, x, y, modifier) = simple_read_xy(t, word);
    let local = ((word >> 12) & 0xF) as u8;
    lemma_scaled_delta_sign(u.global_scale, x, local);
    lemma_scaled_delta_sign(u.global_scale, y, local);
    lemma_bounded_sum_direction(u.current_x, scaled_delta(u.global_scale, x, local));
    lemma_bounded_sum_direction(u.current_y, scaled_delta(u.global_scale, y, local));
}

/// A halted vector generator stays as it is and draws nothing.
pub proof fn lemma_halted_is_still(s: DvgSimpleState)
    requires
        s.is_halted,
    ensures
        simple_step(s) == (s, None::<VectorMove>),
{
}

/// Every move starts where the beam is, ends where the beam then is, ends
/// on the screen, within [0, 1024) on both axes, and draws at a 4 bit
/// intensity.
pub proof fn lemma_moves_on_screen(s: DvgSimpleState)
    ensures
        simple_step(s).1 matches Some(m) ==> {
            &&& m.source_x == s.current_x
            &&& m.source_y == s.current_y
            &&& m.dest_x == simple_step(s).0.current_x
            &&& m.dest_y == simple_step(s).0.current_y
            &&& m.dest_x < MAX_SCREEN_SIZE
            &&& m.dest_y < MAX_SCREEN_SIZE
            &&& m.intensity matches Some(i) && i <= 0xF
        },
{
    let (word, t) = simple_fetch(s);
    let (second, u) = simple_fetch(t);
    lemma_nibble(word >> 4);
    lemma_nibble(second >> 12);
}

proof fn lemma_nibble(x: u16)
    by (bit_vector)
    ensures
        x & 0xF <= 0xF,
{
}

/// A subroutine call (JSRL) whose subroutine starts with a return (RTSL)
/// comes back to the instruction after the call with the stack as it was,
/// when the stack had a free slot.
pub proof fn lemma_call_then_return(s: DvgSimpleState)
    requires
        s.stack.len() == 4,
        s.stack[3] == 0xFFFF,
        !s.is_halted,
        (simple_fetch(s).0 >> 12) & 0xF == 0xC,
        (simple_fetch(simple_step(s).0).0 >> 12) & 0xF == 0xD,
    ensures
        simple_step(simple_step(s).0).0 == (DvgSimpleState { pc: ((s.pc + 1) % 0x10000) as u16, ..s }),
        simple_step(s).1 is None,
        simple_step(simple_step(s).0).1 is None,
{
    let t = simple_step(s).0;
    assert(t.stack =~= seq![((s.pc + 1) % 0x10000) as u16, s.stack[0], s.stack[1], s.stack[2]]);
    assert(!t.is_halted);
    let u = simple_step(t).0;
    assert(u.stack =~= s.stack);
}

/// A word read of vector RAM gives back, as its low byte, the byte written
/// at that address, and as its high byte the byte at the next address.
pub proof fn lemma_vector_ram_read_after_write(s: DvgSimpleState, address: int, value: u8)
    requires
        s.ram.len() == 0x1000,
        0 <= address < 0xFFF,
    ensures
        ({
            let w = simple_read_word(DvgSimpleState { ram: s.ram.update(address, value), ..s }, address);
            &&& w % 0x100 == value
            &&& w / 0x100 == s.ram[address + 1]
        }),
{
    let t = DvgSimpleState { ram: s.ram.update(address, value), ..s };
    assert(t.ram[address] == value);
    assert(t.ram[address + 1] == s.ram[address + 1]);
}

} // verus!
