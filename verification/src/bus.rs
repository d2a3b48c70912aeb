use crate::dvg_simple::{
    dvg_simple_initial, lemma_dvg_simple_view, read_word_out_of_bounds, simple_read_word, simple_step, DVG_Simple,
    DvgSimpleState, VectorMove,
};
use crate::rom::ROM;
use crate::bits::{lemma_u16_fields, lemma_u64_bit8};
use vstd::prelude::*;

verus! {

/// Period of the 3 kHz clock, in CPU cycles.
pub const CLOCK_PERIOD: u64 = 0x200;
/// The clock input reads high during the second half of each period.
pub const CLOCK_INTERVAL: u64 = 0x100;
/// Watchdog counter D5 counts to 128 clock periods before triggering reset.
pub const WATCHDOG_PERIOD: usize = 0x10000;

/// The state of the memory bus.
#[verifier::ext_equal]
pub struct BusState {
    pub cycle_count: u64,
    pub watchdog_cycle_count: usize,
    pub nmi: bool,
    pub ram: Seq<u8>,
    pub rom: Seq<u8>,
    pub dvg: DvgSimpleState,
}

/// The 6502's memory bus: work RAM, the program ROM, the vector generator's
/// memory and control strobes, the 3 kHz clock and the watchdog.
pub struct Bus {
    /// 3kHz clock
    cycle_count: u64,
    watchdog_cycle_count: usize,
    nmi: bool,
    ram: [u8; 0x400],
    rom: [u8; 0x1800],
    dvg: DVG_Simple,
}

impl View for Bus {
    type V = BusState;

    closed spec fn view(&self) -> BusState {
        BusState {
            cycle_count: self.cycle_count,
            watchdog_cycle_count: self.watchdog_cycle_count,
            nmi: self.nmi,
            ram: self.ram@,
            rom: self.rom@,
            dvg: self.dvg@,
        }
    }
}

/// The moves of a step, as a sequence.
pub open spec fn move_seq(m: Option<VectorMove>) -> Seq<VectorMove> {
    match m {
        Some(v) => seq![v],
        None => Seq::empty(),
    }
}

/// `n` steps of the vector generator, with the moves they draw.
pub open spec fn dvg_run(s: DvgSimpleState, n: nat) -> (DvgSimpleState, Seq<VectorMove>)
    decreases n,
{
    if n == 0 {
        (s, Seq::empty())
    } else {
        let (t, moves) = dvg_run(s, (n - 1) as nat);
        let (u, m) = simple_step(t);
        (u, moves + move_seq(m))
    }
}

/// The address as the bus decodes it: the top bit is ignored.
pub open spec fn bus_address(address: u16) -> int {
    (address % 0x8000) as int
}

/// A word read of the vector memory window that runs past the end of the
/// vector RAM or ROM.
pub open spec fn bus_read_out_of_bounds(address: u16) -> bool {
    let a = bus_address(address);
    0x4000 <= a < 0x6000 && read_word_out_of_bounds(a - 0x4000)
}

/// The byte that the CPU reads at `address`.
pub open spec fn bus_read(s: BusState, address: u16) -> u8 {
    let a = bus_address(address);
    if a < 0x400 {
        s.ram[a]
    } else if a == 0x2001 {
        // Clock
        if (s.cycle_count / CLOCK_INTERVAL) % 2 == 1 {
            0x80
        } else {
            0x7F
        }
    } else if a == 0x2002 {
        // DVG halt
        if s.dvg.is_halted {
            0x7F
        } else {
            0x80
        }
    } else if 0x4000 <= a < 0x6000 {
        // Vector memory, through its word port
        (simple_read_word(s.dvg, a - 0x4000) % 0x100) as u8
    } else if 0x6800 <= a {
        s.rom[a - 0x6800]
    } else {
        // Switches and unmapped addresses
        0
    }
}

/// The bus after the CPU writes `value` at `address`.
pub open spec fn bus_write(s: BusState, address: u16, value: u8) -> BusState {
    let a = bus_address(address);
    if a < 0x400 {
        BusState { ram: s.ram.update(a, value), ..s }
    } else if a == 0x3000 {
        // GODVG
        BusState { dvg: DvgSimpleState { is_halted: false, pc: 0, ..s.dvg }, ..s }
    } else if a == 0x3400 {
        // Watchdog reset
        BusState { watchdog_cycle_count: 0, ..s }
    } else if 0x4000 <= a < 0x5000 {
        BusState { dvg: DvgSimpleState { ram: s.dvg.ram.update(a - 0x4000, value), ..s.dvg }, ..s }
    } else {
        s
    }
}

impl Bus {
    /// A bus over the ROM's program, with a vector generator over its vector
    /// ROM; RAM is zeroed and all counters are 0.
    pub fn new(rom: ROM) -> (b: Self)
        ensures
            b@.cycle_count == 0,
            b@.watchdog_cycle_count == 0,
            !b@.nmi,
            b@.ram == Seq::new(0x400, |i: int| 0u8),
            b@.rom == rom.program@,
            b@.dvg == dvg_simple_initial(rom.vector@),
    {
        let dvg = DVG_Simple::new(rom.vector);
        let b = Self {
            cycle_count: 0,
            watchdog_cycle_count: 0,
            nmi: false,
            ram: [0; 0x400],
            rom: rom.program,
            dvg,
        };
        assert(b@.ram =~= Seq::new(0x400, |i: int| 0u8));
        b
    }

    /// Runs the vector generator for `step_count` steps, appending its moves,
    /// and advances the clock and the watchdog. Clears the NMI request.
    /// Returns true if the watchdog fired, which restarts its count.
    pub fn run_steps(&mut self, step_count: usize, moves: &mut Vec<VectorMove>) -> (fired: bool)
        requires
            old(self)@.cycle_count + step_count <= u64::MAX,
            old(self)@.watchdog_cycle_count + step_count <= usize::MAX,
        ensures
            ({
                let (d, drawn) = dvg_run(old(self)@.dvg, step_count as nat);
                let w = old(self)@.watchdog_cycle_count + step_count;
                &&& final(self)@ == (BusState {
                    cycle_count: (old(self)@.cycle_count + step_count) as u64,
                    watchdog_cycle_count: if fired { 0 } else { w as usize },
                    nmi: false,
                    dvg: d,
                    ..old(self)@
                })
                &&& final(moves)@ == old(moves)@ + drawn
                &&& fired == (w >= WATCHDOG_PERIOD)
            }),
    {
        self.nmi = false;
        let mut i: usize = 0;
        while i < step_count
            invariant
                i <= step_count,
                self@ == (BusState { dvg: dvg_run(old(self)@.dvg, i as nat).0, nmi: false, ..old(self)@ }),
                moves@ == old(moves)@ + dvg_run(old(self)@.dvg, i as nat).1,
            decreases step_count - i,
        {
            // One vector generator step per CPU cycle
            if let Some(m) = self.dvg.step() {
                moves.push(m);
            }
            proof {
                let (t, prev) = dvg_run(old(self)@.dvg, i as nat);
                let (u, m) = simple_step(t);
                assert(dvg_run(old(self)@.dvg, (i + 1) as nat) == (u, prev + move_seq(m)));
                assert(moves@ =~= old(moves)@ + (prev + move_seq(m)));
            }
            i = i + 1;
        }
        self.cycle_count = self.cycle_count + step_count as u64;
        self.watchdog_cycle_count = self.watchdog_cycle_count + step_count;
        if self.watchdog_cycle_count >= WATCHDOG_PERIOD {
            // Don't need precise timing. Just completely reset it
            self.watchdog_cycle_count = 0;
            true
        } else {
            false
        }
    }

    /// Requests a non-maskable interrupt of the CPU.
    pub fn request_nmi(&mut self)
        ensures
            final(self)@ == (BusState { nmi: true, ..old(self)@ }),
    {
        self.nmi = true;
    }

    /// Resets the vector generator.
    pub fn reset_dvg(&mut self)
        ensures
            final(self)@ == (BusState {
                dvg: DvgSimpleState {
                    pc: 0,
                    is_halted: true,
                    stack: seq![0xFFFFu16, 0xFFFFu16, 0xFFFFu16, 0xFFFFu16],
                    current_x: 0,
                    current_y: 0,
                    global_scale: 0,
                    ..old(self)@.dvg
                },
                ..old(self)@
            }),
    {
        self.dvg.reset();
    }

    /// Whether an NMI is requested.
    pub fn nmi_pending(&self) -> (r: bool)
        ensures
            r == self@.nmi,
    {
        self.nmi
    }

    /// The byte that the CPU reads at `address`.
    pub fn get_byte(&self, address: u16) -> (b: u8)
        requires
            !bus_read_out_of_bounds(address),
        ensures
            b == bus_read(self@, address),
    {
        proof {
            lemma_dvg_simple_view(&self.dvg);
        }
        // Upper bit is ignored
        let raw = address;
        let address = address & 0x7FFF;
        proof {
            lemma_u16_fields(raw);
            lemma_u16_fields(address);
        }
        if address < 0x400 {
            self.ram[(address & 0x3FF) as usize]
        } else if address == 0x2001 {
            // Clock
            let c = self.cycle_count;
            proof {
                lemma_u64_bit8(c);
            }
            if (c & CLOCK_INTERVAL) != 0 {
                0x80
            } else {
                0x7F
            }
        } else if address == 0x2002 {
            // DVG Halt
            if self.dvg.is_halted {
                0x7F
            } else {
                0x80
            }
        } else if 0x4000 <= address && address < 0x6000 {
            let word = self.dvg.read_word((address - 0x4000) as usize);
            // Since we're using a byte address, the low byte is always the one we want
            proof {
                lemma_u16_fields(word);
            }
            (word & 0xFF) as u8
        } else if 0x6800 <= address {
            self.rom[(address - 0x6800) as usize]
        } else {
            // 0x2003..=0x2007: hyperspace, fire, diagnostic step, slam and self test buttons
            // 0x2400..=0x2407: coin, start, thrust and rotate switches
            0
        }
    }

    /// The CPU writes `value` at `address`.
    pub fn set_byte(&mut self, address: u16, value: u8)
        ensures
            final(self)@ == bus_write(old(self)@, address, value),
    {
        // Upper bit is ignored
        let raw = address;
        let address = address & 0x7FFF;
        proof {
            lemma_u16_fields(raw);
            lemma_u16_fields(address);
        }
        if address < 0x400 {
            self.ram[(address & 0x3FF) as usize] = value;
        } else if address == 0x3000 {
            // GODVG
            self.dvg.resume();
        } else if address == 0x3400 {
            // Watchdog reset
            self.watchdog_cycle_count = 0;
        } else if 0x4000 <= address && address < 0x6000 {
            self.dvg.write_byte((address - 0x4000) as usize, value);
        }
        proof {
            lemma_dvg_simple_view(&self.dvg);
        }
        assert(self@ =~= bus_write(old(self)@, raw, value));
    }
}


/// The memories of every bus have their fixed sizes: 1 KiB of work RAM,
/// 6 KiB of program ROM, 4 KiB of vector RAM and 2 KiB of vector ROM.
pub proof fn lemma_bus_lengths(b: &Bus)
    ensures
        b@.ram.len() == 0x400,
        b@.rom.len() == 0x1800,
        b@.dvg.ram.len() == 0x1000,
        b@.dvg.rom.len() == 0x800,
{
    lemma_dvg_simple_view(&b.dvg);
}

/// A CPU write to 0x3000 (GODVG, at either mirror) starts the vector
/// generator at PC 0, not halted, whatever its PC was; the rest of the bus
/// and of the generator stays as it was.
pub proof fn lemma_godvg_starts_at_zero(s: BusState, address: u16, value: u8)
    requires
        bus_address(address) == 0x3000,
    ensures
        bus_write(s, address, value).dvg.pc == 0,
        !bus_write(s, address, value).dvg.is_halted,
        bus_write(s, address, value).dvg.ram == s.dvg.ram,
        bus_write(s, address, value).dvg.stack == s.dvg.stack,
        bus_write(s, address, value).dvg.current_x == s.dvg.current_x,
        bus_write(s, address, value).dvg.current_y == s.dvg.current_y,
        bus_write(s, address, value).ram == s.ram,
        bus_write(s, address, value).nmi == s.nmi,
        bus_write(s, address, value).watchdog_cycle_count == s.watchdog_cycle_count,
{
}

/// An NMI request stays pending through every CPU write (and reads change
/// nothing); only `run_steps` clears it.
pub proof fn lemma_nmi_request_persists(s: BusState, address: u16, value: u8)
    ensures
        bus_write(s, address, value).nmi == s.nmi,
{
}

/// What the CPU writes to work RAM, or to vector RAM through the vector
/// memory window, it reads back at the same address.
pub proof fn lemma_bus_read_after_write(s: BusState, address: u16, value: u8)
    requires
        s.ram.len() == 0x400,
        s.dvg.ram.len() == 0x1000,
        bus_address(address) < 0x400 || (0x4000 <= bus_address(address) < 0x4FFF),
    ensures
        bus_read(bus_write(s, address, value), address) == value,
{
    let a = bus_address(address);
    if 0x4000 <= a {
        crate::dvg_simple::lemma_vector_ram_read_after_write(s.dvg, a - 0x4000, value);
    }
}

/// A write to work RAM changes no other byte that the CPU can read.
pub proof fn lemma_bus_ram_write_is_local(s: BusState, address: u16, value: u8, other: u16)
    requires
        s.ram.len() == 0x400,
        bus_address(address) < 0x400,
        bus_address(other) != bus_address(address),
    ensures
        bus_read(bus_write(s, address, value), other) == bus_read(s, other),
{
}

/// Kicking the watchdog (a write to 0x3400) keeps it from firing for the
/// next WATCHDOG_PERIOD - 1 cycles.
pub proof fn lemma_watchdog_kick(s: BusState, value: u8, cycles: nat)
    requires
        cycles < WATCHDOG_PERIOD,
    ensures
        bus_write(s, 0x3400, value).watchdog_cycle_count + cycles < WATCHDOG_PERIOD,
{
}

/// Running the vector generator for `m` then `n` steps is running it for
/// `m + n` steps, with the moves of both runs in order.
pub proof fn lemma_dvg_run_adds(s: DvgSimpleState, m: nat, n: nat)
    ensures
        dvg_run(dvg_run(s, m).0, n).0 == dvg_run(s, m + n).0,
        dvg_run(s, m).1 + dvg_run(dvg_run(s, m).0, n).1 == dvg_run(s, m + n).1,
    decreases n,
{
    if n > 0 {
        lemma_dvg_run_adds(s, m, (n - 1) as nat);
        let (t, moves) = dvg_run(s, (m + n - 1) as nat);
        assert(dvg_run(s, m + n) == {
            let (u, mv) = simple_step(t);
            (u, moves + move_seq(mv))
        });
        let a = dvg_run(s, m).1;
        let b = dvg_run(dvg_run(s, m).0, (n - 1) as nat).1;
        let c = move_seq(simple_step(dvg_run(dvg_run(s, m).0, (n - 1) as nat).0).1);
        assert(a + (b + c) =~= (a + b) + c);
    }
}

/// The top address bit is not decoded: every byte appears at both
/// addresses that differ in it.
pub proof fn lemma_bus_mirror(s: BusState, address: u16)
    requires
        address < 0x8000,
    ensures
        bus_read(s, address) == bus_read(s, (address + 0x8000) as u16),
        forall|value: u8| bus_write(s, address, value) == bus_write(s, (address + 0x8000) as u16, value),
{
}

} // verus!
