use vstd::prelude::*;
use crate::descriptor::{ceil_div, lemma_ceil_div_bounds};
use crate::dma::DmaChannel;
use crate::error::Error;

verus! {

/// Number of lines that shift the bits of one phase.
#[derive(Clone, Copy, Debug, PartialEq, Eq, Structural)]
pub enum SpiDataMode {
    Single,
    Dual,
    Quad,
}

/// Clock polarity and phase.
#[derive(Clone, Copy, Debug, PartialEq, Eq, Structural)]
pub enum SpiMode {
    Mode0,
    Mode1,
    Mode2,
    Mode3,
}

/// Whether the peripheral drives the clock or follows an outside one.
#[derive(Clone, Copy, Debug, PartialEq, Eq, Structural)]
pub enum Role {
    Master,
    Slave,
}

/// The command phase of a half-duplex frame.
#[derive(Clone, Copy, Debug, PartialEq, Eq, Structural)]
pub enum Command {
    Empty,
    Command8(u8, SpiDataMode),
}

/// The address phase of a half-duplex frame.
#[derive(Clone, Copy, Debug, PartialEq, Eq, Structural)]
pub enum Address {
    Empty,
    Address24(u32, SpiDataMode),
    Address32(u32, SpiDataMode),
}

impl Command {
    pub open spec fn spec_width(self) -> u32 {
        match self {
            Command::Empty => 0,
            Command::Command8(_, _) => 8,
        }
    }

    pub open spec fn spec_value(self) -> u32 {
        match self {
            Command::Empty => 0,
            Command::Command8(v, _) => v as u32,
        }
    }

    pub open spec fn spec_mode(self) -> SpiDataMode {
        match self {
            Command::Empty => SpiDataMode::Single,
            Command::Command8(_, m) => m,
        }
    }

    /// Bits of the phase; zero when there is none.
    #[verifier::when_used_as_spec(spec_width)]
    pub fn width(self) -> (r: u32)
        ensures
            r == self.spec_width(),
    {
        match self {
            Command::Empty => 0,
            Command::Command8(_, _) => 8,
        }
    }

    /// The command byte; zero when there is none.
    #[verifier::when_used_as_spec(spec_value)]
    pub fn value(self) -> (r: u32)
        ensures
            r == self.spec_value(),
    {
        match self {
            Command::Empty => 0,
            Command::Command8(v, _) => v as u32,
        }
    }

    /// Line mode of the phase; single when there is none.
    #[verifier::when_used_as_spec(spec_mode)]
    pub fn mode(self) -> (r: SpiDataMode)
        ensures
            r == self.spec_mode(),
    {
        match self {
            Command::Empty => SpiDataMode::Single,
            Command::Command8(_, m) => m,
        }
    }
}

impl Address {
    pub open spec fn spec_width(self) -> u32 {
        match self {
            Address::Empty => 0,
            Address::Address24(_, _) => 24,
            Address::Address32(_, _) => 32,
        }
    }

    pub open spec fn spec_value(self) -> u32 {
        match self {
            Address::Empty => 0,
            Address::Address24(v, _) => v,
            Address::Address32(v, _) => v,
        }
    }

    pub open spec fn spec_mode(self) -> SpiDataMode {
        match self {
            Address::Empty => SpiDataMode::Single,
            Address::Address24(_, m) => m,
            Address::Address32(_, m) => m,
        }
    }

    /// Bits of the phase; zero when there is none.
    #[verifier::when_used_as_spec(spec_width)]
    pub fn width(self) -> (r: u32)
        ensures
            r == self.spec_width(),
    {
        match self {
            Address::Empty => 0,
            Address::Address24(_, _) => 24,
            Address::Address32(_, _) => 32,
        }
    }

    /// The address sent; zero when there is none.
    #[verifier::when_used_as_spec(spec_value)]
    pub fn value(self) -> (r: u32)
        ensures
            r == self.spec_value(),
    {
        match self {
            Address::Empty => 0,
            Address::Address24(v, _) => v,
            Address::Address32(v, _) => v,
        }
    }

    /// Line mode of the phase; single when there is none.
    #[verifier::when_used_as_spec(spec_mode)]
    pub fn mode(self) -> (r: SpiDataMode)
        ensures
            r == self.spec_mode(),
    {
        match self {
            Address::Empty => SpiDataMode::Single,
            Address::Address24(_, m) => m,
            Address::Address32(_, m) => m,
        }
    }
}

// Bit positions in the control register.
pub const CTRL_FADDR_DUAL: u32 = 5;
pub const CTRL_FADDR_QUAD: u32 = 6;
pub const CTRL_FCMD_DUAL: u32 = 8;
pub const CTRL_FCMD_QUAD: u32 = 9;
pub const CTRL_FREAD_DUAL: u32 = 14;
pub const CTRL_FREAD_QUAD: u32 = 15;

// Bit positions in the user register.
pub const USER_FWRITE_DUAL: u32 = 12;
pub const USER_FWRITE_QUAD: u32 = 13;
pub const USER_USR_MOSI: u32 = 27;
pub const USER_USR_MISO: u32 = 28;
pub const USER_USR_DUMMY: u32 = 29;
pub const USER_USR_ADDR: u32 = 30;
pub const USER_USR_COMMAND: u32 = 31;

// Field offsets in the first user register (address bit length minus one)
// and in the second (command bit length minus one).
pub const USER1_ADDR_BITLEN_SHIFT: u32 = 27;
pub const USER2_COMMAND_BITLEN_SHIFT: u32 = 28;

/// Direction of the data phase of a frame.
#[derive(Clone, Copy, Debug, PartialEq, Eq, Structural)]
pub enum Direction {
    Read,
    Write,
}

/// The register values that frame one half-duplex transaction.
#[derive(Clone, Copy, Debug, PartialEq, Eq, Structural)]
pub struct PhaseRegisters {
    pub ctrl: u32,
    pub user: u32,
    pub user1: u32,
    pub user2: u32,
    pub addr: u32,
}

/// The bits that select line mode `m` for a phase whose dual and quad flags
/// sit at `dual` and `quad`: none for a single line.
pub open spec fn spec_mode_bits(m: SpiDataMode, dual: u32, quad: u32) -> u32 {
    match m {
        SpiDataMode::Single => 0,
        SpiDataMode::Dual => 1u32 << dual,
        SpiDataMode::Quad => 1u32 << quad,
    }
}

/// `1 << bit` when `on`, else nothing.
pub open spec fn spec_flag(on: bool, bit: u32) -> u32 {
    if on { 1u32 << bit } else { 0 }
}

/// Control register: the line modes of command, address and, for a read,
/// data.
pub open spec fn spec_ctrl(data: SpiDataMode, cmd: Command, addr: Address, dir: Direction) -> u32 {
    spec_mode_bits(cmd.spec_mode(), CTRL_FCMD_DUAL, CTRL_FCMD_QUAD)
        | spec_mode_bits(addr.spec_mode(), CTRL_FADDR_DUAL, CTRL_FADDR_QUAD)
        | if dir == Direction::Read { spec_mode_bits(data, CTRL_FREAD_DUAL, CTRL_FREAD_QUAD) } else { 0 }
}

/// User register: which phases the frame has, and the line mode of written
/// data.
pub open spec fn spec_user(data: SpiDataMode, cmd: Command, addr: Address, dummy: u8, dir: Direction) -> u32 {
    spec_flag(cmd.spec_width() > 0, USER_USR_COMMAND)
        | spec_flag(addr.spec_width() > 0, USER_USR_ADDR)
        | spec_flag(dummy > 0, USER_USR_DUMMY)
        | if dir == Direction::Read {
            1u32 << USER_USR_MISO
        } else {
            (1u32 << USER_USR_MOSI) | spec_mode_bits(data, USER_FWRITE_DUAL, USER_FWRITE_QUAD)
        }
}

/// First user register: address bit length minus one, dummy cycles minus one.
pub open spec fn spec_user1(addr: Address, dummy: u8) -> u32 {
    (if addr.spec_width() > 0 { ((addr.spec_width() - 1) as u32) << USER1_ADDR_BITLEN_SHIFT } else { 0 })
        | (if dummy > 0 { (dummy - 1) as u32 } else { 0 })
}

/// Second user register: command bit length minus one, and the command.
pub open spec fn spec_user2(cmd: Command) -> u32 {
    if cmd.spec_width() > 0 {
        (((cmd.spec_width() - 1) as u32) << USER2_COMMAND_BITLEN_SHIFT) | cmd.spec_value()
    } else {
        0
    }
}

/// The registers of a frame; each phase's width and line mode land in fields
/// of their own.
pub open spec fn spec_phase_registers(data: SpiDataMode, cmd: Command, addr: Address, dummy: u8, dir: Direction) -> PhaseRegisters {
    PhaseRegisters {
        ctrl: spec_ctrl(data, cmd, addr, dir),
        user: spec_user(data, cmd, addr, dummy, dir),
        user1: spec_user1(addr, dummy),
        user2: spec_user2(cmd),
        addr: addr.spec_value(),
    }
}

fn mode_bits(m: SpiDataMode, dual: u32, quad: u32) -> (r: u32)
    requires
        dual < 32,
        quad < 32,
    ensures
        r == spec_mode_bits(m, dual, quad),
{
    match m {
        SpiDataMode::Single => 0,
        SpiDataMode::Dual => 1u32 << dual,
        SpiDataMode::Quad => 1u32 << quad,
    }
}

fn flag(on: bool, bit: u32) -> (r: u32)
    requires
        bit < 32,
    ensures
        r == spec_flag(on, bit),
{
    if on { 1u32 << bit } else { 0 }
}

/// Encodes the command, address, dummy and data phases of a half-duplex frame
/// into register values.
pub fn encode_phases(data: SpiDataMode, cmd: Command, addr: Address, dummy: u8, dir: Direction) -> (r: PhaseRegisters)
    ensures
        r == spec_phase_registers(data, cmd, addr, dummy, dir),
{
    let read = match dir {
        Direction::Read => true,
        Direction::Write => false,
    };
    let ctrl = mode_bits(cmd.mode(), CTRL_FCMD_DUAL, CTRL_FCMD_QUAD)
        | mode_bits(addr.mode(), CTRL_FADDR_DUAL, CTRL_FADDR_QUAD)
        | if read { mode_bits(data, CTRL_FREAD_DUAL, CTRL_FREAD_QUAD) } else { 0 };
    let user = flag(cmd.width() > 0, USER_USR_COMMAND)
        | flag(addr.width() > 0, USER_USR_ADDR)
        | flag(dummy > 0, USER_USR_DUMMY)
        | if read {
            1u32 << USER_USR_MISO
        } else {
            (1u32 << USER_USR_MOSI) | mode_bits(data, USER_FWRITE_DUAL, USER_FWRITE_QUAD)
        };
    let aw = addr.width();
    let user1 = (if aw > 0 { (aw - 1) << USER1_ADDR_BITLEN_SHIFT } else { 0 })
        | (if dummy > 0 { (dummy - 1) as u32 } else { 0 });
    let cw = cmd.width();
    let user2 = if cw > 0 { ((cw - 1) << USER2_COMMAND_BITLEN_SHIFT) | cmd.value() } else { 0 };
    PhaseRegisters { ctrl, user, user1, user2, addr: addr.value() }
}

/// Lines that shift bits in mode `m`.
pub open spec fn line_count(m: SpiDataMode) -> int {
    match m {
        SpiDataMode::Single => 1,
        SpiDataMode::Dual => 2,
        SpiDataMode::Quad => 4,
    }
}

/// Clock cycles of a frame: each phase takes its bits over its lines, and a
/// phase of width zero takes none.
pub open spec fn spec_frame_cycles(data: SpiDataMode, cmd: Command, addr: Address, dummy: u8, len: int) -> int {
    cmd.spec_width() as int / line_count(cmd.spec_mode()) + addr.spec_width() as int / line_count(addr.spec_mode())
        + dummy as int + 8 * len / line_count(data)
}

fn lines(m: SpiDataMode) -> (r: u128)
    ensures
        r == line_count(m),
{
    match m {
        SpiDataMode::Single => 1,
        SpiDataMode::Dual => 2,
        SpiDataMode::Quad => 4,
    }
}

/// Length in clock cycles of a frame that carries `len` data bytes.
pub fn frame_cycles(data: SpiDataMode, cmd: Command, addr: Address, dummy: u8, len: usize) -> (r: u128)
    ensures
        r == spec_frame_cycles(data, cmd, addr, dummy, len as int),
{
    cmd.width() as u128 / lines(cmd.mode()) + addr.width() as u128 / lines(addr.mode()) + dummy as u128
        + 8 * (len as u128) / lines(data)
}

/// Largest clock divider: a 13-bit prescaler times a 6-bit counter.
pub const MAX_CLOCK_DIVIDER: u32 = 8192 * 64;

/// The divider that brings `source` down to at most `freq`, as close to it as
/// an integer divider gets: never below one.
pub open spec fn divider_for(source: int, freq: int) -> int {
    if ceil_div(source, freq) < 1 { 1 } else { ceil_div(source, freq) }
}

/// Picks the clock divider for a bus of `frequency_hz` fed by `source_hz`.
/// The bus never runs faster than asked; a zero frequency, or one so low that
/// no divider reaches it, is a configuration error.
pub fn clock_divider(source_hz: u32, frequency_hz: u32) -> (r: Result<u32, Error>)
    ensures
        r is Ok <==> frequency_hz > 0 && divider_for(source_hz as int, frequency_hz as int) <= MAX_CLOCK_DIVIDER,
        r is Err ==> r == Err::<u32, Error>(Error::ConfigurationError),
        r matches Ok(d) ==> {
            &&& d == divider_for(source_hz as int, frequency_hz as int)
            &&& 1 <= d
            &&& source_hz <= d * frequency_hz
            &&& d == 1 || (d - 1) * frequency_hz < source_hz
        },
{
    if frequency_hz == 0 {
        return Err(Error::ConfigurationError);
    }
    proof {
        lemma_ceil_div_bounds(source_hz as int, frequency_hz as int);
    }
    let q: u32 = source_hz / frequency_hz;
    let d: u32 = if source_hz % frequency_hz == 0 {
        q
    } else if q >= MAX_CLOCK_DIVIDER {
        return Err(Error::ConfigurationError);
    } else {
        q + 1
    };
    let d: u32 = if d < 1 { 1 } else { d };
    if d > MAX_CLOCK_DIVIDER {
        return Err(Error::ConfigurationError);
    }
    Ok(d)
}

/// The GPIO bound to each line, `None` where a line is not bound.
#[derive(Clone, Copy, Debug, PartialEq, Eq, Structural)]
pub struct Pins {
    pub sclk: Option<u8>,
    pub mosi: Option<u8>,
    pub miso: Option<u8>,
    pub sio2: Option<u8>,
    pub sio3: Option<u8>,
    pub cs: Option<u8>,
}

/// The lines bound in `p` carry a phase in line mode `m`: a dual phase needs
/// MOSI and MISO, a quad phase IO2 and IO3 as well.
pub open spec fn lines_for(p: Pins, m: SpiDataMode) -> bool {
    match m {
        SpiDataMode::Single => true,
        SpiDataMode::Dual => p.mosi is Some && p.miso is Some,
        SpiDataMode::Quad => p.mosi is Some && p.miso is Some && p.sio2 is Some && p.sio3 is Some,
    }
}

/// No line bound.
pub open spec fn no_pins() -> Pins {
    Pins { sclk: None, mosi: None, miso: None, sio2: None, sio3: None, cs: None }
}

impl Pins {
    /// No line bound.
    pub fn none() -> (r: Pins)
        ensures
            r == no_pins(),
    {
        Pins { sclk: None, mosi: None, miso: None, sio2: None, sio3: None, cs: None }
    }

    /// Whether the bound lines carry a phase in line mode `m`.
    pub fn supports(&self, m: SpiDataMode) -> (r: bool)
        ensures
            r == lines_for(*self, m),
    {
        match m {
            SpiDataMode::Single => true,
            SpiDataMode::Dual => self.mosi.is_some() && self.miso.is_some(),
            SpiDataMode::Quad => self.mosi.is_some() && self.miso.is_some() && self.sio2.is_some()
                && self.sio3.is_some(),
        }
    }
}

/// A configured SPI bus, with the DMA channel bound to it if any.
pub struct Spi {
    pub role: Role,
    pub mode: SpiMode,
    pub clock_divider: u32,
    pub pins: Pins,
    pub dma: Option<DmaChannel>,
}

impl Spi {
    /// A half-duplex master bus of at most `frequency_hz`, clocked from
    /// `source_clock_hz`, with no line and no DMA channel bound yet.
    pub fn new_half_duplex(frequency_hz: u32, mode: SpiMode, source_clock_hz: u32) -> (r: Result<Spi, Error>)
        ensures
            r is Ok <==> frequency_hz > 0 && divider_for(source_clock_hz as int, frequency_hz as int) <= MAX_CLOCK_DIVIDER,
            r is Err ==> r == Err::<Spi, Error>(Error::ConfigurationError),
            r matches Ok(s) ==> {
                &&& s.role == Role::Master
                &&& s.mode == mode
                &&& s.clock_divider == divider_for(source_clock_hz as int, frequency_hz as int)
                &&& s.pins == no_pins()
                &&& s.dma is None
            },
    {
        match clock_divider(source_clock_hz, frequency_hz) {
            Ok(d) => Ok(Spi { role: Role::Master, mode, clock_divider: d, pins: Pins::none(), dma: None }),
            Err(e) => Err(e),
        }
    }

    /// A slave bus on the given lines: it generates no clock and follows the
    /// edges on `sclk`.
    pub fn new(sclk: u8, mosi: u8, miso: u8, cs: u8, mode: SpiMode) -> (r: Spi)
        ensures
            r.role == Role::Slave,
            r.mode == mode,
            r.clock_divider == 1,
            r.pins == (Pins { sclk: Some(sclk), mosi: Some(mosi), miso: Some(miso), sio2: None, sio3: None, cs: Some(cs) }),
            r.dma is None,
    {
        Spi {
            role: Role::Slave,
            mode,
            clock_divider: 1,
            pins: Pins { sclk: Some(sclk), mosi: Some(mosi), miso: Some(miso), sio2: None, sio3: None, cs: Some(cs) },
            dma: None,
        }
    }

    /// The same bus with these lines bound; `None` leaves a line unbound.
    pub fn with_pins(self, sclk: Option<u8>, mosi: Option<u8>, miso: Option<u8>, sio2: Option<u8>, sio3: Option<u8>, cs: Option<u8>) -> (r: Spi)
        ensures
            r.pins == (Pins { sclk, mosi, miso, sio2, sio3, cs }),
            r.role == self.role,
            r.mode == self.mode,
            r.clock_divider == self.clock_divider,
            r.dma == self.dma,
    {
        Spi { pins: Pins { sclk, mosi, miso, sio2, sio3, cs }, ..self }
    }

    /// The same bus with `channel` bound for its transfers.
    pub fn with_dma(self, channel: DmaChannel) -> (r: Spi)
        ensures
            r.dma == Some(channel),
            r.role == self.role,
            r.mode == self.mode,
            r.clock_divider == self.clock_divider,
            r.pins == self.pins,
    {
        Spi { dma: Some(channel), ..self }
    }
}

} // verus!
