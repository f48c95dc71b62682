use vstd::prelude::*;
use crate::descriptor::{ceil_div, Descriptor, MAX_CHUNK_SIZE};
use crate::dma::{bound_chain, handed_back, same_channel};
use crate::error::Error;
use crate::spi::{
    encode_phases, lines_for, spec_phase_registers, Address, Command, Direction, PhaseRegisters, Pins, Role, Spi,
    SpiDataMode,
};

verus! {

/// What one look at a transfer in flight finds.
#[derive(Clone, Copy, Debug, PartialEq, Eq, Structural)]
pub enum TransferStatus {
    InProgress,
    Complete,
    TimedOut,
}

/// A transfer in flight: it owns the bus with its DMA channel and the
/// buffers until `wait` hands them back. `tx_active` and `rx_active` tell
/// which directions have a chain armed; `tx_eof` and `rx_eof` record that
/// the hardware reported the end of that chain; `received` counts the bytes
/// the DMA engine has written into `rx_buffer`.
pub struct Transfer {
    pub spi: Spi,
    pub tx_buffer: Vec<u8>,
    pub rx_buffer: Vec<u8>,
    pub registers: Option<PhaseRegisters>,
    pub tx_active: bool,
    pub rx_active: bool,
    pub tx_eof: bool,
    pub rx_eof: bool,
    pub received: usize,
    pub deadline: u64,
}

/// A start or a wait that failed, with everything it was handed.
pub struct Rejected {
    pub error: Error,
    pub spi: Spi,
    pub tx_buffer: Vec<u8>,
    pub rx_buffer: Vec<u8>,
}

/// The bus has a DMA channel and a transfer holds it.
pub open spec fn channel_busy(spi: Spi) -> bool {
    spi.dma matches Some(ch) && ch.busy
}

/// `a` and `b` are the same bus in the same state.
pub open spec fn same_bus(a: Spi, b: Spi) -> bool {
    &&& a.role == b.role
    &&& a.mode == b.mode
    &&& a.clock_divider == b.clock_divider
    &&& a.pins == b.pins
    &&& a.dma is Some <==> b.dma is Some
    &&& a.dma is Some ==> same_channel(a.dma.unwrap(), b.dma.unwrap())
}

/// Why a transfer cannot start on `spi`, if it cannot: `role` is the role it
/// needs, `lines_ok` whether the bound lines carry its line modes, `tx_len`
/// and `rx_len` the sizes of its buffers, each of which may have to be
/// non-empty. A direction with an empty buffer takes no chain.
pub open spec fn start_error(
    spi: Spi,
    role: Role,
    lines_ok: bool,
    tx_len: int,
    rx_len: int,
    tx_required: bool,
    rx_required: bool,
) -> Option<Error> {
    if spi.dma is None {
        Some(Error::ConfigurationError)
    } else if spi.dma.unwrap().busy {
        Some(Error::ResourceBusy)
    } else if spi.role != role || !lines_ok {
        Some(Error::ConfigurationError)
    } else if (tx_required && tx_len == 0) || (rx_required && rx_len == 0) {
        Some(Error::ConfigurationError)
    } else if tx_len > 0 && ceil_div(tx_len, MAX_CHUNK_SIZE as int) > spi.dma.unwrap().tx_descriptors.len() {
        Some(Error::ConfigurationError)
    } else if rx_len > 0 && ceil_div(rx_len, MAX_CHUNK_SIZE as int) > spi.dma.unwrap().rx_descriptors.len() {
        Some(Error::ConfigurationError)
    } else {
        None
    }
}

/// The chain of one direction after a start: built for the buffer when it is
/// not empty, untouched otherwise.
pub open spec fn armed(old_pool: Seq<Descriptor>, pool: Seq<Descriptor>, old_k: int, k: int, len: int, circular: bool) -> bool {
    if len > 0 {
        bound_chain(old_pool, pool, k, len, circular)
    } else {
        pool == old_pool && k == old_k
    }
}

/// What a successful start hands back: the bus with its channel now busy and
/// the chains of both directions armed, the buffers, and a transfer that has
/// seen no end of chain yet.
pub open spec fn started(old_spi: Spi, t: Transfer, tx: Seq<u8>, rx: Seq<u8>, registers: Option<PhaseRegisters>, deadline: u64) -> bool {
    let och = old_spi.dma.unwrap();
    let ch = t.spi.dma.unwrap();
    &&& t.spi.role == old_spi.role
    &&& t.spi.mode == old_spi.mode
    &&& t.spi.clock_divider == old_spi.clock_divider
    &&& t.spi.pins == old_spi.pins
    &&& t.spi.dma is Some
    &&& ch.channel_id == och.channel_id && ch.priority == och.priority && ch.circular == och.circular
    &&& ch.busy
    &&& armed(och.tx_descriptors@, ch.tx_descriptors@, och.tx_chain_len as int, ch.tx_chain_len as int, tx.len() as int, och.circular)
    &&& armed(och.rx_descriptors@, ch.rx_descriptors@, och.rx_chain_len as int, ch.rx_chain_len as int, rx.len() as int, och.circular)
    &&& t.tx_buffer@ == tx
    &&& t.rx_buffer@ == rx
    &&& t.registers == registers
    &&& t.tx_active == (tx.len() > 0)
    &&& t.rx_active == (rx.len() > 0)
    &&& !t.tx_eof && !t.rx_eof
    &&& t.received == 0
    &&& t.deadline == deadline
}

/// Every active direction has reached its end of chain.
pub open spec fn is_complete(t: Transfer) -> bool {
    (!t.tx_active || t.tx_eof) && (!t.rx_active || t.rx_eof)
}

/// The outcome of a start: the transfer when nothing stands in the way, else
/// the error that `start_error` names with the bus and buffers untouched.
pub open spec fn start_outcome(
    old_spi: Spi,
    r: Result<Transfer, Rejected>,
    role: Role,
    lines_ok: bool,
    tx: Seq<u8>,
    rx: Seq<u8>,
    tx_required: bool,
    rx_required: bool,
    registers: Option<PhaseRegisters>,
    deadline: u64,
) -> bool {
    let e = start_error(old_spi, role, lines_ok, tx.len() as int, rx.len() as int, tx_required, rx_required);
    &&& r is Ok <==> e is None
    &&& r matches Ok(t) ==> started(old_spi, t, tx, rx, registers, deadline) && t.wf()
    &&& r matches Err(j) ==> {
        &&& Some(j.error) == e
        &&& same_bus(j.spi, old_spi)
        &&& j.tx_buffer@ == tx
        &&& j.rx_buffer@ == rx
    }
}

impl Transfer {
    /// A transfer holds its bus's DMA channel, marked busy, and never counts
    /// more received bytes than its receive buffer has.
    pub open spec fn wf(self) -> bool {
        &&& channel_busy(self.spi)
        &&& self.received <= self.rx_buffer.len()
    }
}

fn reject(error: Error, spi: Spi, tx: Vec<u8>, rx: Vec<u8>) -> (r: Result<Transfer, Rejected>)
    ensures
        r matches Err(j) && j.error == error && j.spi == spi && j.tx_buffer == tx && j.rx_buffer == rx,
{
    Err(Rejected { error, spi, tx_buffer: tx, rx_buffer: rx })
}

/// Checks that the transfer may start, then binds and arms the chains of
/// the non-empty buffers and hands everything to a new transfer.
fn start(
    spi: Spi,
    role: Role,
    lines_ok: bool,
    tx: Vec<u8>,
    rx: Vec<u8>,
    tx_required: bool,
    rx_required: bool,
    registers: Option<PhaseRegisters>,
    deadline: u64,
) -> (r: Result<Transfer, Rejected>)
    ensures
        start_outcome(spi, r, role, lines_ok, tx@, rx@, tx_required, rx_required, registers, deadline),
{
    let Spi { role: bus_role, mode, clock_divider, pins, dma } = spi;
    let mut ch = match dma {
        Some(ch) => ch,
        None => {
            return reject(Error::ConfigurationError, Spi { role: bus_role, mode, clock_divider, pins, dma: None }, tx, rx);
        },
    };
    let tx_len = tx.len();
    let rx_len = rx.len();
    let err: Option<Error> = if ch.busy {
        Some(Error::ResourceBusy)
    } else if bus_role != role || !lines_ok {
        Some(Error::ConfigurationError)
    } else if (tx_required && tx_len == 0) || (rx_required && rx_len == 0) {
        Some(Error::ConfigurationError)
    } else if tx_len > 0 && chain_length(tx_len) > ch.tx_descriptors.len() {
        Some(Error::ConfigurationError)
    } else if rx_len > 0 && chain_length(rx_len) > ch.rx_descriptors.len() {
        Some(Error::ConfigurationError)
    } else {
        None
    };
    if let Some(e) = err {
        return reject(e, Spi { role: bus_role, mode, clock_divider, pins, dma: Some(ch) }, tx, rx);
    }
    // Neither binding can fail: the checks above are theirs.
    if tx_len > 0 {
        let _ = ch.bind_tx(tx_len);
    }
    if rx_len > 0 {
        let _ = ch.bind_rx(rx_len);
    }
    ch.busy = true;
    Ok(Transfer {
        spi: Spi { role: bus_role, mode, clock_divider, pins, dma: Some(ch) },
        tx_buffer: tx,
        rx_buffer: rx,
        registers,
        tx_active: tx_len > 0,
        rx_active: rx_len > 0,
        tx_eof: false,
        rx_eof: false,
        received: 0,
        deadline,
    })
}

/// Number of descriptors that a buffer of `len` bytes takes.
fn chain_length(len: usize) -> (r: usize)
    ensures
        r == ceil_div(len as int, MAX_CHUNK_SIZE as int),
{
    let q = len / MAX_CHUNK_SIZE;
    if len % MAX_CHUNK_SIZE == 0 { q } else { q + 1 }
}

/// The bound lines carry the line modes of the data, command and address
/// phases.
pub open spec fn frame_lines(pins: Pins, data: SpiDataMode, cmd: Command, addr: Address) -> bool {
    lines_for(pins, data) && lines_for(pins, cmd.spec_mode()) && lines_for(pins, addr.spec_mode())
}

fn frame_lines_ok(pins: &Pins, data: SpiDataMode, cmd: Command, addr: Address) -> (r: bool)
    ensures
        r == frame_lines(*pins, data, cmd, addr),
{
    pins.supports(data) && pins.supports(cmd.mode()) && pins.supports(addr.mode())
}

impl Spi {
    /// Starts a half-duplex master write: command, address, `dummy` idle
    /// cycles, then `buffer` sent in `data_mode`. An empty buffer leaves the
    /// data phase out.
    pub fn write(self, data_mode: SpiDataMode, cmd: Command, addr: Address, dummy: u8, buffer: Vec<u8>, deadline: u64) -> (r: Result<Transfer, Rejected>)
        ensures
            start_outcome(self, r, Role::Master, frame_lines(self.pins, data_mode, cmd, addr), buffer@, Seq::empty(),
                false, false, Some(spec_phase_registers(data_mode, cmd, addr, dummy, Direction::Write)), deadline),
    {
        let lines_ok = frame_lines_ok(&self.pins, data_mode, cmd, addr);
        let registers = encode_phases(data_mode, cmd, addr, dummy, Direction::Write);
        start(self, Role::Master, lines_ok, buffer, Vec::new(), false, false, Some(registers), deadline)
    }

    /// Starts a half-duplex master read: command, address, `dummy` idle
    /// cycles, then `buffer.len()` bytes received in `data_mode`.
    pub fn read(self, data_mode: SpiDataMode, cmd: Command, addr: Address, dummy: u8, buffer: Vec<u8>, deadline: u64) -> (r: Result<Transfer, Rejected>)
        ensures
            start_outcome(self, r, Role::Master, frame_lines(self.pins, data_mode, cmd, addr), Seq::empty(), buffer@,
                false, false, Some(spec_phase_registers(data_mode, cmd, addr, dummy, Direction::Read)), deadline),
    {
        let lines_ok = frame_lines_ok(&self.pins, data_mode, cmd, addr);
        let registers = encode_phases(data_mode, cmd, addr, dummy, Direction::Read);
        start(self, Role::Master, lines_ok, Vec::new(), buffer, false, false, Some(registers), deadline)
    }

    /// Starts a full-duplex slave transfer: `tx` is sent while `rx` fills,
    /// both chains armed at once.
    pub fn dma_transfer(self, tx: Vec<u8>, rx: Vec<u8>, deadline: u64) -> (r: Result<Transfer, Rejected>)
        ensures
            start_outcome(self, r, Role::Slave, true, tx@, rx@, true, true, None, deadline),
    {
        start(self, Role::Slave, true, tx, rx, true, true, None, deadline)
    }

    /// Starts a slave receive into `rx`.
    pub fn dma_read(self, rx: Vec<u8>, deadline: u64) -> (r: Result<Transfer, Rejected>)
        ensures
            start_outcome(self, r, Role::Slave, true, Seq::empty(), rx@, false, true, None, deadline),
    {
        start(self, Role::Slave, true, Vec::new(), rx, false, true, None, deadline)
    }

    /// Starts a slave send of `tx`.
    pub fn dma_write(self, tx: Vec<u8>, deadline: u64) -> (r: Result<Transfer, Rejected>)
        ensures
            start_outcome(self, r, Role::Slave, true, tx@, Seq::empty(), true, false, None, deadline),
    {
        start(self, Role::Slave, true, tx, Vec::new(), true, false, None, deadline)
    }
}

/// `a` and `b` are one transfer but for what it has received and the ends of
/// chain it has seen.
pub open spec fn same_transfer(a: Transfer, b: Transfer) -> bool {
    &&& same_bus(a.spi, b.spi)
    &&& a.tx_buffer@ == b.tx_buffer@
    &&& a.registers == b.registers
    &&& a.tx_active == b.tx_active
    &&& a.rx_active == b.rx_active
    &&& a.deadline == b.deadline
}

/// The receive buffer after `m` bytes of `bytes` land at position `at`.
pub open spec fn deposit(buf: Seq<u8>, at: int, bytes: Seq<u8>, m: int) -> Seq<u8> {
    buf.take(at) + bytes.take(m) + buf.skip(at + m)
}

impl Transfer {
    /// Records bytes that the DMA engine wrote along the receive chain: they
    /// land after those received so far, as many as the buffer has room for.
    /// The receive direction reaches its end of chain once the buffer is full.
    pub fn deliver_rx(&mut self, bytes: &[u8])
        requires
            old(self).wf(),
        ensures
            final(self).wf(),
            same_transfer(*final(self), *old(self)),
            ({
                let room = old(self).rx_buffer.len() - old(self).received;
                let m = if bytes@.len() < room { bytes@.len() as int } else { room };
                &&& final(self).rx_buffer@ == deposit(old(self).rx_buffer@, old(self).received as int, bytes@, m)
                &&& final(self).received == old(self).received + m
            }),
            final(self).tx_eof == old(self).tx_eof,
            final(self).rx_eof == (old(self).rx_eof || (old(self).rx_active && final(self).received == final(self).rx_buffer.len())),
    {
        let ghost start_at = self.received as int;
        let ghost before = self.rx_buffer@;
        let mut j: usize = 0;
        while j < bytes.len() && self.received < self.rx_buffer.len()
            invariant
                self.wf(),
                same_transfer(*self, *old(self)),
                self.tx_eof == old(self).tx_eof,
                self.rx_eof == old(self).rx_eof,
                start_at == old(self).received,
                before == old(self).rx_buffer@,
                self.rx_buffer.len() == before.len(),
                self.received == start_at + j,
                j <= bytes@.len(),
                self.rx_buffer@ == deposit(before, start_at, bytes@, j as int),
            decreases bytes.len() - j,
        {
            let at = self.received;
            self.rx_buffer.set(at, bytes[j]);
            self.received = at + 1;
            j = j + 1;
            proof {
                assert(self.rx_buffer@ =~= deposit(before, start_at, bytes@, j as int));
            }
        }
        if self.rx_active && self.received == self.rx_buffer.len() {
            self.rx_eof = true;
        }
    }

    /// Folds in the end-of-chain flags that the hardware reports and tells
    /// whether the transfer is done, still running, or past its deadline at
    /// time `now`.
    pub fn poll(&mut self, tx_eof: bool, rx_eof: bool, now: u64) -> (r: TransferStatus)
        requires
            old(self).wf(),
        ensures
            final(self).wf(),
            same_transfer(*final(self), *old(self)),
            final(self).rx_buffer@ == old(self).rx_buffer@,
            final(self).received == old(self).received,
            final(self).tx_eof == (old(self).tx_eof || tx_eof),
            final(self).rx_eof == (old(self).rx_eof || rx_eof),
            r == if is_complete(*final(self)) {
                TransferStatus::Complete
            } else if now >= old(self).deadline {
                TransferStatus::TimedOut
            } else {
                TransferStatus::InProgress
            },
    {
        self.tx_eof = self.tx_eof || tx_eof;
        self.rx_eof = self.rx_eof || rx_eof;
        if (!self.tx_active || self.tx_eof) && (!self.rx_active || self.rx_eof) {
            TransferStatus::Complete
        } else if now >= self.deadline {
            TransferStatus::TimedOut
        } else {
            TransferStatus::InProgress
        }
    }

    /// Ends the transfer. Once every active chain has reached its end, the
    /// bus comes back with its channel idle, no chain bound and every
    /// descriptor owned by the CPU again, with both buffers. Otherwise the hardware has stalled: the error is `Timeout`,
    /// and the channel stays marked busy until it is configured anew.
    pub fn wait(self) -> (r: Result<(Spi, Vec<u8>, Vec<u8>), Rejected>)
        requires
            self.wf(),
        ensures
            r is Ok <==> is_complete(self),
            r matches Ok((spi, tx, rx)) ==> {
                let och = self.spi.dma.unwrap();
                let ch = spi.dma.unwrap();
                &&& spi.role == self.spi.role
                &&& spi.mode == self.spi.mode
                &&& spi.clock_divider == self.spi.clock_divider
                &&& spi.pins == self.spi.pins
                &&& spi.dma is Some
                &&& ch.channel_id == och.channel_id && ch.priority == och.priority && ch.circular == och.circular
                &&& handed_back(och.tx_descriptors@, ch.tx_descriptors@)
                &&& handed_back(och.rx_descriptors@, ch.rx_descriptors@)
                &&& !ch.busy
                &&& ch.tx_chain_len == 0 && ch.rx_chain_len == 0
                &&& tx@ == self.tx_buffer@
                &&& rx@ == self.rx_buffer@
            },
            r matches Err(j) ==> {
                &&& j.error == Error::Timeout
                &&& same_bus(j.spi, self.spi)
                &&& j.tx_buffer@ == self.tx_buffer@
                &&& j.rx_buffer@ == self.rx_buffer@
            },
    {
        let done = (!self.tx_active || self.tx_eof) && (!self.rx_active || self.rx_eof);
        let Transfer { spi, tx_buffer, rx_buffer, .. } = self;
        if !done {
            return Err(Rejected { error: Error::Timeout, spi, tx_buffer, rx_buffer });
        }
        let Spi { role, mode, clock_divider, pins, dma } = spi;
        let mut ch = dma.unwrap();
        ch.release();
        Ok((Spi { role, mode, clock_divider, pins, dma: Some(ch) }, tx_buffer, rx_buffer))
    }
}

/// While a transfer holds a bus and its channel, no other transfer can start
/// on them, whatever it asks for: the start reports `ResourceBusy`.
pub proof fn lemma_at_most_one_transfer(
    t: Transfer,
    role: Role,
    lines_ok: bool,
    tx_len: int,
    rx_len: int,
    tx_required: bool,
    rx_required: bool,
)
    requires
        t.wf(),
    ensures
        start_error(t.spi, role, lines_ok, tx_len, rx_len, tx_required, rx_required) == Some(Error::ResourceBusy),
{
}

} // verus!
