use vstd::prelude::*;
use crate::descriptor::ceil_div;
use crate::error::Error;
use crate::spi::{encode_phases, lines_for, spec_phase_registers, Address, Command, Direction, PhaseRegisters, Role, Spi, SpiDataMode};

verus! {

/// Bytes the peripheral's data FIFO holds: sixteen 32-bit words.
pub const FIFO_DEPTH: usize = 64;

/// Byte `i` of `data`, or zero past its end, as a word.
pub open spec fn byte_or_zero(data: Seq<u8>, i: int) -> u32 {
    if 0 <= i < data.len() { data[i] as u32 } else { 0 }
}

/// FIFO word `w` for `data`: bytes `4w` to `4w + 3`, least significant first.
pub open spec fn fifo_word(data: Seq<u8>, w: int) -> u32 {
    byte_or_zero(data, 4 * w) | (byte_or_zero(data, 4 * w + 1) << 8u32) | (byte_or_zero(data, 4 * w + 2) << 16u32)
        | (byte_or_zero(data, 4 * w + 3) << 24u32)
}

/// The FIFO words that carry `data`.
pub open spec fn fifo_words(data: Seq<u8>) -> Seq<u32> {
    Seq::new(ceil_div(data.len() as int, 4) as nat, |w: int| fifo_word(data, w))
}

/// Byte `i` as the FIFO words hold it.
pub open spec fn fifo_byte(words: Seq<u32>, i: int) -> u8 {
    ((words[i / 4] >> (8 * (i % 4)) as u32) & 0xffu32) as u8
}

/// Packs `data` into FIFO words, four bytes to a word, least significant
/// first; the last word is padded with zeros.
pub fn pack_fifo(data: &[u8]) -> (r: Vec<u32>)
    requires
        data@.len() <= FIFO_DEPTH,
    ensures
        r@ == fifo_words(data@),
{
    let n = data.len();
    let mut words: Vec<u32> = Vec::new();
    let mut w: usize = 0;
    while w * 4 < n
        invariant
            n == data@.len(),
            n <= FIFO_DEPTH,
            words.len() == w,
            w * 4 < n + 4,
            forall|k: int| 0 <= k < w ==> words@[k] == fifo_word(data@, k),
        decreases n + 4 - w * 4,
    {
        let base = w * 4;
        let b0: u32 = data[base] as u32;
        let b1: u32 = if base + 1 < n { data[base + 1] as u32 } else { 0 };
        let b2: u32 = if base + 2 < n { data[base + 2] as u32 } else { 0 };
        let b3: u32 = if base + 3 < n { data[base + 3] as u32 } else { 0 };
        words.push(b0 | (b1 << 8u32) | (b2 << 16u32) | (b3 << 24u32));
        w = w + 1;
    }
    proof {
        let spec_words = fifo_words(data@);
        assert(w == ceil_div(n as int, 4));
        assert(words@ =~= spec_words);
    }
    words
}

/// Unpacks the first `len` bytes that the FIFO words hold.
pub fn unpack_fifo(words: &[u32], len: usize) -> (r: Vec<u8>)
    requires
        len <= 4 * words@.len(),
    ensures
        r@.len() == len,
        forall|i: int| 0 <= i < len ==> r@[i] == fifo_byte(words@, i),
{
    let mut out: Vec<u8> = Vec::new();
    let mut i: usize = 0;
    while i < len
        invariant
            len <= 4 * words@.len(),
            out.len() == i,
            i <= len,
            forall|k: int| 0 <= k < i ==> out@[k] == fifo_byte(words@, k),
        decreases len - i,
    {
        let shift: u32 = (8 * (i % 4)) as u32;
        out.push(((words[i / 4] >> shift) & 0xffu32) as u8);
        i = i + 1;
    }
    out
}

proof fn lemma_word_bytes(b0: u32, b1: u32, b2: u32, b3: u32)
    requires
        b0 < 256,
        b1 < 256,
        b2 < 256,
        b3 < 256,
    ensures
        ((b0 | (b1 << 8u32) | (b2 << 16u32) | (b3 << 24u32)) >> 0u32) & 0xffu32 == b0,
        ((b0 | (b1 << 8u32) | (b2 << 16u32) | (b3 << 24u32)) >> 8u32) & 0xffu32 == b1,
        ((b0 | (b1 << 8u32) | (b2 << 16u32) | (b3 << 24u32)) >> 16u32) & 0xffu32 == b2,
        ((b0 | (b1 << 8u32) | (b2 << 16u32) | (b3 << 24u32)) >> 24u32) & 0xffu32 == b3,
{
    assert(((b0 | (b1 << 8u32) | (b2 << 16u32) | (b3 << 24u32)) >> 0u32) & 0xffu32 == b0) by (bit_vector)
        requires
            b0 < 256,
            b1 < 256,
            b2 < 256,
            b3 < 256,
    ;
    assert(((b0 | (b1 << 8u32) | (b2 << 16u32) | (b3 << 24u32)) >> 8u32) & 0xffu32 == b1) by (bit_vector)
        requires
            b0 < 256,
            b1 < 256,
            b2 < 256,
            b3 < 256,
    ;
    assert(((b0 | (b1 << 8u32) | (b2 << 16u32) | (b3 << 24u32)) >> 16u32) & 0xffu32 == b2) by (bit_vector)
        requires
            b0 < 256,
            b1 < 256,
            b2 < 256,
            b3 < 256,
    ;
    assert(((b0 | (b1 << 8u32) | (b2 << 16u32) | (b3 << 24u32)) >> 24u32) & 0xffu32 == b3) by (bit_vector)
        requires
            b0 < 256,
            b1 < 256,
            b2 < 256,
            b3 < 256,
    ;
}

/// Bytes packed into FIFO words and read back out of them come back
/// unchanged.
pub proof fn lemma_fifo_round_trip(data: Seq<u8>)
    ensures
        fifo_words(data).len() * 4 >= data.len(),
        forall|i: int| 0 <= i < data.len() ==> #[trigger] fifo_byte(fifo_words(data), i) == data[i],
{
    crate::descriptor::lemma_ceil_div_bounds(data.len() as int, 4);
    assert forall|i: int| 0 <= i < data.len() implies #[trigger] fifo_byte(fifo_words(data), i) == data[i] by {
        let w = i / 4;
        let j = i % 4;
        assert(i == 4 * w + j);
        assert(0 <= w < ceil_div(data.len() as int, 4)) by {
            assert(w * 4 <= i);
            assert(ceil_div(data.len() as int, 4) * 4 >= data.len());
        }
        let b0 = byte_or_zero(data, 4 * w);
        let b1 = byte_or_zero(data, 4 * w + 1);
        let b2 = byte_or_zero(data, 4 * w + 2);
        let b3 = byte_or_zero(data, 4 * w + 3);
        lemma_word_bytes(b0, b1, b2, b3);
        assert(fifo_words(data)[w] == fifo_word(data, w));
    }
}

impl Spi {
    /// Frames a synchronous FIFO read of `len` bytes, which bypasses DMA:
    /// command, address, `dummy` idle cycles of bus turnaround, then the
    /// data. The master role and the lines for each phase's mode are needed,
    /// and the data must fit in the FIFO.
    pub fn fifo_read_frame(&self, data_mode: SpiDataMode, cmd: Command, addr: Address, dummy: u8, len: usize) -> (r: Result<PhaseRegisters, Error>)
        ensures
            r == if self.role != Role::Master || !(lines_for(self.pins, data_mode) && lines_for(self.pins, cmd.spec_mode())
                && lines_for(self.pins, addr.spec_mode())) {
                Err(Error::ConfigurationError)
            } else if len > FIFO_DEPTH {
                Err(Error::FifoOverflow)
            } else {
                Ok(spec_phase_registers(data_mode, cmd, addr, dummy, Direction::Read))
            },
    {
        let master = match self.role {
            Role::Master => true,
            Role::Slave => false,
        };
        if !master || !(self.pins.supports(data_mode) && self.pins.supports(cmd.mode()) && self.pins.supports(addr.mode())) {
            return Err(Error::ConfigurationError);
        }
        if len > FIFO_DEPTH {
            return Err(Error::FifoOverflow);
        }
        Ok(encode_phases(data_mode, cmd, addr, dummy, Direction::Read))
    }
}

} // verus!
