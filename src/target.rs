use vstd::prelude::*;
use crate::error::Error;
use crate::spi::Address;

verus! {

/// A device model on the far side of the bus: memory that half-duplex frames
/// write and read at the address of their address phase. It lets frames be
/// checked end to end without hardware.
pub struct MemoryTarget {
    pub memory: Vec<u8>,
}

/// `mem` with `data` stored from address `at` on.
pub open spec fn stored(mem: Seq<u8>, at: int, data: Seq<u8>) -> Seq<u8> {
    mem.take(at) + data + mem.skip(at + data.len())
}

/// The `len` bytes of `mem` from address `at` on.
pub open spec fn fetched(mem: Seq<u8>, at: int, len: int) -> Seq<u8> {
    mem.subrange(at, at + len)
}

/// The bytes from `at` to `at + len` lie in memory of `size` bytes.
pub open spec fn in_range(size: int, at: int, len: int) -> bool {
    at + len <= size
}

impl MemoryTarget {
    /// A target of `size` bytes, all `0xff` as erased flash reads.
    pub fn new(size: usize) -> (r: MemoryTarget)
        ensures
            r.memory@ == Seq::new(size as nat, |_i: int| 0xffu8),
    {
        let mut memory: Vec<u8> = Vec::new();
        while memory.len() < size
            invariant
                memory.len() <= size,
                forall|i: int| 0 <= i < memory.len() ==> memory@[i] == 0xffu8,
            decreases size - memory.len(),
        {
            memory.push(0xffu8);
        }
        proof {
            assert(memory@ =~= Seq::new(size as nat, |_i: int| 0xffu8));
        }
        MemoryTarget { memory }
    }

    /// Answers a write frame: stores `data` from the frame's address on. A
    /// frame that reaches past the memory is refused and changes nothing.
    pub fn write(&mut self, addr: Address, data: &[u8]) -> (r: Result<(), Error>)
        ensures
            r is Ok <==> in_range(old(self).memory.len() as int, addr.spec_value() as int, data@.len() as int),
            r is Ok ==> final(self).memory@ == stored(old(self).memory@, addr.spec_value() as int, data@),
            r is Err ==> r == Err::<(), Error>(Error::ConfigurationError) && final(self).memory@ == old(self).memory@,
    {
        let at = addr.value() as usize;
        if at > self.memory.len() || data.len() > self.memory.len() - at {
            return Err(Error::ConfigurationError);
        }
        let ghost before = self.memory@;
        let mut j: usize = 0;
        while j < data.len()
            invariant
                at + data@.len() <= before.len(),
                self.memory.len() == before.len(),
                j <= data@.len(),
                self.memory@ == before.take(at as int) + data@.take(j as int) + before.skip(at + j),
            decreases data.len() - j,
        {
            self.memory.set(at + j, data[j]);
            j = j + 1;
            proof {
                assert(self.memory@ =~= before.take(at as int) + data@.take(j as int) + before.skip(at + j));
            }
        }
        proof {
            assert(data@.take(j as int) =~= data@);
        }
        Ok(())
    }

    /// Answers a read frame of `len` bytes: the bytes stored from the frame's
    /// address on. A frame that reaches past the memory is refused.
    pub fn read(&self, addr: Address, len: usize) -> (r: Result<Vec<u8>, Error>)
        ensures
            r is Ok <==> in_range(self.memory.len() as int, addr.spec_value() as int, len as int),
            r matches Ok(v) ==> v@ == fetched(self.memory@, addr.spec_value() as int, len as int),
            r is Err ==> r == Err::<Vec<u8>, Error>(Error::ConfigurationError),
    {
        let at = addr.value() as usize;
        if at > self.memory.len() || len > self.memory.len() - at {
            return Err(Error::ConfigurationError);
        }
        let mut out: Vec<u8> = Vec::new();
        let mut j: usize = 0;
        while j < len
            invariant
                at + len <= self.memory.len(),
                j <= len,
                out@ == self.memory@.subrange(at as int, at + j),
            decreases len - j,
        {
            out.push(self.memory[at + j]);
            j = j + 1;
            proof {
                assert(out@ =~= self.memory@.subrange(at as int, at + j));
            }
        }
        Ok(out)
    }
}

/// Bytes written to a target at an address and read back from it with a
/// frame of the same address come back unchanged.
pub proof fn lemma_write_read_round_trip(mem: Seq<u8>, at: int, data: Seq<u8>)
    requires
        0 <= at,
        in_range(mem.len() as int, at, data.len() as int),
    ensures
        in_range(stored(mem, at, data).len() as int, at, data.len() as int),
        fetched(stored(mem, at, data), at, data.len() as int) == data,
{
    assert(fetched(stored(mem, at, data), at, data.len() as int) =~= data);
}

} // verus!
