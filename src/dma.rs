use vstd::prelude::*;
use crate::descriptor::{build_chain, ceil_div, is_chain, Descriptor, Owner, MAX_CHUNK_SIZE};
use crate::error::Error;

verus! {

/// One DMA channel with its own pools of descriptor slots for each direction.
/// `tx_chain_len` and `rx_chain_len` count the descriptors of the chain bound
/// to each direction (zero when none is); `busy` is set while a transfer
/// owns the channel.
pub struct DmaChannel {
    pub channel_id: u8,
    pub priority: u8,
    pub circular: bool,
    pub tx_descriptors: Vec<Descriptor>,
    pub rx_descriptors: Vec<Descriptor>,
    pub tx_chain_len: usize,
    pub rx_chain_len: usize,
    pub busy: bool,
}

/// Every slot of `s` is free: describes nothing and belongs to the CPU.
pub open spec fn all_free(s: Seq<Descriptor>) -> bool {
    forall|i: int| 0 <= i < s.len() ==> (#[trigger] s[i]).owner == Owner::Cpu && s[i].length == 0
        && !s[i].suc_eof && s[i].next is None
}

/// `a` and `b` hold the same settings and the same flags.
pub open spec fn same_settings(a: DmaChannel, b: DmaChannel) -> bool {
    a.channel_id == b.channel_id && a.priority == b.priority && a.circular == b.circular && a.busy == b.busy
}

/// `a` and `b` are the same channel in the same state.
pub open spec fn same_channel(a: DmaChannel, b: DmaChannel) -> bool {
    &&& same_settings(a, b)
    &&& a.tx_descriptors@ == b.tx_descriptors@
    &&& a.rx_descriptors@ == b.rx_descriptors@
    &&& a.tx_chain_len == b.tx_chain_len
    &&& a.rx_chain_len == b.rx_chain_len
}

/// Chain of `buf_len` bytes bound to a pool: the outcome of binding a
/// direction, in terms of the pool before (`old_pool`) and after (`pool`).
pub open spec fn bound_chain(old_pool: Seq<Descriptor>, pool: Seq<Descriptor>, k: int, buf_len: int, circular: bool) -> bool {
    &&& k == ceil_div(buf_len, MAX_CHUNK_SIZE as int)
    &&& pool.len() == old_pool.len()
    &&& is_chain(pool.take(k), buf_len, MAX_CHUNK_SIZE as int, circular)
    &&& pool.skip(k) == old_pool.skip(k)
}

/// A direction can take a buffer of `buf_len` bytes: the channel is idle, the
/// buffer is not empty and the pool has slots enough for its chain.
pub open spec fn can_bind(ch: DmaChannel, pool_len: int, buf_len: int) -> bool {
    !ch.busy && buf_len > 0 && ceil_div(buf_len, MAX_CHUNK_SIZE as int) <= pool_len
}

/// The error that binding a direction reports when it cannot.
pub open spec fn bind_error(ch: DmaChannel) -> Error {
    if ch.busy { Error::ResourceBusy } else { Error::ConfigurationError }
}

/// `pool` is `old_pool` with every descriptor owned by the CPU again and
/// nothing else changed.
pub open spec fn handed_back(old_pool: Seq<Descriptor>, pool: Seq<Descriptor>) -> bool {
    &&& pool.len() == old_pool.len()
    &&& forall|i: int| 0 <= i < pool.len() ==> #[trigger] pool[i] == (Descriptor { owner: Owner::Cpu, ..old_pool[i] })
}

fn hand_back(pool: &mut Vec<Descriptor>)
    ensures
        handed_back(old(pool)@, final(pool)@),
{
    let mut i: usize = 0;
    while i < pool.len()
        invariant
            pool.len() == old(pool).len(),
            i <= pool.len(),
            forall|j: int| 0 <= j < i ==> #[trigger] pool@[j] == (Descriptor { owner: Owner::Cpu, ..old(pool)@[j] }),
            forall|j: int| i <= j < pool.len() ==> #[trigger] pool@[j] == old(pool)@[j],
        decreases pool.len() - i,
    {
        let mut d = pool[i];
        d.owner = Owner::Cpu;
        pool.set(i, d);
        i = i + 1;
    }
}

fn free_pool(n: usize) -> (r: Vec<Descriptor>)
    ensures
        r.len() == n,
        all_free(r@),
{
    let mut v: Vec<Descriptor> = Vec::new();
    while v.len() < n
        invariant
            v.len() <= n,
            all_free(v@),
        decreases n - v.len(),
    {
        v.push(Descriptor::empty());
    }
    v
}

impl DmaChannel {
    /// An idle channel with `tx_slots` and `rx_slots` free descriptor slots.
    /// With `circular`, the chains it builds link their last descriptor back
    /// to the first.
    pub fn configure(channel_id: u8, circular: bool, tx_slots: usize, rx_slots: usize, priority: u8) -> (r: DmaChannel)
        ensures
            r.channel_id == channel_id,
            r.priority == priority,
            r.circular == circular,
            r.tx_descriptors.len() == tx_slots,
            r.rx_descriptors.len() == rx_slots,
            all_free(r.tx_descriptors@),
            all_free(r.rx_descriptors@),
            r.tx_chain_len == 0,
            r.rx_chain_len == 0,
            !r.busy,
    {
        DmaChannel {
            channel_id,
            priority,
            circular,
            tx_descriptors: free_pool(tx_slots),
            rx_descriptors: free_pool(rx_slots),
            tx_chain_len: 0,
            rx_chain_len: 0,
            busy: false,
        }
    }

    /// Ends the channel's part in a transfer: every descriptor of both pools
    /// goes back to the CPU, no chain stays bound, and the channel is idle.
    pub fn release(&mut self)
        ensures
            final(self).channel_id == old(self).channel_id,
            final(self).priority == old(self).priority,
            final(self).circular == old(self).circular,
            !final(self).busy,
            final(self).tx_chain_len == 0,
            final(self).rx_chain_len == 0,
            handed_back(old(self).tx_descriptors@, final(self).tx_descriptors@),
            handed_back(old(self).rx_descriptors@, final(self).rx_descriptors@),
    {
        hand_back(&mut self.tx_descriptors);
        hand_back(&mut self.rx_descriptors);
        self.tx_chain_len = 0;
        self.rx_chain_len = 0;
        self.busy = false;
    }

    /// Builds the chain for a buffer of `buf_len` bytes in the TX pool and
    /// binds it to the transmit direction; returns its descriptor count.
    pub fn bind_tx(&mut self, buf_len: usize) -> (r: Result<usize, Error>)
        ensures
            r is Ok <==> can_bind(*old(self), old(self).tx_descriptors.len() as int, buf_len as int),
            r is Err ==> r == Err::<usize, Error>(bind_error(*old(self))) && same_channel(*final(self), *old(self)),
            r matches Ok(k) ==> {
                &&& bound_chain(old(self).tx_descriptors@, final(self).tx_descriptors@, k as int, buf_len as int, old(self).circular)
                &&& final(self).tx_chain_len == k
                &&& same_settings(*final(self), *old(self))
                &&& final(self).rx_descriptors@ == old(self).rx_descriptors@
                &&& final(self).rx_chain_len == old(self).rx_chain_len
            },
    {
        if self.busy {
            return Err(Error::ResourceBusy);
        }
        if buf_len == 0 {
            return Err(Error::ConfigurationError);
        }
        let circular = self.circular;
        match build_chain(&mut self.tx_descriptors, buf_len, MAX_CHUNK_SIZE, circular) {
            Ok(k) => {
                self.tx_chain_len = k;
                Ok(k)
            },
            Err(e) => Err(e),
        }
    }

    /// Builds the chain for a buffer of `buf_len` bytes in the RX pool and
    /// binds it to the receive direction; returns its descriptor count.
    pub fn bind_rx(&mut self, buf_len: usize) -> (r: Result<usize, Error>)
        ensures
            r is Ok <==> can_bind(*old(self), old(self).rx_descriptors.len() as int, buf_len as int),
            r is Err ==> r == Err::<usize, Error>(bind_error(*old(self))) && same_channel(*final(self), *old(self)),
            r matches Ok(k) ==> {
                &&& bound_chain(old(self).rx_descriptors@, final(self).rx_descriptors@, k as int, buf_len as int, old(self).circular)
                &&& final(self).rx_chain_len == k
                &&& same_settings(*final(self), *old(self))
                &&& final(self).tx_descriptors@ == old(self).tx_descriptors@
                &&& final(self).tx_chain_len == old(self).tx_chain_len
            },
    {
        if self.busy {
            return Err(Error::ResourceBusy);
        }
        if buf_len == 0 {
            return Err(Error::ConfigurationError);
        }
        let circular = self.circular;
        match build_chain(&mut self.rx_descriptors, buf_len, MAX_CHUNK_SIZE, circular) {
            Ok(k) => {
                self.rx_chain_len = k;
                Ok(k)
            },
            Err(e) => Err(e),
        }
    }
}

} // verus!
