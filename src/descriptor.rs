use vstd::prelude::*;
use crate::error::Error;

verus! {

/// Largest number of bytes one hardware descriptor can describe.
pub const MAX_CHUNK_SIZE: usize = 4092;

/// Who may touch a descriptor: the CPU, or the DMA engine while a transfer
/// is in flight.
#[derive(Clone, Copy, Debug, PartialEq, Eq, Structural)]
pub enum Owner {
    Cpu,
    Dma,
}

/// One hardware descriptor: a chunk of a buffer, given by its byte offset
/// into that buffer and its length, with the end-of-frame flag and the link
/// to the next descriptor of the chain (an index into the slot array).
#[derive(Clone, Copy, Debug)]
pub struct Descriptor {
    pub offset: usize,
    pub length: u16,
    pub owner: Owner,
    pub suc_eof: bool,
    pub next: Option<usize>,
}

impl Descriptor {
    /// A descriptor that describes nothing and belongs to the CPU.
    pub fn empty() -> (r: Descriptor)
        ensures
            r.offset == 0,
            r.length == 0,
            r.owner == Owner::Cpu,
            !r.suc_eof,
            r.next is None,
    {
        Descriptor { offset: 0, length: 0, owner: Owner::Cpu, suc_eof: false, next: None }
    }
}

/// The ceiling of `n / c`: the number of chunks of at most `c` bytes that
/// cover `n` bytes.
pub open spec fn ceil_div(n: int, c: int) -> int
    recommends
        0 <= n,
        0 < c,
{
    n / c + if n % c == 0 { 0int } else { 1int }
}

/// The `i`-th descriptor of a chain of `k` descriptors that covers `n` bytes
/// in chunks of `c`: full chunks but for the last, which holds the rest.
pub open spec fn laid_out(d: Descriptor, n: int, c: int, i: int, k: int, circular: bool) -> bool {
    &&& d.offset == i * c
    &&& d.length == if i < k - 1 { c } else { n - i * c }
    &&& d.owner == Owner::Dma
    &&& d.suc_eof == (i == k - 1)
    &&& d.next == if i < k - 1 {
        Some((i + 1) as usize)
    } else if circular {
        Some(0usize)
    } else {
        None
    }
}

/// `s` is the descriptor chain for a buffer of `n` bytes cut in chunks of `c`.
pub open spec fn is_chain(s: Seq<Descriptor>, n: int, c: int, circular: bool) -> bool {
    &&& s.len() == ceil_div(n, c)
    &&& forall|i: int| #![trigger s[i]] 0 <= i < s.len() ==> laid_out(s[i], n, c, i, s.len() as int, circular)
}

/// A chunk size that one descriptor can describe.
pub open spec fn valid_chunk_size(c: int) -> bool {
    0 < c <= MAX_CHUNK_SIZE
}

/// Sum of the lengths of the descriptors of `s`.
pub open spec fn total_length(s: Seq<Descriptor>) -> int
    decreases s.len(),
{
    if s.len() == 0 {
        0
    } else {
        total_length(s.drop_last()) + s.last().length
    }
}

/// `k` is the ceiling of `n / c`: the least multiple of `c` that reaches `n`.
pub proof fn lemma_ceil_div_bounds(n: int, c: int)
    requires
        0 <= n,
        0 < c,
    ensures
        ceil_div(n, c) >= 0,
        ceil_div(n, c) * c >= n,
        ceil_div(n, c) > 0 ==> (ceil_div(n, c) - 1) * c < n,
        n == 0 <==> ceil_div(n, c) == 0,
{
    let q = n / c;
    let r = n % c;
    vstd::arithmetic::div_mod::lemma_fundamental_div_mod(n, c);
    assert(0 <= r < c) by {
        vstd::arithmetic::div_mod::lemma_mod_bound(n, c);
    }
    assert(q >= 0) by {
        vstd::arithmetic::div_mod::lemma_div_pos_is_pos(n, c);
    }
    let k = ceil_div(n, c);
    assert(k * c >= n && (k > 0 ==> (k - 1) * c < n)) by (nonlinear_arith)
        requires
            n == c * q + r,
            0 <= r < c,
            q >= 0,
            k == q + if r == 0 { 0int } else { 1int },
    ;
    if n == 0 {
        assert(q == 0) by (nonlinear_arith)
            requires
                0 == c * q + r,
                0 <= r < c,
                q >= 0,
        ;
    }
}

/// Below the last chunk every chunk is full; the last holds at most `c` bytes.
proof fn lemma_chunk_position(n: int, c: int, i: int)
    requires
        0 <= n,
        0 < c,
        0 <= i < ceil_div(n, c),
    ensures
        0 <= i * c < n,
        i < ceil_div(n, c) - 1 ==> n - i * c > c,
        i == ceil_div(n, c) - 1 ==> n - i * c <= c,
{
    lemma_ceil_div_bounds(n, c);
    let k = ceil_div(n, c);
    assert(0 <= i * c <= (k - 1) * c) by (nonlinear_arith)
        requires
            0 <= i <= k - 1,
            0 < c,
    ;
    if i < k - 1 {
        assert((i + 1) * c <= (k - 1) * c) by (nonlinear_arith)
            requires
                i + 1 <= k - 1,
                0 < c,
        ;
        assert((i + 1) * c == i * c + c) by (nonlinear_arith);
    }
    if i == k - 1 {
        assert(k * c == i * c + c) by (nonlinear_arith)
            requires
                i == k - 1,
        ;
    }
}

/// Writes into `slots` the chain that covers a buffer of `buf_len` bytes in
/// chunks of `chunk_size`, and returns the number of descriptors used. The
/// last links back to the first when `circular`, and ends the chain
/// otherwise. When the slots cannot hold the chain, or the chunk size is out
/// of range, nothing is written.
pub fn build_chain(slots: &mut Vec<Descriptor>, buf_len: usize, chunk_size: usize, circular: bool) -> (r: Result<usize, Error>)
    ensures
        r is Ok <==> valid_chunk_size(chunk_size as int)
            && ceil_div(buf_len as int, chunk_size as int) <= old(slots).len(),
        r is Err ==> r == Err::<usize, Error>(Error::ConfigurationError) && final(slots)@ == old(slots)@,
        r matches Ok(k) ==> {
            &&& k == ceil_div(buf_len as int, chunk_size as int)
            &&& final(slots).len() == old(slots).len()
            &&& is_chain(final(slots)@.take(k as int), buf_len as int, chunk_size as int, circular)
            &&& final(slots)@.skip(k as int) == old(slots)@.skip(k as int)
        },
{
    if chunk_size == 0 || chunk_size > MAX_CHUNK_SIZE {
        return Err(Error::ConfigurationError);
    }
    let quotient: usize = buf_len / chunk_size;
    let needed: usize = if buf_len % chunk_size == 0 {
        quotient
    } else {
        proof {
            let q = quotient as int;
            let c = chunk_size as int;
            vstd::arithmetic::div_mod::lemma_fundamental_div_mod(buf_len as int, c);
            assert(q < buf_len) by (nonlinear_arith)
                requires
                    buf_len as int == c * q + buf_len as int % c,
                    buf_len as int % c > 0,
                    c >= 1,
                    q >= 0,
            ;
        }
        quotient + 1
    };
    if needed > slots.len() {
        return Err(Error::ConfigurationError);
    }
    proof {
        lemma_ceil_div_bounds(buf_len as int, chunk_size as int);
    }
    let ghost n = buf_len as int;
    let ghost c = chunk_size as int;
    let ghost k = needed as int;
    let mut i: usize = 0;
    let mut offset: usize = 0;
    while i < needed
        invariant
            valid_chunk_size(c),
            n == buf_len,
            c == chunk_size,
            k == needed,
            k == ceil_div(n, c),
            k <= old(slots).len(),
            0 <= i <= k,
            i < k ==> offset == i * c,
            slots.len() == old(slots).len(),
            forall|j: int| 0 <= j < i ==> #[trigger] laid_out(slots@[j], n, c, j, k, circular),
            forall|j: int| k <= j < slots.len() ==> slots@[j] == old(slots)@[j],
        decreases needed - i,
    {
        proof {
            lemma_chunk_position(n, c, i as int);
        }
        let remaining: usize = buf_len - offset;
        let last = remaining <= chunk_size;
        let length: u16 = if last { remaining as u16 } else { chunk_size as u16 };
        let next: Option<usize> = if !last {
            Some(i + 1)
        } else if circular {
            Some(0)
        } else {
            None
        };
        slots.set(i, Descriptor { offset, length, owner: Owner::Dma, suc_eof: last, next });
        if i + 1 < needed {
            proof {
                lemma_chunk_position(n, c, i + 1);
                assert((i + 1) * c == i * c + c) by (nonlinear_arith);
            }
            offset = offset + chunk_size;
        }
        i = i + 1;
    }
    proof {
        let s = slots@.take(k);
        assert forall|j: int| 0 <= j < s.len() implies #[trigger] laid_out(s[j], n, c, j, s.len() as int, circular) by {
            assert(s[j] == slots@[j]);
        }
        assert(slots@.skip(k) =~= old(slots)@.skip(k));
    }
    Ok(needed)
}

/// The first `j` descriptors of a chain, all full, cover `j * c` bytes.
proof fn lemma_prefix_total(s: Seq<Descriptor>, n: int, c: int, circular: bool, j: int)
    requires
        0 <= n,
        0 < c,
        is_chain(s, n, c, circular),
        0 <= j < s.len(),
    ensures
        total_length(s.take(j)) == j * c,
    decreases j,
{
    if j > 0 {
        lemma_prefix_total(s, n, c, circular, j - 1);
        assert(s.take(j).drop_last() =~= s.take(j - 1));
        assert(laid_out(s[j - 1], n, c, j - 1, s.len() as int, circular));
        assert(s.take(j).last() == s[j - 1]);
        assert(j * c == (j - 1) * c + c) by (nonlinear_arith);
    } else {
        assert(s.take(j).len() == 0);
    }
}

/// A chain built for `n` bytes in chunks of `c` has the ceiling of `n / c`
/// descriptors, whose lengths add up to `n`, none longer than `c`, and only
/// the last of which carries the end-of-frame flag.
pub proof fn lemma_chain_covers_buffer(s: Seq<Descriptor>, n: int, c: int, circular: bool)
    requires
        0 <= n,
        0 < c,
        is_chain(s, n, c, circular),
    ensures
        s.len() == ceil_div(n, c),
        s.len() * c >= n,
        s.len() > 0 ==> (s.len() - 1) * c < n,
        total_length(s) == n,
        forall|i: int| 0 <= i < s.len() ==> #[trigger] s[i].length <= c,
        forall|i: int| 0 <= i < s.len() ==> (#[trigger] s[i].suc_eof <==> i == s.len() - 1),
{
    lemma_ceil_div_bounds(n, c);
    let k = s.len() as int;
    assert forall|i: int| 0 <= i < s.len() implies #[trigger] s[i].length <= c by {
        assert(laid_out(s[i], n, c, i, k, circular));
        lemma_chunk_position(n, c, i);
    }
    assert forall|i: int| 0 <= i < s.len() implies (#[trigger] s[i].suc_eof <==> i == s.len() - 1) by {
        assert(laid_out(s[i], n, c, i, k, circular));
    }
    if k > 0 {
        lemma_prefix_total(s, n, c, circular, k - 1);
        assert(s.take(k) =~= s);
        assert(s.take(k).drop_last() =~= s.take(k - 1));
        assert(laid_out(s[k - 1], n, c, k - 1, k, circular));
    }
}

} // verus!
