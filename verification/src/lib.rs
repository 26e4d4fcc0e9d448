pub mod chacha20;
pub mod dist;
pub mod romu;
pub mod splitmix;
pub mod words;
pub mod xorshift;

use vstd::prelude::*;

verus! {

/// A deterministic block generator: one operation that fills a caller-owned
/// buffer with the next fixed-size block of words and advances the internal
/// state, the only mutation path. `next_block_spec` and `next_state_spec`
/// pin both the block produced and the successor state, so a generator's
/// entire output sequence is a function of its current state.
pub trait Generator<U: View>: Sized {
    /// Well-formedness of the generator's state, established by its
    /// constructors and preserved by block production.
    spec fn wf(&self) -> bool;

    /// The block that the next call to `next_gen` will produce.
    spec fn next_block_spec(&self) -> <U as View>::V;

    /// The state that the next call to `next_gen` will leave behind.
    spec fn next_state_spec(&self) -> Self;

    /// Fills `out` with the next block and advances the state.
    fn next_gen(&mut self, out: &mut U)
        requires
            old(self).wf(),
        ensures
            final(self).wf(),
            final(out)@ == old(self).next_block_spec(),
            *final(self) == old(self).next_state_spec(),
    ;
}

/// Failure conditions of the library's fallible operations.
#[derive(Clone, Copy, Debug, PartialEq, Eq, Structural)]
pub enum RngError {
    /// Seed material was shorter than the generator requires.
    InsufficientSeedData,
    /// A seek target was not a multiple of the generator's block size in bytes.
    InvalidSeek,
    /// A bounded sampler was given an upper bound of zero.
    InvalidBound,
}

/// A source of uniform 32-bit words, consumed one word per call by the
/// samplers. Nothing is assumed about the values returned: every consumer
/// states what holds of its own result for all possible words.
pub trait WordSource: Sized {
    /// Whether the source is in a state fit to produce words, established by
    /// its constructor and preserved by every draw.
    spec fn ready(&self) -> bool;

    /// The next 32-bit word of the source.
    fn next_word(&mut self) -> (r: u32)
        requires
            old(self).ready(),
        ensures
            final(self).ready(),
    ;
}

/// Byte `i` of a block of 32-bit words laid out little-endian.
pub open spec fn block32_byte(buf: Seq<u32>, i: int) -> u8
    recommends
        0 <= i < 4 * buf.len(),
{
    words::word32_byte(buf[i / 4], i % 4)
}

/// Byte `i` of a block of 64-bit words laid out little-endian.
pub open spec fn block64_byte(buf: Seq<u64>, i: int) -> u8
    recommends
        0 <= i < 8 * buf.len(),
{
    words::word64_byte(buf[i / 8], i % 8)
}

/// Byte `k` of the infinite byte sequence determined by a generator `g`, a
/// buffered block `buf`, and a cursor `cur` into that block: bytes still
/// buffered come first, then the generator's future blocks in order.
pub open spec fn stream32_byte<R: Generator<[u32; N]>, const N: usize>(
    g: R,
    buf: Seq<u32>,
    cur: int,
    k: int,
) -> u8
    decreases k, (if cur >= 4 * buf.len() { 1int } else { 0int }),
{
    if k < 0 || cur < 0 {
        0u8
    } else if cur >= 4 * buf.len() {
        let nb = g.next_block_spec();
        if nb.len() > 0 {
            stream32_byte::<R, N>(g.next_state_spec(), nb, 0, k)
        } else {
            0u8
        }
    } else if k == 0 {
        block32_byte(buf, cur)
    } else {
        stream32_byte::<R, N>(g, buf, cur + 1, k - 1)
    }
}

/// Byte `k` of the byte sequence of a 64-bit-word generator, as
/// `stream32_byte` for 32-bit words.
pub open spec fn stream64_byte<R: Generator<[u64; N]>, const N: usize>(
    g: R,
    buf: Seq<u64>,
    cur: int,
    k: int,
) -> u8
    decreases k, (if cur >= 8 * buf.len() { 1int } else { 0int }),
{
    if k < 0 || cur < 0 {
        0u8
    } else if cur >= 8 * buf.len() {
        let nb = g.next_block_spec();
        if nb.len() > 0 {
            stream64_byte::<R, N>(g.next_state_spec(), nb, 0, k)
        } else {
            0u8
        }
    } else if k == 0 {
        block64_byte(buf, cur)
    } else {
        stream64_byte::<R, N>(g, buf, cur + 1, k - 1)
    }
}

/// A generator of 32-bit word blocks exposed as an unbounded byte stream:
/// the most recently produced block plus a byte cursor; a cursor at the end
/// of the block forces a refill before the next byte.
pub struct Buffer32<R, const N: usize> {
    pub gen: R,
    pub ubuf: [u32; N],
    pub cur: usize,
}

impl<R: Generator<[u32; N]>, const N: usize> Buffer32<R, N> {
    /// The cursor never runs past the buffered block, the block is not
    /// empty, and its byte length is representable.
    pub open spec fn wf(&self) -> bool {
        &&& self.gen.wf()
        &&& N >= 1
        &&& 4 * N <= usize::MAX
        &&& self.cur <= 4 * N
    }

    /// Byte `k` of the remaining byte stream.
    pub open spec fn byte_at(&self, k: int) -> u8 {
        stream32_byte::<R, N>(self.gen, self.ubuf@, self.cur as int, k)
    }

    /// The first `n` bytes of the remaining byte stream.
    pub open spec fn stream_take(&self, n: int) -> Seq<u8> {
        Seq::new(if n >= 0 { n as nat } else { 0nat }, |k: int| self.byte_at(k))
    }

    /// Wraps a generator; the cursor starts at the end of a zeroed block, so
    /// the first byte request refills from the generator.
    pub fn new(gen: R) -> (r: Buffer32<R, N>)
        requires
            gen.wf(),
            N >= 1,
            4 * N <= usize::MAX,
        ensures
            r.wf(),
            r.gen == gen,
            r.cur == 4 * N,
    {
        let ubuf: [u32; N] = vstd::array::array_fill_for_copy_types::<u32, N>(0u32);
        let cur = u32_slice_bytes_len(ubuf.as_slice());
        Buffer32 { gen, ubuf, cur }
    }

    /// Builds the generator from seed material through its `From`
    /// conversion, then wraps it as `new` does.
    pub fn from<S>(seed: S) -> (r: Buffer32<R, N>) where R: From<S>
        requires
            N >= 1,
            4 * N <= usize::MAX,
        ensures
            call_ensures(R::from, (seed,), r.gen),
            r.cur == 4 * N,
            r.gen.wf() ==> r.wf(),
    {
        let gen = R::from(seed);
        let ubuf: [u32; N] = vstd::array::array_fill_for_copy_types::<u32, N>(0u32);
        let cur = u32_slice_bytes_len(ubuf.as_slice());
        Buffer32 { gen, ubuf, cur }
    }

    /// The next byte of the stream: refills the block from the generator
    /// when the cursor has consumed it, then yields byte
    /// `cursor mod 4` of word `cursor / 4`, little-endian.
    pub fn next_byte(&mut self) -> (r: u8)
        requires
            old(self).wf(),
        ensures
            final(self).wf(),
            r == old(self).byte_at(0),
            forall|k: int| 0 <= k ==> final(self).byte_at(k) == old(self).byte_at(k + 1),
    {
        let len = 4 * N;
        if self.cur >= len {
            let ghost g0 = self.gen;
            self.gen.next_gen(&mut self.ubuf);
            self.cur = 1;
            let b = words::extract_word32_byte(self.ubuf[0], 0);
            proof {
                let nb = g0.next_block_spec();
                assert(self.ubuf@ == nb && nb.len() == N);
                assert forall|k: int| 0 <= k implies self.byte_at(k) == old(self).byte_at(k + 1) by {
                    assert(old(self).byte_at(k + 1) == stream32_byte::<R, N>(
                        g0.next_state_spec(),
                        nb,
                        0,
                        k + 1,
                    ));
                    assert(stream32_byte::<R, N>(g0.next_state_spec(), nb, 0, k + 1)
                        == stream32_byte::<R, N>(g0.next_state_spec(), nb, 1, k));
                }
                assert(old(self).byte_at(0) == stream32_byte::<R, N>(g0.next_state_spec(), nb, 0, 0));
            }
            return b;
        }
        let idx = self.cur / 4;
        let sh = self.cur % 4;
        let b = words::extract_word32_byte(self.ubuf[idx], sh);
        self.cur = self.cur + 1;
        proof {
            assert forall|k: int| 0 <= k implies self.byte_at(k) == old(self).byte_at(k + 1) by {
                assert(old(self).byte_at(k + 1) == stream32_byte::<R, N>(
                    self.gen,
                    self.ubuf@,
                    old(self).cur + 1,
                    k,
                ));
            }
        }
        b
    }

    /// Reads `n` bytes: returns the first `n` bytes of the remaining stream
    /// and leaves the stream positioned exactly `n` bytes further, so
    /// consecutive reads concatenate without gaps or duplicates.
    pub fn read_bytes(&mut self, n: usize) -> (r: Vec<u8>)
        requires
            old(self).wf(),
        ensures
            final(self).wf(),
            r@ == old(self).stream_take(n as int),
            forall|k: int| 0 <= k ==> final(self).byte_at(k) == old(self).byte_at(k + n),
    {
        let ghost orig = *self;
        let mut r: Vec<u8> = Vec::new();
        let mut i: usize = 0;
        while i < n
            invariant
                self.wf(),
                i <= n,
                r@.len() == i,
                forall|j: int| 0 <= j < i ==> r@[j] == orig.byte_at(j),
                forall|k: int| 0 <= k ==> self.byte_at(k) == orig.byte_at(k + i),
            decreases n - i,
        {
            let b = self.next_byte();
            r.push(b);
            i = i + 1;
        }
        proof {
            assert(r@ =~= orig.stream_take(n as int));
        }
        r
    }
}

impl<R: Generator<[u32; N]>, const N: usize> WordSource for Buffer32<R, N> {
    open spec fn ready(&self) -> bool {
        self.wf()
    }

    /// The word is the next four stream bytes assembled little-endian, and
    /// the stream advances past exactly those four bytes.
    fn next_word(&mut self) -> (r: u32)
        ensures
            r == words::le_word32(
                old(self).byte_at(0),
                old(self).byte_at(1),
                old(self).byte_at(2),
                old(self).byte_at(3),
            ),
            forall|k: int| 0 <= k ==> final(self).byte_at(k) == old(self).byte_at(k + 4),
    {
        let b0 = self.next_byte();
        let b1 = self.next_byte();
        let b2 = self.next_byte();
        let b3 = self.next_byte();
        b0 as u32 + b1 as u32 * 0x100 + b2 as u32 * 0x1_0000 + b3 as u32 * 0x100_0000
    }
}

/// A generator of 64-bit word blocks exposed as an unbounded byte stream,
/// as `Buffer32` for 32-bit words.
pub struct Buffer64<R, const N: usize> {
    pub gen: R,
    pub ubuf: [u64; N],
    pub cur: usize,
}

impl<R: Generator<[u64; N]>, const N: usize> Buffer64<R, N> {
    /// The cursor never runs past the buffered block, the block is not
    /// empty, and its byte length is representable.
    pub open spec fn wf(&self) -> bool {
        &&& self.gen.wf()
        &&& N >= 1
        &&& 8 * N <= usize::MAX
        &&& self.cur <= 8 * N
    }

    /// Byte `k` of the remaining byte stream.
    pub open spec fn byte_at(&self, k: int) -> u8 {
        stream64_byte::<R, N>(self.gen, self.ubuf@, self.cur as int, k)
    }

    /// The first `n` bytes of the remaining byte stream.
    pub open spec fn stream_take(&self, n: int) -> Seq<u8> {
        Seq::new(if n >= 0 { n as nat } else { 0nat }, |k: int| self.byte_at(k))
    }

    /// Wraps a generator; the cursor starts at the end of a zeroed block, so
    /// the first byte request refills from the generator.
    pub fn new(gen: R) -> (r: Buffer64<R, N>)
        requires
            gen.wf(),
            N >= 1,
            8 * N <= usize::MAX,
        ensures
            r.wf(),
            r.gen == gen,
            r.cur == 8 * N,
    {
        let ubuf: [u64; N] = vstd::array::array_fill_for_copy_types::<u64, N>(0u64);
        let cur = u64_slice_bytes_len(ubuf.as_slice());
        Buffer64 { gen, ubuf, cur }
    }

    /// Builds the generator from seed material through its `From`
    /// conversion, then wraps it as `new` does.
    pub fn from<S>(seed: S) -> (r: Buffer64<R, N>) where R: From<S>
        requires
            N >= 1,
            8 * N <= usize::MAX,
        ensures
            call_ensures(R::from, (seed,), r.gen),
            r.cur == 8 * N,
            r.gen.wf() ==> r.wf(),
    {
        let gen = R::from(seed);
        let ubuf: [u64; N] = vstd::array::array_fill_for_copy_types::<u64, N>(0u64);
        let cur = u64_slice_bytes_len(ubuf.as_slice());
        Buffer64 { gen, ubuf, cur }
    }

    /// The next byte of the stream: refills the block from the generator
    /// when the cursor has consumed it, then yields byte
    /// `cursor mod 8` of word `cursor / 8`, little-endian.
    pub fn next_byte(&mut self) -> (r: u8)
        requires
            old(self).wf(),
        ensures
            final(self).wf(),
            r == old(self).byte_at(0),
            forall|k: int| 0 <= k ==> final(self).byte_at(k) == old(self).byte_at(k + 1),
    {
        let len = 8 * N;
        if self.cur >= len {
            let ghost g0 = self.gen;
            self.gen.next_gen(&mut self.ubuf);
            self.cur = 1;
            let b = words::extract_word64_byte(self.ubuf[0], 0);
            proof {
                let nb = g0.next_block_spec();
                assert(self.ubuf@ == nb && nb.len() == N);
                assert forall|k: int| 0 <= k implies self.byte_at(k) == old(self).byte_at(k + 1) by {
                    assert(old(self).byte_at(k + 1) == stream64_byte::<R, N>(
                        g0.next_state_spec(),
                        nb,
                        0,
                        k + 1,
                    ));
                    assert(stream64_byte::<R, N>(g0.next_state_spec(), nb, 0, k + 1)
                        == stream64_byte::<R, N>(g0.next_state_spec(), nb, 1, k));
                }
                assert(old(self).byte_at(0) == stream64_byte::<R, N>(g0.next_state_spec(), nb, 0, 0));
            }
            return b;
        }
        let idx = self.cur / 8;
        let sh = self.cur % 8;
        let b = words::extract_word64_byte(self.ubuf[idx], sh);
        self.cur = self.cur + 1;
        proof {
            assert forall|k: int| 0 <= k implies self.byte_at(k) == old(self).byte_at(k + 1) by {
                assert(old(self).byte_at(k + 1) == stream64_byte::<R, N>(
                    self.gen,
                    self.ubuf@,
                    old(self).cur + 1,
                    k,
                ));
            }
        }
        b
    }

    /// Reads `n` bytes: returns the first `n` bytes of the remaining stream
    /// and leaves the stream positioned exactly `n` bytes further, so
    /// consecutive reads concatenate without gaps or duplicates.
    pub fn read_bytes(&mut self, n: usize) -> (r: Vec<u8>)
        requires
            old(self).wf(),
        ensures
            final(self).wf(),
            r@ == old(self).stream_take(n as int),
            forall|k: int| 0 <= k ==> final(self).byte_at(k) == old(self).byte_at(k + n),
    {
        let ghost orig = *self;
        let mut r: Vec<u8> = Vec::new();
        let mut i: usize = 0;
        while i < n
            invariant
                self.wf(),
                i <= n,
                r@.len() == i,
                forall|j: int| 0 <= j < i ==> r@[j] == orig.byte_at(j),
                forall|k: int| 0 <= k ==> self.byte_at(k) == orig.byte_at(k + i),
            decreases n - i,
        {
            let b = self.next_byte();
            r.push(b);
            i = i + 1;
        }
        proof {
            assert(r@ =~= orig.stream_take(n as int));
        }
        r
    }
}

impl<R: Generator<[u64; N]>, const N: usize> WordSource for Buffer64<R, N> {
    open spec fn ready(&self) -> bool {
        self.wf()
    }

    /// The word is the next four stream bytes assembled little-endian, and
    /// the stream advances past exactly those four bytes.
    fn next_word(&mut self) -> (r: u32)
        ensures
            r == words::le_word32(
                old(self).byte_at(0),
                old(self).byte_at(1),
                old(self).byte_at(2),
                old(self).byte_at(3),
            ),
            forall|k: int| 0 <= k ==> final(self).byte_at(k) == old(self).byte_at(k + 4),
    {
        let b0 = self.next_byte();
        let b1 = self.next_byte();
        let b2 = self.next_byte();
        let b3 = self.next_byte();
        b0 as u32 + b1 as u32 * 0x100 + b2 as u32 * 0x1_0000 + b3 as u32 * 0x100_0000
    }
}

/// Concatenated reads are gapless: the first `a + b` bytes of a stream are
/// exactly its first `a` bytes followed by the `b` bytes that start at
/// offset `a`. Together with the contract of `read_bytes` — which returns
/// `stream_take(n)` and advances every remaining byte by `n` — consecutive
/// reads of lengths `a` and `b` return together what one contiguous read of
/// `a + b` bytes returns.
pub proof fn lemma_concat_reads32<R: Generator<[u32; N]>, const N: usize>(
    s: Buffer32<R, N>,
    a: int,
    b: int,
)
    requires
        0 <= a,
        0 <= b,
    ensures
        s.stream_take(a + b) == s.stream_take(a) + Seq::new(b as nat, |k: int| s.byte_at(a + k)),
{
    assert(s.stream_take(a + b) =~= s.stream_take(a) + Seq::new(
        b as nat,
        |k: int| s.byte_at(a + k),
    ));
}

/// Concatenated reads are gapless, as `lemma_concat_reads32` for streams of
/// 64-bit word blocks.
pub proof fn lemma_concat_reads64<R: Generator<[u64; N]>, const N: usize>(
    s: Buffer64<R, N>,
    a: int,
    b: int,
)
    requires
        0 <= a,
        0 <= b,
    ensures
        s.stream_take(a + b) == s.stream_take(a) + Seq::new(b as nat, |k: int| s.byte_at(a + k)),
{
    assert(s.stream_take(a + b) =~= s.stream_take(a) + Seq::new(
        b as nat,
        |k: int| s.byte_at(a + k),
    ));
}

/// Number of bytes spanned by a slice of 32-bit words.
pub fn u32_slice_bytes_len(ubuf: &[u32]) -> (r: usize)
    requires
        ubuf@.len() * 4 <= usize::MAX,
    ensures
        r == ubuf@.len() * 4,
{
    ubuf.len() * 4
}

/// Number of bytes spanned by a slice of 64-bit words.
pub fn u64_slice_bytes_len(ubuf: &[u64]) -> (r: usize)
    requires
        ubuf@.len() * 8 <= usize::MAX,
    ensures
        r == ubuf@.len() * 8,
{
    ubuf.len() * 8
}

} // verus!
