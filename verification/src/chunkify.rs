use vstd::prelude::*;

verus! {

/// What to do with the items that do not fill a whole chunk.
#[derive(Debug, Clone, Copy, PartialEq, Eq)]
pub enum RemainderStrategy {
    /// Hand the leftover items out, one each, to the last chunks.
    Overflow,
    /// Leave the leftover items out of the chunks.
    Exclude,
}

/// The chunks that `chunkify` built, and the items that it left out.
pub struct ChunkRemainder<T> {
    pub chunks: Vec<Vec<T>>,
    pub excluded: Vec<T>,
}

impl<T> ChunkRemainder<T> {
    pub fn new(chunks: Vec<Vec<T>>, excluded: Vec<T>) -> (res: Self)
        ensures
            res.chunks == chunks,
            res.excluded == excluded,
    {
        ChunkRemainder { chunks, excluded }
    }
}

/// The number of whole chunks of `size` items in `n` items.
pub open spec fn full_chunks(n: nat, size: nat) -> nat {
    n / size
}

/// The `i`-th run of `size` consecutive items of `s`.
pub open spec fn block<T>(s: Seq<T>, size: nat, i: int) -> Seq<T> {
    s.subrange(i * size, i * size + size)
}

/// The items after the last whole chunk.
pub open spec fn leftover<T>(s: Seq<T>, size: nat) -> Seq<T> {
    s.subrange((full_chunks(s.len(), size) * size) as int, s.len() as int)
}

/// Chunk `i` under `Overflow`: its block, and, when it is one of the last
/// `n % size` chunks, the leftover item that falls to it. The last chunk
/// gets the last item, the one before it the item before that, and so on.
pub open spec fn overflow_chunk<T>(s: Seq<T>, size: nat, i: int) -> Seq<T> {
    let q = full_chunks(s.len(), size);
    let r = s.len() % size;
    if q - i <= r {
        block(s, size, i).push(s[s.len() - (q - i)])
    } else {
        block(s, size, i)
    }
}

proof fn lemma_block_bounds(n: nat, size: nat, i: int)
    requires
        size > 0,
        0 <= i < n / size,
    ensures
        0 <= i * size,
        i * size + size <= (n / size) * size,
        (n / size) * size <= n,
        n - (n / size) * size == n % size,
        n % size < size,
{
    let q = n / size;
    assert(i * size + size == (i + 1) * size) by (nonlinear_arith);
    assert((i + 1) <= q);
    assert((i + 1) * size <= q * size) by (nonlinear_arith)
        requires (i + 1) <= q, size > 0;
    assert(0 <= i * size) by (nonlinear_arith) requires 0 <= i, size > 0;
    assert(n == q * size + n % size) by (nonlinear_arith) requires size > 0, q == n / size;
    assert(n % size < size) by (nonlinear_arith) requires size > 0;
}

proof fn lemma_div_parts(n: nat, size: nat)
    requires
        size > 0,
    ensures
        n == (n / size) * size + n % size,
        n % size < size,
        (n / size) * size <= n,
{
    assert(n == (n / size) * size + n % size) by (nonlinear_arith) requires size > 0;
    assert(n % size < size) by (nonlinear_arith) requires size > 0;
}

/// Splits `vec` into chunks of `chunk_size` items, in order, and deals with
/// the items that do not fill a whole chunk as `strategy` says.
///
/// There are `vec.len() / chunk_size` chunks. Under `Exclude` each chunk holds
/// exactly its run of items and the leftover items are returned as
/// `excluded`. Under `Overflow` nothing is excluded: the leftover items go,
/// from the last one backwards, to the last chunks, one item per chunk; when
/// there are more leftover items than chunks the surplus is dropped.
pub fn chunkify<T: Clone>(vec: Vec<T>, chunk_size: usize, strategy: RemainderStrategy) -> (res:
    ChunkRemainder<T>)
    requires
        chunk_size > 0,
    ensures
        res.chunks@.len() == full_chunks(vec@.len(), chunk_size as nat),
        strategy == RemainderStrategy::Exclude ==> {
            &&& forall|i: int|
                0 <= i < res.chunks@.len() ==> #[trigger] res.chunks@[i]@ == block(
                    vec@,
                    chunk_size as nat,
                    i,
                )
            &&& res.excluded@ == leftover(vec@, chunk_size as nat)
        },
        strategy == RemainderStrategy::Overflow ==> {
            &&& forall|i: int|
                0 <= i < res.chunks@.len() ==> #[trigger] res.chunks@[i]@ == overflow_chunk(
                    vec@,
                    chunk_size as nat,
                    i,
                )
            &&& res.excluded@ == Seq::<T>::empty()
        },
{
    let ghost s = vec@;
    let ghost size = chunk_size as nat;
    let n = vec.len();
    let q = n / chunk_size;
    let mut chunks: Vec<Vec<T>> = Vec::new();
    let mut rem = vec;
    let mut i: usize = 0;
    while i < q
        invariant
            chunk_size > 0,
            size == chunk_size as nat,
            n == s.len(),
            q == n / chunk_size,
            i <= q,
            chunks@.len() == i,
            forall|j: int| 0 <= j < i ==> #[trigger] chunks@[j]@ == block(s, size, j),
            rem@ == s.subrange(i * size, n as int),
        decreases q - i,
    {
        proof {
            lemma_block_bounds(n as nat, size, i as int);
        }
        let rest = rem.split_off(chunk_size);
        assert(rem@ =~= block(s, size, i as int));
        chunks.push(rem);
        rem = rest;
        assert(rem@ =~= s.subrange((i + 1) * size, n as int)) by {
            assert((i + 1) * size == i * size + size) by (nonlinear_arith);
        }
        i = i + 1;
    }
    proof {
        lemma_div_parts(n as nat, size);
    }
    assert(rem@ =~= leftover(s, size));
    match strategy {
        RemainderStrategy::Exclude => ChunkRemainder::new(chunks, rem),
        RemainderStrategy::Overflow => {
            let ghost r = rem@.len();
            let mut j: usize = q;
            while j > 0 && rem.len() > 0
                invariant
                    chunk_size > 0,
                    size == chunk_size as nat,
                    n == s.len(),
                    q == n / chunk_size,
                    r == n % chunk_size,
                    r <= n,
                    j <= q,
                    chunks@.len() == q,
                    q - j + rem@.len() == r,
                    rem@ == s.subrange(n - r, n - (q - j)),
                    forall|k: int| 0 <= k < j ==> #[trigger] chunks@[k]@ == block(s, size, k),
                    forall|k: int| j <= k < q ==> #[trigger] chunks@[k]@ == overflow_chunk(s, size, k),
                decreases j,
            {
                j = j - 1;
                proof {
                    lemma_block_bounds(n as nat, size, j as int);
                }
                let x = rem.pop().unwrap();
                let mut c: Vec<T> = Vec::new();
                chunks.set_and_swap(j, &mut c);
                c.push(x);
                chunks.set_and_swap(j, &mut c);
                assert(chunks@[j as int]@ =~= overflow_chunk(s, size, j as int));
            }
            proof {
                assert forall|k: int| 0 <= k < q implies #[trigger] chunks@[k]@ == overflow_chunk(
                    s,
                    size,
                    k,
                ) by {
                    if k < j {
                        lemma_block_bounds(n as nat, size, k);
                        assert(rem@.len() == 0);
                        assert(!(q - k <= r));
                    }
                }
            }
            ChunkRemainder::new(chunks, Vec::new())
        },
    }
}

/// The blocks of the first `k` whole chunks.
pub open spec fn blocks<T>(s: Seq<T>, size: nat, k: nat) -> Seq<Seq<T>> {
    Seq::new(k, |i: int| block(s, size, i))
}

/// The chunks that `Overflow` gives.
pub open spec fn overflow_chunks<T>(s: Seq<T>, size: nat) -> Seq<Seq<T>> {
    Seq::new(full_chunks(s.len(), size), |i: int| overflow_chunk(s, size, i))
}

proof fn lemma_blocks_flatten<T>(s: Seq<T>, size: nat, k: nat)
    requires
        size > 0,
        k <= s.len() / size,
    ensures
        blocks(s, size, k).flatten() == s.take((k * size) as int),
    decreases k,
{
    blocks(s, size, k).lemma_flatten_and_flatten_alt_are_equivalent();
    if k == 0 {
        assert(s.take(0) =~= Seq::<T>::empty());
    } else {
        let k1 = (k - 1) as nat;
        lemma_blocks_flatten(s, size, k1);
        blocks(s, size, k1).lemma_flatten_and_flatten_alt_are_equivalent();
        assert(blocks(s, size, k).drop_last() =~= blocks(s, size, k1));
        assert(blocks(s, size, k).last() == block(s, size, k1 as int));
        lemma_block_bounds(s.len(), size, k1 as int);
        assert(k1 * size + size == k * size) by (nonlinear_arith) requires k1 + 1 == k;
        assert(s.take((k * size) as int) =~= s.take((k1 * size) as int) + block(s, size, k1 as int));
        assert(blocks(s, size, k).flatten_alt() == blocks(s, size, k1).flatten_alt() + block(
            s,
            size,
            k1 as int,
        ));
    }
}

/// Under `Exclude` no item is lost and none moves: the chunks, one after the
/// other, then the excluded items, are the input.
pub proof fn law_exclude_keeps_order<T>(s: Seq<T>, size: nat)
    requires
        size > 0,
    ensures
        blocks(s, size, full_chunks(s.len(), size)).flatten() + leftover(s, size) == s,
{
    let q = full_chunks(s.len(), size);
    lemma_blocks_flatten(s, size, q);
    lemma_div_parts(s.len(), size);
    assert(s.take((q * size) as int) + leftover(s, size) =~= s);
}

/// The number of items in the chunks.
pub open spec fn chunk_items<T>(cs: Seq<Seq<T>>) -> nat
    decreases cs.len(),
{
    if cs.len() == 0 {
        0
    } else {
        chunk_items(cs.drop_last()) + cs.last().len()
    }
}

/// How many of the first `k` chunks get a leftover item.
pub open spec fn extras_upto(q: int, r: int, k: int) -> int {
    let first = if q - r > 0 { q - r } else { 0 };
    if k > first { k - first } else { 0 }
}

proof fn lemma_overflow_items<T>(s: Seq<T>, size: nat, k: nat)
    requires
        size > 0,
        k <= s.len() / size,
    ensures
        chunk_items(overflow_chunks(s, size).take(k as int)) == k * size + extras_upto(
            (s.len() / size) as int,
            (s.len() % size) as int,
            k as int,
        ),
    decreases k,
{
    let q = (s.len() / size) as int;
    let r = (s.len() % size) as int;
    if k == 0 {
        assert(overflow_chunks(s, size).take(0).len() == 0);
    } else {
        let k1 = (k - 1) as nat;
        lemma_overflow_items(s, size, k1);
        let t = overflow_chunks(s, size).take(k as int);
        assert(t.drop_last() =~= overflow_chunks(s, size).take(k1 as int));
        assert(t.last() == overflow_chunk(s, size, k1 as int));
        lemma_block_bounds(s.len(), size, k1 as int);
        assert(block(s, size, k1 as int).len() == size);
        assert(k1 * size + size == k * size) by (nonlinear_arith) requires k1 + 1 == k;
        if q - k1 <= r {
            assert(overflow_chunk(s, size, k1 as int).len() == size + 1);
        } else {
            assert(overflow_chunk(s, size, k1 as int).len() == size);
        }
    }
}

/// Under `Overflow` every chunk holds `size` or `size + 1` items, and the
/// chunks hold every item when there are no more leftover items than
/// chunks; otherwise the surplus, `n % size - n / size` items, is lost.
pub proof fn law_overflow_sizes<T>(s: Seq<T>, size: nat)
    requires
        size > 0,
    ensures
        forall|i: int|
            0 <= i < overflow_chunks(s, size).len() ==> size <= (
            #[trigger] overflow_chunks(s, size)[i]).len() <= size + 1,
        s.len() % size <= s.len() / size ==> chunk_items(overflow_chunks(s, size)) == s.len(),
        s.len() % size > s.len() / size ==> chunk_items(overflow_chunks(s, size)) == s.len() - (
        s.len() % size - s.len() / size),
{
    let q = s.len() / size;
    assert forall|i: int| 0 <= i < overflow_chunks(s, size).len() implies size <= (
    #[trigger] overflow_chunks(s, size)[i]).len() <= size + 1 by {
        lemma_block_bounds(s.len(), size, i);
    }
    lemma_overflow_items(s, size, q);
    assert(overflow_chunks(s, size).take(q as int) =~= overflow_chunks(s, size));
    lemma_div_parts(s.len(), size);
    assert(s.len() == q * size + s.len() % size);
}

} // verus!
