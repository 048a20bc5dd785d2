//! A pool of equally sized byte buffers handed out first in, first out.
//!
//! A buffer leaves the pool with `pick_buffer` and goes back with
//! `add_buffer`; while it is out, its filled prefix (`set_len`) is what
//! `deref` and `deref_mut` give access to.

use std::collections::VecDeque;
use vstd::multiset::Multiset;
use vstd::prelude::*;

verus! {

/// The contents of a deque of buffers, each buffer by its bytes.
pub open spec fn buffers_view(buffers: Seq<Vec<u8>>) -> Seq<Seq<u8>> {
    buffers.map_values(|b: Vec<u8>| b@)
}

/// A buffer of `size` zero bytes.
pub open spec fn zeroed(size: nat) -> Seq<u8> {
    Seq::new(size, |i: int| 0u8)
}

/// Every buffer in `pool` is `size` bytes long.
pub open spec fn uniform(pool: Seq<Seq<u8>>, size: nat) -> bool {
    forall|i: int| 0 <= i < pool.len() ==> (#[trigger] pool[i]).len() == size
}

/// The pool after its front buffer has been picked.
pub open spec fn after_pick(pool: Seq<Seq<u8>>) -> Seq<Seq<u8>> {
    if pool.len() == 0 {
        pool
    } else {
        pool.drop_first()
    }
}

/// The pool after `buffer` has been given back to it.
pub open spec fn after_add(pool: Seq<Seq<u8>>, buffer: Seq<u8>) -> Seq<Seq<u8>> {
    pool.push(buffer)
}

/// A pool of byte buffers.
pub struct BufferPool {
    buffers: VecDeque<Vec<u8>>,
}

/// A buffer taken out of a [`BufferPool`], with the length of its filled prefix.
pub struct BorrowedBuffer {
    buffer: Vec<u8>,
    len: usize,
}

impl View for BufferPool {
    type V = Seq<Seq<u8>>;

    /// The buffers waiting in the pool, the next one to be picked first.
    closed spec fn view(&self) -> Seq<Seq<u8>> {
        buffers_view(self.buffers@)
    }
}

impl BorrowedBuffer {
    /// All bytes of the buffer, filled or not.
    pub closed spec fn bytes(&self) -> Seq<u8> {
        self.buffer@
    }

    /// The length of the filled prefix.
    pub closed spec fn filled_len(&self) -> nat {
        self.len as nat
    }
}

impl BufferPool {
    /// Creates a pool of `buffer_len` buffers, each made of `buffer_size` zero bytes.
    pub fn new(buffer_size: usize, buffer_len: usize) -> (pool: Self)
        ensures
            pool@.len() == buffer_len,
            forall|i: int| 0 <= i < buffer_len ==> #[trigger] pool@[i] == zeroed(buffer_size as nat),
    {
        let mut buffers: VecDeque<Vec<u8>> = VecDeque::new();
        let mut n: usize = 0;
        while n < buffer_len
            invariant
                n <= buffer_len,
                buffers@.len() == n,
                forall|i: int| 0 <= i < n ==> (#[trigger] buffers@[i])@ == zeroed(buffer_size as nat),
            decreases buffer_len - n,
        {
            let buffer: Vec<u8> = vec![0u8; buffer_size];
            assert(buffer@ == zeroed(buffer_size as nat));
            buffers.push_back(buffer);
            n = n + 1;
        }
        BufferPool { buffers }
    }

    /// Takes the buffer that has waited longest, with an empty filled prefix;
    /// `None` when the pool is empty.
    pub fn pick_buffer(&mut self) -> (picked: Option<BorrowedBuffer>)
        ensures
            final(self)@ == after_pick(old(self)@),
            old(self)@.len() == 0 <==> picked is None,
            picked matches Some(b) ==> b.bytes() == old(self)@[0] && b.filled_len() == 0,
    {
        match self.buffers.pop_front() {
            Some(buffer) => {
                proof {
                    assert(self@ =~= old(self)@.drop_first());
                }
                Some(BorrowedBuffer { buffer, len: 0 })
            },
            None => None,
        }
    }

    /// Gives a borrowed buffer back; it is picked again after every buffer
    /// already waiting.
    pub fn add_buffer(&mut self, buffer: BorrowedBuffer)
        ensures
            final(self)@ == after_add(old(self)@, buffer.bytes()),
    {
        self.buffers.push_back(buffer.buffer);
        proof {
            assert(self@ =~= old(self)@.push(buffer.bytes()));
        }
    }
}

impl BorrowedBuffer {
    /// The length of the filled prefix.
    pub fn filled(&self) -> (len: usize)
        ensures
            len == self.filled_len(),
    {
        self.len
    }

    /// The length of the whole buffer, filled or not.
    pub fn size(&self) -> (size: usize)
        ensures
            size == self.bytes().len(),
    {
        self.buffer.len()
    }

    /// Sets the length of the filled prefix.
    pub fn set_len(&mut self, len: usize)
        ensures
            final(self).filled_len() == len,
            final(self).bytes() == old(self).bytes(),
    {
        self.len = len;
    }

    /// The filled prefix of the buffer.
    pub fn deref(&self) -> (filled: &[u8])
        requires
            self.filled_len() <= self.bytes().len(),
        ensures
            filled@ == self.bytes().take(self.filled_len() as int),
    {
        let all: &[u8] = self.buffer.as_slice();
        let (filled, _rest) = all.split_at(self.len);
        filled
    }

    /// The filled prefix of the buffer, for writing; the bytes past it stay as they were.
    pub fn deref_mut(&mut self) -> (filled: &mut [u8])
        requires
            old(self).filled_len() <= old(self).bytes().len(),
        ensures
            filled@ == old(self).bytes().take(old(self).filled_len() as int),
            final(self).filled_len() == old(self).filled_len(),
            final(self).bytes() == final(filled)@ + old(self).bytes().skip(
                old(self).filled_len() as int,
            ),
    {
        let len = self.len;
        let all: &mut [u8] = self.buffer.as_mut_slice();
        let (filled, _rest) = all.split_at_mut(len);
        filled
    }
}

/// Picking the front buffer and giving it straight back keeps the same
/// buffers in the pool, the picked one now waiting last.
pub proof fn lemma_pick_then_add_keeps_buffers(pool: Seq<Seq<u8>>)
    requires
        pool.len() > 0,
    ensures
        after_add(after_pick(pool), pool[0]).len() == pool.len(),
        after_add(after_pick(pool), pool[0]).to_multiset() == pool.to_multiset(),
        after_add(after_pick(pool), pool[0]) == pool.drop_first().push(pool[0]),
{
    let rest = pool.drop_first();
    assert(pool =~= seq![pool[0]] + rest);
    vstd::seq_lib::lemma_multiset_commutative(seq![pool[0]], rest);
    vstd::seq_lib::lemma_multiset_commutative(rest, seq![pool[0]]);
    assert(rest.push(pool[0]) =~= rest + seq![pool[0]]);
}

/// A buffer given back waits behind every buffer already in the pool: the
/// waiting buffers keep their order and the new one comes last.
pub proof fn lemma_added_buffer_waits_last(pool: Seq<Seq<u8>>, buffer: Seq<u8>)
    ensures
        after_add(pool, buffer).len() == pool.len() + 1,
        after_add(pool, buffer).take(pool.len() as int) == pool,
        after_add(pool, buffer).last() == buffer,
        pool.len() > 0 ==> after_add(pool, buffer)[0] == pool[0],
        pool.len() > 0 ==> after_pick(after_add(pool, buffer)) == after_add(after_pick(pool), buffer),
{
    assert(after_add(pool, buffer).take(pool.len() as int) =~= pool);
    if pool.len() > 0 {
        assert(after_pick(after_add(pool, buffer)) =~= after_add(after_pick(pool), buffer));
    }
}

/// Picking takes exactly one buffer out of a non-empty pool and none out of
/// an empty one; giving back puts exactly one in. So the buffers in the pool
/// and those out on loan always add up to what the pool was made with.
pub proof fn lemma_buffer_count(pool: Seq<Seq<u8>>, buffer: Seq<u8>)
    ensures
        pool.len() > 0 ==> after_pick(pool).len() + 1 == pool.len(),
        pool.len() == 0 ==> after_pick(pool).len() == 0,
        after_add(pool, buffer).len() == pool.len() + 1,
{
}

/// While every buffer given back has the size the pool was made with, every
/// buffer in the pool keeps that size.
pub proof fn lemma_uniform_size_kept(pool: Seq<Seq<u8>>, size: nat, buffer: Seq<u8>)
    requires
        uniform(pool, size),
    ensures
        uniform(after_pick(pool), size),
        buffer.len() == size ==> uniform(after_add(pool, buffer), size),
{
    if pool.len() > 0 {
        assert forall|i: int| 0 <= i < after_pick(pool).len() implies (#[trigger] after_pick(
            pool,
        )[i]).len() == size by {
            assert(after_pick(pool)[i] == pool[i + 1]);
        }
    }
    if buffer.len() == size {
        assert forall|i: int| 0 <= i < after_add(pool, buffer).len() implies (
        #[trigger] after_add(pool, buffer)[i]).len() == size by {
            if i < pool.len() {
                assert(after_add(pool, buffer)[i] == pool[i]);
            }
        }
    }
}

/// A new pool holds buffers of the size it was made with.
pub proof fn lemma_new_pool_uniform(pool: Seq<Seq<u8>>, size: nat)
    requires
        forall|i: int| 0 <= i < pool.len() ==> #[trigger] pool[i] == zeroed(size),
    ensures
        uniform(pool, size),
{
    assert forall|i: int| 0 <= i < pool.len() implies (#[trigger] pool[i]).len() == size by {
        assert(pool[i] == zeroed(size));
    }
}

/// One step of a run of loans from a pool: a negative `op` picks the front
/// buffer (when there is one) and puts it on loan; `op` naming a buffer on
/// loan gives that buffer back. Yields the pool and the buffers on loan after
/// the step.
pub open spec fn loan_step(pool: Seq<Seq<u8>>, lent: Seq<Seq<u8>>, op: int) -> (
    Seq<Seq<u8>>,
    Seq<Seq<u8>>,
) {
    if op < 0 {
        if pool.len() == 0 {
            (pool, lent)
        } else {
            (after_pick(pool), lent.push(pool[0]))
        }
    } else if op < lent.len() {
        (after_add(pool, lent[op]), lent.remove(op))
    } else {
        (pool, lent)
    }
}

/// The pool and the buffers on loan after the steps `ops`, in order.
pub open spec fn loan_run(pool: Seq<Seq<u8>>, lent: Seq<Seq<u8>>, ops: Seq<int>) -> (
    Seq<Seq<u8>>,
    Seq<Seq<u8>>,
)
    decreases ops.len(),
{
    if ops.len() == 0 {
        (pool, lent)
    } else {
        let (next_pool, next_lent) = loan_step(pool, lent, ops[0]);
        loan_run(next_pool, next_lent, ops.drop_first())
    }
}

proof fn lemma_same_buffers_uniform(a: Seq<Seq<u8>>, b: Seq<Seq<u8>>, size: nat)
    requires
        a.to_multiset() == b.to_multiset(),
        uniform(a, size),
    ensures
        uniform(b, size),
{
    broadcast use vstd::seq_lib::group_to_multiset_ensures;

    assert forall|i: int| 0 <= i < b.len() implies (#[trigger] b[i]).len() == size by {
        assert(b.contains(b[i]));
        assert(b.to_multiset().count(b[i]) > 0);
        assert(a.contains(b[i]));
        let k = choose|k: int| 0 <= k < a.len() && a[k] == b[i];
        assert(a[k].len() == size);
    }
}

proof fn lemma_loan_step(pool: Seq<Seq<u8>>, lent: Seq<Seq<u8>>, op: int)
    ensures
        loan_step(pool, lent, op).0.len() + loan_step(pool, lent, op).1.len() == pool.len()
            + lent.len(),
        (loan_step(pool, lent, op).0 + loan_step(pool, lent, op).1).to_multiset() == (pool
            + lent).to_multiset(),
{
    broadcast use vstd::seq_lib::group_to_multiset_ensures;

    let (p, l) = loan_step(pool, lent, op);
    vstd::seq_lib::lemma_multiset_commutative(pool, lent);
    vstd::seq_lib::lemma_multiset_commutative(p, l);
    if op < 0 {
        if pool.len() > 0 {
            let x = pool[0];
            let rest = pool.drop_first();
            assert(pool =~= seq![x] + rest);
            vstd::seq_lib::lemma_multiset_commutative(seq![x], rest);
            assert(seq![x] =~= Seq::<Seq<u8>>::empty().push(x));
            assert(Seq::<Seq<u8>>::empty().to_multiset() =~= Multiset::empty());
            assert(p.to_multiset().add(l.to_multiset()) =~= pool.to_multiset().add(
                lent.to_multiset(),
            ));
        }
    } else if op < lent.len() {
        let y = lent[op];
        assert(lent.contains(y));
        assert(lent.to_multiset().count(y) > 0);
        assert(l.to_multiset() =~= lent.to_multiset().remove(y));
        assert(p.to_multiset() =~= pool.to_multiset().insert(y));
        assert(p.to_multiset().add(l.to_multiset()) =~= pool.to_multiset().add(
            lent.to_multiset(),
        ));
    }
}

/// Over any run of loans and returns, no buffer is lost, duplicated or made
/// up: the buffers in the pool and those on loan together are always the
/// same buffers, so their number stays what it was; and when every buffer has
/// the same size to begin with, every buffer still has it.
pub proof fn lemma_loans_conserve_buffers(
    pool: Seq<Seq<u8>>,
    lent: Seq<Seq<u8>>,
    ops: Seq<int>,
    size: nat,
)
    ensures
        loan_run(pool, lent, ops).0.len() + loan_run(pool, lent, ops).1.len() == pool.len()
            + lent.len(),
        (loan_run(pool, lent, ops).0 + loan_run(pool, lent, ops).1).to_multiset() == (pool
            + lent).to_multiset(),
        uniform(pool + lent, size) ==> uniform(
            loan_run(pool, lent, ops).0 + loan_run(pool, lent, ops).1,
            size,
        ),
    decreases ops.len(),
{
    if ops.len() > 0 {
        let (p, l) = loan_step(pool, lent, ops[0]);
        lemma_loan_step(pool, lent, ops[0]);
        lemma_loans_conserve_buffers(p, l, ops.drop_first(), size);
    }
    let (p_end, l_end) = loan_run(pool, lent, ops);
    if uniform(pool + lent, size) {
        lemma_same_buffers_uniform(pool + lent, p_end + l_end, size);
    }
}

} // verus!
