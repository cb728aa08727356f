//! Block assembly: frames arriving one at a time are deinterleaved into a
//! pair of planar channel buffers; when the buffers hold a full block, the
//! block is handed to the processing engine. Processed blocks are
//! re-interleaved into frames. A partial block is never submitted.

use crate::bridge::Frame;
use vstd::arithmetic::div_mod::{lemma_fundamental_div_mod, lemma_fundamental_div_mod_converse};
use vstd::prelude::*;

verus! {

/// Number of frames in a block handed to the processing engine.
pub const BLOCK_SIZE: usize = 512;

/// The left samples of a run of frames.
pub open spec fn lefts<S>(frames: Seq<Frame<S>>) -> Seq<S> {
    Seq::new(frames.len(), |i: int| frames[i].left)
}

/// The right samples of a run of frames.
pub open spec fn rights<S>(frames: Seq<Frame<S>>) -> Seq<S> {
    Seq::new(frames.len(), |i: int| frames[i].right)
}

/// The frames whose channels are `left` and `right`.
pub open spec fn frames_of<S>(left: Seq<S>, right: Seq<S>) -> Seq<Frame<S>> {
    Seq::new(left.len(), |i: int| Frame { left: left[i], right: right[i] })
}

/// One frame arrives while `pending` frames wait: either the block fills and
/// is submitted, leaving nothing pending, or the frame joins the pending ones.
pub open spec fn assemble_step<S>(pending: Seq<Frame<S>>, frame: Frame<S>, block_size: nat) -> (
    Option<Seq<Frame<S>>>,
    Seq<Frame<S>>,
) {
    let filled = pending.push(frame);
    if filled.len() == block_size {
        (Some(filled), Seq::empty())
    } else {
        (None, filled)
    }
}

/// The blocks submitted, in order, and the frames left pending, after
/// `frames` arrive at an empty assembler.
pub open spec fn assemble<S>(frames: Seq<Frame<S>>, block_size: nat) -> (
    Seq<Seq<Frame<S>>>,
    Seq<Frame<S>>,
)
    decreases frames.len(),
{
    if frames.len() == 0 {
        (Seq::empty(), Seq::empty())
    } else {
        let (blocks, pending) = assemble(frames.drop_last(), block_size);
        let (out, rest) = assemble_step(pending, frames.last(), block_size);
        (
            match out {
                Some(block) => blocks.push(block),
                None => blocks,
            },
            rest,
        )
    }
}

/// Block integrity: after any run of frames, the engine has been handed
/// exactly `len / block_size` blocks, block `k` holding frames
/// `[k * block_size, (k + 1) * block_size)` in arrival order, and the
/// trailing partial block is still pending, never submitted.
pub proof fn lemma_block_integrity<S>(frames: Seq<Frame<S>>, block_size: nat)
    requires
        block_size > 0,
    ensures
        assemble(frames, block_size).0.len() == frames.len() / block_size,
        forall|k: int|
            0 <= k < frames.len() / block_size ==> #[trigger] assemble(frames, block_size).0[k]
                == frames.subrange(k * block_size, k * block_size + block_size),
        assemble(frames, block_size).1 == frames.subrange(
            ((frames.len() / block_size) * block_size) as int,
            frames.len() as int,
        ),
    decreases frames.len(),
{
    let n = frames.len() as int;
    let b = block_size as int;
    if n == 0 {
        assert(0int / b == 0) by {
            lemma_fundamental_div_mod_converse(0, b, 0, 0);
        }
        assert(frames.subrange(0, 0) =~= Seq::<Frame<S>>::empty());
    } else {
        let prev = frames.drop_last();
        let m = n - 1;
        lemma_block_integrity(prev, block_size);
        let q = m / b;
        let r = m % b;
        lemma_fundamental_div_mod(m, b);
        assert(0 <= r < b);
        assert(m == q * b + r) by (nonlinear_arith)
            requires
                m == b * (m / b) + (m % b),
                q == m / b,
                r == m % b,
        ;
        assert(0 <= q) by (nonlinear_arith)
            requires
                m >= 0,
                b > 0,
                q == m / b,
        ;
        let (blocks, pending) = assemble(prev, block_size);
        assert(pending == prev.subrange(q * b, m));
        let filled = pending.push(frames.last());
        assert(filled =~= frames.subrange(q * b, n));
        assert forall|k: int| 0 <= k < q implies #[trigger] blocks[k] == frames.subrange(
            k * b,
            k * b + b,
        ) by {
            assert(k * b + b <= q * b) by (nonlinear_arith)
                requires
                    0 <= k < q,
                    b > 0,
            ;
            assert(blocks[k] == prev.subrange(k * b, k * b + b));
            assert(prev.subrange(k * b, k * b + b) =~= frames.subrange(k * b, k * b + b));
        }
        if r + 1 == b {
            assert(n == (q + 1) * b + 0) by (nonlinear_arith)
                requires
                    n == m + 1,
                    m == q * b + r,
                    r + 1 == b,
            ;
            lemma_fundamental_div_mod_converse(n, b, q + 1, 0);
            let out = blocks.push(filled);
            assert(q * b + b == n) by (nonlinear_arith)
                requires
                    n == (q + 1) * b,
            ;
            assert forall|k: int| 0 <= k < q + 1 implies #[trigger] out[k] == frames.subrange(
                k * b,
                k * b + b,
            ) by {
                if k < q {
                    assert(out[k] == blocks[k]);
                }
            }
            assert(frames.subrange(n, n) =~= Seq::<Frame<S>>::empty());
        } else {
            lemma_fundamental_div_mod_converse(n, b, q, r + 1);
        }
    }
}

/// Collects frames into planar blocks.
pub struct BlockAssembler<S> {
    left: Vec<S>,
    right: Vec<S>,
    position: usize,
}

impl<S: Copy> BlockAssembler<S> {
    /// Frames of a block.
    pub closed spec fn block_size(&self) -> nat {
        self.left@.len()
    }

    pub closed spec fn wf(&self) -> bool {
        &&& self.left.len() == self.right.len()
        &&& self.left.len() > 0
        &&& self.position < self.left.len()
    }

    /// The frames received since the last block was submitted.
    pub closed spec fn pending(&self) -> Seq<Frame<S>> {
        frames_of(self.left@, self.right@).take(self.position as int)
    }

    /// The block in the buffers: after `push` reports a full block, the
    /// block just completed.
    pub closed spec fn block(&self) -> Seq<Frame<S>> {
        frames_of(self.left@, self.right@)
    }

    /// An empty assembler for blocks of `block_size` frames; `fill` is the
    /// sample the buffers start with.
    pub fn new(block_size: usize, fill: S) -> (r: BlockAssembler<S>)
        requires
            block_size > 0,
        ensures
            r.wf(),
            r.block_size() == block_size,
            r.pending() == Seq::<Frame<S>>::empty(),
    {
        let mut left: Vec<S> = Vec::new();
        let mut right: Vec<S> = Vec::new();
        let mut i: usize = 0;
        while i < block_size
            invariant
                i <= block_size,
                left.len() == i,
                right.len() == i,
            decreases block_size - i,
        {
            left.push(fill);
            right.push(fill);
            i = i + 1;
        }
        let r = BlockAssembler { left, right, position: 0 };
        assert(r.pending() =~= Seq::<Frame<S>>::empty());
        r
    }

    /// Deinterleaves one frame into the buffers. Returns `true` when this
    /// frame completes a block: the buffers then hold that block, to be
    /// processed before the next push, and nothing is pending.
    pub fn push(&mut self, frame: Frame<S>) -> (full: bool)
        requires
            old(self).wf(),
        ensures
            final(self).wf(),
            final(self).block_size() == old(self).block_size(),
            (if full {
                Some(final(self).block())
            } else {
                None
            }, final(self).pending()) == assemble_step(
                old(self).pending(),
                frame,
                old(self).block_size(),
            ),
    {
        let ghost before = self.pending();
        let ghost old_left = self.left@;
        let ghost old_right = self.right@;
        let pos = self.position;
        self.left.set(pos, frame.left);
        self.right.set(pos, frame.right);
        self.position = pos + 1;
        proof {
            let filled = before.push(frame);
            assert(frames_of(self.left@, self.right@).take(pos + 1) =~= filled) by {
                assert forall|i: int| 0 <= i < pos implies #[trigger] frames_of(
                    self.left@,
                    self.right@,
                )[i] == before[i] by {
                    assert(self.left@[i] == old_left[i]);
                    assert(self.right@[i] == old_right[i]);
                }
            }
        }
        if self.position == self.left.len() {
            self.position = 0;
            proof {
                assert(frames_of(self.left@, self.right@).take(pos + 1) =~= frames_of(
                    self.left@,
                    self.right@,
                ));
                assert(self.pending() =~= Seq::<Frame<S>>::empty());
            }
            true
        } else {
            false
        }
    }

    /// The left channel of the buffered block.
    pub fn input_left(&self) -> (r: &Vec<S>)
        requires
            self.wf(),
        ensures
            r@ == lefts(self.block()),
    {
        assert(self.left@ =~= lefts(self.block()));
        &self.left
    }

    /// The right channel of the buffered block.
    pub fn input_right(&self) -> (r: &Vec<S>)
        requires
            self.wf(),
        ensures
            r@ == rights(self.block()),
    {
        assert(self.right@ =~= rights(self.block()));
        &self.right
    }
}

/// Re-interleaves a processed planar block into frames, in sample order.
pub fn interleave<S: Copy>(left: &Vec<S>, right: &Vec<S>) -> (r: Vec<Frame<S>>)
    requires
        left.len() == right.len(),
    ensures
        r@ == frames_of(left@, right@),
{
    let mut out: Vec<Frame<S>> = Vec::new();
    let mut i: usize = 0;
    while i < left.len()
        invariant
            left.len() == right.len(),
            i <= left.len(),
            out@ == frames_of(left@, right@).take(i as int),
        decreases left.len() - i,
    {
        out.push(Frame { left: left[i], right: right[i] });
        assert(out@ =~= frames_of(left@, right@).take(i + 1));
        i = i + 1;
    }
    assert(out@ =~= frames_of(left@, right@));
    out
}

} // verus!
