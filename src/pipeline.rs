//! The pipeline: an ordered list of stages folded over each decoded chunk.
use vstd::prelude::*;
use crate::sample::{SampleBuffer, SampleKind};
use crate::stage::{Kernels, Stage, StageError};
use crate::transform::decode_pairs;

verus! {

/// The kind that `stages`, applied in order, make of a buffer of kind `k`;
/// `None` where some stage refuses what the one before it produced.
pub open spec fn chain_kind<S>(stages: Seq<Stage<S>>, k: SampleKind) -> Option<SampleKind>
    decreases stages.len(),
{
    if stages.len() == 0 {
        Some(k)
    } else {
        match chain_kind(stages.drop_last(), k) {
            Some(j) => if stages.last().accepts_spec(j) {
                Some(stages.last().output_kind(j))
            } else {
                None
            },
            None => None,
        }
    }
}

/// The length that `stages`, applied in order, make of a buffer of `n` samples.
pub open spec fn chain_len<S>(stages: Seq<Stage<S>>, n: int) -> int
    decreases stages.len(),
{
    if stages.len() == 0 {
        n
    } else {
        stages.last().output_len(chain_len(stages.drop_last(), n))
    }
}

/// Once a prefix of the chain is refused, the whole chain is.
pub proof fn lemma_refused_prefix<S>(stages: Seq<Stage<S>>, i: int, k: SampleKind)
    requires
        0 <= i <= stages.len(),
        chain_kind(stages.take(i), k) is None,
    ensures
        chain_kind(stages, k) is None,
    decreases stages.len() - i,
{
    if i < stages.len() {
        assert(stages.take(i + 1).drop_last() =~= stages.take(i));
        lemma_refused_prefix(stages, i + 1, k);
    } else {
        assert(stages.take(i) =~= stages);
    }
}

/// `buf` is the complex buffer decoded from `bytes`, one sample per byte pair.
pub open spec fn decoded<C, R, F: Fn(u8, u8) -> C>(decode: F, bytes: Seq<u8>, buf: SampleBuffer<C, R>) -> bool {
    match buf {
        SampleBuffer::Complex(v) => {
            &&& v.len() == bytes.len() / 2
            &&& forall|i: int| 0 <= i < v.len()
                ==> call_ensures(decode, (bytes[2 * i], bytes[2 * i + 1]), #[trigger] v[i])
        },
        SampleBuffer::Real(_) => false,
    }
}

/// `bufs` holds the decoded chunk and, after it, the output of each stage in turn.
pub open spec fn folds<S, C, R, FS, FC, FR, FD, F>(
    stages: Seq<Stage<S>>,
    kernels: Kernels<FS, FC, FR, FD>,
    decode: F,
    bytes: Seq<u8>,
    bufs: Seq<SampleBuffer<C, R>>,
) -> bool
    where
        FS: Fn(&S, usize, C) -> C,
        FC: Fn(&[C]) -> C,
        FR: Fn(&[R]) -> R,
        FD: Fn(C, C) -> R,
        F: Fn(u8, u8) -> C,
{
    &&& bufs.len() == stages.len() + 1
    &&& decoded(decode, bytes, bufs[0])
    &&& forall|j: int| 0 <= j < stages.len() ==> #[trigger] stages[j].transforms(kernels, bufs[j], bufs[j + 1])
}

/// Why a chunk produced no output.
#[derive(Clone, Copy, Debug, PartialEq, Eq, Structural)]
pub enum ChunkError {
    /// The stage at this position was handed the wrong variant.
    Rejected { stage: usize, error: StageError },
    /// The chain ends in complex samples, which the sink cannot take.
    NotReal,
}

/// Stages in order plus the paths of the source and the sink.
pub struct Pipeline<S> {
    pub input_path: String,
    pub output_path: String,
    pub stages: Vec<Stage<S>>,
}

impl<S> Pipeline<S> {
    /// Every stage is well formed.
    pub open spec fn wf(&self) -> bool {
        forall|i: int| 0 <= i < self.stages.len() ==> (#[trigger] self.stages[i]).wf()
    }

    /// A pipeline with no stages yet.
    pub fn new(input: String, output: String) -> (r: Pipeline<S>)
        ensures
            r.input_path@ == input@,
            r.output_path@ == output@,
            r.stages.len() == 0,
            r.wf(),
    {
        Pipeline { input_path: input, output_path: output, stages: Vec::new() }
    }

    /// Appends `node` at the end of the chain.
    pub fn add_node(&mut self, node: Stage<S>)
        requires
            old(self).wf(),
            node.wf(),
        ensures
            final(self).stages@ == old(self).stages@.push(node),
            final(self).input_path@ == old(self).input_path@,
            final(self).output_path@ == old(self).output_path@,
            final(self).wf(),
    {
        self.stages.push(node);
    }

    /// Decodes `bytes` and folds the buffer through every stage in order;
    /// the result is the real buffer the last stage produced.
    pub fn run_chunk<C: Copy, R: Copy, FS, FC, FR, FD, F: Fn(u8, u8) -> C>(
        &self,
        bytes: &[u8],
        decode: F,
        kernels: &Kernels<FS, FC, FR, FD>,
    ) -> (r: Result<Vec<R>, ChunkError>)
        where
            FS: Fn(&S, usize, C) -> C + Copy,
            FC: Fn(&[C]) -> C + Copy,
            FR: Fn(&[R]) -> R + Copy,
            FD: Fn(C, C) -> R + Copy,
        requires
            self.wf(),
            kernels.callable::<S, C, R>(),
            forall|a: u8, b: u8| call_requires(decode, (a, b)),
        ensures
            match r {
                Ok(v) => {
                    &&& chain_kind(self.stages@, SampleKind::Complex) == Some(SampleKind::Real)
                    &&& v.len() == chain_len(self.stages@, bytes.len() as int / 2)
                    &&& exists|bufs: Seq<SampleBuffer<C, R>>| {
                        &&& #[trigger] folds(self.stages@, *kernels, decode, bytes@, bufs)
                        &&& bufs.last() == SampleBuffer::<C, R>::Real(v)
                    }
                },
                Err(ChunkError::Rejected { stage, error }) => {
                    &&& chain_kind(self.stages@, SampleKind::Complex) is None
                    &&& stage < self.stages.len()
                    &&& chain_kind(self.stages@.take(stage as int), SampleKind::Complex) matches Some(k)
                        && !self.stages[stage as int].accepts_spec(k)
                        && error == (StageError::WrongVariant { expected: SampleKind::Complex, found: k })
                },
                Err(ChunkError::NotReal) => chain_kind(self.stages@, SampleKind::Complex) == Some(SampleKind::Complex),
            },
    {
        let v = decode_pairs(bytes, decode);
        let mut buf: SampleBuffer<C, R> = SampleBuffer::Complex(v);
        let ghost mut bufs: Seq<SampleBuffer<C, R>> = seq![buf];
        let mut i: usize = 0;
        proof {
            assert(self.stages@.take(0) =~= Seq::<Stage<S>>::empty());
        }
        while i < self.stages.len()
            invariant
                i <= self.stages.len(),
                self.wf(),
                kernels.callable::<S, C, R>(),
                chain_kind(self.stages@.take(i as int), SampleKind::Complex) == Some(buf.kind_spec()),
                chain_len(self.stages@.take(i as int), bytes.len() as int / 2) == buf.len_spec(),
                bufs.len() == i + 1,
                bufs.last() == buf,
                decoded(decode, bytes@, bufs[0]),
                forall|j: int| 0 <= j < i ==> #[trigger] self.stages[j].transforms(*kernels, bufs[j], bufs[j + 1]),
            decreases self.stages.len() - i,
        {
            let stage = &self.stages[i];
            let ghost k = buf.kind_spec();
            proof {
                assert(self.stages@.take(i + 1).drop_last() =~= self.stages@.take(i as int));
            }
            match stage.process(buf, kernels) {
                Ok(out) => {
                    proof {
                        bufs = bufs.push(out);
                    }
                    buf = out;
                },
                Err(error) => {
                    proof {
                        lemma_refused_prefix(self.stages@, i + 1, SampleKind::Complex);
                    }
                    return Err(ChunkError::Rejected { stage: i, error });
                },
            }
            i = i + 1;
        }
        proof {
            assert(self.stages@.take(i as int) =~= self.stages@);
        }
        match buf {
            SampleBuffer::Real(w) => {
                proof {
                    assert(folds(self.stages@, *kernels, decode, bytes@, bufs));
                }
                Ok(w)
            },
            SampleBuffer::Complex(_) => Err(ChunkError::NotReal),
        }
    }
}

} // verus!
