//! Stages: frequency shifter, decimator and FM discriminator, each a pure
//! transform of one sample buffer into another.
use vstd::prelude::*;
use crate::sample::{SampleBuffer, SampleKind};
use crate::transform::{averaged, ceil_div, decimate, discriminate, group_of, pair_count, shift};

verus! {

/// A stage of the chain; `S` is the type of the shifter's rate.
#[derive(Clone, Copy, Debug)]
pub enum Stage<S> {
    /// Multiplies the `n`-th sample by a unit rotation that grows with `n`.
    Shifter(S),
    /// Averages consecutive groups of the given number of samples.
    Decimator(usize),
    /// Normalised phase difference of each adjacent pair.
    Discriminator,
}

/// A stage was handed a buffer of the variant it does not accept.
#[derive(Clone, Copy, Debug, PartialEq, Eq, Structural)]
pub enum StageError {
    WrongVariant { expected: SampleKind, found: SampleKind },
}

/// The numeric kernels the stages apply to individual samples.
pub struct Kernels<FS, FC, FR, FD> {
    /// `rotate(rate, n, x)`: the `n`-th sample `x` shifted by `rate`.
    pub rotate: FS,
    /// Mean of a non-empty group of complex samples.
    pub mean_complex: FC,
    /// Mean of a non-empty group of real samples.
    pub mean_real: FR,
    /// `step(a, b)`: normalised phase of `b` relative to `a`.
    pub step: FD,
}

impl<FS, FC, FR, FD> Kernels<FS, FC, FR, FD> {
    /// Every kernel may be called on every input a stage hands it.
    pub open spec fn callable<S, C, R>(&self) -> bool
        where
            FS: Fn(&S, usize, C) -> C,
            FC: Fn(&[C]) -> C,
            FR: Fn(&[R]) -> R,
            FD: Fn(C, C) -> R,
    {
        &&& forall|s: &S, n: usize, x: C| call_requires(self.rotate, (s, n, x))
        &&& forall|g: &[C]| 0 < g@.len() ==> call_requires(self.mean_complex, (g,))
        &&& forall|g: &[R]| 0 < g@.len() ==> call_requires(self.mean_real, (g,))
        &&& forall|a: C, b: C| call_requires(self.step, (a, b))
    }
}

impl<S> Stage<S> {
    /// A decimator's factor is positive.
    pub open spec fn wf(&self) -> bool {
        match self {
            Stage::Decimator(k) => *k > 0,
            _ => true,
        }
    }

    /// Whether the stage accepts a buffer of kind `k`.
    pub open spec fn accepts_spec(&self, k: SampleKind) -> bool {
        match self {
            Stage::Decimator(_) => true,
            _ => k == SampleKind::Complex,
        }
    }

    /// The kind of buffer the stage produces from one of kind `k`.
    pub open spec fn output_kind(&self, k: SampleKind) -> SampleKind {
        match self {
            Stage::Shifter(_) => SampleKind::Complex,
            Stage::Decimator(_) => k,
            Stage::Discriminator => SampleKind::Real,
        }
    }

    /// The length of the buffer the stage produces from one of `n` samples.
    pub open spec fn output_len(&self, n: int) -> int {
        match self {
            Stage::Shifter(_) => n,
            Stage::Decimator(k) => ceil_div(n, *k as int),
            Stage::Discriminator => pair_count(n),
        }
    }

    /// `output` is what the stage makes of `input` with the given kernels.
    pub open spec fn transforms<C, R, FS, FC, FR, FD>(
        &self,
        kernels: Kernels<FS, FC, FR, FD>,
        input: SampleBuffer<C, R>,
        output: SampleBuffer<C, R>,
    ) -> bool
        where
            FS: Fn(&S, usize, C) -> C,
            FC: Fn(&[C]) -> C,
            FR: Fn(&[R]) -> R,
            FD: Fn(C, C) -> R,
    {
        match (self, input, output) {
            (Stage::Shifter(rate), SampleBuffer::Complex(v), SampleBuffer::Complex(w)) => {
                &&& w.len() == v.len()
                &&& forall|n: int| 0 <= n < w.len()
                    ==> call_ensures(kernels.rotate, (rate, n as usize, v@[n]), #[trigger] w[n])
            },
            (Stage::Decimator(k), SampleBuffer::Complex(v), SampleBuffer::Complex(w)) => {
                &&& w.len() == ceil_div(v.len() as int, *k as int)
                &&& forall|g: int| 0 <= g < w.len()
                    ==> averaged(kernels.mean_complex, group_of(v@, *k as int, g), #[trigger] w[g])
            },
            (Stage::Decimator(k), SampleBuffer::Real(v), SampleBuffer::Real(w)) => {
                &&& w.len() == ceil_div(v.len() as int, *k as int)
                &&& forall|g: int| 0 <= g < w.len()
                    ==> averaged(kernels.mean_real, group_of(v@, *k as int, g), #[trigger] w[g])
            },
            (Stage::Discriminator, SampleBuffer::Complex(v), SampleBuffer::Real(w)) => {
                &&& w.len() == pair_count(v.len() as int)
                &&& forall|i: int| 0 <= i < w.len()
                    ==> call_ensures(kernels.step, (v@[i], v@[i + 1]), #[trigger] w[i])
            },
            _ => false,
        }
    }

    /// Whether the stage accepts a buffer of kind `k`.
    pub fn accepts(&self, k: SampleKind) -> (r: bool)
        ensures
            r == self.accepts_spec(k),
    {
        match self {
            Stage::Decimator(_) => true,
            _ => k == SampleKind::Complex,
        }
    }

    /// Transforms `input`; a buffer of the wrong variant is refused, never coerced.
    pub fn process<C: Copy, R: Copy, FS, FC, FR, FD>(
        &self,
        input: SampleBuffer<C, R>,
        kernels: &Kernels<FS, FC, FR, FD>,
    ) -> (r: Result<SampleBuffer<C, R>, StageError>)
        where
            FS: Fn(&S, usize, C) -> C + Copy,
            FC: Fn(&[C]) -> C + Copy,
            FR: Fn(&[R]) -> R + Copy,
            FD: Fn(C, C) -> R + Copy,
        requires
            self.wf(),
            kernels.callable::<S, C, R>(),
        ensures
            match r {
                Ok(out) => {
                    &&& self.accepts_spec(input.kind_spec())
                    &&& self.transforms(*kernels, input, out)
                    &&& out.kind_spec() == self.output_kind(input.kind_spec())
                    &&& out.len_spec() == self.output_len(input.len_spec() as int)
                },
                Err(e) => {
                    &&& !self.accepts_spec(input.kind_spec())
                    &&& e == (StageError::WrongVariant { expected: SampleKind::Complex, found: input.kind_spec() })
                },
            },
    {
        match (self, input) {
            (Stage::Shifter(rate), SampleBuffer::Complex(v)) => {
                let w = shift(v.as_slice(), rate, kernels.rotate);
                Ok(SampleBuffer::Complex(w))
            },
            (Stage::Decimator(k), SampleBuffer::Complex(v)) => {
                let w = decimate(v.as_slice(), *k, kernels.mean_complex);
                Ok(SampleBuffer::Complex(w))
            },
            (Stage::Decimator(k), SampleBuffer::Real(v)) => {
                let w = decimate(v.as_slice(), *k, kernels.mean_real);
                Ok(SampleBuffer::Real(w))
            },
            (Stage::Discriminator, SampleBuffer::Complex(v)) => {
                let w = discriminate(v.as_slice(), kernels.step);
                Ok(SampleBuffer::Real(w))
            },
            (_, buf) => Err(StageError::WrongVariant { expected: SampleKind::Complex, found: buf.kind() }),
        }
    }
}

/// A shifter whose rotation leaves every sample as it is (a zero rate)
/// returns its input unchanged.
pub proof fn lemma_neutral_shift_is_identity<S, C, R, FS, FC, FR, FD>(
    rate: S,
    kernels: Kernels<FS, FC, FR, FD>,
    input: Vec<C>,
    output: SampleBuffer<C, R>,
)
    where
        FS: Fn(&S, usize, C) -> C,
        FC: Fn(&[C]) -> C,
        FR: Fn(&[R]) -> R,
        FD: Fn(C, C) -> R,
    requires
        Stage::Shifter(rate).transforms(kernels, SampleBuffer::Complex(input), output),
        forall|n: usize, x: C, y: C| call_ensures(kernels.rotate, (&rate, n, x), y) ==> y == x,
    ensures
        output matches SampleBuffer::Complex(w) && w@ == input@,
{
    if let SampleBuffer::Complex(w) = output {
        assert forall|n: int| 0 <= n < w.len() implies w@[n] == input@[n] by {
            assert(call_ensures(kernels.rotate, (&rate, n as usize, input@[n]), w[n]));
        }
        assert(w@ =~= input@);
    }
}

/// Where the phase step of every adjacent pair is the same value `c`, the
/// discriminator's output is `c` at every position.
pub proof fn lemma_uniform_step_is_constant<S, C, R, FS, FC, FR, FD>(
    kernels: Kernels<FS, FC, FR, FD>,
    input: Vec<C>,
    output: SampleBuffer<C, R>,
    c: R,
)
    where
        FS: Fn(&S, usize, C) -> C,
        FC: Fn(&[C]) -> C,
        FR: Fn(&[R]) -> R,
        FD: Fn(C, C) -> R,
    requires
        Stage::<S>::Discriminator.transforms(kernels, SampleBuffer::Complex(input), output),
        forall|i: int, y: R| 0 <= i < input.len() - 1 && #[trigger] call_ensures(kernels.step, (input@[i], input@[i + 1]), y) ==> y == c,
    ensures
        output matches SampleBuffer::Real(w) && forall|i: int| 0 <= i < w.len() ==> w@[i] == c,
{
    if let SampleBuffer::Real(w) = output {
        assert forall|i: int| 0 <= i < w.len() implies w@[i] == c by {
            assert(call_ensures(kernels.step, (input@[i], input@[i + 1]), w[i]));
        }
    }
}

/// On a buffer of identical samples the discriminator yields, at every
/// position, the phase step of a sample relative to itself (`z`, zero for a
/// phase-difference kernel).
pub proof fn lemma_identical_samples<S, C, R, FS, FC, FR, FD>(
    kernels: Kernels<FS, FC, FR, FD>,
    input: Vec<C>,
    output: SampleBuffer<C, R>,
    z: R,
)
    where
        FS: Fn(&S, usize, C) -> C,
        FC: Fn(&[C]) -> C,
        FR: Fn(&[R]) -> R,
        FD: Fn(C, C) -> R,
    requires
        Stage::<S>::Discriminator.transforms(kernels, SampleBuffer::Complex(input), output),
        forall|i: int| 0 <= i < input.len() ==> #[trigger] input@[i] == input@[0],
        forall|y: R| call_ensures(kernels.step, (input@[0], input@[0]), y) ==> y == z,
    ensures
        output matches SampleBuffer::Real(w) && forall|i: int| 0 <= i < w.len() ==> w@[i] == z,
{
    if let SampleBuffer::Real(w) = output {
        assert forall|i: int| 0 <= i < w.len() implies w@[i] == z by {
            assert(input@[i] == input@[0] && input@[i + 1] == input@[0]);
            assert(call_ensures(kernels.step, (input@[i], input@[i + 1]), w[i]));
        }
    }
}

} // verus!
