//! The sample model: a buffer that is either complex-valued or real-valued.
use vstd::prelude::*;

verus! {

/// Which variant a buffer holds.
#[derive(Clone, Copy, Debug, PartialEq, Eq, Structural)]
pub enum SampleKind {
    Complex,
    Real,
}

/// A buffer of samples; `C` is the complex sample type, `R` the real one.
#[derive(Clone, Debug)]
pub enum SampleBuffer<C, R> {
    Complex(Vec<C>),
    Real(Vec<R>),
}

impl<C, R> SampleBuffer<C, R> {
    pub open spec fn kind_spec(&self) -> SampleKind {
        match self {
            SampleBuffer::Complex(_) => SampleKind::Complex,
            SampleBuffer::Real(_) => SampleKind::Real,
        }
    }

    pub open spec fn len_spec(&self) -> nat {
        match self {
            SampleBuffer::Complex(v) => v@.len(),
            SampleBuffer::Real(v) => v@.len(),
        }
    }

    /// The variant this buffer holds.
    pub fn kind(&self) -> (r: SampleKind)
        ensures
            r == self.kind_spec(),
    {
        match self {
            SampleBuffer::Complex(_) => SampleKind::Complex,
            SampleBuffer::Real(_) => SampleKind::Real,
        }
    }

    /// Number of samples in the buffer, whichever variant it holds.
    pub fn len(&self) -> (r: usize)
        ensures
            r == self.len_spec(),
    {
        match self {
            SampleBuffer::Complex(v) => v.len(),
            SampleBuffer::Real(v) => v.len(),
        }
    }
}

} // verus!
