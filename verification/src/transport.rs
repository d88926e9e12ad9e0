//! Transport-neutral pieces of the stream layer.

use vstd::prelude::*;

verus! {

/// Which transport family a connection arrived on.
#[derive(Clone, Copy, Debug, PartialEq, Eq, Structural)]
pub enum TransportKind {
    Quic,
    TcpFallback,
}

/// What a loop that fills a whole buffer does after one read.
#[derive(Clone, Copy, Debug, PartialEq, Eq, Structural)]
pub enum FillStep {
    /// The buffer is full.
    Done,
    /// Read on, at this offset of the buffer.
    ReadAt(usize),
    /// The stream ended before the buffer was full.
    UnexpectedEof,
}

/// The first step of filling a buffer of `want` bytes.
pub open spec fn first_fill(want: usize) -> FillStep {
    if want == 0 {
        FillStep::Done
    } else {
        FillStep::ReadAt(0)
    }
}

/// The step after a read at offset `got` of a buffer of `want` bytes that has
/// delivered `n` bytes.
pub open spec fn next_fill(got: usize, n: usize, want: usize) -> FillStep {
    if n == 0 {
        FillStep::UnexpectedEof
    } else if got + n == want {
        FillStep::Done
    } else {
        FillStep::ReadAt((got + n) as usize)
    }
}

/// Where to start filling a buffer of `want` bytes.
pub fn fill_start(want: usize) -> (step: FillStep)
    ensures
        step == first_fill(want),
{
    if want == 0 {
        FillStep::Done
    } else {
        FillStep::ReadAt(0)
    }
}

/// What to do when a read at offset `got` of a buffer of `want` bytes has
/// delivered `n` bytes.
pub fn fill_step(got: usize, n: usize, want: usize) -> (step: FillStep)
    requires
        got < want,
        n <= want - got,
    ensures
        step == next_fill(got, n, want),
{
    if n == 0 {
        FillStep::UnexpectedEof
    } else if got + n == want {
        FillStep::Done
    } else {
        FillStep::ReadAt(got + n)
    }
}

/// What a read into a buffer of `want` bytes that delivered `n` bytes amounts to.
/// Nothing delivered is a graceful end of the stream, unless nothing was wanted.
pub fn read_outcome(n: usize, want: usize) -> (r: Option<usize>)
    requires
        n <= want,
    ensures
        r == (if n == 0 && want > 0 {
            None
        } else {
            Some(n)
        }),
{
    if n == 0 && want > 0 {
        None
    } else {
        Some(n)
    }
}

/// Where filling a buffer of `want` bytes stands after reads of these sizes. Reads
/// after the end of the fill are not made.
pub open spec fn fill_after(want: usize, reads: Seq<usize>) -> FillStep
    decreases reads.len(),
{
    if reads.len() == 0 {
        first_fill(want)
    } else {
        match fill_after(want, reads.drop_last()) {
            FillStep::ReadAt(got) => next_fill(got, reads.last(), want),
            over => over,
        }
    }
}

/// The number of bytes that reads of these sizes deliver.
pub open spec fn delivered(reads: Seq<usize>) -> nat
    decreases reads.len(),
{
    if reads.len() == 0 {
        0
    } else {
        delivered(reads.drop_last()) + reads.last() as nat
    }
}

/// A buffer is filled by exactly as many bytes as it holds: reads that deliver
/// something each, and no more than the buffer holds, are done when they have
/// delivered all of it, and go on right behind the last byte until then.
pub proof fn a_buffer_is_filled_exactly(want: usize, reads: Seq<usize>)
    requires
        forall|i: int| 0 <= i < reads.len() ==> #[trigger] reads[i] > 0,
        delivered(reads) <= want,
    ensures
        fill_after(want, reads) == (if delivered(reads) == want {
            FillStep::Done
        } else {
            FillStep::ReadAt(delivered(reads) as usize)
        }),
    decreases reads.len(),
{
    if reads.len() > 0 {
        let before = reads.drop_last();
        assert forall|i: int| 0 <= i < before.len() implies #[trigger] before[i] > 0 by {
            assert(before[i] == reads[i]);
        }
        assert(reads.last() == reads[reads.len() - 1]);
        a_buffer_is_filled_exactly(want, before);
    }
}

} // verus!
