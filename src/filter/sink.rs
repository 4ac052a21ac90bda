use vstd::prelude::*;

use crate::error::{error_of_status, Error, AVERROR_EAGAIN, AVERROR_EOF};

verus! {

/// The consumer side of one graph output: it turns the native status of each
/// pull into a result, and remembers whether the output has reported end of
/// stream.
pub struct Sink {
    ended: bool,
}

/// What a sink holds: whether its output has reported end of stream.
pub struct SinkView {
    pub ended: bool,
}

impl View for Sink {
    type V = SinkView;

    closed spec fn view(&self) -> SinkView {
        SinkView { ended: self.ended }
    }
}

/// The result of a pull whose native status is `status`: a unit arrived
/// exactly when the status is not negative.
pub open spec fn pull_outcome(status: i32) -> Result<(), Error> {
    if status >= 0 {
        Ok(())
    } else {
        Err(error_of_status(status))
    }
}

/// The results of pulls with the native statuses `statuses`, in turn.
pub open spec fn pull_outcomes(statuses: Seq<i32>) -> Seq<Result<(), Error>> {
    statuses.map_values(|s: i32| pull_outcome(s))
}

impl Sink {
    /// A sink on an output that has not reported end of stream.
    pub fn new() -> (r: Sink)
        ensures
            !r@.ended,
    {
        Sink { ended: false }
    }

    /// Whether the output has reported end of stream.
    pub fn is_ended(&self) -> (r: bool)
        ensures
            r == self@.ended,
    {
        self.ended
    }

    /// Takes the native status of a pull, by frame or by a fixed number of
    /// samples: a unit was written into the caller's slot (`Ok`), none is
    /// there yet (`Again`), the output has ended (`Eof`), or the graph failed
    /// (`Other`, carrying the status).
    pub fn pull(&mut self, status: i32) -> (r: Result<(), Error>)
        ensures
            r == pull_outcome(status),
            final(self)@.ended == (old(self)@.ended || status == AVERROR_EOF),
    {
        if status >= 0 {
            Ok(())
        } else {
            let e = Error::from_status(status);
            if status == AVERROR_EOF {
                self.ended = true;
            }
            Err(e)
        }
    }
}

/// Pulling from an output that has produced nothing yet, which the native
/// layer reports as "try again", yields retry-later: neither a failure nor
/// the end of the stream.
pub proof fn lemma_nothing_yet_is_retry()
    ensures
        pull_outcome(AVERROR_EAGAIN) == Err::<(), Error>(Error::Again),
{
}

/// Once the source is exhausted and drained, the native layer reports end of
/// stream on every later pull, and each of those pulls yields end of stream:
/// never success, retry-later or a failure.
pub proof fn lemma_end_is_terminal(later: Seq<i32>)
    requires
        forall|i: int| 0 <= i < later.len() ==> #[trigger] later[i] == AVERROR_EOF,
    ensures
        pull_outcomes(later).len() == later.len(),
        forall|i: int|
            0 <= i < later.len() ==> #[trigger] pull_outcomes(later)[i] == Err::<(), Error>(
                Error::Eof,
            ),
{
    assert forall|i: int| 0 <= i < later.len() implies #[trigger] pull_outcomes(later)[i]
        == Err::<(), Error>(Error::Eof) by {
        assert(later[i] == AVERROR_EOF);
    }
}

} // verus!
