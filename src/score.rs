use vstd::prelude::*;

verus! {

/// The score of the round in progress.
///
/// It is never clamped and may go negative. It is wide enough that the
/// adjustments of one step of a round, at most one per active question,
/// cannot overflow it when the step starts from a score inside `i64`.
#[derive(Debug, Clone, Copy, PartialEq, Eq, Structural)]
pub struct Score {
    pub score: i128,
}

impl Score {
    /// A score of zero.
    pub fn new() -> (r: Score)
        ensures
            r.score == 0,
    {
        Score { score: 0 }
    }

    pub fn value(&self) -> (r: i128)
        ensures
            r == self.score,
    {
        self.score
    }

    /// One more point, for a question answered in time.
    pub fn increment(&mut self)
        requires
            old(self).score < i128::MAX,
        ensures
            final(self).score == old(self).score + 1,
    {
        self.score = self.score + 1;
    }

    /// One point less, for a question that ran out of time.
    pub fn decrement(&mut self)
        requires
            old(self).score > i128::MIN,
        ensures
            final(self).score == old(self).score - 1,
    {
        self.score = self.score - 1;
    }

    /// `n` points more at once.
    pub fn add(&mut self, n: usize)
        requires
            old(self).score + n <= i128::MAX,
        ensures
            final(self).score == old(self).score + n,
    {
        self.score = self.score + n as i128;
    }

    /// `n` points less at once.
    pub fn subtract(&mut self, n: usize)
        requires
            old(self).score - n >= i128::MIN,
        ensures
            final(self).score == old(self).score - n,
    {
        self.score = self.score - n as i128;
    }

    /// Back to zero, as at the start of a round.
    pub fn reset(&mut self)
        ensures
            final(self).score == 0,
    {
        self.score = 0;
    }

    /// Whether the score lies in `low..high`: below by at least `low`, and
    /// under `high`.
    pub fn within(&self, low: i64, high: i64) -> (r: bool)
        ensures
            r == (low <= self.score < high),
    {
        low as i128 <= self.score && self.score < high as i128
    }
}

impl Default for Score {
    fn default() -> (r: Score)
        ensures
            r.score == 0,
    {
        Score::new()
    }
}

} // verus!
