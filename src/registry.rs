use vstd::prelude::*;

use crate::question::Question;
use crate::timer::{aged, QuestionTimer};

verus! {

/// The prompt of a question on screen.
#[derive(Debug)]
pub struct DisplayText(pub String);

/// The answer a question on screen expects.
#[derive(Debug)]
pub struct QuestionActual(pub String);

/// A question on screen: its prompt, its expected answer and its countdown.
#[derive(Debug)]
pub struct QuestionBundle {
    pub text: DisplayText,
    pub actual: QuestionActual,
    pub timer: QuestionTimer,
}

/// What a question on screen is: prompt, expected answer, milliseconds left.
pub struct ActiveView {
    pub prompt: Seq<char>,
    pub answer: Seq<char>,
    pub remaining: nat,
}

impl View for QuestionBundle {
    type V = ActiveView;

    open spec fn view(&self) -> ActiveView {
        ActiveView {
            prompt: self.text.0@,
            answer: self.actual.0@,
            remaining: self.timer.0 as nat,
        }
    }
}

/// A question of the bank as it appears on screen, with `ttl` to live.
pub open spec fn fresh(q: Question, ttl: nat) -> ActiveView {
    ActiveView { prompt: q.text@, answer: q.actual@, remaining: ttl }
}

/// A question on screen after `delta` more has passed.
pub open spec fn aged_view(a: ActiveView, delta: nat) -> ActiveView {
    ActiveView { remaining: aged(a.remaining, delta), ..a }
}

/// The questions still on screen, in their order and with their countdowns
/// advanced, after `delta` passes: those whose time reaches zero are gone.
pub open spec fn survivors(s: Seq<ActiveView>, delta: nat) -> Seq<ActiveView>
    decreases s.len(),
{
    if s.len() == 0 {
        s
    } else {
        let rest = survivors(s.drop_last(), delta);
        let a = aged_view(s.last(), delta);
        if a.remaining > 0 {
            rest.push(a)
        } else {
            rest
        }
    }
}

/// How many of the questions run out of time when `delta` passes.
pub open spec fn expired(s: Seq<ActiveView>, delta: nat) -> nat
    decreases s.len(),
{
    if s.len() == 0 {
        0
    } else {
        expired(s.drop_last(), delta) + if aged(s.last().remaining, delta) == 0 {
            1nat
        } else {
            0nat
        }
    }
}

/// The questions, in their order, but for those that expect `answer`.
pub open spec fn without_answer(s: Seq<ActiveView>, answer: Seq<char>) -> Seq<ActiveView>
    decreases s.len(),
{
    if s.len() == 0 {
        s
    } else {
        let rest = without_answer(s.drop_last(), answer);
        if s.last().answer == answer {
            rest
        } else {
            rest.push(s.last())
        }
    }
}

/// How many of the questions expect `answer`.
pub open spec fn answered(s: Seq<ActiveView>, answer: Seq<char>) -> nat
    decreases s.len(),
{
    if s.len() == 0 {
        0
    } else {
        answered(s.drop_last(), answer) + if s.last().answer == answer {
            1nat
        } else {
            0nat
        }
    }
}

/// The views of a sequence of questions on screen.
pub open spec fn views(s: Seq<QuestionBundle>) -> Seq<ActiveView> {
    s.map_values(|q: QuestionBundle| q@)
}

impl QuestionBundle {
    /// A question of the bank put on screen with `ttl_ms` to live.
    pub fn new(q: &Question, ttl_ms: u64) -> (r: QuestionBundle)
        ensures
            r@ == fresh(*q, ttl_ms as nat),
    {
        QuestionBundle {
            text: DisplayText(q.text.clone()),
            actual: QuestionActual(q.actual.clone()),
            timer: QuestionTimer::new(ttl_ms),
        }
    }

    /// A copy of this question after `delta_ms` has passed.
    fn aged_copy(&self, delta_ms: u64) -> (r: QuestionBundle)
        ensures
            r@ == aged_view(self@, delta_ms as nat),
    {
        let mut timer = self.timer;
        timer.tick(delta_ms);
        QuestionBundle {
            text: DisplayText(self.text.0.clone()),
            actual: QuestionActual(self.actual.0.clone()),
            timer,
        }
    }
}

/// The questions on screen, oldest first.
#[derive(Debug)]
pub struct QuestionRegistry {
    active: Vec<QuestionBundle>,
}

impl View for QuestionRegistry {
    type V = Seq<ActiveView>;

    closed spec fn view(&self) -> Seq<ActiveView> {
        views(self.active@)
    }
}

impl QuestionRegistry {
    /// No question on screen.
    pub fn new() -> (r: QuestionRegistry)
        ensures
            r@ == Seq::<ActiveView>::empty(),
    {
        let r = QuestionRegistry { active: Vec::new() };
        assert(r@ =~= Seq::<ActiveView>::empty());
        r
    }

    pub fn len(&self) -> (r: usize)
        ensures
            r == self@.len(),
    {
        self.active.len()
    }

    pub fn is_empty(&self) -> (r: bool)
        ensures
            r == (self@.len() == 0),
    {
        self.active.len() == 0
    }

    /// The questions on screen, for display.
    pub fn active(&self) -> (r: &Vec<QuestionBundle>)
        ensures
            views(r@) == self@,
    {
        &self.active
    }

    /// Puts a question of the bank on screen, after the others, with `ttl_ms`
    /// to live.
    pub fn spawn(&mut self, q: &Question, ttl_ms: u64)
        ensures
            final(self)@ == old(self)@.push(fresh(*q, ttl_ms as nat)),
    {
        let b = QuestionBundle::new(q, ttl_ms);
        self.active.push(b);
        assert(views(self.active@) =~= views(old(self).active@).push(fresh(*q, ttl_ms as nat)));
    }

    /// Lets `delta_ms` pass for every question on screen; those whose time
    /// runs out leave. Returns how many left.
    pub fn advance(&mut self, delta_ms: u64) -> (r: usize)
        ensures
            final(self)@ == survivors(old(self)@, delta_ms as nat),
            r == expired(old(self)@, delta_ms as nat),
    {
        let ghost s = self@;
        let ghost d = delta_ms as nat;
        let mut kept: Vec<QuestionBundle> = Vec::new();
        let mut gone: usize = 0;
        let n = self.active.len();
        let mut i: usize = 0;
        while i < n
            invariant
                n == self.active@.len(),
                s == views(self.active@),
                d == delta_ms as nat,
                i <= n,
                gone <= i,
                views(kept@) == survivors(s.take(i as int), d),
                gone == expired(s.take(i as int), d),
            decreases n - i,
        {
            let current = &self.active[i];
            let q = current.aged_copy(delta_ms);
            let ghost before = kept@;
            let ghost prefix = s.take(i + 1);
            assert(prefix.drop_last() =~= s.take(i as int));
            assert(s[i as int] == self.active@[i as int]@);
            assert(prefix.last() == s[i as int]);
            if q.timer.finished() {
                gone = gone + 1;
            } else {
                kept.push(q);
                assert(views(kept@) =~= views(before).push(q@));
            }
            i = i + 1;
        }
        assert(s.take(n as int) =~= s);
        self.active = kept;
        gone
    }

    /// Takes off the screen every question that expects exactly `answer`.
    /// Returns how many were taken off.
    pub fn remove_matching(&mut self, answer: &str) -> (r: usize)
        ensures
            final(self)@ == without_answer(old(self)@, answer@),
            r == answered(old(self)@, answer@),
    {
        let ghost s = self@;
        let wanted = answer.to_owned();
        let mut kept: Vec<QuestionBundle> = Vec::new();
        let mut hits: usize = 0;
        let n = self.active.len();
        let mut i: usize = 0;
        while i < n
            invariant
                n == self.active@.len(),
                s == views(self.active@),
                wanted@ == answer@,
                i <= n,
                hits <= i,
                views(kept@) == without_answer(s.take(i as int), answer@),
                hits == answered(s.take(i as int), answer@),
            decreases n - i,
        {
            let ghost before = kept@;
            let ghost prefix = s.take(i + 1);
            assert(prefix.drop_last() =~= s.take(i as int));
            assert(s[i as int] == self.active@[i as int]@);
            assert(prefix.last() == s[i as int]);
            let current = &self.active[i];
            if current.actual.0 == wanted {
                hits = hits + 1;
            } else {
                let q = current.clone_exact();
                kept.push(q);
                assert(views(kept@) =~= views(before).push(q@));
            }
            i = i + 1;
        }
        assert(s.take(n as int) =~= s);
        self.active = kept;
        hits
    }

    /// Takes every question off the screen, with no effect on the score.
    pub fn clear_all(&mut self)
        ensures
            final(self)@ == Seq::<ActiveView>::empty(),
    {
        self.active = Vec::new();
        assert(self@ =~= Seq::<ActiveView>::empty());
    }
}

impl QuestionBundle {
    /// A copy of this question, field for field.
    fn clone_exact(&self) -> (r: QuestionBundle)
        ensures
            r@ == self@,
    {
        self.aged_copy(0)
    }
}


/// When time passes, every question on screen either stays, with time left,
/// or leaves and is counted once as expired.
pub proof fn lemma_expiry_accounts_for_all(s: Seq<ActiveView>, delta: nat)
    ensures
        survivors(s, delta).len() + expired(s, delta) == s.len(),
        forall|i: int|
            0 <= i < survivors(s, delta).len() ==> #[trigger] survivors(s, delta)[i].remaining
                > 0,
    decreases s.len(),
{
    if s.len() > 0 {
        lemma_expiry_accounts_for_all(s.drop_last(), delta);
    }
}

/// Letting `first` and then `second` pass is letting `first + second` pass:
/// the same questions remain, and the expiries of the two steps add up to
/// those of the one. A question that expired in the first step is gone and
/// is not counted again in the second.
pub proof fn lemma_advance_composes(s: Seq<ActiveView>, first: nat, second: nat)
    ensures
        survivors(survivors(s, first), second) == survivors(s, first + second),
        expired(s, first) + expired(survivors(s, first), second) == expired(s, first + second),
    decreases s.len(),
{
    if s.len() > 0 {
        let rest = s.drop_last();
        let a = aged_view(s.last(), first);
        let kept = survivors(rest, first);
        lemma_advance_composes(rest, first, second);
        if a.remaining > 0 {
            assert(survivors(s, first) == kept.push(a));
            assert(kept.push(a).drop_last() =~= kept);
            assert(kept.push(a).last() == a);
            assert(aged_view(a, second) == aged_view(s.last(), first + second));
        } else {
            assert(aged(s.last().remaining, first + second) == 0);
        }
    }
}

} // verus!
