use vstd::prelude::*;

use crate::input::{trimmed, InputBuffer};
use crate::question::{random_below, Config, ConfigError, Question};
use crate::registry::{
    answered, expired, fresh, lemma_advance_composes, lemma_expiry_accounts_for_all, survivors,
    without_answer, ActiveView, QuestionBundle, QuestionRegistry,
};
use crate::score::Score;
use crate::state::{AppState, AssetSignal, GameState, LoadFailure, MenuAction};
use crate::timer::{carried, fired, GlobalTimer};

verus! {

/// How often a new question falls, in milliseconds.
pub const SPAWN_PERIOD_MS: u64 = 5000;

/// How long a question stays on screen, in milliseconds.
pub const QUESTION_TTL_MS: u64 = 20000;

/// The lowest score at which a round goes on.
pub const LOWEST_SCORE: i64 = -3;

/// The first score, counting up, at which a round is over.
pub const WINNING_SCORE: i64 = 5;

/// The numbers that shape a round: the spawn period and the time to live of
/// a question, in milliseconds, and the scores `low..high` within which the
/// round goes on.
#[derive(Debug, Clone, Copy, PartialEq, Eq, Structural)]
pub struct Rules {
    pub period_ms: u64,
    pub ttl_ms: u64,
    pub low: i64,
    pub high: i64,
}

impl Rules {
    /// A spawn period of zero would fire without end, and a round starts at a
    /// score of zero, which must lie within its bounds.
    pub open spec fn wf(self) -> bool {
        self.period_ms > 0 && self.low <= 0 < self.high
    }

    /// Rules with these numbers, or `None` where they could not shape a round.
    pub fn new(period_ms: u64, ttl_ms: u64, low: i64, high: i64) -> (r: Option<Rules>)
        ensures
            r is Some <==> (period_ms > 0 && low <= 0 < high),
            r matches Some(x) ==> x.wf() && x == (Rules { period_ms, ttl_ms, low, high }),
    {
        if period_ms > 0 && low <= 0 && 0 < high {
            Some(Rules { period_ms, ttl_ms, low, high })
        } else {
            None
        }
    }

    /// A question every five seconds, twenty seconds to answer it, and the
    /// round over below three points lost or at five points won.
    pub fn standard() -> (r: Rules)
        ensures
            r.wf(),
            r == (Rules {
                period_ms: SPAWN_PERIOD_MS,
                ttl_ms: QUESTION_TTL_MS,
                low: LOWEST_SCORE,
                high: WINNING_SCORE,
            }),
    {
        Rules {
            period_ms: SPAWN_PERIOD_MS,
            ttl_ms: QUESTION_TTL_MS,
            low: LOWEST_SCORE,
            high: WINNING_SCORE,
        }
    }
}

/// What a session is: its two phases, why loading failed if it did, the
/// score, the questions on screen, what has been typed, the question bank,
/// the spawn timer's period and position, and the rules.
pub struct SessionView {
    pub app: AppState,
    pub game: GameState,
    pub failure: Option<LoadFailure>,
    pub score: int,
    pub active: Seq<ActiveView>,
    pub typed: Seq<char>,
    pub bank: Seq<Question>,
    pub period: nat,
    pub elapsed: nat,
    pub ttl: nat,
    pub low: int,
    pub high: int,
}

impl SessionView {
    /// What holds between any two steps of a session.
    pub open spec fn wf(self) -> bool {
        &&& 0 < self.period
        &&& self.elapsed < self.period
        &&& self.low <= 0 < self.high
        &&& self.app != AppState::InGame ==> {
            &&& self.game == GameState::Idle
            &&& self.active.len() == 0
            &&& self.score == 0
        }
        &&& self.app == AppState::InGame ==> self.game != GameState::Idle
        &&& (self.game == GameState::Playing || self.game == GameState::Paused) ==> self.low
            <= self.score < self.high
        &&& self.app != AppState::Loading ==> self.bank.len() > 0
        &&& self.failure is Some ==> self.app == AppState::Loading
    }

    /// The session after one poll of the loading signal. Only a session still
    /// loading, and not yet failed, reacts: a bank with no question is a
    /// failure too.
    pub open spec fn polled(self, signal: AssetSignal) -> SessionView {
        if self.app == AppState::Loading && self.failure is None {
            match signal {
                AssetSignal::Pending => self,
                AssetSignal::Failed => SessionView { failure: Some(LoadFailure::Assets), ..self },
                AssetSignal::Ready(c) => if c.questions@.len() == 0 {
                    SessionView {
                        failure: Some(LoadFailure::Config(ConfigError::EmptyBank)),
                        ..self
                    }
                } else {
                    SessionView { app: AppState::MainMenu, bank: c.questions@, ..self }
                },
            }
        } else {
            self
        }
    }

    /// Whether the action means something in this state.
    pub open spec fn applies(self, action: MenuAction) -> bool {
        match action {
            MenuAction::Start => self.app == AppState::MainMenu,
            MenuAction::Pause => self.game == GameState::Playing,
            MenuAction::Resume => self.game == GameState::Paused,
            MenuAction::ReturnToMenu => self.game == GameState::Paused,
            MenuAction::Restart => self.game == GameState::GameOver,
            MenuAction::Quit => self.app == AppState::MainMenu,
        }
    }

    /// The session after a menu action. Leaving the game, and starting over
    /// after it is over, clear the screen and the score.
    pub open spec fn acted(self, action: MenuAction) -> SessionView {
        if !self.applies(action) {
            self
        } else {
            match action {
                MenuAction::Start => SessionView {
                    app: AppState::InGame,
                    game: GameState::Playing,
                    ..self
                },
                MenuAction::Pause => SessionView { game: GameState::Paused, ..self },
                MenuAction::Resume => SessionView { game: GameState::Playing, ..self },
                MenuAction::ReturnToMenu => SessionView {
                    app: AppState::MainMenu,
                    game: GameState::Idle,
                    active: Seq::empty(),
                    score: 0,
                    ..self
                },
                MenuAction::Restart => SessionView {
                    game: GameState::Playing,
                    active: Seq::empty(),
                    score: 0,
                    ..self
                },
                MenuAction::Quit => self,
            }
        }
    }

    /// The session after a character is typed: it is kept only in play.
    pub open spec fn typed_char(self, c: char) -> SessionView {
        if self.game == GameState::Playing {
            SessionView { typed: self.typed.push(c), ..self }
        } else {
            self
        }
    }

    /// The round is over as soon as the score in play leaves its bounds.
    pub open spec fn evaluated(self) -> SessionView {
        if self.game == GameState::Playing && !(self.low <= self.score < self.high) {
            SessionView { game: GameState::GameOver, ..self }
        } else {
            self
        }
    }

    /// The session after `answer` is submitted in play: every question that
    /// expects it leaves the screen for one point each, and the typing starts
    /// afresh.
    pub open spec fn answered_with(self, answer: Seq<char>) -> SessionView {
        if self.game == GameState::Playing {
            SessionView {
                active: without_answer(self.active, answer),
                score: self.score + answered(self.active, answer),
                typed: Seq::empty(),
                ..self
            }.evaluated()
        } else {
            self
        }
    }

    /// The session after the typed text is submitted: the answer is the text
    /// without its surrounding white space.
    pub open spec fn submitted(self) -> SessionView {
        self.answered_with(trimmed(self.typed))
    }

    /// The questions that the spawn timer brings while `delta` passes, taken
    /// from the bank at the indices that `draws` gives in turn, round and
    /// round.
    pub open spec fn drawn(self, delta: nat, draws: Seq<usize>) -> Seq<ActiveView> {
        Seq::new(
            fired(self.period, self.elapsed, delta),
            |i: int| fresh(self.bank[draw_index(draws, i, self.bank.len())], self.ttl),
        )
    }

    /// Whether `added` could be what the spawn timer brings while `delta`
    /// passes: one fresh question of the bank for each time it fires.
    pub open spec fn drawable(self, delta: nat, added: Seq<ActiveView>) -> bool {
        &&& added.len() == fired(self.period, self.elapsed, delta)
        &&& forall|i: int|
            0 <= i < added.len() ==> exists|j: int|
                0 <= j < self.bank.len() && #[trigger] added[i] == fresh(self.bank[j], self.ttl)
    }

    /// The session after `delta` passes in play, the spawn timer bringing
    /// `added`: the new questions go on screen, then every question's time
    /// runs down, each one that runs out costs a point, and the bounds are
    /// checked. Out of play, time changes nothing.
    pub open spec fn advanced(self, delta: nat, added: Seq<ActiveView>) -> SessionView {
        if self.game == GameState::Playing {
            let all = self.active + added;
            SessionView {
                elapsed: carried(self.period, self.elapsed, delta),
                active: survivors(all, delta),
                score: self.score - expired(all, delta),
                ..self
            }.evaluated()
        } else {
            self
        }
    }
}

/// Leaving the game, whichever way, and starting over after a round is over,
/// leave no question on screen and a score of zero, however many questions
/// were on screen and whatever the score was. No step but a menu action
/// leaves the game.
pub proof fn lemma_leaving_game_clears_round(
    v: SessionView,
    action: MenuAction,
    delta: nat,
    added: Seq<ActiveView>,
    answer: Seq<char>,
    c: char,
    signal: AssetSignal,
)
    requires
        v.wf(),
        v.app == AppState::InGame,
    ensures
        v.acted(action).app != AppState::InGame ==> {
            &&& v.acted(action).game == GameState::Idle
            &&& v.acted(action).active.len() == 0
            &&& v.acted(action).score == 0
        },
        v.game == GameState::GameOver && action == MenuAction::Restart ==> {
            &&& v.acted(action).game == GameState::Playing
            &&& v.acted(action).active.len() == 0
            &&& v.acted(action).score == 0
        },
        v.advanced(delta, added).app == AppState::InGame,
        v.answered_with(answer).app == AppState::InGame,
        v.typed_char(c).app == AppState::InGame,
        v.polled(signal).app == AppState::InGame,
{
}

/// While the round is paused, time changes nothing: the spawn timer does not
/// fire and no question runs down.
pub proof fn lemma_pause_freezes_time(v: SessionView, delta: nat, added: Seq<ActiveView>)
    requires
        v.game == GameState::Paused,
    ensures
        v.advanced(delta, added) == v,
{
}

/// A question that runs out of time costs one point, once: after two steps
/// of time with nothing new on screen in the second, the score has lost one
/// point for each question that ran out over the whole time, and the screen
/// holds what one step of the whole time would leave.
pub proof fn lemma_expiry_charged_once(
    v: SessionView,
    first: nat,
    second: nat,
    added: Seq<ActiveView>,
)
    requires
        v.game == GameState::Playing,
        v.advanced(first, added).game == GameState::Playing,
    ensures
        v.advanced(first, added).advanced(second, Seq::empty()).score == v.score - expired(
            v.active + added,
            first + second,
        ),
        v.advanced(first, added).advanced(second, Seq::empty()).active == survivors(
            v.active + added,
            first + second,
        ),
{
    let all = v.active + added;
    let w = v.advanced(first, added);
    lemma_advance_composes(all, first, second);
    assert(w.active + Seq::<ActiveView>::empty() =~= w.active);
}

/// The index into a bank of `size` questions of the `i`-th question that the
/// spawn timer brings: `draws` is taken in turn, round and round.
pub open spec fn draw_index(draws: Seq<usize>, i: int, size: nat) -> int {
    (draws[i % (draws.len() as int)] as int) % (size as int)
}

/// A quiz session: the application and round phases, the score, the
/// questions on screen and the spawn timer, driven one event at a time.
#[derive(Debug)]
pub struct Session {
    app: AppState,
    game: GameState,
    failure: Option<LoadFailure>,
    score: Score,
    registry: QuestionRegistry,
    input: InputBuffer,
    config: Config,
    timer: GlobalTimer,
    ttl_ms: u64,
    low: i64,
    high: i64,
}

impl View for Session {
    type V = SessionView;

    closed spec fn view(&self) -> SessionView {
        SessionView {
            app: self.app,
            game: self.game,
            failure: self.failure,
            score: self.score.score as int,
            active: self.registry@,
            typed: self.input@,
            bank: self.config.questions@,
            period: self.timer.period(),
            elapsed: self.timer.elapsed(),
            ttl: self.ttl_ms as nat,
            low: self.low as int,
            high: self.high as int,
        }
    }
}

/// Puts on screen, after the others, one question for each of `count`
/// firings of the spawn timer, the `i`-th taken from the bank at the index
/// `draws[i % draws.len()]`, reduced modulo the bank's size.
fn spawn_drawn(
    registry: &mut QuestionRegistry,
    config: &Config,
    ttl_ms: u64,
    count: u64,
    draws: &Vec<usize>,
)
    requires
        config.questions@.len() > 0,
        count > 0 ==> draws@.len() > 0,
    ensures
        final(registry)@ == old(registry)@ + Seq::new(
            count as nat,
            |i: int|
                fresh(
                    config.questions@[draw_index(draws@, i, config.questions@.len())],
                    ttl_ms as nat,
                ),
        ),
{
    let ghost start = registry@;
    let ghost all = Seq::new(
        count as nat,
        |i: int|
            fresh(
                config.questions@[draw_index(draws@, i, config.questions@.len())],
                ttl_ms as nat,
            ),
    );
    let size = config.len();
    let mut i: u64 = 0;
    while i < count
        invariant
            i <= count,
            size == config.questions@.len(),
            size > 0,
            count > 0 ==> draws@.len() > 0,
            all == Seq::new(
                count as nat,
                |i: int|
                    fresh(
                        config.questions@[draw_index(draws@, i, config.questions@.len())],
                        ttl_ms as nat,
                    ),
            ),
            registry@ == start + all.take(i as int),
        decreases count - i,
    {
        let slot = (i % (draws.len() as u64)) as usize;
        let index = draws[slot] % size;
        registry.spawn(config.pick(index), ttl_ms);
        assert(all.take(i + 1) =~= all.take(i as int).push(all[i as int]));
        assert(registry@ =~= start + all.take(i + 1));
        i = i + 1;
    }
    assert(all.take(count as int) =~= all);
}

impl Session {
    pub open spec fn wf(&self) -> bool {
        self@.wf()
    }

    /// A session that starts loading, under the given rules.
    pub fn new(rules: Rules) -> (r: Session)
        requires
            rules.wf(),
        ensures
            r.wf(),
            r@ == (SessionView {
                app: AppState::Loading,
                game: GameState::Idle,
                failure: None,
                score: 0,
                active: Seq::empty(),
                typed: Seq::empty(),
                bank: Seq::empty(),
                period: rules.period_ms as nat,
                elapsed: 0,
                ttl: rules.ttl_ms as nat,
                low: rules.low as int,
                high: rules.high as int,
            }),
    {
        Session {
            app: AppState::Loading,
            game: GameState::Idle,
            failure: None,
            score: Score::new(),
            registry: QuestionRegistry::new(),
            input: InputBuffer::new(),
            config: Config::default(),
            timer: GlobalTimer::new(rules.period_ms),
            ttl_ms: rules.ttl_ms,
            low: rules.low,
            high: rules.high,
        }
    }

    pub fn app_state(&self) -> (r: AppState)
        ensures
            r == self@.app,
    {
        self.app
    }

    pub fn game_state(&self) -> (r: GameState)
        ensures
            r == self@.game,
    {
        self.game
    }

    /// Why loading can never finish, if it cannot.
    pub fn load_failure(&self) -> (r: Option<LoadFailure>)
        ensures
            r == self@.failure,
    {
        self.failure
    }

    pub fn score(&self) -> (r: i128)
        ensures
            r == self@.score,
    {
        self.score.value()
    }

    /// The questions on screen, oldest first.
    pub fn active(&self) -> (r: &Vec<QuestionBundle>)
        ensures
            crate::registry::views(r@) == self@.active,
    {
        self.registry.active()
    }

    /// What has been typed since the last submit.
    pub fn typed(&self) -> (r: &str)
        ensures
            r@ == self@.typed,
    {
        self.input.as_str()
    }

    /// The question bank, empty until loading is done.
    pub fn config(&self) -> (r: &Config)
        ensures
            r.questions@ == self@.bank,
    {
        &self.config
    }

    /// Takes the result of one poll of the loading signal.
    pub fn poll_assets(&mut self, signal: AssetSignal)
        requires
            old(self).wf(),
        ensures
            final(self).wf(),
            final(self)@ == old(self)@.polled(signal),
    {
        if self.app != AppState::Loading || self.failure.is_some() {
            return ;
        }
        match signal {
            AssetSignal::Pending => {},
            AssetSignal::Failed => {
                self.failure = Some(LoadFailure::Assets);
            },
            AssetSignal::Ready(config) => {
                if config.is_empty() {
                    self.failure = Some(LoadFailure::Config(ConfigError::EmptyBank));
                } else {
                    self.config = config;
                    self.app = AppState::MainMenu;
                }
            },
        }
    }

    /// Takes the questions off the screen and sets the score back to zero.
    fn clear_round(&mut self)
        ensures
            final(self)@ == (SessionView { active: Seq::empty(), score: 0, ..old(self)@ }),
    {
        self.registry.clear_all();
        self.score.reset();
    }

    /// Takes a menu action; returns whether it meant something in this state.
    /// `Quit` changes nothing here: leaving the application is up to the
    /// caller.
    pub fn apply(&mut self, action: MenuAction) -> (r: bool)
        requires
            old(self).wf(),
        ensures
            final(self).wf(),
            r == old(self)@.applies(action),
            final(self)@ == old(self)@.acted(action),
    {
        match action {
            MenuAction::Start => {
                if self.app == AppState::MainMenu {
                    self.app = AppState::InGame;
                    self.game = GameState::Playing;
                    true
                } else {
                    false
                }
            },
            MenuAction::Pause => {
                if self.game == GameState::Playing {
                    self.game = GameState::Paused;
                    true
                } else {
                    false
                }
            },
            MenuAction::Resume => {
                if self.game == GameState::Paused {
                    self.game = GameState::Playing;
                    true
                } else {
                    false
                }
            },
            MenuAction::ReturnToMenu => {
                if self.game == GameState::Paused {
                    self.clear_round();
                    self.app = AppState::MainMenu;
                    self.game = GameState::Idle;
                    true
                } else {
                    false
                }
            },
            MenuAction::Restart => {
                if self.game == GameState::GameOver {
                    self.clear_round();
                    self.game = GameState::Playing;
                    true
                } else {
                    false
                }
            },
            MenuAction::Quit => self.app == AppState::MainMenu,
        }
    }

    /// Takes a typed character.
    pub fn on_char(&mut self, c: char)
        requires
            old(self).wf(),
        ensures
            final(self).wf(),
            final(self)@ == old(self)@.typed_char(c),
    {
        if self.game == GameState::Playing {
            self.input.on_char(c);
        }
    }

    /// Ends the round if the score in play has left its bounds.
    fn evaluate(&mut self)
        ensures
            final(self)@ == old(self)@.evaluated(),
    {
        if self.game == GameState::Playing && !self.score.within(self.low, self.high) {
            self.game = GameState::GameOver;
        }
    }

    /// Removes the questions that expect `answer`, one point for each, and
    /// checks the bounds; the typed text is left alone.
    fn settle(&mut self, answer: &str)
        requires
            old(self).game == GameState::Playing,
            i64::MIN <= old(self)@.score <= i64::MAX,
        ensures
            final(self)@ == (SessionView {
                active: without_answer(old(self)@.active, answer@),
                score: old(self)@.score + answered(old(self)@.active, answer@),
                ..old(self)@
            }).evaluated(),
    {
        let hits = self.registry.remove_matching(answer);
        self.score.add(hits);
        self.evaluate();
    }

    /// Takes the submit key: the typed text, trimmed, is the answer.
    pub fn on_submit(&mut self)
        requires
            old(self).wf(),
        ensures
            final(self).wf(),
            final(self)@ == old(self)@.submitted(),
    {
        if self.game == GameState::Playing {
            let answer = self.input.take_answer();
            self.settle(answer.as_str());
        }
    }

    /// Submits `answer` as it stands, in place of the typed text.
    pub fn submit_answer(&mut self, answer: &str)
        requires
            old(self).wf(),
        ensures
            final(self).wf(),
            final(self)@ == old(self)@.answered_with(answer@),
    {
        if self.game == GameState::Playing {
            self.input.clear();
            self.settle(answer);
        }
    }

    /// Lets `delta_ms` pass, the spawn timer taking its questions from the bank
    /// at the indices that `draws` gives in turn.
    pub fn advance_with(&mut self, delta_ms: u64, draws: &Vec<usize>)
        requires
            old(self).wf(),
            draws@.len() > 0 || fired(old(self)@.period, old(self)@.elapsed, delta_ms as nat) == 0,
        ensures
            final(self).wf(),
            final(self)@ == old(self)@.advanced(delta_ms as nat, old(self)@.drawn(delta_ms as nat, draws@)),
    {
        if self.game != GameState::Playing {
            return ;
        }
        let ghost start = self@;
        let ghost added = start.drawn(delta_ms as nat, draws@);
        let count = self.timer.tick(delta_ms);
        spawn_drawn(&mut self.registry, &self.config, self.ttl_ms, count, draws);
        assert(self.registry@ == start.active + added);
        let gone = self.registry.advance(delta_ms);
        proof {
            lemma_expiry_accounts_for_all(start.active + added, delta_ms as nat);
        }
        self.score.subtract(gone);
        self.evaluate();
    }

    /// Lets `delta_ms` pass, the spawn timer drawing its questions from the
    /// bank at random.
    pub fn advance(&mut self, delta_ms: u64)
        requires
            old(self).wf(),
        ensures
            final(self).wf(),
            old(self)@.game != GameState::Playing ==> final(self)@ == old(self)@,
            old(self)@.game == GameState::Playing ==> exists|added: Seq<ActiveView>|
                old(self)@.drawable(delta_ms as nat, added) && final(self)@ == old(self)@.advanced(
                    delta_ms as nat,
                    added,
                ),
    {
        if self.game != GameState::Playing {
            return ;
        }
        let ghost start = self@;
        let count = self.timer.due(delta_ms);
        let size = self.config.len();
        let mut draws: Vec<usize> = Vec::new();
        let mut i: u64 = 0;
        while i < count
            invariant
                i <= count,
                draws@.len() == i,
                size > 0,
                forall|j: int| 0 <= j < draws@.len() ==> draws@[j] < size,
            decreases count - i,
        {
            draws.push(random_below(size));
            i = i + 1;
        }
        self.advance_with(delta_ms, &draws);
        proof {
            let added = start.drawn(delta_ms as nat, draws@);
            assert forall|k: int| 0 <= k < added.len() implies exists|j: int|
                0 <= j < start.bank.len() && #[trigger] added[k] == fresh(start.bank[j], start.ttl) by {
                let j = draw_index(draws@, k, start.bank.len());
                assert(0 <= j < start.bank.len());
                assert(added[k] == fresh(start.bank[j], start.ttl));
            }
            assert(start.drawable(delta_ms as nat, added));
        }
    }
}

} // verus!
