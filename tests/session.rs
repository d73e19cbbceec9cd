use tuxmath::question::{Config, ConfigError, Question};
use tuxmath::session::{Rules, Session, QUESTION_TTL_MS, SPAWN_PERIOD_MS};
use tuxmath::state::{AppState, AssetSignal, GameState, LoadFailure, MenuAction};

fn bank(pairs: &[(&str, &str)]) -> Config {
    let questions = pairs
        .iter()
        .map(|(t, a)| Question { text: t.to_string(), actual: a.to_string() })
        .collect();
    Config::load(questions).unwrap()
}

fn playing(rules: Rules, pairs: &[(&str, &str)]) -> Session {
    let mut s = Session::new(rules);
    s.poll_assets(AssetSignal::Ready(bank(pairs)));
    assert!(s.apply(MenuAction::Start));
    assert_eq!(s.game_state(), GameState::Playing);
    s
}

fn seconds(s: &mut Session, n: u32) {
    for _ in 0..n {
        s.advance(1000);
    }
}

fn type_text(s: &mut Session, text: &str) {
    for c in text.chars() {
        s.on_char(c);
    }
}

#[test]
fn rules_reject_what_cannot_shape_a_round() {
    assert!(Rules::new(0, 20000, -3, 5).is_none());
    assert!(Rules::new(5000, 20000, 1, 5).is_none());
    assert!(Rules::new(5000, 20000, -3, 0).is_none());
    let r = Rules::new(5000, 20000, -3, 5).unwrap();
    assert_eq!(r, Rules::standard());
    assert_eq!(r.period_ms, SPAWN_PERIOD_MS);
    assert_eq!(r.ttl_ms, QUESTION_TTL_MS);
}

#[test]
fn loading_waits_then_opens_the_menu_once() {
    let mut s = Session::new(Rules::standard());
    assert_eq!(s.app_state(), AppState::Loading);
    assert_eq!(s.game_state(), GameState::Idle);
    s.poll_assets(AssetSignal::Pending);
    assert_eq!(s.app_state(), AppState::Loading);
    assert!(!s.apply(MenuAction::Start));
    s.poll_assets(AssetSignal::Ready(bank(&[("1+1=?", "2")])));
    assert_eq!(s.app_state(), AppState::MainMenu);
    assert_eq!(s.config().len(), 1);
    s.poll_assets(AssetSignal::Failed);
    assert_eq!(s.app_state(), AppState::MainMenu);
    assert_eq!(s.load_failure(), None);
}

#[test]
fn failed_assets_leave_loading_stuck() {
    let mut s = Session::new(Rules::standard());
    s.poll_assets(AssetSignal::Failed);
    assert_eq!(s.load_failure(), Some(LoadFailure::Assets));
    s.poll_assets(AssetSignal::Ready(bank(&[("1+1=?", "2")])));
    assert_eq!(s.app_state(), AppState::Loading);
    assert_eq!(s.load_failure(), Some(LoadFailure::Assets));
}

#[test]
fn empty_bank_leaves_loading_stuck() {
    let mut s = Session::new(Rules::standard());
    s.poll_assets(AssetSignal::Ready(Config::default()));
    assert_eq!(s.app_state(), AppState::Loading);
    assert_eq!(s.load_failure(), Some(LoadFailure::Config(ConfigError::EmptyBank)));
}

#[test]
fn submit_trims_the_typed_answer() {
    let mut s = playing(Rules::standard(), &[("1+1=?", "2")]);
    seconds(&mut s, 5);
    assert_eq!(s.active().len(), 1);
    type_text(&mut s, " 2 ");
    assert_eq!(s.typed(), " 2 ");
    s.on_submit();
    assert_eq!(s.score(), 1);
    assert!(s.active().is_empty());
    assert_eq!(s.typed(), "");

    seconds(&mut s, 5);
    type_text(&mut s, "2 ");
    s.on_submit();
    assert_eq!(s.score(), 2);
    assert!(s.active().is_empty());
}

#[test]
fn wrong_answer_only_clears_the_typing() {
    let mut s = playing(Rules::standard(), &[("1+1=?", "2")]);
    seconds(&mut s, 5);
    type_text(&mut s, "3");
    s.on_submit();
    assert_eq!(s.score(), 0);
    assert_eq!(s.active().len(), 1);
    assert_eq!(s.typed(), "");
}

#[test]
fn one_answer_takes_every_match() {
    let mut s = playing(Rules::standard(), &[("1+1=?", "2"), ("4-2=?", "2"), ("2+2=?", "4")]);
    s.advance_with(5000, &vec![0]);
    s.advance_with(5000, &vec![1]);
    s.advance_with(5000, &vec![2]);
    assert_eq!(s.active().len(), 3);
    assert_eq!(s.active()[1].text.0, "4-2=?");
    s.submit_answer("2");
    assert_eq!(s.score(), 2);
    assert_eq!(s.active().len(), 1);
    assert_eq!(s.active()[0].actual.0, "4");
}

#[test]
fn draws_go_round_and_round() {
    let mut s = playing(Rules::standard(), &[("a", "1"), ("b", "2"), ("c", "3")]);
    s.advance_with(15000, &vec![2, 4]);
    let prompts: Vec<&str> = s.active().iter().map(|q| q.text.0.as_str()).collect();
    assert_eq!(prompts, vec!["c", "b", "c"]);
    assert_eq!(s.active()[0].timer.0, QUESTION_TTL_MS - 15000);
}

#[test]
fn typing_counts_only_in_play() {
    let mut s = Session::new(Rules::standard());
    s.poll_assets(AssetSignal::Ready(bank(&[("1+1=?", "2")])));
    s.on_char('2');
    assert_eq!(s.typed(), "");
    s.apply(MenuAction::Start);
    s.on_char('2');
    s.apply(MenuAction::Pause);
    s.on_char('3');
    s.on_submit();
    assert_eq!(s.typed(), "2");
}

#[test]
fn leaving_the_game_clears_the_round() {
    for spawned in [0u32, 1, 3] {
        let mut s = playing(Rules::standard(), &[("1+1=?", "2")]);
        seconds(&mut s, 5 * spawned);
        if spawned == 1 {
            s.submit_answer("2");
            assert_eq!(s.score(), 1);
            assert!(s.active().is_empty());
        } else {
            assert_eq!(s.active().len(), spawned as usize);
        }
        assert!(s.apply(MenuAction::Pause));
        assert!(s.apply(MenuAction::ReturnToMenu));
        assert_eq!(s.app_state(), AppState::MainMenu);
        assert_eq!(s.game_state(), GameState::Idle);
        assert!(s.active().is_empty());
        assert_eq!(s.score(), 0);
    }
}

#[test]
fn restart_clears_the_round() {
    let mut s = playing(Rules::new(5000, 20000, -3, 2).unwrap(), &[("1+1=?", "2")]);
    s.advance_with(10000, &vec![0]);
    assert_eq!(s.active().len(), 2);
    s.submit_answer("2");
    assert_eq!(s.score(), 2);
    assert_eq!(s.game_state(), GameState::GameOver);
    s.advance_with(5000, &vec![0]);
    assert!(s.active().is_empty());
    s.advance_with(25000, &vec![0]);
    assert!(s.active().is_empty());
    assert!(s.apply(MenuAction::Restart));
    assert_eq!(s.game_state(), GameState::Playing);
    assert_eq!(s.score(), 0);
    assert!(s.active().is_empty());
}

#[test]
fn question_expires_on_schedule() {
    let mut s = playing(Rules::standard(), &[("1+1=?", "2")]);
    seconds(&mut s, 4);
    assert!(s.active().is_empty());
    seconds(&mut s, 1);
    assert_eq!(s.active().len(), 1);
    assert_eq!(s.active()[0].text.0, "1+1=?");
    seconds(&mut s, 18);
    assert_eq!(s.score(), 0);
    assert_eq!(s.active().len(), 4);
    seconds(&mut s, 1);
    assert_eq!(s.score(), -1);
    let left: Vec<u64> = s.active().iter().map(|q| q.timer.0).collect();
    assert_eq!(left, vec![5000, 10000, 15000]);
    seconds(&mut s, 1);
    assert_eq!(s.active().len(), 4);
    assert_eq!(s.active()[3].timer.0, 19000);
    assert_eq!(s.score(), -1);
}

#[test]
fn fourth_timeout_ends_the_round() {
    let mut s = playing(Rules::new(5000, 20000, -3, 5).unwrap(), &[("1+1=?", "2")]);
    seconds(&mut s, 34);
    assert_eq!(s.score(), -3);
    assert_eq!(s.game_state(), GameState::Playing);
    seconds(&mut s, 5);
    assert_eq!(s.score(), -4);
    assert_eq!(s.game_state(), GameState::GameOver);
    seconds(&mut s, 30);
    assert_eq!(s.score(), -4);
}

#[test]
fn fifth_point_ends_the_round() {
    let mut s = playing(Rules::standard(), &[("1+1=?", "2")]);
    for n in 1..=5 {
        seconds(&mut s, 5);
        s.submit_answer("2");
        assert_eq!(s.score(), n);
    }
    assert_eq!(s.game_state(), GameState::GameOver);
}

#[test]
fn pause_freezes_the_round() {
    let mut s = playing(Rules::standard(), &[("1+1=?", "2")]);
    seconds(&mut s, 7);
    assert_eq!(s.active().len(), 1);
    assert_eq!(s.active()[0].timer.0, 17000);
    assert!(s.apply(MenuAction::Pause));
    assert!(!s.apply(MenuAction::Pause));
    seconds(&mut s, 100);
    s.advance(1_000_000);
    assert_eq!(s.active().len(), 1);
    assert_eq!(s.active()[0].timer.0, 17000);
    assert_eq!(s.score(), 0);
    assert!(s.apply(MenuAction::Resume));
    seconds(&mut s, 2);
    assert_eq!(s.active().len(), 1);
    seconds(&mut s, 1);
    assert_eq!(s.active().len(), 2);
    assert_eq!(s.active()[0].timer.0, 14000);
}

#[test]
fn actions_apply_only_where_they_mean_something() {
    let mut s = Session::new(Rules::standard());
    assert!(!s.apply(MenuAction::Quit));
    s.poll_assets(AssetSignal::Ready(bank(&[("1+1=?", "2")])));
    assert!(s.apply(MenuAction::Quit));
    assert_eq!(s.app_state(), AppState::MainMenu);
    assert!(!s.apply(MenuAction::Resume));
    assert!(!s.apply(MenuAction::Restart));
    assert!(!s.apply(MenuAction::ReturnToMenu));
    assert!(s.apply(MenuAction::Start));
    assert!(!s.apply(MenuAction::Start));
    assert!(!s.apply(MenuAction::ReturnToMenu));
    assert!(!s.apply(MenuAction::Quit));
    assert_eq!(s.app_state(), AppState::InGame);
}
