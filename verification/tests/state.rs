use std::sync::Arc;

use k_launcher::domain::{LaunchAction, ResultId, ResultTitle, Score, SearchResult};
use k_launcher::kernel::{Kernel, Plugin};
use k_launcher::launcher_state::{Action, Effect, LauncherState, Panel};

struct NoPlugin;

impl Plugin for NoPlugin {
    fn name(&self) -> &str {
        "none"
    }
}

struct NoopLauncher;

#[derive(Debug, PartialEq)]
struct Looks {
    placeholder: &'static str,
}

type State = LauncherState<NoPlugin, Arc<NoopLauncher>, Looks>;

fn make_state() -> State {
    LauncherState::new(Arc::new(NoopLauncher), Looks { placeholder: "Search..." }, 50)
}

fn make_result(id: &str) -> SearchResult {
    SearchResult {
        id: ResultId::new(id.to_string()),
        title: ResultTitle::new(id.to_string()),
        description: None,
        icon: None,
        score: Score::new(100),
        action: LaunchAction::CopyToClipboard(id.to_string()),
    }
}

fn make_state_with_engine() -> State {
    let kernel = Arc::new(Kernel::new(vec![], 10));
    let mut state = make_state();
    let _ = state.handle(Action::EngineReady(kernel));
    state
}

#[test]
fn move_down_clamps_to_last_result() {
    let mut state = make_state();
    state.handle(Action::ResultsReady {
        epoch: 0,
        results: vec![make_result("a"), make_result("b"), make_result("c")],
    });

    state.handle(Action::MoveDown);
    state.handle(Action::MoveDown);
    state.handle(Action::MoveDown);
    state.handle(Action::MoveDown);

    assert_eq!(state.selected(), 2);
}

#[test]
fn move_up_does_not_go_below_zero() {
    let mut state = make_state();
    state.handle(Action::ResultsReady {
        epoch: 0,
        results: vec![make_result("a"), make_result("b")],
    });

    state.handle(Action::MoveUp);
    state.handle(Action::MoveUp);

    assert_eq!(state.selected(), 0);
}

#[test]
fn query_changed_resets_selected() {
    let mut state = make_state_with_engine();
    let epoch = state.search_epoch();
    state.handle(Action::ResultsReady {
        epoch,
        results: vec![make_result("a"), make_result("b"), make_result("c")],
    });
    state.handle(Action::MoveDown);
    state.handle(Action::MoveDown);
    assert_eq!(state.selected(), 2);

    state.handle(Action::QueryChanged("new".to_string()));
    assert_eq!(state.selected(), 0);
}

#[test]
fn engine_ready_returns_trigger_search() {
    let mut state = make_state();
    let kernel = Arc::new(Kernel::new(vec![], 10));
    let effect = state.handle(Action::EngineReady(kernel));

    assert!(matches!(effect, Effect::TriggerSearch(_)));
}

#[test]
fn launch_selected_with_no_results_returns_exit() {
    let mut state = make_state_with_engine();
    let effect = state.handle(Action::LaunchSelected);

    assert!(matches!(effect, Effect::Exit));
}

#[test]
fn results_ready_with_wrong_epoch_is_ignored() {
    let mut state = make_state_with_engine();
    let current_epoch = state.search_epoch();

    state.handle(Action::ResultsReady {
        epoch: current_epoch + 999,
        results: vec![make_result("stale")],
    });

    assert!(state.results().is_empty());
}

#[test]
fn query_changed_without_engine_returns_none() {
    let mut state = make_state();
    let effect = state.handle(Action::QueryChanged("hello".to_string()));

    assert!(matches!(effect, Effect::Nothing));
    assert_eq!(state.query(), "hello");
}

#[test]
fn query_changed_with_engine_returns_search_after_debounce() {
    let mut state = make_state_with_engine();
    let effect = state.handle(Action::QueryChanged("test".to_string()));

    match effect {
        Effect::SearchAfterDebounce {
            query,
            debounce_ms,
            epoch,
        } => {
            assert_eq!(query, "test");
            assert_eq!(debounce_ms, 50);
            assert_eq!(epoch, state.search_epoch());
        }
        _ => panic!("expected SearchAfterDebounce"),
    }
}

#[test]
fn launch_selected_with_results_returns_launch_and_exit() {
    let mut state = make_state_with_engine();
    let epoch = state.search_epoch();
    state.handle(Action::ResultsReady {
        epoch,
        results: vec![make_result("app1")],
    });

    let effect = state.handle(Action::LaunchSelected);
    assert!(matches!(effect, Effect::LaunchAndExit(_)));
}

#[test]
fn engine_init_failed_sets_error() {
    let mut state = make_state();
    state.handle(Action::EngineInitFailed("boom".to_string()));

    assert_eq!(state.error(), Some("boom"));
}

#[test]
fn launch_selected_hands_out_the_selected_action() {
    let mut state = make_state_with_engine();
    let epoch = state.search_epoch();
    state.handle(Action::ResultsReady {
        epoch,
        results: vec![make_result("first"), make_result("second")],
    });
    state.handle(Action::MoveDown);
    match state.handle(Action::LaunchSelected) {
        Effect::LaunchAndExit(LaunchAction::CopyToClipboard(v)) => assert_eq!(v, "second"),
        _ => panic!("expected the second result's action"),
    }
}

#[test]
fn stale_results_after_new_query_are_ignored() {
    let mut state = make_state_with_engine();
    let first = match state.handle(Action::QueryChanged("fi".to_string())) {
        Effect::SearchAfterDebounce { epoch, .. } => epoch,
        _ => panic!("expected a search"),
    };
    let second = match state.handle(Action::QueryChanged("fir".to_string())) {
        Effect::SearchAfterDebounce { epoch, .. } => epoch,
        _ => panic!("expected a search"),
    };
    assert_eq!(second, first + 1);
    state.handle(Action::ResultsReady {
        epoch: first,
        results: vec![make_result("old")],
    });
    assert!(state.results().is_empty());
    state.handle(Action::ResultsReady {
        epoch: second,
        results: vec![make_result("new")],
    });
    assert_eq!(state.results().len(), 1);
    assert_eq!(state.results()[0].id.as_str(), "new");
}

#[test]
fn engine_ready_echoes_pending_query() {
    let mut state = make_state();
    state.handle(Action::QueryChanged("fox".to_string()));
    let kernel = Arc::new(Kernel::new(vec![], 10));
    match state.handle(Action::EngineReady(kernel)) {
        Effect::TriggerSearch(q) => assert_eq!(q, "fox"),
        _ => panic!("expected TriggerSearch"),
    }
    assert!(state.engine().is_some());
}

#[test]
fn exit_returns_exit() {
    let mut state = make_state_with_engine();
    assert!(matches!(state.handle(Action::Exit), Effect::Exit));
}

#[test]
fn loading_until_engine_or_error() {
    let mut state = make_state();
    assert!(state.is_loading());
    assert_eq!(state.panel(), Panel::Loading);
    state.handle(Action::EngineInitFailed("boom".to_string()));
    assert!(!state.is_loading());
    let mut ready = make_state_with_engine();
    assert!(!ready.is_loading());
    assert_eq!(ready.panel(), Panel::Results);
    ready.handle(Action::QueryChanged("zzz".to_string()));
    assert_eq!(ready.panel(), Panel::NoResults);
}

#[test]
fn query_change_clears_error() {
    let mut state = make_state();
    state.handle(Action::EngineInitFailed("boom".to_string()));
    state.handle(Action::QueryChanged("a".to_string()));
    assert_eq!(state.error(), None);
}

#[test]
fn new_state_keeps_launcher_and_settings() {
    let launcher = Arc::new(NoopLauncher);
    let mut state: State =
        LauncherState::new(launcher.clone(), Looks { placeholder: "Type here..." }, 50);
    assert_eq!(state.query(), "");
    assert!(state.results().is_empty());
    assert_eq!(state.selected(), 0);
    assert!(state.engine().is_none());
    assert!(state.error().is_none());
    assert_eq!(state.search_epoch(), 0);
    assert!(state.is_loading());
    assert!(Arc::ptr_eq(state.launcher(), &launcher));
    assert_eq!(state.cfg(), &Looks { placeholder: "Type here..." });
    state.handle(Action::QueryChanged("x".to_string()));
    state.handle(Action::Exit);
    assert!(Arc::ptr_eq(state.launcher(), &launcher));
}

#[test]
fn move_down_without_results_stays_put() {
    let mut state = make_state();
    state.handle(Action::MoveDown);
    assert_eq!(state.selected(), 0);
}
