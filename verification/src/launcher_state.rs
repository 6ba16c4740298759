//! The launcher's user-interface state machine, independent of any toolkit.
//!
//! The front end turns user input and finished background work into an
//! [`Action`], hands it to [`LauncherState::handle`], and carries out the
//! [`Effect`] it gets back (start a delayed search, launch, close, ...).

use std::sync::Arc;

use vstd::prelude::*;

use crate::domain::{LaunchAction, SearchResult};
use crate::kernel::{Kernel, Plugin};

verus! {

/// Something that happened: a key, an edit, or finished background work.
pub enum Action<P> {
    QueryChanged(String),
    MoveDown,
    MoveUp,
    LaunchSelected,
    Exit,
    EngineReady(Arc<Kernel<P>>),
    EngineInitFailed(String),
    ResultsReady { epoch: u64, results: Vec<SearchResult> },
}

/// What the front end must do next.
pub enum Effect {
    /// Wait `debounce_ms`, search for `query`, and report the results tagged with `epoch`.
    SearchAfterDebounce { query: String, debounce_ms: u64, epoch: u64 },
    /// Run the action, then close.
    LaunchAndExit(LaunchAction),
    /// Close.
    Exit,
    /// Feed `query` back as a query change, now that an engine exists.
    TriggerSearch(String),
    /// Nothing to do.
    Nothing,
}

/// Which part the result area shows.
#[derive(Debug, Clone, Copy, PartialEq, Eq, Structural)]
pub enum Panel {
    Loading,
    NoResults,
    Results,
}

/// The abstract state of the launcher.
pub struct LauncherView<P> {
    pub query: String,
    pub results: Seq<SearchResult>,
    pub selected: usize,
    pub engine: Option<Arc<Kernel<P>>>,
    pub debounce_ms: u64,
    pub epoch: u64,
    pub error: Option<String>,
}

/// The next state and the effect, for a state and an action.
pub open spec fn step<P>(s: LauncherView<P>, a: Action<P>) -> (LauncherView<P>, Effect) {
    match a {
        Action::QueryChanged(q) => {
            let edited = LauncherView { query: q, selected: 0, error: None, ..s };
            match s.engine {
                None => (edited, Effect::Nothing),
                Some(_) => {
                    let epoch = (s.epoch + 1) as u64;
                    (
                        LauncherView { epoch, ..edited },
                        Effect::SearchAfterDebounce { query: q, debounce_ms: s.debounce_ms, epoch },
                    )
                },
            }
        },
        Action::MoveDown => {
            if s.results.len() > 0 {
                let last = (s.results.len() - 1) as usize;
                let selected = if s.selected < last { (s.selected + 1) as usize } else { last };
                (LauncherView { selected, ..s }, Effect::Nothing)
            } else {
                (s, Effect::Nothing)
            }
        },
        Action::MoveUp => {
            let selected = if s.selected > 0 { (s.selected - 1) as usize } else { 0 };
            (LauncherView { selected, ..s }, Effect::Nothing)
        },
        Action::LaunchSelected => {
            if s.selected < s.results.len() {
                (s, Effect::LaunchAndExit(s.results[s.selected as int].action))
            } else {
                (s, Effect::Exit)
            }
        },
        Action::Exit => (s, Effect::Exit),
        Action::EngineReady(kernel) => (
            LauncherView { engine: Some(kernel), ..s },
            Effect::TriggerSearch(s.query),
        ),
        Action::EngineInitFailed(msg) => (LauncherView { error: Some(msg), ..s }, Effect::Nothing),
        Action::ResultsReady { epoch, results } => {
            if epoch == s.epoch {
                (LauncherView { results: results@, ..s }, Effect::Nothing)
            } else {
                (s, Effect::Nothing)
            }
        },
    }
}

/// `handle` can take `a` in state `s` without an arithmetic overflow.
pub open spec fn can_step<P>(s: LauncherView<P>, a: Action<P>) -> bool {
    (a is QueryChanged && s.engine is Some) ==> s.epoch < u64::MAX
}

/// The selection points into the list, or is 0 when the list is empty.
pub open spec fn selection_in_range<P>(s: LauncherView<P>) -> bool {
    if s.results.len() == 0 {
        s.selected == 0
    } else {
        s.selected < s.results.len()
    }
}

/// After a query change with an engine present, the search it starts carries
/// the new generation number: results reported with that number replace the
/// list, and results reported with any other number (an older search) are
/// ignored.
pub proof fn lemma_only_latest_search_is_accepted<P>(
    s: LauncherView<P>,
    q: String,
    e: u64,
    r: Vec<SearchResult>,
)
    requires
        s.engine is Some,
        s.epoch < u64::MAX,
    ensures
        ({
            let (s1, eff) = step(s, Action::QueryChanged(q));
            &&& s1.epoch == s.epoch + 1
            &&& eff == Effect::SearchAfterDebounce { query: q, debounce_ms: s.debounce_ms, epoch: s1.epoch }
            &&& step(s1, Action::ResultsReady { epoch: s1.epoch, results: r }).0.results == r@
            &&& e != s1.epoch ==> step(s1, Action::ResultsReady { epoch: e, results: r }).0 == s1
        }),
{
}

/// Fresh results replace the list and nothing else: the query, the
/// selection, the engine, the error and the generation stay as they were.
pub proof fn lemma_fresh_results_only_replace_list<P>(s: LauncherView<P>, r: Vec<SearchResult>)
    ensures
        ({
            let (t, eff) = step(s, Action::ResultsReady { epoch: s.epoch, results: r });
            &&& t.results == r@
            &&& t.selected == s.selected
            &&& t.query == s.query
            &&& t.engine == s.engine
            &&& t.error == s.error
            &&& t.epoch == s.epoch
            &&& t.debounce_ms == s.debounce_ms
            &&& eff == Effect::Nothing
        }),
{
}

/// After a query change and the arrival of its results, the first result is
/// selected, and launching starts the first result's action.
pub proof fn lemma_new_results_select_the_top<P>(s: LauncherView<P>, q: String, r: Vec<SearchResult>)
    requires
        s.engine is Some,
        s.epoch < u64::MAX,
        r@.len() > 0,
    ensures
        ({
            let s1 = step(s, Action::QueryChanged(q)).0;
            let s2 = step(s1, Action::ResultsReady { epoch: s1.epoch, results: r }).0;
            &&& s2.selected == 0
            &&& s2.results == r@
            &&& step(s2, Action::LaunchSelected).1 == Effect::LaunchAndExit(r@[0].action)
        }),
{
}

/// Results that arrive while no search of their generation is current leave
/// the state unchanged.
pub proof fn lemma_stale_results_ignored<P>(s: LauncherView<P>, e: u64, r: Vec<SearchResult>)
    requires
        e != s.epoch,
    ensures
        step(s, Action::ResultsReady { epoch: e, results: r }) == (s, Effect::Nothing),
{
}

/// The generation counter never goes back.
pub proof fn lemma_epoch_never_decreases<P>(s: LauncherView<P>, a: Action<P>)
    requires
        can_step(s, a),
    ensures
        step(s, a).0.epoch >= s.epoch,
{
}

/// Moving down never goes past the last result, and moving up never below
/// the first; a selection inside the list stays inside it.
pub proof fn lemma_navigation_stays_in_range<P>(s: LauncherView<P>)
    ensures
        s.results.len() > 0 ==> step(s, Action::MoveDown).0.selected < s.results.len(),
        0 < s.results.len() <= usize::MAX && s.selected + 1 < s.results.len() ==> step(s, Action::MoveDown).0.selected
            == s.selected + 1,
        step(s, Action::MoveUp).0.selected == if s.selected > 0 { s.selected - 1 } else { 0 },
        selection_in_range(s) ==> selection_in_range(step(s, Action::MoveDown).0),
        selection_in_range(s) ==> selection_in_range(step(s, Action::MoveUp).0),
        step(s, Action::MoveDown).0.results == s.results,
        step(s, Action::MoveUp).0.results == s.results,
{
}

/// Only new results can move the list away from the selection: every other
/// action keeps a selection that points into the list (or is 0 for an empty
/// list) that way, and a query change always selects the first entry.
pub proof fn lemma_selection_stays_valid<P>(s: LauncherView<P>, a: Action<P>)
    requires
        selection_in_range(s),
        !(a is ResultsReady),
    ensures
        selection_in_range(step(s, a).0),
        a is QueryChanged ==> step(s, a).0.selected == 0,
{
}

/// Launching or closing changes nothing in the state; launching hands out the
/// selected result's action, or just closes when nothing is selected.
pub proof fn lemma_launch_and_exit_keep_state<P>(s: LauncherView<P>)
    ensures
        step(s, Action::LaunchSelected).0 == s,
        step(s, Action::Exit) == (s, Effect::Exit),
        s.selected < s.results.len() ==> step(s, Action::LaunchSelected).1 == Effect::LaunchAndExit(
            s.results[s.selected as int].action,
        ),
        s.selected >= s.results.len() ==> step(s, Action::LaunchSelected).1 == Effect::Exit,
{
}

/// Once the engine is ready, the pending query is searched: the query that
/// the ready engine hands back starts a search for the same text.
pub proof fn lemma_engine_ready_searches_pending_query<P>(s: LauncherView<P>, k: Arc<Kernel<P>>)
    requires
        s.epoch < u64::MAX,
    ensures
        ({
            let (s1, eff) = step(s, Action::EngineReady(k));
            &&& s1.engine == Some(k)
            &&& eff == Effect::TriggerSearch(s.query)
            &&& step(s1, Action::QueryChanged(s.query)).1 == Effect::SearchAfterDebounce {
                query: s.query,
                debounce_ms: s.debounce_ms,
                epoch: (s.epoch + 1) as u64,
            }
        }),
{
}

/// The launcher's state: the query, the current results, the selection, the
/// search engine once it is ready, the search generation counter, and what the
/// front end handed in: the launcher that carries out actions (`L`) and the
/// appearance settings (`C`).
pub struct LauncherState<P, L, C> {
    query: String,
    results: Vec<SearchResult>,
    selected: usize,
    engine: Option<Arc<Kernel<P>>>,
    debounce_ms: u64,
    search_epoch: u64,
    error: Option<String>,
    launcher: L,
    cfg: C,
}

impl<P, L, C> View for LauncherState<P, L, C> {
    type V = LauncherView<P>;

    closed spec fn view(&self) -> LauncherView<P> {
        LauncherView {
            query: self.query,
            results: self.results@,
            selected: self.selected,
            engine: self.engine,
            debounce_ms: self.debounce_ms,
            epoch: self.search_epoch,
            error: self.error,
        }
    }
}

impl<P, L, C> LauncherState<P, L, C> {
    /// The launcher that this state was given.
    pub closed spec fn held_launcher(&self) -> L {
        self.launcher
    }

    /// The appearance settings that this state was given.
    pub closed spec fn held_cfg(&self) -> C {
        self.cfg
    }
}

impl<P: Plugin, L, C> LauncherState<P, L, C> {
    /// An empty launcher that waits for its engine, keeping `launcher` and `cfg`.
    pub fn new(launcher: L, cfg: C, debounce_ms: u64) -> (s: Self)
        ensures
            s.held_launcher() == launcher,
            s.held_cfg() == cfg,
            s@.query@ == Seq::<char>::empty(),
            s@.results == Seq::<SearchResult>::empty(),
            s@.selected == 0,
            s@.engine is None,
            s@.debounce_ms == debounce_ms,
            s@.epoch == 0,
            s@.error is None,
    {
        LauncherState {
            query: String::new(),
            results: Vec::new(),
            selected: 0,
            engine: None,
            debounce_ms,
            search_epoch: 0,
            error: None,
            launcher,
            cfg,
        }
    }

    /// Applies `action` and returns what the front end must do.
    pub fn handle(&mut self, action: Action<P>) -> (effect: Effect)
        requires
            can_step(old(self)@, action),
        ensures
            (final(self)@, effect) == step(old(self)@, action),
            final(self).held_launcher() == old(self).held_launcher(),
            final(self).held_cfg() == old(self).held_cfg(),
    {
        match action {
            Action::QueryChanged(q) => {
                self.query = q;
                self.selected = 0;
                self.error = None;
                if self.engine.is_none() {
                    return Effect::Nothing;
                }
                self.search_epoch = self.search_epoch + 1;
                Effect::SearchAfterDebounce {
                    query: self.query.clone(),
                    debounce_ms: self.debounce_ms,
                    epoch: self.search_epoch,
                }
            },
            Action::MoveDown => {
                let len = self.results.len();
                if len > 0 {
                    if self.selected < len - 1 {
                        self.selected = self.selected + 1;
                    } else {
                        self.selected = len - 1;
                    }
                }
                Effect::Nothing
            },
            Action::MoveUp => {
                if self.selected > 0 {
                    self.selected = self.selected - 1;
                }
                Effect::Nothing
            },
            Action::LaunchSelected => {
                if self.selected < self.results.len() {
                    let result = &self.results[self.selected];
                    if let Some(engine) = &self.engine {
                        engine.on_selected(&result.id);
                    }
                    let launch = result.action.clone();
                    self.shutdown_engine();
                    return Effect::LaunchAndExit(launch);
                }
                self.shutdown_engine();
                Effect::Exit
            },
            Action::Exit => {
                self.shutdown_engine();
                Effect::Exit
            },
            Action::EngineReady(kernel) => {
                self.engine = Some(kernel);
                Effect::TriggerSearch(self.query.clone())
            },
            Action::EngineInitFailed(msg) => {
                self.error = Some(msg);
                Effect::Nothing
            },
            Action::ResultsReady { epoch, results } => {
                if epoch == self.search_epoch {
                    self.results = results;
                }
                Effect::Nothing
            },
        }
    }

    fn shutdown_engine(&self) {
        if let Some(engine) = &self.engine {
            engine.shutdown();
        }
    }

    pub fn query(&self) -> (q: &str)
        ensures
            q@ == self@.query@,
    {
        self.query.as_str()
    }

    pub fn results(&self) -> (r: &[SearchResult])
        ensures
            r@ == self@.results,
    {
        self.results.as_slice()
    }

    pub fn selected(&self) -> (i: usize)
        ensures
            i == self@.selected,
    {
        self.selected
    }

    pub fn error(&self) -> (e: Option<&str>)
        ensures
            match self@.error {
                Some(m) => e is Some && e->0@ == m@,
                None => e is None,
            },
    {
        match &self.error {
            Some(m) => Some(m.as_str()),
            None => None,
        }
    }

    /// True while the engine is still being built and nothing went wrong.
    pub fn is_loading(&self) -> (b: bool)
        ensures
            b == (self@.engine is None && self@.error is None),
    {
        self.engine.is_none() && self.error.is_none()
    }

    pub fn engine(&self) -> (e: Option<&Arc<Kernel<P>>>)
        ensures
            match self@.engine {
                Some(k) => e is Some && *e->0 == k,
                None => e is None,
            },
    {
        match &self.engine {
            Some(k) => Some(k),
            None => None,
        }
    }

    pub fn launcher(&self) -> (l: &L)
        ensures
            *l == self.held_launcher(),
    {
        &self.launcher
    }

    pub fn cfg(&self) -> (c: &C)
        ensures
            *c == self.held_cfg(),
    {
        &self.cfg
    }

    pub fn search_epoch(&self) -> (n: u64)
        ensures
            n == self@.epoch,
    {
        self.search_epoch
    }

    /// What the result area shows: a loading notice, a "no results" notice
    /// for a non-empty query without results, or the list.
    pub fn panel(&self) -> (p: Panel)
        ensures
            p == if self@.engine is None && self@.error is None {
                Panel::Loading
            } else if self@.results.len() == 0 && self@.query@.len() > 0 {
                Panel::NoResults
            } else {
                Panel::Results
            },
    {
        if self.is_loading() {
            Panel::Loading
        } else if self.results.len() == 0 && !self.query.as_str().is_empty() {
            Panel::NoResults
        } else {
            Panel::Results
        }
    }
}

} // verus!
