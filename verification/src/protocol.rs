//! The model of the external-plugin protocol: one JSON query line goes to the
//! plugin program, one JSON line with a list of results comes back. Encoding
//! and decoding the JSON, and talking to the process, happen outside this
//! crate; here the decoded answer becomes search results, and a failed
//! exchange is turned into an empty answer that restarts the program.

use vstd::prelude::*;

use crate::domain::{LaunchAction, ResultId, ResultTitle, Score, SearchResult};

verus! {

/// `std::io::Error`, carried through unchanged when a plugin program cannot be started.
#[verifier::external_type_specification]
#[verifier::external_body]
pub struct ExIoError(std::io::Error);

/// The request sent to a plugin program.
pub struct Query {
    pub query: String,
}

/// One result as a plugin program reports it.
pub struct ExternalResult {
    pub id: String,
    pub title: String,
    pub score: u32,
    pub description: Option<String>,
    pub icon: Option<String>,
    pub action: ExternalAction,
}

/// What a plugin program asks to happen when its result is chosen.
pub enum ExternalAction {
    SpawnProcess { cmd: String },
    SpawnInTerminal { cmd: String },
    CopyToClipboard { text: String },
    OpenPath { path: String },
}

/// Why an exchange with a plugin program failed.
#[derive(Debug)]
pub enum PluginError {
    SpawnFailed(std::io::Error),
    Timeout { timeout_secs: u64 },
    Protocol(String),
    ProcessError(String),
}

/// The launch action that an external action stands for.
pub open spec fn launch_of(a: ExternalAction) -> LaunchAction {
    match a {
        ExternalAction::SpawnProcess { cmd } => LaunchAction::SpawnProcess(cmd),
        ExternalAction::SpawnInTerminal { cmd } => LaunchAction::SpawnInTerminal(cmd),
        ExternalAction::CopyToClipboard { text } => LaunchAction::CopyToClipboard(text),
        ExternalAction::OpenPath { path } => LaunchAction::OpenPath(path),
    }
}

/// A reported result can become a search result: its id and title are not empty.
pub open spec fn well_formed(r: ExternalResult) -> bool {
    r.id@.len() > 0 && r.title@.len() > 0
}

/// `s` is the search result that `r` reports.
pub open spec fn reports(r: ExternalResult, s: SearchResult) -> bool {
    &&& s.id@ == r.id@
    &&& s.title@ == r.title@
    &&& s.description == r.description
    &&& s.icon == r.icon
    &&& s.score@ == r.score
    &&& s.action == launch_of(r.action)
}

impl ExternalAction {
    pub fn into_launch_action(self) -> (a: LaunchAction)
        ensures
            a == launch_of(self),
    {
        match self {
            ExternalAction::SpawnProcess { cmd } => LaunchAction::SpawnProcess(cmd),
            ExternalAction::SpawnInTerminal { cmd } => LaunchAction::SpawnInTerminal(cmd),
            ExternalAction::CopyToClipboard { text } => LaunchAction::CopyToClipboard(text),
            ExternalAction::OpenPath { path } => LaunchAction::OpenPath(path),
        }
    }
}

impl ExternalResult {
    pub fn into_search_result(self) -> (s: SearchResult)
        requires
            well_formed(self),
        ensures
            reports(self, s),
    {
        SearchResult {
            id: ResultId::new(self.id),
            title: ResultTitle::new(self.title),
            description: self.description,
            icon: self.icon,
            score: Score::new(self.score),
            action: self.action.into_launch_action(),
        }
    }
}

/// The search results that a plugin program reported, in its order.
pub fn convert_results(results: Vec<ExternalResult>) -> (out: Vec<SearchResult>)
    requires
        forall|i: int| 0 <= i < results@.len() ==> well_formed(#[trigger] results@[i]),
    ensures
        out@.len() == results@.len(),
        forall|i: int| 0 <= i < results@.len() ==> reports(#[trigger] results@[i], out@[i]),
{
    let mut rest = results;
    let mut out: Vec<SearchResult> = Vec::new();
    let ghost all = rest@;
    let ghost mut k: int = 0;
    while rest.len() > 0
        invariant
            0 <= k <= all.len(),
            rest@ == all.skip(k),
            out@.len() == k,
            forall|i: int| 0 <= i < all.len() ==> well_formed(#[trigger] all[i]),
            forall|i: int| 0 <= i < k ==> reports(#[trigger] all[i], out@[i]),
        decreases rest.len(),
    {
        let r = rest.remove(0);
        assert(r == all[k]);
        out.push(r.into_search_result());
        proof {
            assert(rest@ =~= all.skip(k + 1));
            k = k + 1;
        }
    }
    out
}

/// Whether a plugin program is up.
#[derive(Debug, Clone, Copy, PartialEq, Eq, Structural)]
pub enum ProcessState {
    NotRunning,
    Running,
}

/// What happened to the plugin program during one query.
#[derive(Debug, Clone, Copy, PartialEq, Eq, Structural)]
pub enum ProcessEvent {
    /// The program was started.
    Started,
    /// The program could not be started.
    StartFailed,
    /// The program answered the query.
    Answered,
    /// Writing the query or reading the answer failed, timed out, or the
    /// answer was not understood.
    ExchangeFailed,
}

/// The program's state after `e`: a start or an answer leaves it running;
/// a failed start or a failed exchange leaves none, so that the next query
/// starts a new one.
pub open spec fn process_step(s: ProcessState, e: ProcessEvent) -> ProcessState {
    match e {
        ProcessEvent::Started => ProcessState::Running,
        ProcessEvent::Answered => ProcessState::Running,
        ProcessEvent::StartFailed => ProcessState::NotRunning,
        ProcessEvent::ExchangeFailed => ProcessState::NotRunning,
    }
}

impl ProcessState {
    /// A query first has to start the program when none is running.
    pub fn must_start(self) -> (b: bool)
        ensures
            b == (self == ProcessState::NotRunning),
    {
        match self {
            ProcessState::NotRunning => true,
            ProcessState::Running => false,
        }
    }

    /// The state after `e`; see [`process_step`].
    pub fn next(self, e: ProcessEvent) -> (s: ProcessState)
        ensures
            s == process_step(self, e),
    {
        match e {
            ProcessEvent::Started => ProcessState::Running,
            ProcessEvent::Answered => ProcessState::Running,
            ProcessEvent::StartFailed => ProcessState::NotRunning,
            ProcessEvent::ExchangeFailed => ProcessState::NotRunning,
        }
    }
}

/// What one query to a plugin program yields.
pub struct ReplyOutcome {
    /// The results to show.
    pub results: Vec<SearchResult>,
    /// What happened to the program.
    pub event: ProcessEvent,
}

/// The event that an outcome of a query stands for: an answer, a failed
/// start, or a failed exchange.
pub open spec fn reply_event(reply: Result<Vec<ExternalResult>, PluginError>) -> ProcessEvent {
    match reply {
        Ok(_) => ProcessEvent::Answered,
        Err(PluginError::SpawnFailed(_)) => ProcessEvent::StartFailed,
        Err(_) => ProcessEvent::ExchangeFailed,
    }
}

/// A successful answer gives its results; a failure of any kind gives no
/// results, and tells whether the start or the exchange failed.
pub fn settle_reply(reply: Result<Vec<ExternalResult>, PluginError>) -> (o: ReplyOutcome)
    requires
        reply matches Ok(v) ==> forall|i: int| 0 <= i < v@.len() ==> well_formed(#[trigger] v@[i]),
    ensures
        o.event == reply_event(reply),
        match reply {
            Ok(v) => {
                &&& o.results@.len() == v@.len()
                &&& forall|i: int| 0 <= i < v@.len() ==> reports(#[trigger] v@[i], o.results@[i])
            },
            Err(_) => o.results@.len() == 0,
        },
{
    match reply {
        Ok(v) => ReplyOutcome { results: convert_results(v), event: ProcessEvent::Answered },
        Err(PluginError::SpawnFailed(_)) => ReplyOutcome {
            results: Vec::new(),
            event: ProcessEvent::StartFailed,
        },
        Err(_) => ReplyOutcome { results: Vec::new(), event: ProcessEvent::ExchangeFailed },
    }
}

/// After any failed query the program is gone and the next query starts it
/// again; after an answer it stays up and the next query reuses it.
pub proof fn lemma_failure_restarts(s: ProcessState, reply: Result<Vec<ExternalResult>, PluginError>)
    ensures
        reply is Err ==> process_step(s, reply_event(reply)) == ProcessState::NotRunning,
        reply is Ok ==> process_step(s, reply_event(reply)) == ProcessState::Running,
        process_step(s, ProcessEvent::ExchangeFailed) == ProcessState::NotRunning,
        process_step(s, ProcessEvent::Started) == ProcessState::Running,
{
}

/// A query against a stopped program starts it; if that works the program
/// then answers, and a later failure stops it again, so the query after that
/// starts it once more.
pub proof fn lemma_lifecycle_round(s: ProcessState)
    ensures
        ({
            let started = process_step(ProcessState::NotRunning, ProcessEvent::Started);
            let answered = process_step(started, ProcessEvent::Answered);
            let failed = process_step(answered, ProcessEvent::ExchangeFailed);
            &&& started == ProcessState::Running
            &&& answered == ProcessState::Running
            &&& failed == ProcessState::NotRunning
        }),
        process_step(s, ProcessEvent::StartFailed) == ProcessState::NotRunning,
{
}

} // verus!
