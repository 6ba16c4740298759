//! Value types shared by the whole launcher: result identifiers, titles,
//! scores, launch actions and search results.

use vstd::prelude::*;

verus! {

/// Identifier of a search result; never empty.
#[derive(Debug, PartialEq, Eq, Hash)]
pub struct ResultId(String);

impl View for ResultId {
    type V = Seq<char>;

    closed spec fn view(&self) -> Seq<char> {
        self.0@
    }
}

impl ResultId {
    #[verifier::type_invariant]
    closed spec fn non_empty(self) -> bool {
        self.0@.len() > 0
    }

    /// Wraps `id`. An empty identifier is a programming error.
    pub fn new(id: String) -> (r: ResultId)
        requires
            id@.len() > 0,
        ensures
            r@ == id@,
    {
        ResultId(id)
    }

    pub fn as_str(&self) -> (s: &str)
        ensures
            s@ == self@,
            s@.len() > 0,
    {
        proof {
            use_type_invariant(self);
        }
        self.0.as_str()
    }
}

impl Clone for ResultId {
    fn clone(&self) -> (r: Self)
        ensures
            r == *self,
    {
        proof {
            use_type_invariant(self);
        }
        ResultId(self.0.clone())
    }
}

/// Display title of a search result; never empty.
#[derive(Debug, PartialEq, Eq)]
pub struct ResultTitle(String);

impl View for ResultTitle {
    type V = Seq<char>;

    closed spec fn view(&self) -> Seq<char> {
        self.0@
    }
}

impl ResultTitle {
    #[verifier::type_invariant]
    closed spec fn non_empty(self) -> bool {
        self.0@.len() > 0
    }

    /// Wraps `title`. An empty title is a programming error.
    pub fn new(title: String) -> (r: ResultTitle)
        requires
            title@.len() > 0,
        ensures
            r@ == title@,
    {
        ResultTitle(title)
    }

    pub fn as_str(&self) -> (s: &str)
        ensures
            s@ == self@,
            s@.len() > 0,
    {
        proof {
            use_type_invariant(self);
        }
        self.0.as_str()
    }
}

impl Clone for ResultTitle {
    fn clone(&self) -> (r: Self)
        ensures
            r == *self,
    {
        proof {
            use_type_invariant(self);
        }
        ResultTitle(self.0.clone())
    }
}

/// Relevance of a result; higher is better.
#[derive(Debug, Clone, Copy, PartialEq, Eq, PartialOrd, Ord, Hash, Structural)]
pub struct Score(u32);

impl View for Score {
    type V = u32;

    closed spec fn view(&self) -> u32 {
        self.0
    }
}

impl Score {
    pub fn new(value: u32) -> (r: Score)
        ensures
            r@ == value,
    {
        Score(value)
    }

    pub fn value(self) -> (v: u32)
        ensures
            v == self@,
    {
        self.0
    }

    /// The largest score.
    pub fn max_score() -> (r: Score)
        ensures
            r@ == u32::MAX,
    {
        Score(u32::MAX)
    }

    /// Adds `other`, stopping at the largest score instead of overflowing.
    pub fn saturating_add(self, other: u32) -> (r: Score)
        ensures
            r@ == if self@ + other > u32::MAX { u32::MAX as int } else { self@ + other },
    {
        Score(self.0.saturating_add(other))
    }
}

/// What happens when a result is chosen.
#[derive(Debug)]
pub enum LaunchAction {
    SpawnProcess(String),
    SpawnInTerminal(String),
    OpenPath(String),
    CopyToClipboard(String),
}

impl Clone for LaunchAction {
    fn clone(&self) -> (r: Self)
        ensures
            r == *self,
    {
        match self {
            LaunchAction::SpawnProcess(s) => LaunchAction::SpawnProcess(s.clone()),
            LaunchAction::SpawnInTerminal(s) => LaunchAction::SpawnInTerminal(s.clone()),
            LaunchAction::OpenPath(s) => LaunchAction::OpenPath(s.clone()),
            LaunchAction::CopyToClipboard(s) => LaunchAction::CopyToClipboard(s.clone()),
        }
    }
}

/// One entry of the result list.
pub struct SearchResult {
    pub id: ResultId,
    pub title: ResultTitle,
    pub description: Option<String>,
    pub icon: Option<String>,
    pub score: Score,
    pub action: LaunchAction,
}

impl Clone for SearchResult {
    fn clone(&self) -> (r: Self)
        ensures
            r == *self,
    {
        SearchResult {
            id: self.id.clone(),
            title: self.title.clone(),
            description: match &self.description {
                Some(d) => Some(d.clone()),
                None => None,
            },
            icon: match &self.icon {
                Some(i) => Some(i.clone()),
                None => None,
            },
            score: self.score,
            action: self.action.clone(),
        }
    }
}

} // verus!
