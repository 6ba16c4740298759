use std::cell::Cell;

use k_launcher::domain::{LaunchAction, ResultId, ResultTitle, Score, SearchResult};
use k_launcher::kernel::{Kernel, Plugin};

struct Counting {
    selected: Cell<u32>,
    shut: Cell<u32>,
}

impl Plugin for Counting {
    fn name(&self) -> &str {
        "counting"
    }

    fn on_selected(&self, _id: &ResultId) {
        self.selected.set(self.selected.get() + 1);
    }

    fn shutdown(&self) {
        self.shut.set(self.shut.get() + 1);
    }
}

fn counting() -> Counting {
    Counting {
        selected: Cell::new(0),
        shut: Cell::new(0),
    }
}

fn results(items: &[(&str, u32)]) -> Vec<SearchResult> {
    items
        .iter()
        .enumerate()
        .map(|(i, (title, score))| SearchResult {
            id: ResultId::new(format!("id-{i}")),
            title: ResultTitle::new(title.to_string()),
            description: None,
            icon: None,
            score: Score::new(*score),
            action: LaunchAction::SpawnProcess("mock".to_string()),
        })
        .collect()
}

fn titles(v: &[SearchResult]) -> Vec<&str> {
    v.iter().map(|r| r.title.as_str()).collect()
}

#[test]
fn empty_kernel_returns_empty() {
    let k: Kernel<Counting> = Kernel::new(vec![], 8);
    assert!(k.rank_outcomes(vec![]).is_empty());
}

#[test]
fn kernel_sorts_by_score_desc() {
    let k = Kernel::new(vec![counting()], 8);
    let out = k.rank_outcomes(vec![Some(results(&[("lower", 5), ("higher", 10), ("middle", 7)]))]);
    assert_eq!(out[0].score.value(), 10);
    assert_eq!(out[1].score.value(), 7);
    assert_eq!(out[2].score.value(), 5);
}

#[test]
fn kernel_continues_after_plugin_panic() {
    let k = Kernel::new(vec![counting(), counting()], 8);
    let out = k.rank_outcomes(vec![None, Some(results(&[("survivor", 5)]))]);
    assert_eq!(out.len(), 1);
    assert_eq!(out[0].title.as_str(), "survivor");
}

#[test]
fn kernel_truncates_at_max_results() {
    let k = Kernel::new(vec![counting()], 3);
    let out = k.rank_outcomes(vec![Some(results(&[
        ("a", 10),
        ("b", 9),
        ("c", 8),
        ("d", 7),
        ("e", 6),
    ]))]);
    assert_eq!(out.len(), 3);
    assert_eq!(out[0].score.value(), 10);
    assert_eq!(out[2].score.value(), 8);
}

#[test]
fn equal_scores_keep_plugin_order() {
    let k = Kernel::new(vec![counting(), counting()], 8);
    let out = k.rank_outcomes(vec![
        Some(results(&[("p1-a", 5), ("p1-b", 9)])),
        Some(results(&[("p2-a", 9), ("p2-b", 5)])),
    ]);
    assert_eq!(titles(&out), vec!["p1-b", "p2-a", "p1-a", "p2-b"]);
}

#[test]
fn zero_cap_returns_nothing() {
    let k = Kernel::new(vec![counting()], 0);
    assert!(k.rank_outcomes(vec![Some(results(&[("a", 1)]))]).is_empty());
}

#[test]
fn notices_reach_every_plugin() {
    let k = Kernel::new(vec![counting(), counting()], 8);
    let id = ResultId::new("x".to_string());
    k.on_selected(&id);
    k.shutdown();
    for p in k.plugins() {
        assert_eq!(p.selected.get(), 1);
        assert_eq!(p.shut.get(), 1);
    }
    assert_eq!(k.max_results(), 8);
}
