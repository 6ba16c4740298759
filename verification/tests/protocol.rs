use k_launcher::domain::LaunchAction;
use k_launcher::protocol::{
    convert_results, settle_reply, ExternalAction, ExternalResult, PluginError, ProcessEvent,
    ProcessState, Query,
};

fn external(id: &str, title: &str, score: u32, action: ExternalAction) -> ExternalResult {
    ExternalResult {
        id: id.to_string(),
        title: title.to_string(),
        score,
        description: None,
        icon: None,
        action,
    }
}

#[test]
fn external_result_becomes_search_result() {
    let mut r = external("1", "Firefox", 80, ExternalAction::SpawnProcess { cmd: "firefox".to_string() });
    r.description = Some("desc".to_string());
    r.icon = Some("/icon.png".to_string());
    let out = convert_results(vec![r]);
    assert_eq!(out.len(), 1);
    assert_eq!(out[0].id.as_str(), "1");
    assert_eq!(out[0].title.as_str(), "Firefox");
    assert_eq!(out[0].score.value(), 80);
    assert_eq!(out[0].description.as_deref(), Some("desc"));
    assert_eq!(out[0].icon.as_deref(), Some("/icon.png"));
    assert!(matches!(&out[0].action, LaunchAction::SpawnProcess(c) if c == "firefox"));
}

#[test]
fn every_external_action_maps() {
    let out = convert_results(vec![
        external("t", "htop", 70, ExternalAction::SpawnInTerminal { cmd: "htop".to_string() }),
        external("c", "= 4", 90, ExternalAction::CopyToClipboard { text: "4".to_string() }),
        external("f", "/home/user", 50, ExternalAction::OpenPath { path: "/home/user".to_string() }),
    ]);
    assert!(matches!(&out[0].action, LaunchAction::SpawnInTerminal(c) if c == "htop"));
    assert!(matches!(&out[1].action, LaunchAction::CopyToClipboard(t) if t == "4"));
    assert!(matches!(&out[2].action, LaunchAction::OpenPath(p) if p == "/home/user"));
    assert_eq!(out[1].title.as_str(), "= 4");
}

#[test]
fn successful_reply_keeps_process() {
    let o = settle_reply(Ok(vec![external("x", "X", 10, ExternalAction::SpawnProcess { cmd: "x".to_string() })]));
    assert_eq!(o.event, ProcessEvent::Answered);
    assert_eq!(o.results.len(), 1);
    assert!(o.results[0].description.is_none());
}

#[test]
fn failed_reply_drops_process() {
    let o = settle_reply(Err(PluginError::Timeout { timeout_secs: 5 }));
    assert_eq!(o.event, ProcessEvent::ExchangeFailed);
    assert!(o.results.is_empty());
    let o = settle_reply(Err(PluginError::Protocol("not json".to_string())));
    assert_eq!(o.event, ProcessEvent::ExchangeFailed);
    let o = settle_reply(Err(PluginError::SpawnFailed(std::io::Error::other("gone"))));
    assert_eq!(o.event, ProcessEvent::StartFailed);
    assert!(o.results.is_empty());
}

#[test]
fn query_holds_text() {
    let q = Query { query: "firefox".to_string() };
    assert_eq!(q.query, "firefox");
}

#[test]
fn failed_exchange_restarts_on_next_query() {
    let s = ProcessState::NotRunning;
    assert!(s.must_start());
    let s = s.next(ProcessEvent::Started);
    assert!(!s.must_start());
    let s = s.next(ProcessEvent::Answered);
    assert_eq!(s, ProcessState::Running);
    let s = s.next(ProcessEvent::ExchangeFailed);
    assert!(s.must_start());
    let s = s.next(ProcessEvent::StartFailed);
    assert_eq!(s, ProcessState::NotRunning);
}
