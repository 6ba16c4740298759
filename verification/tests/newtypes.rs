use k_launcher::domain::{ResultId, ResultTitle, Score};

#[test]
fn newtype_result_id() {
    assert_eq!(ResultId::new("x".to_string()).as_str(), "x");
}

#[test]
fn newtype_score() {
    assert_eq!(Score::new(42).value(), 42);
}

#[test]
fn newtype_title() {
    assert_eq!(ResultTitle::new("hello".to_string()).as_str(), "hello");
}

#[test]
fn lib_newtype_result_id() {
    assert_eq!(ResultId::new("x".to_string()).as_str(), "x");
}

#[test]
fn lib_newtype_score() {
    assert_eq!(Score::new(42).value(), 42);
}

#[test]
fn lib_newtype_title() {
    assert_eq!(ResultTitle::new("hello".to_string()).as_str(), "hello");
}

#[test]
fn score_saturating_add_adds() {
    assert_eq!(Score::new(40).saturating_add(2).value(), 42);
}

#[test]
fn score_saturating_add_stops_at_max() {
    assert_eq!(Score::new(u32::MAX - 1).saturating_add(5).value(), u32::MAX);
    assert_eq!(Score::max_score().value(), u32::MAX);
}

#[test]
fn scores_order_by_value() {
    assert!(Score::new(3) < Score::new(7));
    assert_eq!(Score::new(7), Score::new(7));
}

#[test]
fn result_id_clone_keeps_text() {
    let id = ResultId::new("app".to_string());
    assert_eq!(id.clone().as_str(), "app");
}
