use pr_bot::state::{PrCursor, State, StrMap};

#[test]
fn string_map_operations() {
    let mut m: StrMap<u64> = StrMap::new();
    assert_eq!(m.len(), 0);
    m.insert("a".to_string(), 1);
    m.insert("b".to_string(), 2);
    m.insert("a".to_string(), 3);
    assert_eq!(m.len(), 2);
    assert_eq!(m.get(&"a".to_string()), Some(&3));
    assert!(m.contains_key(&"b".to_string()));
    m.remove(&"b".to_string());
    assert!(!m.contains_key(&"b".to_string()));
    m.remove(&"zzz".to_string());
    assert_eq!(m.len(), 1);
    assert_eq!(m.entries().len(), 1);
}

#[test]
fn new_state_is_empty_and_cursors_copy() {
    let s = State::new();
    assert_eq!(s.processed_issues.len(), 0);
    assert_eq!(s.pr_cursors.len(), 0);
    assert_eq!(s.processed_mentions.len(), 0);
    assert_eq!(s.issue_cursors.len(), 0);
    assert_eq!(s.processed_health.len(), 0);
    let c = PrCursor {
        last_head_sha: "abc".to_string(),
        last_comment_id: 1,
        last_review_id: 2,
        last_updated: "t".to_string(),
    };
    let d = c.duplicate();
    assert_eq!(d.last_head_sha, "abc");
    assert_eq!(d.last_review_id, 2);
}
