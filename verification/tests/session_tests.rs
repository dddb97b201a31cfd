use node_stream::NodeStreamSessionId;

#[test]
fn group_id_is_deterministic() {
    let s = NodeStreamSessionId::new();
    assert_eq!(s.to_group_id(), s.to_group_id());
}

#[test]
fn group_id_carries_the_fixed_prefix() {
    let s = NodeStreamSessionId::new();
    let g = s.to_group_id();
    assert!(g.starts_with("node-stream-"));
    assert!(g.len() > "node-stream-".len());
    assert!(g["node-stream-".len()..].chars().all(|c| c.is_ascii_digit()));
}

#[test]
fn distinct_sessions_get_distinct_group_ids() {
    let a = NodeStreamSessionId::new();
    let b = NodeStreamSessionId::new();
    assert_ne!(a, b);
    assert_ne!(a.to_group_id(), b.to_group_id());
}

#[test]
fn fresh_distinct_never_returns_the_current_session() {
    let s = NodeStreamSessionId::new();
    for _ in 0..64 {
        assert_ne!(s.fresh_distinct(), s);
    }
}

#[test]
fn copied_session_compares_equal() {
    let s = NodeStreamSessionId::new();
    let t = s;
    assert_eq!(s, t);
    assert_eq!(s.to_group_id(), t.to_group_id());
}
