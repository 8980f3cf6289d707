use statehub::ownership::{claim_unowned_states, plan_unregister, relinquish_states, UnregisterCall};
use statehub::v0::{ClusterName, State};

fn owned(name: &str, owner: Option<&str>) -> State {
    let mut state = State::new(name);
    state.owner = owner.map(ClusterName::from);
    state
}

#[test]
fn claim_skips_owned_states() {
    let states = vec![owned("alfa", None), owned("bravo", Some("x")), owned("charlie", None)];
    let claimed: Vec<String> = claim_unowned_states(&states)
        .iter()
        .map(|n| n.as_str().to_string())
        .collect();
    assert_eq!(claimed, vec!["alfa".to_string(), "charlie".to_string()]);
    assert_eq!(states[1].owner.as_ref().map(|o| o.as_str()), Some("x"));
}

#[test]
fn relinquish_only_own_states_then_delete() {
    let states = vec![
        owned("alfa", Some("a")),
        owned("bravo", Some("b")),
        owned("charlie", None),
        owned("delta", Some("a")),
    ];
    let cluster = ClusterName::from("a");
    let released: Vec<String> = relinquish_states(&cluster, &states)
        .iter()
        .map(|n| n.as_str().to_string())
        .collect();
    assert_eq!(released, vec!["alfa".to_string(), "delta".to_string()]);
    let calls = plan_unregister(&cluster, &states);
    assert_eq!(calls.len(), 3);
    assert!(matches!(&calls[0], UnregisterCall::UnsetOwner(s) if s.as_str() == "alfa"));
    assert!(matches!(&calls[1], UnregisterCall::UnsetOwner(s) if s.as_str() == "delta"));
    assert!(matches!(&calls[2], UnregisterCall::DeleteCluster(c) if c.as_str() == "a"));
}

#[test]
fn unregister_deletes_even_when_owning_nothing() {
    let states = vec![owned("bravo", Some("b")), owned("charlie", None)];
    let calls = plan_unregister(&ClusterName::from("a"), &states);
    assert_eq!(calls.len(), 1);
    assert!(matches!(&calls[0], UnregisterCall::DeleteCluster(c) if c.as_str() == "a"));
    let calls = plan_unregister(&ClusterName::from("a"), &vec![]);
    assert_eq!(calls.len(), 1);
}

#[test]
fn cluster_names_compare_by_text() {
    assert!(ClusterName::from("zulu") == ClusterName::from("zulu"));
    assert!(ClusterName::from("zulu") != ClusterName::from("Zulu"));
}
