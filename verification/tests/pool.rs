//! Routing among instances.

use antibot_rs::pool::InstancePool;

fn three(cap: Option<usize>) -> InstancePool {
    InstancePool::new(vec!["a".to_string(), "b".to_string(), "c".to_string()], cap)
}

#[test]
fn an_idle_pool_is_used_in_turn() {
    let mut p = three(None);
    let mut picks = Vec::new();
    for _ in 0..4 {
        let i = p.lease_instance(None);
        picks.push(i);
        p.release_instance(i, false);
    }
    assert_eq!(picks, vec![0, 1, 2, 0]);
}

#[test]
fn the_least_loaded_instance_is_picked() {
    let mut p = three(None);
    assert_eq!(p.lease_instance(Some("a")), 0);
    assert_eq!(p.lease_instance(Some("b")), 1);
    assert_eq!(p.lease_instance(Some("b")), 1);
    assert_eq!(p.instance(1).inflight, 2);
    // c is idle, wherever the search begins.
    assert_eq!(p.pick_instance(), 2);
    assert_eq!(p.pick_instance(), 2);
    assert_eq!(p.lease_instance(None), 2);
    // a and c have the same load now; the search begins at a.
    assert_eq!(p.pick_instance(), 0);
    assert_eq!(p.pick_instance(), 2);
}

#[test]
fn a_pin_to_an_unknown_instance_is_ignored() {
    let mut p = three(None);
    assert_eq!(p.lease_instance(Some("z")), 0);
    assert_eq!(p.lease_instance(Some("z")), 1);
}

#[test]
fn a_single_instance_is_always_picked() {
    let mut p = InstancePool::new(vec!["only".to_string()], None);
    for _ in 0..3 {
        assert_eq!(p.lease_instance(None), 0);
    }
    assert_eq!(p.len(), 1);
    assert_eq!(p.instance(0).inflight, 3);
    assert_eq!(p.instance(0).base_url, "only");
}

#[test]
fn caps_bound_what_runs_on_an_instance() {
    let mut p = InstancePool::new(vec!["x".to_string()], Some(2));
    for _ in 0..3 {
        p.lease_instance(None);
    }
    assert!(p.take_permit(0));
    assert!(p.take_permit(0));
    assert!(!p.take_permit(0));
    assert_eq!(p.instance(0).running, 2);
    p.release_instance(0, true);
    assert_eq!(p.instance(0).running, 1);
    assert_eq!(p.instance(0).inflight, 2);
    assert!(p.take_permit(0));
    // A cap of nothing allows one.
    let tight = InstancePool::new(vec!["x".to_string()], Some(0));
    assert_eq!(tight.instance(0).permits, Some(1));
    let mut open = InstancePool::new(vec!["x".to_string()], None);
    for _ in 0..10 {
        assert!(open.take_permit(0));
    }
}
