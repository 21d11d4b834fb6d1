use prism::breakpoint::{BreakpointCondition, BreakpointController};

fn host(name: &str) -> BreakpointCondition {
    BreakpointCondition::HostFunction { function_name: name.to_string() }
}

#[test]
fn add_hands_out_increasing_ids() {
    let mut c = BreakpointController::new();
    assert_eq!(c.add(host("storage::get"), None), 1);
    assert_eq!(c.add(BreakpointCondition::BudgetThreshold { cpu_instructions: 10 }, Some("b".to_string())), 2);
    let list = c.list();
    assert_eq!(list.len(), 2);
    assert_eq!(list[0].id, 1);
    assert!(list[0].enabled);
    assert_eq!(list[0].hit_count, 0);
    assert_eq!(list[1].label.as_deref(), Some("b"));
}

#[test]
fn remove_undoes_add_and_is_final() {
    let mut c = BreakpointController::new();
    let a = c.add(host("a"), None);
    let b = c.add(host("b"), None);
    assert!(c.remove(b));
    assert_eq!(c.list().len(), 1);
    assert_eq!(c.list()[0].id, a);
    assert!(!c.remove(b));
    assert!(!c.remove(99));
    assert_eq!(c.list().len(), 1);
}

#[test]
fn ids_are_never_reused() {
    let mut c = BreakpointController::new();
    let a = c.add(host("a"), None);
    assert!(c.remove(a));
    let b = c.add(host("b"), None);
    assert_ne!(a, b);
    assert_eq!(b, 2);
}

#[test]
fn toggle_twice_restores() {
    let mut c = BreakpointController::new();
    let a = c.add(host("a"), None);
    assert_eq!(c.toggle(a), Some(false));
    assert!(!c.list()[0].enabled);
    assert_eq!(c.toggle(a), Some(true));
    assert!(c.list()[0].enabled);
    assert_eq!(c.toggle(42), None);
}

#[test]
fn default_controller_is_empty_and_starts_at_one() {
    let mut c = BreakpointController::default();
    assert!(c.list().is_empty());
    let id = c.add(BreakpointCondition::BudgetThreshold { cpu_instructions: 10 }, None);
    assert_eq!(id, 1);
}

#[test]
fn listed_breakpoints_are_ordered_and_unhit() {
    let mut c = BreakpointController::new();
    let a = c.add(host("a"), None);
    let _b = c.add(host("b"), None);
    let d = c.add(host("c"), None);
    c.remove(a);
    c.toggle(d);
    let next = c.add(host("d"), None);
    let list = c.list();
    for w in list.windows(2) {
        assert!(w[0].id < w[1].id);
    }
    assert!(list.iter().all(|bp| bp.id >= 1 && bp.id <= next && bp.hit_count == 0));
}
