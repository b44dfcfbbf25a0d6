use orbit_tui::view::{NavigationStack, ViewType};

fn targets(project: &str) -> ViewType {
    ViewType::Targets { project: project.to_string() }
}

#[test]
fn new_stack_is_at_root() {
    let nav = NavigationStack::new();
    assert_eq!(nav.current(), &ViewType::ProfileSelect);
    assert!(!nav.can_go_back());
    let d = NavigationStack::default();
    assert_eq!(d.current(), &ViewType::ProfileSelect);
}

#[test]
fn pushes_then_as_many_pops_return_to_start() {
    let mut nav = NavigationStack::new();
    let path = vec![
        ViewType::Projects,
        targets("billing"),
        ViewType::Services { project: "billing".to_string(), target: "prod".to_string() },
        ViewType::Schema {
            project: "billing".to_string(),
            target: "prod".to_string(),
            service: "users".to_string(),
        },
    ];
    for v in path.iter() {
        nav.push(v.clone());
        assert_eq!(nav.current(), v);
        assert!(nav.can_go_back());
    }
    for i in (0..path.len()).rev() {
        assert!(nav.pop());
        if i > 0 {
            assert_eq!(nav.current(), &path[i - 1]);
        }
    }
    assert_eq!(nav.current(), &ViewType::ProfileSelect);
    assert!(!nav.can_go_back());
}

#[test]
fn pop_returns_the_exact_previous_view() {
    let mut nav = NavigationStack::new();
    nav.push(ViewType::Projects);
    nav.push(targets("a"));
    nav.push(targets("b"));
    assert!(nav.pop());
    assert_eq!(nav.current(), &targets("a"));
}

#[test]
fn pop_at_root_is_idempotent() {
    let mut nav = NavigationStack::new();
    assert!(!nav.pop());
    assert_eq!(nav.current(), &ViewType::ProfileSelect);
    assert!(!nav.pop());
    assert_eq!(nav.current(), &ViewType::ProfileSelect);
    assert!(!nav.can_go_back());
}

#[test]
fn view_clone_is_equal() {
    let v = ViewType::Schema {
        project: "p".to_string(),
        target: "t".to_string(),
        service: "s".to_string(),
    };
    assert_eq!(v.clone(), v);
}
