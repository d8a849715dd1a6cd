use pod_crud::blog_plan;
use pod_crud::model::HTTP_CONFLICT;
use pod_crud::session::{field_selector, init, is_done, is_failed, step, Action, Event, Phase};

fn created_blog() -> Event {
    Event::Created { name: "blog".to_string() }
}

fn fetched_blog() -> Event {
    Event::Fetched {
        resource_version: Some("41".to_string()),
        has_spec: true,
        containers: vec!["blog".to_string()],
    }
}

fn patched_blog() -> Event {
    Event::Patched { has_spec: true, active_deadline_seconds: Some(5) }
}

#[test]
fn init_asks_for_the_blog_manifest() {
    let plan = blog_plan();
    let (phase, action) = init(&plan);
    assert!(matches!(phase, Phase::Creating));
    match action {
        Action::Create { pod_name, container_name, image } => {
            assert_eq!(pod_name, "blog");
            assert_eq!(container_name, "blog");
            assert_eq!(image, "clux/blog:0.1.0");
        }
        _ => panic!("expected a create action"),
    }
}

#[test]
fn happy_path_runs_all_six_operations() {
    let plan = blog_plan();
    let (phase, _) = init(&plan);

    let (phase, action) = step(&plan, phase, created_blog());
    assert!(matches!(phase, Phase::AwaitingRunning));
    match action {
        Action::AwaitRunning { pod_name, timeout_seconds } => {
            assert_eq!(pod_name, "blog");
            assert_eq!(timeout_seconds, 15);
        }
        _ => panic!("expected a wait action"),
    }

    let (phase, action) = step(&plan, phase, Event::BecameRunning);
    assert!(matches!(phase, Phase::Fetching));
    match action {
        Action::Fetch { pod_name } => assert_eq!(pod_name, "blog"),
        _ => panic!("expected a fetch action"),
    }

    let (phase, action) = step(&plan, phase, fetched_blog());
    match &phase {
        Phase::Patching { resource_version } => {
            assert_eq!(resource_version.as_deref(), Some("41"));
        }
        _ => panic!("expected the patching phase"),
    }
    match action {
        Action::ApplyPatch { pod_name, resource_version, active_deadline_seconds } => {
            assert_eq!(pod_name, "blog");
            assert_eq!(resource_version.as_deref(), Some("41"));
            assert_eq!(active_deadline_seconds, 5);
        }
        _ => panic!("expected a patch action"),
    }

    let (phase, action) = step(&plan, phase, patched_blog());
    assert!(matches!(phase, Phase::Listing));
    match action {
        Action::List { field_selector } => assert_eq!(field_selector, "metadata.name=blog"),
        _ => panic!("expected a list action"),
    }

    let (phase, action) = step(&plan, phase, Event::Listed { names: vec!["blog".to_string()] });
    assert!(matches!(phase, Phase::Deleting));
    match action {
        Action::Delete { pod_name } => assert_eq!(pod_name, "blog"),
        _ => panic!("expected a delete action"),
    }

    let (phase, action) = step(&plan, phase, Event::DeleteStarted { name: "blog".to_string() });
    assert!(is_done(&phase));
    assert!(!is_failed(&phase));
    assert!(matches!(action, Action::Halt { succeeded: true }));
}

#[test]
fn create_conflict_is_tolerated() {
    let plan = blog_plan();
    let (phase, _) = init(&plan);
    let (phase, action) = step(&plan, phase, Event::CreateRejected { code: HTTP_CONFLICT });
    assert!(matches!(phase, Phase::AwaitingRunning));
    assert!(matches!(action, Action::AwaitRunning { .. }));
}

#[test]
fn create_rejected_with_another_code_fails() {
    let plan = blog_plan();
    let (phase, _) = init(&plan);
    let (phase, action) = step(&plan, phase, Event::CreateRejected { code: 500 });
    assert!(is_failed(&phase));
    assert!(matches!(action, Action::Halt { succeeded: false }));
}

#[test]
fn create_error_fails() {
    let plan = blog_plan();
    let (phase, _) = init(&plan);
    let (phase, _) = step(&plan, phase, Event::CreateFailed);
    assert!(is_failed(&phase));
}

#[test]
fn created_pod_of_another_name_fails() {
    let plan = blog_plan();
    let (phase, _) = init(&plan);
    let (phase, _) = step(&plan, phase, Event::Created { name: "bog".to_string() });
    assert!(is_failed(&phase));
}

#[test]
fn wait_timeout_fails() {
    let plan = blog_plan();
    let (phase, _) = init(&plan);
    let (phase, _) = step(&plan, phase, created_blog());
    let (phase, action) = step(&plan, phase, Event::WaitTimedOut);
    assert!(is_failed(&phase));
    assert!(matches!(action, Action::Halt { succeeded: false }));
}

#[test]
fn fetched_pod_without_spec_is_tolerated() {
    let plan = blog_plan();
    let (phase, _) = init(&plan);
    let (phase, _) = step(&plan, phase, created_blog());
    let (phase, _) = step(&plan, phase, Event::BecameRunning);
    let event = Event::Fetched { resource_version: None, has_spec: false, containers: vec![] };
    let (phase, action) = step(&plan, phase, event);
    assert!(matches!(phase, Phase::Patching { resource_version: None }));
    match action {
        Action::ApplyPatch { resource_version, .. } => assert_eq!(resource_version, None),
        _ => panic!("expected a patch action"),
    }
}

#[test]
fn fetched_pod_with_another_first_container_fails() {
    let plan = blog_plan();
    let (phase, _) = init(&plan);
    let (phase, _) = step(&plan, phase, created_blog());
    let (phase, _) = step(&plan, phase, Event::BecameRunning);
    let event = Event::Fetched {
        resource_version: Some("41".to_string()),
        has_spec: true,
        containers: vec!["sidecar".to_string(), "blog".to_string()],
    };
    let (phase, _) = step(&plan, phase, event);
    assert!(is_failed(&phase));
}

#[test]
fn fetched_pod_with_no_containers_fails() {
    let plan = blog_plan();
    let (phase, _) = init(&plan);
    let (phase, _) = step(&plan, phase, created_blog());
    let (phase, _) = step(&plan, phase, Event::BecameRunning);
    let event = Event::Fetched {
        resource_version: Some("41".to_string()),
        has_spec: true,
        containers: vec![],
    };
    let (phase, _) = step(&plan, phase, event);
    assert!(is_failed(&phase));
}

#[test]
fn fetch_error_fails() {
    let plan = blog_plan();
    let (phase, _) = init(&plan);
    let (phase, _) = step(&plan, phase, created_blog());
    let (phase, _) = step(&plan, phase, Event::BecameRunning);
    let (phase, _) = step(&plan, phase, Event::FetchFailed);
    assert!(is_failed(&phase));
}

#[test]
fn patched_pod_without_spec_fails() {
    let plan = blog_plan();
    let (phase, _) = init(&plan);
    let (phase, _) = step(&plan, phase, created_blog());
    let (phase, _) = step(&plan, phase, Event::BecameRunning);
    let (phase, _) = step(&plan, phase, fetched_blog());
    let event = Event::Patched { has_spec: false, active_deadline_seconds: None };
    let (phase, _) = step(&plan, phase, event);
    assert!(is_failed(&phase));
}

#[test]
fn patched_pod_with_another_deadline_fails() {
    let plan = blog_plan();
    let (phase, _) = init(&plan);
    let (phase, _) = step(&plan, phase, created_blog());
    let (phase, _) = step(&plan, phase, Event::BecameRunning);
    let (phase, _) = step(&plan, phase, fetched_blog());
    let event = Event::Patched { has_spec: true, active_deadline_seconds: Some(4) };
    let (phase, _) = step(&plan, phase, event);
    assert!(is_failed(&phase));
}

#[test]
fn patched_pod_with_unset_deadline_fails() {
    let plan = blog_plan();
    let (phase, _) = init(&plan);
    let (phase, _) = step(&plan, phase, created_blog());
    let (phase, _) = step(&plan, phase, Event::BecameRunning);
    let (phase, _) = step(&plan, phase, fetched_blog());
    let event = Event::Patched { has_spec: true, active_deadline_seconds: None };
    let (phase, _) = step(&plan, phase, event);
    assert!(is_failed(&phase));
}

#[test]
fn list_may_return_no_names() {
    let plan = blog_plan();
    let (phase, _) = init(&plan);
    let (phase, _) = step(&plan, phase, created_blog());
    let (phase, _) = step(&plan, phase, Event::BecameRunning);
    let (phase, _) = step(&plan, phase, fetched_blog());
    let (phase, _) = step(&plan, phase, patched_blog());
    let (phase, action) = step(&plan, phase, Event::Listed { names: vec![] });
    assert!(matches!(phase, Phase::Deleting));
    assert!(matches!(action, Action::Delete { .. }));
}

#[test]
fn delete_accepted_without_pod_is_tolerated() {
    let plan = blog_plan();
    let (phase, _) = init(&plan);
    let (phase, _) = step(&plan, phase, created_blog());
    let (phase, _) = step(&plan, phase, Event::BecameRunning);
    let (phase, _) = step(&plan, phase, fetched_blog());
    let (phase, _) = step(&plan, phase, patched_blog());
    let (phase, _) = step(&plan, phase, Event::Listed { names: vec![] });
    let (phase, action) = step(&plan, phase, Event::DeleteAccepted);
    assert!(is_done(&phase));
    assert!(matches!(action, Action::Halt { succeeded: true }));
}

#[test]
fn delete_of_another_pod_fails() {
    let plan = blog_plan();
    let (phase, _) = init(&plan);
    let (phase, _) = step(&plan, phase, created_blog());
    let (phase, _) = step(&plan, phase, Event::BecameRunning);
    let (phase, _) = step(&plan, phase, fetched_blog());
    let (phase, _) = step(&plan, phase, patched_blog());
    let (phase, _) = step(&plan, phase, Event::Listed { names: vec![] });
    let (phase, _) = step(&plan, phase, Event::DeleteStarted { name: "bog".to_string() });
    assert!(is_failed(&phase));
}

#[test]
fn an_event_out_of_order_fails() {
    let plan = blog_plan();
    let (phase, _) = init(&plan);
    let (phase, _) = step(&plan, phase, Event::Listed { names: vec![] });
    assert!(is_failed(&phase));
}

#[test]
fn terminal_phases_absorb_events() {
    let plan = blog_plan();
    let (phase, action) = step(&plan, Phase::Done, Event::CreateFailed);
    assert!(is_done(&phase));
    assert!(matches!(action, Action::Halt { succeeded: true }));

    let (phase, action) = step(&plan, Phase::Failed, created_blog());
    assert!(is_failed(&phase));
    assert!(matches!(action, Action::Halt { succeeded: false }));
}

#[test]
fn field_selector_names_the_pod() {
    assert_eq!(field_selector("blog"), "metadata.name=blog");
    assert_eq!(field_selector(""), "metadata.name=");
}

#[test]
fn blog_plan_holds_the_manifest_values() {
    let plan = blog_plan();
    assert_eq!(plan.pod_name, "blog");
    assert_eq!(plan.container_name, "blog");
    assert_eq!(plan.image, "clux/blog:0.1.0");
    assert_eq!(plan.active_deadline_seconds, 5);
    assert_eq!(plan.wait_timeout_seconds, 15);
}
