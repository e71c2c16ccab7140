use wagi_provider::config::Container;
use wagi_provider::state::{
    next, status, Action, ChannelOutcome, Phase, PodState, StepContext, TaskReport,
};

fn manifest(modules_json: Option<&str>, containers: Vec<Container>) -> StepContext {
    let mut annotations: Vec<(String, String)> = Vec::new();
    if let Some(m) = modules_json {
        annotations.push(("wagi.dev/modules".to_string(), m.to_string()));
    }
    StepContext::Manifest { annotations, containers }
}

#[test]
fn initializing_moves_to_starting_and_resets_backoff() {
    let (s, a) = next(PodState::Initializing, StepContext::Tick);
    assert!(matches!(s, PodState::Starting));
    assert!(matches!(a, Action::ResetBackoff));
    let (phase, reason) = status(&s);
    assert_eq!(phase, Phase::Pending);
    assert_eq!(reason, "Starting");
}

#[test]
fn full_run_reaches_completed() {
    let (s1, _) = next(PodState::Initializing, StepContext::Tick);
    let ctx = manifest(Some("{\"web\":{\"route\":\"/\"}}"), vec![Container {
        name: "web".to_string(),
        image: Some("example.com/app:v1".to_string()),
    }]);
    let (s2, a2) = next(s1, ctx);
    assert!(matches!(s2, PodState::Running));
    match a2 {
        Action::SpawnListener { config, bind_host } => {
            assert_eq!(bind_host, "127.0.0.1:3000");
            assert_eq!(config.modules.len(), 1);
            assert_eq!(config.modules[0].module, "oci://example.com/app:v1");
        },
        other => panic!("unexpected action: {:?}", other),
    }
    let (phase, reason) = status(&s2);
    assert_eq!(phase, Phase::Running);
    assert_eq!(reason, "Running");
    let outcome = StepContext::Outcome {
        pod_name: "mypod".to_string(),
        outcome: ChannelOutcome::Delivered { report: TaskReport::Success },
    };
    let (s3, a3) = next(s2, outcome);
    assert!(matches!(s3, PodState::Completed));
    assert!(matches!(a3, Action::Wait));
    let (phase, _) = status(&s3);
    assert_eq!(phase, Phase::Succeeded);
}

#[test]
fn default_host_annotation_overrides_bind_host() {
    let ctx = StepContext::Manifest {
        annotations: vec![("wagi.dev/default-host".to_string(), "0.0.0.0:8080".to_string())],
        containers: Vec::new(),
    };
    let (s, a) = next(PodState::Starting, ctx);
    assert!(matches!(s, PodState::Running));
    match a {
        Action::SpawnListener { bind_host, .. } => assert_eq!(bind_host, "0.0.0.0:8080"),
        other => panic!("unexpected action: {:?}", other),
    }
}

#[test]
fn invalid_modules_annotation_moves_to_error() {
    let ctx = manifest(Some("not json at all"), Vec::new());
    let (s, a) = next(PodState::Starting, ctx);
    assert!(matches!(a, Action::Wait));
    match &s {
        PodState::Error { message } => {
            assert!(message.contains("wagi.dev/modules"));
            assert!(message.contains("Error parsing WAGI annotation for key"));
        },
        other => panic!("expected an error state, got {:?}", other),
    }
    let (phase, reason) = status(&s);
    assert_eq!(phase, Phase::Failed);
    assert!(reason.contains("wagi.dev/modules"));
}

#[test]
fn task_failure_report_moves_to_error() {
    let ctx = StepContext::Outcome {
        pod_name: "mypod".to_string(),
        outcome: ChannelOutcome::Delivered {
            report: TaskReport::Failure { message: "bind failed".to_string() },
        },
    };
    let (s, _) = next(PodState::Running, ctx);
    match s {
        PodState::Error { message } => assert_eq!(message, "bind failed"),
        other => panic!("expected an error state, got {:?}", other),
    }
}

#[test]
fn hung_up_channel_moves_to_error_not_completed() {
    let ctx = StepContext::Outcome {
        pod_name: "mypod".to_string(),
        outcome: ChannelOutcome::HungUp,
    };
    let (s, _) = next(PodState::Running, ctx);
    assert!(!matches!(s, PodState::Completed));
    match s {
        PodState::Error { message } => {
            assert_eq!(message, "Pod mypod container result channel hung up.");
        },
        other => panic!("expected an error state, got {:?}", other),
    }
}

#[test]
fn terminal_states_stay_put() {
    let (s, a) = next(PodState::Completed, StepContext::Tick);
    assert!(matches!(s, PodState::Completed));
    assert!(matches!(a, Action::Wait));
    let (s, _) = next(
        PodState::Error { message: "x".to_string() },
        StepContext::Tick,
    );
    match s {
        PodState::Error { message } => assert_eq!(message, "x"),
        other => panic!("expected the error state to persist, got {:?}", other),
    }
}

#[test]
fn initializing_status_reports_running_phase() {
    let (phase, reason) = status(&PodState::Initializing);
    assert_eq!(phase, Phase::Running);
    assert_eq!(reason, "Initializing");
}
