use wagi_provider::config::{Container, PodKey};
use wagi_provider::provider::{
    validate_container_runnable, ProviderError, ProviderState, StopOutcome,
};
use wagi_provider::runtime::{Runtime, StopEffect};

#[test]
fn stop_twice_on_one_handle_interrupts_once() {
    let mut rt = Runtime::new(7);
    assert!(!rt.interrupt_requested);
    let first = rt.stop();
    assert_eq!(first, StopEffect::Interrupt);
    assert!(rt.interrupt_requested);
    let second = rt.stop();
    assert_eq!(second, StopEffect::AlreadyRequested);
    assert!(rt.interrupt_requested);
    assert_eq!(rt.task_id, 7);
}

#[test]
fn absent_pod_logs_fail_and_stop_is_silent() {
    let mut reg = ProviderState::new();
    let key = PodKey::new("default", "ghost-pod");
    match reg.logs("default", "ghost-pod") {
        Err(ProviderError::PodNotFound { pod_name }) => assert_eq!(pod_name, "ghost-pod"),
        Ok(id) => panic!("logs should fail for an absent pod, got handle {}", id),
    }
    let outcome = reg.stop(&key);
    assert_eq!(outcome, StopOutcome::NotRegistered);
}

#[test]
fn registered_pod_serves_logs_and_stop() {
    let mut reg = ProviderState::new();
    reg.register(PodKey::new("default", "web"), Runtime::new(41));
    reg.register(PodKey::new("other", "web"), Runtime::new(42));
    assert_eq!(reg.logs("default", "web").unwrap(), 41);
    assert_eq!(reg.logs("other", "web").unwrap(), 42);
    let key = PodKey::new("default", "web");
    assert_eq!(reg.stop(&key), StopOutcome::Interrupted);
    assert_eq!(reg.stop(&key), StopOutcome::AlreadyInterrupted);
    // the other pod is untouched and still served
    assert_eq!(reg.logs("other", "web").unwrap(), 42);
}

#[test]
fn register_replaces_the_earlier_handle() {
    let mut reg = ProviderState::new();
    reg.register(PodKey::new("default", "web"), Runtime::new(1));
    reg.register(PodKey::new("default", "web"), Runtime::new(2));
    assert_eq!(reg.logs("default", "web").unwrap(), 2);
}

#[test]
fn remove_unregisters_the_pod() {
    let mut reg = ProviderState::new();
    reg.register(PodKey::new("default", "web"), Runtime::new(1));
    reg.remove(&PodKey::new("default", "web"));
    assert!(reg.logs("default", "web").is_err());
    assert_eq!(reg.stop(&PodKey::new("default", "web")), StopOutcome::NotRegistered);
}

#[test]
fn kube_proxy_image_is_rejected() {
    let bad = Container {
        name: "proxy".to_string(),
        image: Some("k8s.gcr.io/kube-proxy:v1.21".to_string()),
    };
    let e = validate_container_runnable(&bad).unwrap_err();
    assert_eq!(e, "Cannot run kube-proxy");
    let good = Container {
        name: "web".to_string(),
        image: Some("example.com/app:v1".to_string()),
    };
    assert!(validate_container_runnable(&good).is_ok());
    let none = Container { name: "web".to_string(), image: None };
    assert!(validate_container_runnable(&none).is_ok());
}
