use wagi_provider::config::{Container, WagiModuleConfig};
use wagi_provider::resolve::{resolve_modules_config, ConfigError};

fn ann(key: &str, value: &str) -> (String, String) {
    (key.to_string(), value.to_string())
}

fn container(name: &str, image: Option<&str>) -> Container {
    Container { name: name.to_string(), image: image.map(|s| s.to_string()) }
}

#[test]
fn no_module_annotation_yields_empty_config() {
    let annotations: Vec<(String, String)> = Vec::new();
    let containers: Vec<Container> = Vec::new();
    let c = resolve_modules_config(&annotations, &containers).unwrap();
    assert!(c.default_host.is_none());
    assert!(c.modules.is_empty());
}

#[test]
fn default_host_annotation_taken_verbatim() {
    let annotations = vec![ann("wagi.dev/default-host", "0.0.0.0:8080")];
    let containers: Vec<Container> = Vec::new();
    let c = resolve_modules_config(&annotations, &containers).unwrap();
    assert_eq!(c.default_host.as_deref(), Some("0.0.0.0:8080"));
    assert!(c.modules.is_empty());
}

#[test]
fn matching_containers_receive_oci_locators() {
    let annotations = vec![ann(
        "wagi.dev/modules",
        "{\"web\":{\"route\":\"/\"},\"api\":{\"route\":\"/api\"},\"other\":{\"route\":\"/o\"}}",
    )];
    let containers = vec![
        container("web", Some("example.com/web:v2")),
        container("api", None),
        container("unrelated", Some("example.com/x:v9")),
    ];
    let c = resolve_modules_config(&annotations, &containers).unwrap();
    assert_eq!(c.modules.len(), 3);
    assert_eq!(c.modules[0].route, "/");
    assert_eq!(c.modules[0].module, "oci://example.com/web:v2");
    // "api" has no resolvable image, "other" no matching container: both
    // keep the module value deserialization gave them.
    assert_eq!(c.modules[1].route, "/api");
    assert_eq!(c.modules[1].module, "");
    assert_eq!(c.modules[2].route, "/o");
    assert_eq!(c.modules[2].module, "");
}

#[test]
fn scenario_single_web_module() {
    let annotations = vec![ann(
        "wagi.dev/modules",
        "{\"web\":{\"route\":\"/\",\"entrypoint\":\"_start\"}}",
    )];
    let containers = vec![container("web", Some("example.com/app:v1"))];
    let c = resolve_modules_config(&annotations, &containers).unwrap();
    assert_eq!(c.modules.len(), 1);
    assert_eq!(c.modules[0].route, "/");
    assert_eq!(c.modules[0].entrypoint.as_deref(), Some("_start"));
    assert_eq!(c.modules[0].module, "oci://example.com/app:v1");
}

#[test]
fn module_equality_is_route_equality() {
    let a = WagiModuleConfig {
        entrypoint: Some("_start".to_string()),
        route: "/same".to_string(),
        allowed_hosts: None,
        module: "oci://one".to_string(),
    };
    let b = WagiModuleConfig {
        entrypoint: None,
        route: "/same".to_string(),
        allowed_hosts: Some(vec!["example.com".to_string()]),
        module: "oci://two".to_string(),
    };
    let c = WagiModuleConfig {
        entrypoint: Some("_start".to_string()),
        route: "/other".to_string(),
        allowed_hosts: None,
        module: "oci://one".to_string(),
    };
    assert!(a == b);
    assert!(a != c);
}

#[test]
fn duplicate_routes_keep_last_write() {
    let annotations = vec![ann(
        "wagi.dev/modules",
        "{\"one\":{\"route\":\"/dup\",\"entrypoint\":\"first\"},\"two\":{\"route\":\"/dup\",\"entrypoint\":\"second\"},\"three\":{\"route\":\"/solo\"}}",
    )];
    let containers: Vec<Container> = Vec::new();
    let c = resolve_modules_config(&annotations, &containers).unwrap();
    assert_eq!(c.modules.len(), 2);
    assert_eq!(c.modules[0].route, "/dup");
    assert_eq!(c.modules[0].entrypoint.as_deref(), Some("second"));
    assert_eq!(c.modules[1].route, "/solo");
}

#[test]
fn invalid_module_json_is_typed_error_naming_the_key() {
    let annotations = vec![ann("wagi.dev/modules", "{not valid json")];
    let containers: Vec<Container> = Vec::new();
    let e = resolve_modules_config(&annotations, &containers).unwrap_err();
    match &e {
        ConfigError::InvalidModuleList { key, message } => {
            assert_eq!(key, "wagi.dev/modules");
            assert!(!message.is_empty());
        },
        other => panic!("unexpected error variant: {:?}", other),
    }
    let text = e.message_text();
    assert!(text.contains("wagi.dev/modules"));
}

#[test]
fn missing_route_fails_resolution() {
    let annotations = vec![ann("wagi.dev/modules", "{\"web\":{\"entrypoint\":\"_start\"}}")];
    let containers: Vec<Container> = Vec::new();
    let e = resolve_modules_config(&annotations, &containers).unwrap_err();
    match e {
        ConfigError::InvalidModuleList { message, .. } => {
            assert_eq!(message, "missing field `route`");
        },
        other => panic!("unexpected error variant: {:?}", other),
    }
}

#[test]
fn non_object_module_value_fails_resolution() {
    let annotations = vec![ann("wagi.dev/modules", "{\"web\": 3}")];
    let containers: Vec<Container> = Vec::new();
    assert!(resolve_modules_config(&annotations, &containers).is_err());
}

#[test]
fn allowed_hosts_and_null_entrypoint_parse() {
    let annotations = vec![ann(
        "wagi.dev/modules",
        "{\"web\":{\"route\":\"/\",\"entrypoint\":null,\"allowed_hosts\":[\"a.example\",\"b.example\"]}}",
    )];
    let containers: Vec<Container> = Vec::new();
    let c = resolve_modules_config(&annotations, &containers).unwrap();
    assert_eq!(c.modules.len(), 1);
    assert_eq!(c.modules[0].entrypoint, None);
    assert_eq!(
        c.modules[0].allowed_hosts,
        Some(vec!["a.example".to_string(), "b.example".to_string()])
    );
}

#[test]
fn repeated_annotation_key_last_pair_wins() {
    let annotations = vec![
        ann("wagi.dev/default-host", "127.0.0.1:1111"),
        ann("wagi.dev/default-host", "127.0.0.1:2222"),
    ];
    let containers: Vec<Container> = Vec::new();
    let c = resolve_modules_config(&annotations, &containers).unwrap();
    assert_eq!(c.default_host.as_deref(), Some("127.0.0.1:2222"));
}
