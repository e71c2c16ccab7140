use wagi_provider::config::{WagiModuleConfig, WagiModulesConfig};
use wagi_provider::render::modules_toml_text;

#[test]
fn renders_full_config() {
    let c = WagiModulesConfig {
        default_host: Some("0.0.0.0:8080".to_string()),
        modules: vec![
            WagiModuleConfig {
                entrypoint: Some("_start".to_string()),
                route: "/".to_string(),
                allowed_hosts: Some(vec!["a.example".to_string(), "b.example".to_string()]),
                module: "oci://example.com/app:v1".to_string(),
            },
            WagiModuleConfig {
                entrypoint: None,
                route: "/api".to_string(),
                allowed_hosts: None,
                module: "oci://example.com/api:v1".to_string(),
            },
        ],
    };
    let text = modules_toml_text(&c);
    let expected = "default_host = \"0.0.0.0:8080\"\n\
        [[module]]\n\
        entrypoint = \"_start\"\n\
        route = \"/\"\n\
        allowed_hosts = [\"a.example\", \"b.example\"]\n\
        module = \"oci://example.com/app:v1\"\n\
        [[module]]\n\
        route = \"/api\"\n\
        module = \"oci://example.com/api:v1\"\n";
    assert_eq!(text, expected);
}

#[test]
fn renders_empty_config_as_empty_text() {
    let c = WagiModulesConfig { default_host: None, modules: Vec::new() };
    assert_eq!(modules_toml_text(&c), "");
}

#[test]
fn escapes_quotes_backslashes_and_control_characters() {
    let c = WagiModulesConfig {
        default_host: None,
        modules: vec![WagiModuleConfig {
            entrypoint: None,
            route: "/a\"b\\c\nd\te\u{1}".to_string(),
            allowed_hosts: None,
            module: "m".to_string(),
        }],
    };
    let text = modules_toml_text(&c);
    let expected = "[[module]]\n\
        route = \"/a\\\"b\\\\c\\nd\\te\\u0001\"\n\
        module = \"m\"\n";
    assert_eq!(text, expected);
}
