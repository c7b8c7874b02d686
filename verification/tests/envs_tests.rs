use settings_copier::envs::{build_envs_hash, resolve};

#[test]
fn resolve_local() {
    assert_eq!(resolve("local"), Some("http://localhost:5000/esap-api/v1".to_string()));
}

#[test]
fn resolve_dev() {
    assert_eq!(resolve("dev"), Some("https://dev-apigw.edf-esap.com/esap-api/v1".to_string()));
}

#[test]
fn resolve_stg() {
    assert_eq!(resolve("stg"), Some("https://stg-apigw.edf-esap.com/esap-api/v1".to_string()));
}

#[test]
fn resolve_prd() {
    assert_eq!(resolve("prd"), Some("https://apigw.edf-esap.com/esap-api/v1".to_string()));
}

#[test]
fn resolve_unknown_fails() {
    assert_eq!(resolve("prod"), None);
    assert_eq!(resolve(""), None);
    assert_eq!(resolve("DEV"), None);
    assert_eq!(resolve("localhost"), None);
}

#[test]
fn envs_table_has_all_four() {
    let envs = build_envs_hash();
    assert_eq!(envs.len(), 4);
    assert_eq!(envs[0], ("local".to_string(), "http://localhost:5000/esap-api/v1".to_string()));
    assert_eq!(
        envs[1],
        ("dev".to_string(), "https://dev-apigw.edf-esap.com/esap-api/v1".to_string())
    );
    assert_eq!(
        envs[2],
        ("stg".to_string(), "https://stg-apigw.edf-esap.com/esap-api/v1".to_string())
    );
    assert_eq!(envs[3], ("prd".to_string(), "https://apigw.edf-esap.com/esap-api/v1".to_string()));
}

#[test]
fn envs_table_agrees_with_resolve() {
    for (name, url) in build_envs_hash() {
        assert_eq!(resolve(&name), Some(url));
    }
}
