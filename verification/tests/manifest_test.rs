use proto::manifest::Manifest;
use proto::resolver::{resolve_version, ResolverContext};
use proto::version::Version;

#[test]
fn set_and_read_an_alias() {
    let mut m = Manifest::new();
    m.set_alias(&"example".to_string(), &"10.0.0".to_string());
    assert_eq!(m.alias_value(&"example".to_string()), Some("10.0.0".to_string()));
    assert_eq!(m.alias_value(&"EXAMPLE".to_string()), Some("10.0.0".to_string()));
    assert_eq!(m.alias_value(&"other".to_string()), None);
}

#[test]
fn setting_an_alias_again_replaces_it() {
    let mut m = Manifest::new();
    m.set_alias(&"example".to_string(), &"10.0.0".to_string());
    m.set_alias(&"Example".to_string(), &"16.14.0".to_string());
    assert_eq!(m.alias_value(&"example".to_string()), Some("16.14.0".to_string()));
    assert_eq!(m.aliases.len(), 1);
}

#[test]
fn removing_an_alias_keeps_the_rest() {
    let mut m = Manifest::new();
    m.set_alias(&"a".to_string(), &"1.0.0".to_string());
    m.set_alias(&"b".to_string(), &"2.0.0".to_string());
    m.remove_alias(&"a".to_string());
    assert_eq!(m.alias_value(&"a".to_string()), None);
    assert_eq!(m.alias_value(&"b".to_string()), Some("2.0.0".to_string()));
}

#[test]
fn installed_versions_form_a_set() {
    let mut m = Manifest::new();
    m.add_installed_version(&"18.0.0".to_string());
    m.add_installed_version(&"18.0.0".to_string());
    assert_eq!(m.installed_versions, vec!["18.0.0"]);
    assert!(m.has_version(&"18.0.0".to_string()));
    assert!(!m.has_version(&"16.14.0".to_string()));
}

#[test]
fn manifest_aliases_feed_resolution() {
    let mut m = Manifest::new();
    m.set_alias(&"example".to_string(), &"10.0.0".to_string());
    let ctx = ResolverContext {
        versions: vec![
            Version { major: 18, minor: 0, patch: 0 },
            Version { major: 10, minor: 0, patch: 0 },
        ],
        latest: Some(Version { major: 18, minor: 0, patch: 0 }),
        aliases: vec![],
        manifest_aliases: m.aliases.clone(),
    };
    let r = resolve_version(&"example".to_string(), &ctx, &vec![]);
    assert_eq!(r.unwrap(), "10.0.0");
}
