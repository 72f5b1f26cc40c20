use fuzix::commands::init::project_config;
use fuzix::config::{config_candidates, FuzixConfig, CONFIG_FILE_NAME};

#[test]
fn default_config_matches_documented_values() {
    let c = FuzixConfig::default();
    assert_eq!(c.project.name, "fuzix-app");
    assert_eq!(c.project.version, "0.1.0");
    assert_eq!(c.project.source, "hello.c");
    assert_eq!(c.target.cpu, "68000");
    assert_eq!(c.target.emulator, "v68");
    assert_eq!(c.target.timeout, 45);
    assert_eq!(c.disk.boot_image, ".fuzix/images/boot.dsk");
    assert_eq!(c.disk.root_image, ".fuzix/images/hd-fuzix.dsk");
    assert_eq!(c.toolchain.repo, "notKitory/fuzix-sh");
    assert_eq!(c.toolchain.release, "latest");
    assert_eq!(CONFIG_FILE_NAME, "fuzix.toml");
}

#[test]
fn load_or_default_keeps_a_found_config() {
    let mut found = FuzixConfig::default();
    found.target.cpu = "z80".to_string();
    found.target.timeout = 90;
    let (path, config) =
        FuzixConfig::load_or_default(Ok(Some(("/p/fuzix.toml".to_string(), found))));
    assert_eq!(path, Some("/p/fuzix.toml".to_string()));
    assert_eq!(config.target.cpu, "z80");
    assert_eq!(config.target.timeout, 90);
}

#[test]
fn load_or_default_falls_back_when_missing_or_broken() {
    let (path, config) = FuzixConfig::load_or_default(Ok(None));
    assert_eq!(path, None);
    assert_eq!(config.target.emulator, "v68");
    let (path, config) = FuzixConfig::load_or_default(Err("bad toml".to_string()));
    assert_eq!(path, None);
    assert_eq!(config.project.name, "fuzix-app");
}

#[test]
fn init_overrides_only_given_fields() {
    let c = project_config(Some("my-app".to_string()), Some("68000".to_string()), Some("v68".to_string()));
    assert_eq!(c.project.name, "my-app");
    assert_eq!(c.target.cpu, "68000");
    assert_eq!(c.target.emulator, "v68");
    let c = project_config(None, Some("z80".to_string()), None);
    assert_eq!(c.project.name, "fuzix-app");
    assert_eq!(c.target.cpu, "z80");
    assert_eq!(c.target.emulator, "v68");
    assert_eq!(c.target.timeout, 45);
    assert_eq!(c.project.source, "hello.c");
}

#[test]
fn config_search_climbs_to_the_top() {
    assert_eq!(
        config_candidates("/a/b"),
        vec!["/a/b/fuzix.toml".to_string(), "/a/fuzix.toml".to_string(), "/fuzix.toml".to_string()]
    );
    assert_eq!(config_candidates("a"), vec!["a/fuzix.toml".to_string(), "fuzix.toml".to_string()]);
    assert_eq!(config_candidates("/"), vec!["/fuzix.toml".to_string()]);
}
