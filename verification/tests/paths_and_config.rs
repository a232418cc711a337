use rustsync::config::{AppConfig, GeneralConfig, IgnoreConfig, TargetConfig, DEFAULT_PORT};
use rustsync::paths::{relative_from, relative_path, resolve_destination};

fn target(host: &str, port: Option<u16>, path: &str) -> TargetConfig {
    TargetConfig { host: host.to_string(), port, path: path.to_string() }
}

fn config(targets: Vec<TargetConfig>) -> AppConfig {
    AppConfig {
        general: GeneralConfig { watch_dir: "/data".to_string(), method: "tcp".to_string() },
        targets,
        ignore: IgnoreConfig { ignore_patterns: vec!["*.tmp".to_string()] },
    }
}

#[test]
fn relative_path_strips_the_watch_root() {
    assert_eq!(relative_path("/data/a.txt", "/data"), "a.txt");
    assert_eq!(relative_path("/data/sub/dir/c.txt", "/data"), "sub/dir/c.txt");
    assert_eq!(relative_path("/data/sub/dir/c.txt", "/data/"), "sub/dir/c.txt");
    assert_eq!(relative_path("/data", "/data"), "");
}

#[test]
fn path_outside_the_root_is_kept_whole() {
    assert_eq!(relative_path("/other/a.txt", "/data"), "/other/a.txt");
    assert_eq!(relative_path("/database/a.txt", "/data"), "/database/a.txt");
}

#[test]
fn relative_from_prefers_the_stripped_path() {
    assert_eq!(relative_from(Some("a.txt".to_string()), "/data/a.txt"), "a.txt");
    assert_eq!(relative_from(None, "/data/a.txt"), "/data/a.txt");
}

#[test]
fn destination_is_root_joined_with_relative_path() {
    let d = resolve_destination("/srv/mirror", "sub/dir/c.txt");
    assert_eq!(d.file, "/srv/mirror/sub/dir/c.txt");
    assert_eq!(d.parent, Some("/srv/mirror/sub/dir".to_string()));
    let top = resolve_destination("dest", "c.txt");
    assert_eq!(top.file, "dest/c.txt");
    assert_eq!(top.parent, Some("dest".to_string()));
}

#[test]
fn absolute_relative_path_replaces_the_root() {
    let d = resolve_destination("/srv/mirror", "/etc/x");
    assert_eq!(d.file, "/etc/x");
    assert_eq!(d.parent, Some("/etc".to_string()));
}

#[test]
fn destination_without_parent() {
    let d = resolve_destination("", "");
    assert_eq!(d.file, "");
    assert_eq!(d.parent, None);
}

#[test]
fn port_defaults_to_7878() {
    assert_eq!(DEFAULT_PORT, 7878);
    assert_eq!(target("h", None, "/p").effective_port(), 7878);
    assert_eq!(target("h", Some(9000), "/p").effective_port(), 9000);
    assert_eq!(target("h", Some(0), "/p").effective_port(), 0);
}

#[test]
fn receiver_uses_the_first_target() {
    let cfg = config(vec![target("a", Some(1234), "/mirror/a"), target("b", None, "/mirror/b")]);
    let settings = cfg.receiver_settings().unwrap();
    assert_eq!(settings.port, 1234);
    assert_eq!(settings.root, "/mirror/a");
    let defaulted = config(vec![target("a", None, "/m")]).receiver_settings().unwrap();
    assert_eq!(defaulted.port, 7878);
}

#[test]
fn receiver_without_targets_has_no_settings() {
    assert_eq!(config(Vec::new()).receiver_settings(), None);
}
