use rustup_distribution::{Config, ExtendTool, TargetSelection, YamlConfig};

fn selection(
    target: &str,
    channel: &str,
    date: Option<&str>,
    profile: Option<&str>,
) -> TargetSelection {
    TargetSelection {
        target: target.to_string(),
        channel: channel.to_string(),
        date: date.map(|d| d.to_string()),
        profile: profile.map(|p| p.to_string()),
    }
}

#[test]
fn toolchain_name_with_date() {
    let sel = selection("x86_64-unknown-linux-gnu", "nightly", Some("2023-06-14"), None);
    assert_eq!(sel.toolchain_name(), "nightly-2023-06-14-x86_64-unknown-linux-gnu");
}

#[test]
fn toolchain_name_without_date() {
    let sel = selection("x86_64-pc-windows-msvc", "stable", None, None);
    assert_eq!(sel.toolchain_name(), "stable-x86_64-pc-windows-msvc");
}

#[test]
fn manifest_v1_url_plain() {
    let sel = selection("aarch64-apple-darwin", "beta", None, None);
    assert_eq!(
        sel.mainifest_v1_url("https://static.rust-lang.org/dist", false),
        "https://static.rust-lang.org/dist/channel-rust-beta"
    );
}

#[test]
fn manifest_v1_url_dated() {
    let sel = selection("aarch64-apple-darwin", "nightly", Some("2023-06-14"), None);
    assert_eq!(
        sel.mainifest_v1_url("https://static.rust-lang.org/dist", false),
        "https://static.rust-lang.org/dist/2023-06-14/channel-rust-nightly"
    );
}

#[test]
fn manifest_v1_url_staged() {
    let sel = selection("aarch64-apple-darwin", "nightly", Some("2023-06-14"), None);
    assert_eq!(
        sel.mainifest_v1_url("https://static.rust-lang.org/dist", true),
        "https://static.rust-lang.org/dist/staging/channel-rust-nightly"
    );
}

#[test]
fn manifest_v2_url_appends_toml() {
    let sel = selection("aarch64-apple-darwin", "stable", None, None);
    assert_eq!(
        sel.mainifest_v2_url("https://static.rust-lang.org/dist", false),
        "https://static.rust-lang.org/dist/channel-rust-stable.toml"
    );
}

#[test]
fn package_dir_without_date_is_root() {
    let sel = selection("x86_64-unknown-linux-gnu", "stable", None, None);
    let root = "https://example.test/dist".to_string();
    assert_eq!(sel.package_dir(&root), "https://example.test/dist");
}

#[test]
fn package_dir_with_date_adds_dist_segment() {
    let sel = selection("x86_64-unknown-linux-gnu", "nightly", Some("2023-06-14"), None);
    let root = "https://example.test/dist".to_string();
    assert_eq!(sel.package_dir(&root), "https://example.test/dist/dist/2023-06-14");
}

#[test]
fn crate_name_with_and_without_version() {
    let pinned = ExtendTool { name: "grcov".to_string(), version: Some("0.8.18".to_string()) };
    assert_eq!(pinned.crate_name(), "grcov@0.8.18");
    let bare = ExtendTool { name: "cargo-audit".to_string(), version: None };
    assert_eq!(bare.crate_name(), "cargo-audit");
}

#[test]
fn resolve_prefers_environment_over_file() {
    let yaml = YamlConfig {
        rustup_dist_server: Some("https://mirror.test/rustup".to_string()),
        rustup_update_root: Some("https://mirror.test/update".to_string()),
        targets: Vec::new(),
        extra_tools: Vec::new(),
    };
    let config = Config::resolve(
        yaml,
        Some("https://env.test/rustup".to_string()),
        None,
    );
    assert_eq!(config.rustup_dist_server, "https://env.test/rustup");
    assert_eq!(config.rustup_update_root, "https://mirror.test/update");
}

#[test]
fn resolve_uses_environment_when_the_file_names_no_root() {
    let yaml = YamlConfig {
        rustup_dist_server: None,
        rustup_update_root: None,
        targets: Vec::new(),
        extra_tools: Vec::new(),
    };
    let config = Config::resolve(
        yaml,
        Some("https://env.test/rustup".to_string()),
        Some("https://env.test/update".to_string()),
    );
    assert_eq!(config.rustup_dist_server, "https://env.test/rustup");
    assert_eq!(config.rustup_update_root, "https://env.test/update");
}

#[test]
fn resolve_falls_back_to_defaults() {
    let yaml = YamlConfig {
        rustup_dist_server: None,
        rustup_update_root: None,
        targets: Vec::new(),
        extra_tools: Vec::new(),
    };
    let config = Config::resolve(yaml, None, None);
    assert_eq!(config.rustup_dist_server, "https://static.rust-lang.org");
    assert_eq!(config.rustup_update_root, "https://static.rust-lang.org/rustup");
}

#[test]
fn resolve_keeps_selections_and_tools() {
    let yaml = YamlConfig {
        rustup_dist_server: None,
        rustup_update_root: None,
        targets: vec![selection("x86_64-unknown-linux-gnu", "nightly", None, Some("minimal"))],
        extra_tools: vec![ExtendTool { name: "grcov".to_string(), version: None }],
    };
    let config = Config::resolve(yaml, None, None);
    assert_eq!(config.target_selections.len(), 1);
    assert_eq!(config.target_selections[0].profile.as_deref(), Some("minimal"));
    assert_eq!(config.extra_tools.len(), 1);
    assert_eq!(config.extra_tools[0].name, "grcov");
}
