use rustup_distribution::install::{install_extra_tools, install_toolchain};
use rustup_distribution::{
    CommandRunner, ExtendTool, TargetSelection, file_name, normalize_path, parent_dir,
    parse_url,
};

#[test]
fn normalize_path_collapses_separator_noise() {
    assert_eq!(normalize_path(&"/a//b/./c/".to_string()), "/a/b/c");
    assert_eq!(normalize_path(&"a/b/".to_string()), "a/b");
    assert_eq!(normalize_path(&"x/./y".to_string()), "x/y");
}

#[test]
fn normalize_path_keeps_a_leading_current_dir() {
    assert_eq!(normalize_path(&"./a".to_string()), "./a");
    assert_eq!(normalize_path(&".".to_string()), ".");
    assert_eq!(normalize_path(&"./.".to_string()), ".");
}

#[test]
fn normalize_path_edge_cases() {
    assert_eq!(normalize_path(&"".to_string()), "");
    assert_eq!(normalize_path(&"/".to_string()), "/");
    assert_eq!(normalize_path(&"a/../b".to_string()), "a/../b");
}

#[test]
fn file_name_takes_the_final_component() {
    assert_eq!(file_name(&"/out/grcov_0.8.18".to_string()), "grcov_0.8.18");
    assert_eq!(file_name(&"plain".to_string()), "plain");
    assert_eq!(file_name(&"dir/".to_string()), "");
}

#[test]
fn parent_dir_drops_the_final_component() {
    assert_eq!(parent_dir(&"/out/rust-nightly".to_string()), "/out");
    assert_eq!(parent_dir(&"/rust-nightly".to_string()), "/");
    assert_eq!(parent_dir(&"plain".to_string()), "");
}

#[test]
fn parse_url_accepts_absolute_urls() {
    let url = parse_url(&"https://static.rust-lang.org/dist".to_string()).unwrap();
    assert_eq!(url.scheme(), "https");
}

#[test]
fn parse_url_reports_the_offending_string() {
    let err = parse_url(&"dist/2023-06-14".to_string()).unwrap_err();
    assert_eq!(err, "failed to parse url: dist/2023-06-14");
}

#[test]
fn command_runner_names_its_program() {
    assert_eq!(CommandRunner::Rustup.command_name(), ("rustup", "rustup"));
    assert_eq!(CommandRunner::Cargo.command_name(), ("cargo", "cargo"));
    assert_eq!(CommandRunner::Tar.command_name(), ("tar", "package"));
}

#[test]
fn install_toolchain_lowercases_the_name() {
    let sel = TargetSelection {
        target: "X86_64-PC-WINDOWS-MSVC".to_string(),
        channel: "Stable".to_string(),
        date: None,
        profile: None,
    };
    let args = install_toolchain(&sel);
    assert_eq!(args, vec!["toolchain", "install", "stable-x86_64-pc-windows-msvc"]);
}

#[test]
fn install_toolchain_appends_the_profile() {
    let sel = TargetSelection {
        target: "x86_64-unknown-linux-gnu".to_string(),
        channel: "nightly".to_string(),
        date: None,
        profile: Some("minimal".to_string()),
    };
    let args = install_toolchain(&sel);
    assert_eq!(
        args,
        vec!["toolchain", "install", "nightly-x86_64-unknown-linux-gnu", "--profile", "minimal"]
    );
}

#[test]
fn install_extra_tools_lowercases_the_spec() {
    let tool = ExtendTool { name: "GrCov".to_string(), version: Some("0.8.18".to_string()) };
    let args = install_extra_tools(&tool);
    assert_eq!(args, vec!["install", "grcov@0.8.18"]);
}
