use rustup_distribution::package::{
    ComponentsLedger, PackageAction, Phase, PipelineState, advance, component_id,
    components_path, get_package_full_name, get_tool_folder_name, init_package_dir,
    install_tool_local_directory, move_folder_dest, next_action, package_extra_tools,
    resolve_package_url, try_package, update_components,
};
use rustup_distribution::{Config, ExtendTool, TargetSelection};

fn nightly_windows() -> TargetSelection {
    TargetSelection {
        target: "x86_64-pc-windows-msvc".to_string(),
        channel: "nightly".to_string(),
        date: Some("2023-06-14".to_string()),
        profile: None,
    }
}

fn grcov() -> ExtendTool {
    ExtendTool { name: "grcov".to_string(), version: Some("0.8.18".to_string()) }
}

#[test]
fn package_full_name_per_channel() {
    let mut sel = nightly_windows();
    assert_eq!(get_package_full_name(&sel), "rust-nightly-x86_64-pc-windows-msvc.tar.gz");
    sel.channel = "beta".to_string();
    assert_eq!(get_package_full_name(&sel), "rust-beta-x86_64-pc-windows-msvc.tar.gz");
    sel.channel = "stable".to_string();
    assert_eq!(get_package_full_name(&sel), "rust-stable-x86_64-pc-windows-msvc.tar.gz");
}

#[test]
fn unknown_channel_yields_empty_name() {
    let mut sel = nightly_windows();
    sel.channel = "weekly".to_string();
    assert_eq!(get_package_full_name(&sel), "");
}

#[test]
fn resolved_url_follows_the_path_join_rule_exactly() {
    // the documented rule doubles the dist segment when the root already
    // ends in /dist and the selection pins a date; preserved, not fixed
    let sel = nightly_windows();
    let server = "https://example.test/dist".to_string();
    assert_eq!(
        resolve_package_url(&sel, &server),
        "https://example.test/dist/dist/2023-06-14/rust-nightly-x86_64-pc-windows-msvc.tar.gz"
    );
}

#[test]
fn tool_folder_name_uses_underscore() {
    assert_eq!(get_tool_folder_name(&grcov()), "grcov_0.8.18");
    let bare = ExtendTool { name: "cargo-audit".to_string(), version: None };
    assert_eq!(get_tool_folder_name(&bare), "cargo-audit");
}

#[test]
fn component_id_uses_dash() {
    assert_eq!(component_id(&grcov()), "grcov-0.8.18");
    let bare = ExtendTool { name: "cargo-audit".to_string(), version: None };
    assert_eq!(component_id(&bare), "cargo-audit");
}

#[test]
fn test_init_package_dir() {
    let path = init_package_dir(&grcov(), &"/work/out".to_string());
    assert_eq!(path, "/work/out/grcov_0.8.18");
}

#[test]
fn test_install_tool_local_directory() {
    let args = install_tool_local_directory(&grcov(), &"/work/out/grcov_0.8.18".to_string());
    assert_eq!(args, vec!["install", "grcov@0.8.18", "--root", "/work/out/grcov_0.8.18"]);
}

#[test]
fn tool_plan_combines_directory_and_build() {
    let plan = package_extra_tools(&grcov(), &"/work/out".to_string());
    assert_eq!(plan.tool_dir, "/work/out/grcov_0.8.18");
    assert_eq!(
        plan.cargo_args,
        vec!["install", "grcov@0.8.18", "--root", "/work/out/grcov_0.8.18"]
    );
}

#[test]
fn test_move_file() {
    let from = "/work/out/grcov_0.8.18".to_string();
    let to = "/work/out/rust-nightly-x86_64-pc-windows-msvc".to_string();
    assert_eq!(
        move_folder_dest(&from, &to),
        "/work/out/rust-nightly-x86_64-pc-windows-msvc/grcov_0.8.18"
    );
}

#[test]
fn test_modify_components() {
    let mut ledger = ComponentsLedger::new();
    update_components(&mut ledger, &"grcov-0.8.18".to_string());
    assert_eq!(ledger.entries, vec!["grcov-0.8.18"]);
    assert_eq!(ledger.render(), "grcov-0.8.18\n");
}

#[test]
fn ledger_appends_in_call_order_without_dedup() {
    let mut ledger = ComponentsLedger::new();
    update_components(&mut ledger, &"grcov-0.8.18".to_string());
    update_components(&mut ledger, &"cargo-audit".to_string());
    assert_eq!(ledger.render(), "grcov-0.8.18\ncargo-audit\n");
    update_components(&mut ledger, &"cargo-audit".to_string());
    assert_eq!(ledger.render(), "grcov-0.8.18\ncargo-audit\ncargo-audit\n");
    assert_eq!(ledger.entries.len(), 3);
}

#[test]
fn components_path_sits_in_the_package_root() {
    let root = "/work/out/rust-nightly-x86_64-pc-windows-msvc".to_string();
    assert_eq!(components_path(&root), "/work/out/rust-nightly-x86_64-pc-windows-msvc/components");
}

#[test]
fn test_try_package() {
    let args = try_package(
        &"rust-nightly-x86_64-pc-windows-msvc.tar.gz".to_string(),
        &"/work/out".to_string(),
        &"/work/out/rust-nightly-x86_64-pc-windows-msvc".to_string(),
    );
    assert_eq!(
        args,
        vec![
            "-czvf",
            "/work/out/rust-nightly-x86_64-pc-windows-msvc.tar.gz",
            "-C",
            "/work/out/rust-nightly-x86_64-pc-windows-msvc",
            "."
        ]
    );
}

fn one_selection_one_tool() -> Config {
    Config {
        rustup_dist_server: "https://example.test/dist".to_string(),
        rustup_update_root: "https://example.test/rustup".to_string(),
        target_selections: vec![nightly_windows()],
        extra_tools: vec![grcov()],
    }
}

#[test]
fn pipeline_walks_the_stages_in_order() {
    let state = PipelineState::start(one_selection_one_tool(), "/work/out".to_string());
    assert_eq!(state.phase, Phase::Fetching);

    let action = next_action(&state).unwrap();
    match action {
        PackageAction::Fetch { url, archive, package_dir } => {
            assert_eq!(
                url,
                "https://example.test/dist/dist/2023-06-14/rust-nightly-x86_64-pc-windows-msvc.tar.gz"
            );
            assert_eq!(archive, "/work/out/rust-nightly-x86_64-pc-windows-msvc.tar.gz");
            assert_eq!(package_dir, "/work/out/rust-nightly-x86_64-pc-windows-msvc");
        }
        _ => panic!("expected a fetch"),
    }

    let state = advance(state, true);
    assert_eq!(state.phase, Phase::Building);
    match next_action(&state).unwrap() {
        PackageAction::Build { tool_dir, cargo_args } => {
            assert_eq!(tool_dir, "/work/out/grcov_0.8.18");
            assert_eq!(cargo_args[1], "grcov@0.8.18");
        }
        _ => panic!("expected a build"),
    }

    let state = advance(state, true);
    assert_eq!(state.phase, Phase::Merging);
    match next_action(&state).unwrap() {
        PackageAction::Merge { from, dest } => {
            assert_eq!(from, "/work/out/grcov_0.8.18");
            assert_eq!(dest, "/work/out/rust-nightly-x86_64-pc-windows-msvc/grcov_0.8.18");
        }
        _ => panic!("expected a merge"),
    }

    let state = advance(state, true);
    assert_eq!(state.phase, Phase::Recording);
    match next_action(&state).unwrap() {
        PackageAction::Record { components_path, component } => {
            assert_eq!(
                components_path,
                "/work/out/rust-nightly-x86_64-pc-windows-msvc/components"
            );
            assert_eq!(component, "grcov-0.8.18");
        }
        _ => panic!("expected a record"),
    }

    let state = advance(state, true);
    assert_eq!(state.phase, Phase::Packing);
    match next_action(&state).unwrap() {
        PackageAction::Pack { tar_args, remove_dir } => {
            assert_eq!(tar_args[1], "/work/out/rust-nightly-x86_64-pc-windows-msvc.tar.gz");
            assert_eq!(remove_dir, "/work/out/rust-nightly-x86_64-pc-windows-msvc");
        }
        _ => panic!("expected a pack"),
    }

    let state = advance(state, true);
    assert_eq!(state.phase, Phase::Finished);
    assert!(next_action(&state).is_none());
}

#[test]
fn failed_tool_build_halts_the_run() {
    let state = PipelineState::start(one_selection_one_tool(), "/work/out".to_string());
    let state = advance(state, true);
    assert_eq!(state.phase, Phase::Building);

    // the isolated build exits non-zero: nothing is traversed, moved,
    // recorded or packed afterwards
    let state = advance(state, false);
    assert_eq!(state.phase, Phase::Aborted);
    assert!(next_action(&state).is_none());

    let state = advance(state, true);
    assert_eq!(state.phase, Phase::Aborted);
    assert!(next_action(&state).is_none());
}

#[test]
fn empty_config_finishes_at_once() {
    let config = Config {
        rustup_dist_server: "https://example.test/dist".to_string(),
        rustup_update_root: "https://example.test/rustup".to_string(),
        target_selections: Vec::new(),
        extra_tools: Vec::new(),
    };
    let state = PipelineState::start(config, "/work/out".to_string());
    assert_eq!(state.phase, Phase::Finished);
    assert!(next_action(&state).is_none());
}

#[test]
fn fetch_failure_aborts_before_any_tool() {
    let state = PipelineState::start(one_selection_one_tool(), "/work/out".to_string());
    let state = advance(state, false);
    assert_eq!(state.phase, Phase::Aborted);
    assert!(next_action(&state).is_none());
}
