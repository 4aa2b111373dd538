//! Assembling redistributable toolchain packages: resolving distribution
//! URLs, streaming downloads into a file sink with cleanup on failure,
//! extracting archives, merging auxiliary tool trees, and recording the
//! result in a manifest and a components ledger.

mod config;
mod download;
mod flags;
mod manifest;
mod subcommands;
mod utils;

pub use crate::flags::{Options, SubCommand};

pub use crate::subcommands::install;
pub use crate::subcommands::package;

pub use crate::manifest::{
    FsNode, excluded_name, lemma_manifest_lists_every_file,
    lemma_manifest_lists_nothing_else, lemma_manifest_lists_only_included_files,
    spec_bfs_lines, spec_closed_prefix, spec_entries_file_paths, spec_entries_size,
    spec_excluded_name, spec_file_line, spec_level_dirs, spec_level_lines, spec_line_ok,
    spec_manifest_lines, spec_node_file_paths, spec_node_size, spec_plain_name,
    spec_queue_size, wf_entries, wf_node, wf_queue, write_directory_entries,
};

pub use crate::download::{
    DownloadCfg, DownloadError, DownloadFailure, DownloadTask, Event, File, FileSink,
    SinkError, TransportResult, backend_available, classify_outcome, download_v1_manifest,
    extract_args, extract_dir_name, ok_status, run_download, select_backend,
    spec_attempt_outcome, spec_attempt_sink_error, spec_chunks_written,
    spec_classify_outcome, spec_concat_chunks, spec_ok_status,
};

pub use crate::utils::{
    CommandError, CommandRunner, Runner, file_name, lower_of, normalize_path, parent_dir,
    parse_url, spec_curdir_start, spec_extension_dot, spec_file_name, spec_join_slash,
    spec_keep_component, spec_last_slash, spec_normal_components, spec_normalize_path,
    spec_parent_dir, spec_split_slash, spec_strip_extension, strip_extensions, url_parse_ok,
};
pub use crate::config::{
    Config, ExtendTool, TargetSelection, YamlConfig, default_rustup_dist_server,
    default_rustup_update_root, spec_resolved_root,
};

use vstd::prelude::*;

verus! {

/// The pluggable implementations of the streaming-download contract.
#[derive(Clone, Copy, PartialEq, Eq, Structural, Debug)]
pub enum Backend {
    Curl,
    Reqwest(TlsBackend),
}

/// TLS implementation selection for the reqwest backend.
#[derive(Clone, Copy, PartialEq, Eq, Structural, Debug)]
pub enum TlsBackend {
    Rustls,
    Default,
}

} // verus!
