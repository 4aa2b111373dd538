use rustup_distribution::{
    Backend, DownloadCfg, DownloadError, Event, FileSink, SinkError, TlsBackend,
    TransportResult, backend_available, classify_outcome, download_v1_manifest, extract_args,
    extract_dir_name, ok_status, run_download, select_backend, strip_extensions,
};

#[test]
fn ok_status_accepts_success_range() {
    assert!(ok_status(0));
    assert!(ok_status(200));
    assert!(ok_status(299));
    assert!(!ok_status(199));
    assert!(!ok_status(300));
    assert!(!ok_status(404));
}

#[test]
fn sink_error_masks_transport_error() {
    let r = classify_outcome(
        TransportResult::Failed { not_found: false },
        Some(SinkError::Write),
    );
    assert_eq!(r, Some(DownloadError::Sink(SinkError::Write)));
}

#[test]
fn not_found_keeps_its_own_kind() {
    let r = classify_outcome(TransportResult::Failed { not_found: true }, None);
    assert_eq!(r, Some(DownloadError::NotFound));
    let other = classify_outcome(TransportResult::Failed { not_found: false }, None);
    assert_eq!(other, Some(DownloadError::Transport));
}

#[test]
fn non_success_status_is_fatal_and_transport_classified() {
    let r = classify_outcome(TransportResult::Completed(404), None);
    assert_eq!(r, Some(DownloadError::HttpStatus(404)));
    assert!(DownloadError::HttpStatus(404).is_transport());
    assert!(!DownloadError::Sink(SinkError::Flush).is_transport());
}

#[test]
fn successful_download_reproduces_exact_content() {
    // a fixed-content resource: the sink must end up with the same size
    // and the same bytes, chunk boundaries notwithstanding
    let chunks = vec![vec![1u8, 2, 3], vec![], vec![4u8, 5], vec![6u8]];
    let (sink, result) = run_download(&chunks, None, TransportResult::Completed(200), true, true);
    assert!(result.is_ok());
    assert!(sink.present);
    assert_eq!(sink.content, vec![1u8, 2, 3, 4, 5, 6]);
}

#[test]
fn sink_failure_mid_stream_leaves_no_file() {
    let chunks = vec![vec![1u8, 2], vec![3u8, 4], vec![5u8]];
    let (sink, result) = run_download(
        &chunks,
        Some(1),
        TransportResult::Failed { not_found: false },
        true,
        true,
    );
    let failure = result.unwrap_err();
    assert_eq!(failure.cause, DownloadError::Sink(SinkError::Write));
    assert!(!failure.cleanup_failed);
    assert!(!sink.present);
}

#[test]
fn status_404_fails_transport_classified_with_no_partial_file() {
    let chunks = vec![vec![60u8, 104, 116, 109, 108, 62]];
    let (sink, result) = run_download(&chunks, None, TransportResult::Completed(404), true, true);
    let failure = result.unwrap_err();
    assert_eq!(failure.cause, DownloadError::HttpStatus(404));
    assert!(failure.cause.is_transport());
    assert!(!sink.present);
}

#[test]
fn failed_cleanup_chains_both_errors() {
    let chunks = vec![vec![9u8]];
    let (sink, result) = run_download(
        &chunks,
        Some(0),
        TransportResult::Failed { not_found: false },
        true,
        false,
    );
    let failure = result.unwrap_err();
    assert_eq!(failure.cause, DownloadError::Sink(SinkError::Write));
    assert!(failure.cleanup_failed);
    assert!(sink.present);
    assert_eq!(sink.content.len(), 0);
}

#[test]
fn flush_failure_is_a_sink_error() {
    let chunks = vec![vec![1u8]];
    let (sink, result) = run_download(&chunks, None, TransportResult::Completed(200), false, true);
    let failure = result.unwrap_err();
    assert_eq!(failure.cause, DownloadError::Sink(SinkError::Flush));
    assert!(!sink.present);
}

#[test]
fn create_failure_is_sink_classified() {
    let r = classify_outcome(TransportResult::Completed(200), Some(SinkError::Create));
    assert_eq!(r, Some(DownloadError::Sink(SinkError::Create)));
}

#[test]
fn sink_forwards_only_data_events() {
    let mut sink = FileSink::create();
    sink.on_event(&Event::ResumingPartialDownload);
    sink.on_event(&Event::DownloadContentLengthReceived(5));
    sink.on_event(&Event::DownloadDataReceived(vec![7u8, 8]));
    sink.on_event(&Event::DownloadDataReceived(vec![9u8]));
    assert!(sink.present);
    assert_eq!(sink.content, vec![7u8, 8, 9]);
    sink.remove();
    assert!(!sink.present);
}

#[test]
fn backend_selection_prefers_forced_curl() {
    assert_eq!(select_backend(true, false), Backend::Curl);
    assert_eq!(select_backend(true, true), Backend::Curl);
    assert_eq!(select_backend(false, true), Backend::Reqwest(TlsBackend::Rustls));
    assert_eq!(select_backend(false, false), Backend::Reqwest(TlsBackend::Rustls));
}

#[test]
fn alternate_backends_are_declared_but_unavailable() {
    assert!(backend_available(&Backend::Curl));
    assert!(!backend_available(&Backend::Reqwest(TlsBackend::Rustls)));
    assert!(!backend_available(&Backend::Reqwest(TlsBackend::Default)));
}

#[test]
fn v1_manifest_download_reports_unsupported() {
    assert_eq!(download_v1_manifest(), Err(DownloadError::Unsupported));
}

#[test]
fn archive_extracts_to_directory_named_after_it() {
    let name = "pkg-nightly-x86_64-unknown-linux-gnu.tar.gz".to_string();
    assert_eq!(extract_dir_name(&name), "pkg-nightly-x86_64-unknown-linux-gnu");
}

#[test]
fn strip_extensions_drops_one_component() {
    assert_eq!(strip_extensions(&"a.tar.gz".to_string()), "a.tar");
    assert_eq!(strip_extensions(&"archive".to_string()), "archive");
    assert_eq!(strip_extensions(&".gitignore".to_string()), ".gitignore");
    assert_eq!(strip_extensions(&"dir.v2/archive".to_string()), "dir.v2/archive");
    assert_eq!(strip_extensions(&"dir/a.gz".to_string()), "dir/a");
}

#[test]
fn extract_args_name_the_archiver_call() {
    let args = extract_args(&"/out/rust.tar.gz".to_string(), &"/out".to_string());
    assert_eq!(args, vec!["zxvf", "/out/rust.tar.gz", "-C", "/out"]);
}

#[test]
fn download_task_joins_destination_and_validates_url() {
    let cfg = DownloadCfg {
        dist_root: "https://example.test/dist/rust-nightly-x.tar.gz".to_string(),
        download_dir: "/out".to_string(),
    };
    let task = cfg.download_task(&"rust-nightly-x.tar.gz".to_string()).unwrap();
    assert_eq!(task.dest, "/out/rust-nightly-x.tar.gz");
    assert_eq!(task.url.as_str(), "https://example.test/dist/rust-nightly-x.tar.gz");
}

#[test]
fn download_task_reports_the_bad_url() {
    let cfg = DownloadCfg {
        dist_root: "not a url".to_string(),
        download_dir: "/out".to_string(),
    };
    match cfg.download_task(&"x.tar.gz".to_string()) {
        Ok(_) => panic!("a malformed URL must be rejected"),
        Err(err) => assert_eq!(err, "failed to parse url: not a url"),
    }
}
