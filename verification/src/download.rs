//! The streaming downloader and the file sink it writes through.
//!
//! A transfer delivers a stream of events; the sink forwards data payloads
//! into the destination file, and on any failure the destination is removed
//! before the error propagates. Sink-side errors are the root cause and
//! mask transport errors; a structurally complete transfer that ends
//! outside the success range is fatal with the observed status.

use vstd::prelude::*;

use crate::Backend;
use crate::TlsBackend;
use crate::utils::parse_url;
use crate::utils::spec_strip_extension;
use crate::utils::strip_extensions;
use crate::utils::url_parse_ok;

verus! {

/// One resolved fetch: where it downloads from and where the bytes land.
pub struct DownloadCfg {
    pub dist_root: String,
    pub download_dir: String,
}

/// A downloaded or extracted artifact, by path.
pub struct File {
    pub path: String,
}

/// Progress reports a backend hands to the download callback.
pub enum Event {
    ResumingPartialDownload,
    /// Received the Content-Length of the to-be downloaded data.
    DownloadContentLengthReceived(u64),
    /// Received some data.
    DownloadDataReceived(Vec<u8>),
}

/// A disk-side failure raised while the sink wrote the destination file.
#[derive(Clone, Copy, PartialEq, Eq, Structural, Debug)]
pub enum SinkError {
    /// the destination could not be created
    Create,
    /// a data payload could not be written
    Write,
    /// the final durable flush failed
    Flush,
}

/// How the transport side of one transfer ended.
#[derive(Clone, Copy, PartialEq, Eq, Structural, Debug)]
pub enum TransportResult {
    /// the transfer ran to completion and observed this final status
    /// (0 where the transport reports none)
    Completed(u32),
    /// the connection or the transfer itself failed; the backend tells a
    /// missing resource apart from other failures
    Failed { not_found: bool },
}

/// Why a download failed, by the taxonomy the pipeline reports.
#[derive(Clone, Copy, PartialEq, Eq, Structural, Debug)]
pub enum DownloadError {
    /// the resource could not be found or read: a transport error with a
    /// kind of its own
    NotFound,
    /// any other transport-level failure
    Transport,
    /// a structurally complete transfer ended outside the success range
    HttpStatus(u32),
    /// the destination could not be written; the true root cause even when
    /// the transport failed as a consequence
    Sink(SinkError),
    /// the operation is declared but no backend implements it
    Unsupported,
}

impl DownloadError {
    /// Whether this error is transport-classified (as opposed to a
    /// sink-originated one).
    pub open spec fn spec_is_transport(&self) -> bool {
        match self {
            DownloadError::NotFound => true,
            DownloadError::Transport => true,
            DownloadError::HttpStatus(_) => true,
            DownloadError::Sink(_) => false,
            DownloadError::Unsupported => false,
        }
    }

    /// Reports whether this error is transport-classified.
    pub fn is_transport(&self) -> (r: bool)
        ensures
            r == self.spec_is_transport(),
    {
        match self {
            DownloadError::NotFound => true,
            DownloadError::Transport => true,
            DownloadError::HttpStatus(_) => true,
            DownloadError::Sink(_) => false,
            DownloadError::Unsupported => false,
        }
    }
}

/// A failed download together with how its cleanup went: removing the
/// partial destination is best effort, and when it fails too, both faults
/// are reported.
#[derive(Clone, Copy, PartialEq, Eq, Structural, Debug)]
pub struct DownloadFailure {
    pub cause: DownloadError,
    /// removing the partial destination file failed as well
    pub cleanup_failed: bool,
}

/// Whether a final status counts as success: inside 2xx, or 0 where the
/// transport reported no status at all.
pub open spec fn spec_ok_status(code: u32) -> bool {
    code == 0 || (200 <= code && code <= 299)
}

/// Tests a final transfer status against the success range.
pub fn ok_status(code: u32) -> (r: bool)
    ensures
        r == spec_ok_status(code),
{
    code == 0 || (code >= 200 && code <= 299)
}

/// The classification rule every backend follows. A sink error is the
/// root cause and masks a concurrent transport error; a transport failure
/// keeps its distinct not-found kind; a complete transfer ending outside
/// the success range is fatal with the observed status.
pub open spec fn spec_classify_outcome(
    transport: TransportResult,
    sink: Option<SinkError>,
) -> Option<DownloadError> {
    match sink {
        Some(e) => Some(DownloadError::Sink(e)),
        None => match transport {
            TransportResult::Failed { not_found } => if not_found {
                Some(DownloadError::NotFound)
            } else {
                Some(DownloadError::Transport)
            },
            TransportResult::Completed(code) => if spec_ok_status(code) {
                None
            } else {
                Some(DownloadError::HttpStatus(code))
            },
        },
    }
}

/// Classifies how one transfer ended; `None` means the download succeeded.
pub fn classify_outcome(transport: TransportResult, sink: Option<SinkError>) -> (r: Option<
    DownloadError,
>)
    ensures
        r == spec_classify_outcome(transport, sink),
{
    match sink {
        Some(e) => Some(DownloadError::Sink(e)),
        None => match transport {
            TransportResult::Failed { not_found } => if not_found {
                Some(DownloadError::NotFound)
            } else {
                Some(DownloadError::Transport)
            },
            TransportResult::Completed(code) => if ok_status(code) {
                None
            } else {
                Some(DownloadError::HttpStatus(code))
            },
        },
    }
}

/// The destination file as the sink logic sees it: whether it is on disk
/// and the bytes written so far.
pub struct FileSink {
    pub present: bool,
    pub content: Vec<u8>,
}

impl FileSink {
    /// Opens the destination for writing, empty (create-if-absent, and a
    /// previous download at the same path has already been removed).
    pub fn create() -> (r: FileSink)
        ensures
            r.present,
            r.content@ == Seq::<u8>::empty(),
    {
        FileSink { present: true, content: Vec::new() }
    }

    /// Forwards one data payload into the destination file.
    pub fn write(&mut self, data: &Vec<u8>)
        requires
            old(self).present,
        ensures
            final(self).present,
            final(self).content@ == old(self).content@ + data@,
    {
        let mut j: usize = 0;
        while j < data.len()
            invariant
                j <= data@.len(),
                self.present == old(self).present,
                self.content@ == old(self).content@ + data@.take(j as int),
            decreases data@.len() - j,
        {
            self.content.push(data[j]);
            proof {
                assert(old(self).content@ + data@.take(j + 1 as int) =~= (old(self).content@
                    + data@.take(j as int)).push(data@[j as int]));
            }
            j = j + 1;
        }
        proof {
            assert(data@.take(data@.len() as int) =~= data@);
        }
    }

    /// Forwards one downloader event: only data payloads reach the file.
    pub fn on_event(&mut self, event: &Event)
        requires
            old(self).present,
        ensures
            final(self).present,
            final(self).content@ == match event {
                Event::DownloadDataReceived(data) => old(self).content@ + data@,
                _ => old(self).content@,
            },
    {
        match event {
            Event::DownloadDataReceived(data) => self.write(data),
            _ => {},
        }
    }

    /// Removes the destination file.
    pub fn remove(&mut self)
        ensures
            !final(self).present,
            final(self).content@ == old(self).content@,
    {
        self.present = false;
    }
}

/// The first `n` delivered chunks joined in order.
pub open spec fn spec_concat_chunks(chunks: Seq<Seq<u8>>, n: int) -> Seq<u8>
    decreases n,
{
    if n <= 0 {
        Seq::empty()
    } else {
        spec_concat_chunks(chunks, n - 1) + chunks[n - 1]
    }
}

/// How many chunks reach the disk before the injected write failure.
pub open spec fn spec_chunks_written(chunks_len: int, sink_fail_at: Option<usize>) -> int {
    match sink_fail_at {
        Some(i) => if i < chunks_len {
            i as int
        } else {
            chunks_len
        },
        None => chunks_len,
    }
}

/// The sink error one attempt raises: the injected write failure if it is
/// reached, else a flush failure if the transfer got far enough to flush.
pub open spec fn spec_attempt_sink_error(
    chunks_len: int,
    sink_fail_at: Option<usize>,
    transport: TransportResult,
    flush_ok: bool,
) -> Option<SinkError> {
    if sink_fail_at matches Some(i) && i < chunks_len {
        Some(SinkError::Write)
    } else if (transport matches TransportResult::Completed(code) && spec_ok_status(code))
        && !flush_ok {
        Some(SinkError::Flush)
    } else {
        None
    }
}

/// What one attempt is classified as, over everything the outside world
/// answered during it.
pub open spec fn spec_attempt_outcome(
    chunks_len: int,
    sink_fail_at: Option<usize>,
    transport: TransportResult,
    flush_ok: bool,
) -> Option<DownloadError> {
    spec_classify_outcome(
        transport,
        spec_attempt_sink_error(chunks_len, sink_fail_at, transport, flush_ok),
    )
}

/// Replays one download attempt against the destination-file model.
///
/// `chunks` are the data payloads the backend delivered, in order.
/// Whether a disk write succeeds is the disk's answer, not the library's,
/// so the answers are arguments: `sink_fail_at` is the first write that
/// fails (if the stream reaches it), `flush_ok` answers the final durable
/// flush, and `remove_ok` answers the cleanup removal after a failure.
///
/// On success the destination holds exactly the delivered bytes — same
/// size, same content. On any failure the destination is removed before
/// the error propagates; if removal fails too, the file stays and both
/// faults are reported.
pub fn run_download(
    chunks: &Vec<Vec<u8>>,
    sink_fail_at: Option<usize>,
    transport: TransportResult,
    flush_ok: bool,
    remove_ok: bool,
) -> (r: (FileSink, Result<(), DownloadFailure>))
    ensures
        r.1 is Ok <==> spec_attempt_outcome(
            chunks@.len() as int,
            sink_fail_at,
            transport,
            flush_ok,
        ) is None,
        r.1 is Ok ==> r.0.present && r.0.content@ == spec_concat_chunks(
            chunks@.map_values(|c: Vec<u8>| c@),
            chunks@.len() as int,
        ),
        r.1 matches Err(f) ==> Some(f.cause) == spec_attempt_outcome(
            chunks@.len() as int,
            sink_fail_at,
            transport,
            flush_ok,
        ) && f.cleanup_failed == !remove_ok,
        r.1 is Err && remove_ok ==> !r.0.present,
        r.1 is Err && !remove_ok ==> r.0.present && r.0.content@ == spec_concat_chunks(
            chunks@.map_values(|c: Vec<u8>| c@),
            spec_chunks_written(chunks@.len() as int, sink_fail_at),
        ),
{
    let mut sink = FileSink::create();
    let stop: usize = match sink_fail_at {
        Some(i) => if i < chunks.len() {
            i
        } else {
            chunks.len()
        },
        None => chunks.len(),
    };
    let mut i: usize = 0;
    while i < stop
        invariant
            i <= stop,
            stop <= chunks@.len(),
            stop as int == spec_chunks_written(chunks@.len() as int, sink_fail_at),
            sink.present,
            sink.content@ == spec_concat_chunks(chunks@.map_values(|c: Vec<u8>| c@), i as int),
        decreases stop - i,
    {
        sink.write(&chunks[i]);
        i = i + 1;
    }
    let wrote_all: bool = match sink_fail_at {
        Some(i) => i >= chunks.len(),
        None => true,
    };
    let sink_error: Option<SinkError> = if !wrote_all {
        Some(SinkError::Write)
    } else {
        match transport {
            TransportResult::Completed(code) => if ok_status(code) && !flush_ok {
                Some(SinkError::Flush)
            } else {
                None
            },
            TransportResult::Failed { .. } => None,
        }
    };
    match classify_outcome(transport, sink_error) {
        None => (sink, Ok(())),
        Some(cause) => {
            if remove_ok {
                sink.remove();
                (sink, Err(DownloadFailure { cause, cleanup_failed: false }))
            } else {
                (sink, Err(DownloadFailure { cause, cleanup_failed: true }))
            }
        },
    }
}

/// Chooses the transfer backend from the two override flags, read once at
/// process start: the curl backend when it is forced, otherwise reqwest
/// over rustls (the only TLS stack built in).
pub fn select_backend(use_curl_backend: bool, use_rustls: bool) -> (r: Backend)
    ensures
        use_curl_backend ==> r == Backend::Curl,
        !use_curl_backend ==> r == Backend::Reqwest(TlsBackend::Rustls),
{
    if use_curl_backend {
        Backend::Curl
    } else {
        // only the rustls stack is built in, whichever the flag asks for
        Backend::Reqwest(TlsBackend::Rustls)
    }
}

/// Which backends implement the streaming-download contract today: only
/// curl; the alternates are declared and refused loudly, never silently
/// skipped.
pub fn backend_available(backend: &Backend) -> (r: bool)
    ensures
        r == (backend is Curl),
{
    match backend {
        Backend::Curl => true,
        Backend::Reqwest(_) => false,
    }
}

/// The v1 manifest scheme is declared, but no backend implements it yet:
/// every call reports it unsupported rather than quietly doing nothing.
pub fn download_v1_manifest() -> (r: Result<(), DownloadError>)
    ensures
        r == Result::<(), DownloadError>::Err(DownloadError::Unsupported),
{
    Err(DownloadError::Unsupported)
}

/// One fetch ready to run: the parsed URL and the destination path.
pub struct DownloadTask {
    pub url: url::Url,
    pub dest: String,
}

impl DownloadCfg {
    /// The destination path of a named archive inside the download
    /// directory.
    pub open spec fn spec_target_file(&self, name: Seq<char>) -> Seq<char> {
        self.download_dir@ + "/"@ + name
    }

    /// Joins the download directory with the archive's file name.
    pub fn target_file(&self, target_file_name: &String) -> (r: String)
        ensures
            r@ == self.spec_target_file(target_file_name@),
    {
        let mut path = self.download_dir.clone();
        path.append("/");
        path.append(target_file_name.as_str());
        path
    }

    /// Resolves one fetch: parses the distribution URL and names the
    /// destination file. Rejects exactly the URLs the grammar refuses.
    pub fn download_task(&self, target_file_name: &String) -> (r: Result<DownloadTask, String>)
        ensures
            r is Ok <==> url_parse_ok(self.dist_root@),
            r matches Ok(t) ==> t.dest@ == self.spec_target_file(target_file_name@),
            r matches Err(m) ==> m@ == "failed to parse url: "@ + self.dist_root@,
    {
        match parse_url(&self.dist_root) {
            Ok(url) => Ok(DownloadTask { url, dest: self.target_file(target_file_name) }),
            Err(msg) => Err(msg),
        }
    }
}

/// The directory an archive extracts into: its path with the two
/// extension components stripped (`name.tar.gz` → `name`).
pub fn extract_dir_name(archive_path: &String) -> (r: String)
    ensures
        r@ == spec_strip_extension(spec_strip_extension(archive_path@)),
{
    let once = strip_extensions(archive_path);
    strip_extensions(&once)
}

/// The archiver command line that unpacks `archive_path` into
/// `dest_parent`.
pub fn extract_args(archive_path: &String, dest_parent: &String) -> (r: Vec<String>)
    ensures
        r@.len() == 4,
        r@[0]@ == "zxvf"@,
        r@[1]@ == archive_path@,
        r@[2]@ == "-C"@,
        r@[3]@ == dest_parent@,
{
    let mut args: Vec<String> = Vec::new();
    args.push("zxvf".to_owned());
    args.push(archive_path.clone());
    args.push("-C".to_owned());
    args.push(dest_parent.clone());
    args
}

} // verus!
