//! The decisions of the model manager. Fetching bytes, writing files and
//! measuring time are done by the caller, which hands the results in.

use crate::error::VoxlyError;
use vstd::prelude::*;

verus! {

/// Smallest size (in bytes) of a model file that counts as downloaded.
pub const MIN_MODEL_FILE_BYTES: u64 = 1024;

/// Progress is reported at most once per this many nanoseconds (150 ms),
/// except for the last chunk.
pub const PROGRESS_INTERVAL_NANOS: u128 = 150_000_000;

/// Lifecycle event of a model (download started, completed, ready, ...).
#[derive(Clone, Debug)]
pub struct ModelStateEvent {
    pub event_type: String,
    pub model_id: Option<String>,
    pub message: Option<String>,
}

/// The model that the application downloads and loads.
#[derive(Clone, Debug)]
pub struct PrimaryModel {
    /// Hugging Face repository of the quantized weights.
    pub repo_id: String,
    /// Revision.
    pub revision: String,
    /// File name of the weights.
    pub filename: String,
    /// Human friendly name.
    pub display_name: String,
    /// Quantization level, for the UI.
    pub quant: String,
}

/// Where the weights of `m` are downloaded from.
pub open spec fn download_url_of(repo_id: Seq<char>, revision: Seq<char>, filename: Seq<char>) -> Seq<char> {
    "https://huggingface.co/"@ + repo_id + "/resolve/"@ + revision + "/"@ + filename
}

/// The message announcing a download.
pub open spec fn download_message_of(display_name: Seq<char>, quant: Seq<char>) -> Seq<char> {
    "Downloading "@ + display_name + " ("@ + quant + " quant) from Hugging Face..."@
}

impl Default for PrimaryModel {
    fn default() -> (m: Self)
        ensures
            m.repo_id@ == "TrevorJS/voxtral-mini-realtime-gguf"@,
            m.revision@ == "main"@,
            m.filename@ == "voxtral-q4.gguf"@,
            m.display_name@ == "Voxtral Mini 4B Realtime (Q4 GGUF)"@,
            m.quant@ == "Q4"@,
    {
        PrimaryModel {
            repo_id: String::from_str("TrevorJS/voxtral-mini-realtime-gguf"),
            revision: String::from_str("main"),
            filename: String::from_str("voxtral-q4.gguf"),
            display_name: String::from_str("Voxtral Mini 4B Realtime (Q4 GGUF)"),
            quant: String::from_str("Q4"),
        }
    }
}

impl PrimaryModel {
    /// The direct download URL of the weights on Hugging Face.
    pub fn download_url(&self) -> (url: String)
        ensures
            url@ == download_url_of(self.repo_id@, self.revision@, self.filename@),
    {
        let mut url = String::from_str("https://huggingface.co/");
        url.append(self.repo_id.as_str());
        url.append("/resolve/");
        url.append(self.revision.as_str());
        url.append("/");
        url.append(self.filename.as_str());
        url
    }

    /// The message shown when the download starts.
    pub fn download_started_message(&self) -> (msg: String)
        ensures
            msg@ == download_message_of(self.display_name@, self.quant@),
    {
        let mut msg = String::from_str("Downloading ");
        msg.append(self.display_name.as_str());
        msg.append(" (");
        msg.append(self.quant.as_str());
        msg.append(" quant) from Hugging Face...");
        msg
    }

    /// The model's lifecycle event of type `event_type`: it names the
    /// repository, and carries `message`, or else the display `name`.
    pub fn state_event(&self, event_type: &str, name: Option<String>, message: Option<String>) -> (e: ModelStateEvent)
        ensures
            e.event_type@ == event_type@,
            e.model_id matches Some(id) && id@ == self.repo_id@,
            e.message == (match message {
                Some(m) => Some(m),
                None => name,
            }),
    {
        ModelStateEvent {
            event_type: String::from_str(event_type),
            model_id: Some(self.repo_id.clone()),
            message: match message {
                Some(m) => Some(m),
                None => name,
            },
        }
    }
}

/// Whether the file found at the model path counts as a downloaded model:
/// it exists, is a regular file, and its size (when it could be read) is
/// above the minimum.
pub fn is_model_file_complete(exists: bool, is_file: bool, size: Option<u64>) -> (b: bool)
    ensures
        b == (exists && is_file && (size matches Some(n) && n > MIN_MODEL_FILE_BYTES)),
{
    exists && is_file && match size {
        Some(n) => n > MIN_MODEL_FILE_BYTES,
        None => false,
    }
}

/// How a (possibly partial) download continues.
#[derive(Debug, Clone, Copy, PartialEq, Eq, Structural)]
pub enum ResumePlan {
    /// The file already holds the whole content: nothing to fetch.
    AlreadyComplete,
    /// Fetch from byte `offset` on (0: from the start, without a range).
    Fetch { offset: u64 },
}

/// Decides how to continue a download of `total_size` bytes (0: unknown)
/// when `downloaded` bytes are already on disk.
pub fn resume_plan(downloaded: u64, total_size: u64) -> (p: ResumePlan)
    ensures
        (downloaded >= total_size && total_size > 0) ==> p == ResumePlan::AlreadyComplete,
        !(downloaded >= total_size && total_size > 0) ==> p == (ResumePlan::Fetch { offset: downloaded }),
{
    if downloaded >= total_size && total_size > 0 {
        ResumePlan::AlreadyComplete
    } else {
        ResumePlan::Fetch { offset: downloaded }
    }
}

/// Whether a download response with HTTP status `code` is accepted: any
/// success status, including 206 Partial Content.
pub fn is_acceptable_status(code: u16) -> (ok: bool)
    ensures
        ok == ((200 <= code && code < 300) || code == 206),
{
    (200 <= code && code < 300) || code == 206
}

/// Whether to report progress now: more than the reporting interval has
/// passed since the last report, or the download has reached its total.
pub fn should_report_progress(nanos_since_last: u128, downloaded: u64, total_size: u64) -> (b: bool)
    ensures
        b == (nanos_since_last > PROGRESS_INTERVAL_NANOS || downloaded >= total_size),
{
    nanos_since_last > PROGRESS_INTERVAL_NANOS || downloaded >= total_size
}

/// The byte count after a chunk of `chunk_len` bytes, or `None` when it
/// would not fit in 64 bits.
pub fn advance_downloaded(downloaded: u64, chunk_len: usize) -> (n: Option<u64>)
    ensures
        downloaded + chunk_len <= u64::MAX ==> n == Some((downloaded + chunk_len) as u64),
        downloaded + chunk_len > u64::MAX ==> n is None,
{
    let len = chunk_len as u64;
    if chunk_len as u128 > u64::MAX as u128 || downloaded > u64::MAX - len {
        None
    } else {
        Some(downloaded + len)
    }
}

/// What the download loop does before writing the next chunk.
#[derive(Debug)]
pub enum DownloadGate {
    /// Write the chunk.
    Proceed,
    /// Paused: sleep, then ask again.
    Wait,
    /// Stop with this error.
    Abort(VoxlyError),
}

/// The three outcomes of the download loop's check, without their payload.
#[derive(Debug, Clone, Copy, PartialEq, Eq, Structural)]
pub enum GateKind {
    Proceed,
    Wait,
    Abort,
}

/// Which outcome the check has for flags `c`.
pub open spec fn gate_kind(c: DownloadControl) -> GateKind {
    if c.cancelled {
        GateKind::Abort
    } else if c.paused {
        GateKind::Wait
    } else {
        GateKind::Proceed
    }
}

/// The flags after a pause request.
pub open spec fn after_pause(c: DownloadControl) -> DownloadControl {
    DownloadControl { paused: true, ..c }
}

/// The flags after a resume request.
pub open spec fn after_resume(c: DownloadControl) -> DownloadControl {
    DownloadControl { paused: false, ..c }
}

/// The flags after a cancel request.
pub open spec fn after_cancel(c: DownloadControl) -> DownloadControl {
    DownloadControl { paused: false, cancelled: true }
}

/// The pause and cancel flags of the running download.
#[derive(Debug, Clone, Copy, PartialEq, Eq, Structural)]
pub struct DownloadControl {
    pub paused: bool,
    pub cancelled: bool,
}

impl DownloadControl {
    /// Neither paused nor cancelled.
    pub fn new() -> (c: Self)
        ensures
            !c.paused && !c.cancelled,
    {
        DownloadControl { paused: false, cancelled: false }
    }

    /// Clears both flags before a new download.
    pub fn reset(&mut self)
        ensures
            !final(self).paused && !final(self).cancelled,
    {
        self.paused = false;
        self.cancelled = false;
    }

    /// Pauses the current download.
    pub fn pause(&mut self)
        ensures
            *final(self) == after_pause(*old(self)),
    {
        self.paused = true;
    }

    /// Resumes the current download.
    pub fn resume(&mut self)
        ensures
            *final(self) == after_resume(*old(self)),
    {
        self.paused = false;
    }

    /// Cancels the current download (and lifts a pause so the loop notices).
    pub fn cancel(&mut self)
        ensures
            *final(self) == after_cancel(*old(self)),
    {
        self.cancelled = true;
        self.paused = false;
    }

    /// What to do before the next chunk. `after_wait` is true when the loop
    /// has just slept because of a pause.
    pub fn gate(&self, after_wait: bool) -> (g: DownloadGate)
        ensures
            self.cancelled ==> (g matches DownloadGate::Abort(VoxlyError::ModelDownload(m)) && m@ == (if after_wait {
                "Download cancelled while paused"@
            } else {
                "Download cancelled"@
            })),
            gate_kind(*self) == GateKind::Wait ==> g is Wait,
            gate_kind(*self) == GateKind::Proceed ==> g is Proceed,
    {
        if self.cancelled {
            let msg = if after_wait {
                "Download cancelled while paused"
            } else {
                "Download cancelled"
            };
            DownloadGate::Abort(VoxlyError::ModelDownload(String::from_str(msg)))
        } else if self.paused {
            DownloadGate::Wait
        } else {
            DownloadGate::Proceed
        }
    }
}

/// Cancellation is final for the running download: once cancelled, pause,
/// resume and cancel requests keep it cancelled, and the loop aborts
/// whether or not it was waiting; only a reset (a new download) clears it.
pub proof fn lemma_cancel_is_final(c: DownloadControl)
    requires
        c.cancelled,
    ensures
        after_pause(c).cancelled,
        after_resume(c).cancelled,
        after_cancel(c).cancelled,
        gate_kind(after_pause(c)) == GateKind::Abort,
        gate_kind(after_resume(c)) == GateKind::Abort,
        gate_kind(c) == GateKind::Abort,
{
}

/// A paused download waits until it is resumed, then proceeds; a cancel
/// while paused aborts it.
pub proof fn lemma_pause_resume_cancel(c: DownloadControl)
    requires
        !c.cancelled,
    ensures
        gate_kind(after_pause(c)) == GateKind::Wait,
        gate_kind(after_resume(after_pause(c))) == GateKind::Proceed,
        gate_kind(after_cancel(after_pause(c))) == GateKind::Abort,
{
}

} // verus!
