//! The north-arm backends: a local spectrometer file, and the remote
//! poller that follows the newest file on a data recorder.
//!
//! The poller's file-transfer session, directory listings and reads
//! happen outside the library; everything the poller decides — which
//! paths to probe, which file is current, when a read is retried,
//! when the file has gone stale — is decided here, over plain values.

use vstd::prelude::*;

use crate::text::{to_upper, upper_of};

verus! {

/// Reads whole spectrometer frames from one local file.
pub struct DiskLoader {
    /// File to read spectra from.
    pub file: String,
}

impl DiskLoader {
    /// A loader over the given file path.
    pub fn new(input_file: String) -> (r: DiskLoader)
        ensures
            r.file == input_file,
    {
        DiskLoader { file: input_file }
    }

    /// Antenna filtering is a no-op for this source: the format has no
    /// server side to filter on, so every decoded antenna is returned.
    pub fn filter_antenna(&mut self, _antenna_number: &Vec<String>)
        ensures
            *final(self) == *old(self),
    {
    }
}

/// Fixed subdirectory under a recorder directory that holds the
/// spectrometer output files.
pub const SPEC_SUBDIR: &'static str = "DROS/Spec/";

/// One remote directory entry, as plain values: the file name, its
/// modification time, and whether it is a regular file.
pub struct RemoteEntry {
    pub name: String,
    pub mtime: u64,
    pub is_file: bool,
}

/// An entry is a candidate spectrometer file: a regular file whose
/// name begins with `0`.
pub open spec fn eligible(e: RemoteEntry) -> bool {
    e.is_file && e.name@.len() > 0 && e.name@[0] == '0'
}

/// Pick the most recently modified candidate file: the index of the
/// last entry carrying the greatest modification time among the
/// candidates, or `None` where no entry qualifies.
pub fn pick_latest(entries: &Vec<RemoteEntry>) -> (r: Option<usize>)
    ensures
        match r {
            Some(i) => i < entries@.len() && eligible(entries@[i as int]) && (forall|j: int|
                0 <= j < entries@.len() && eligible(#[trigger] entries@[j]) ==> entries@[j].mtime
                    <= entries@[i as int].mtime) && (forall|j: int|
                i < j < entries@.len() && eligible(#[trigger] entries@[j]) ==> entries@[j].mtime
                    < entries@[i as int].mtime),
            None => forall|j: int| 0 <= j < entries@.len() ==> !eligible(#[trigger] entries@[j]),
        },
{
    let n = entries.len();
    let mut best: Option<usize> = None;
    let mut i: usize = 0;
    while i < n
        invariant
            n == entries@.len(),
            i <= n,
            match best {
                Some(b) => b < i && eligible(entries@[b as int]) && (forall|j: int|
                    0 <= j < i && eligible(#[trigger] entries@[j]) ==> entries@[j].mtime
                        <= entries@[b as int].mtime) && (forall|j: int|
                    b < j < i && eligible(#[trigger] entries@[j]) ==> entries@[j].mtime
                        < entries@[b as int].mtime),
                None => forall|j: int| 0 <= j < i ==> !eligible(#[trigger] entries@[j]),
            },
        decreases n - i,
    {
        let e = &entries[i];
        let is_candidate = if e.is_file {
            let name = e.name.as_str();
            if name.unicode_len() > 0 {
                name.get_char(0) == '0'
            } else {
                false
            }
        } else {
            false
        };
        if is_candidate {
            let take = match best {
                Some(b) => entries[b].mtime <= e.mtime,
                None => true,
            };
            if take {
                best = Some(i);
            }
        }
        i = i + 1;
    }
    best
}

/// The fixed candidate storage roots probed during file discovery:
/// the shared internal store, then the recorder's own store (present
/// where several recorders run on one machine), named by the
/// uppercased recorder name.
pub fn candidate_paths(data_recorder: &String) -> (r: Vec<String>)
    ensures
        r@.len() == 2,
        r@[0]@ == "/LWA_STORAGE/Internal/"@,
        r@[1]@ == "/LWA_STORAGE/"@ + upper_of(data_recorder@) + "/Internal/"@,
{
    let first = String::from_str("/LWA_STORAGE/Internal/");
    let mut second = String::from_str("/LWA_STORAGE/");
    let upper = to_upper(data_recorder.as_str());
    second.append(upper.as_str());
    second.append("/Internal/");
    let r = vec![first, second];
    proof {
        assert(r@[1]@ =~= "/LWA_STORAGE/"@ + upper_of(data_recorder@) + "/Internal/"@);
    }
    r
}

/// What probing one candidate storage root came to, as plain values.
#[derive(Debug, Clone, Copy, PartialEq, Eq, Structural)]
pub enum ProbeOutcome {
    /// The root was listed and a candidate file was picked.
    Found,
    /// The root was listed but no entry qualified.
    Empty,
    /// The root does not exist — the expected case for all but one of
    /// the candidates.
    MissingPath,
    /// Any other failure of the listing.
    Failed,
}

/// What discovery does after probing one candidate root.
#[derive(Debug, Clone, Copy, PartialEq, Eq, Structural)]
pub enum ProbeDecision {
    /// Keep the found file; discovery is done.
    UseFound,
    /// Move on to the next candidate root; none left means no file
    /// this time, which is not an error.
    TryNext,
    /// Abort discovery and surface the failure.
    Fail,
}

/// The candidate-probe policy: a found file ends discovery, an empty
/// or missing root is non-fatal and the next candidate is tried, and
/// any other filesystem failure is fatal and propagated.
pub fn on_probe_outcome(outcome: ProbeOutcome) -> (r: ProbeDecision)
    ensures
        r == match outcome {
            ProbeOutcome::Found => ProbeDecision::UseFound,
            ProbeOutcome::Empty => ProbeDecision::TryNext,
            ProbeOutcome::MissingPath => ProbeDecision::TryNext,
            ProbeOutcome::Failed => ProbeDecision::Fail,
        },
{
    match outcome {
        ProbeOutcome::Found => ProbeDecision::UseFound,
        ProbeOutcome::Empty => ProbeDecision::TryNext,
        ProbeOutcome::MissingPath => ProbeDecision::TryNext,
        ProbeOutcome::Failed => ProbeDecision::Fail,
    }
}

/// Where the per-cycle poll of the remote file stands.
#[derive(Debug, Clone, Copy, PartialEq, Eq, Structural)]
pub enum PollPhase {
    /// The ordinary first read of a cycle.
    FirstRead,
    /// The single retry after an unexpected end of file: the file was
    /// still being written.
    RetryRead,
    /// The single re-read after re-running discovery on a stale
    /// timestamp: the file had rolled over.
    StaleRecheck,
}

/// What one attempted read of the current file came to, as the poller
/// sees it.
#[derive(Debug, Clone, Copy, PartialEq, Eq, Structural)]
pub enum ReadOutcome {
    /// A frame decoded; its derived timestamp in clock ticks.
    Frame(u64),
    /// No file is known; nothing to read.
    NoFile,
    /// The file ended unexpectedly: a concurrent write.
    Eof,
    /// Any other failure of the read or decode.
    Failed,
}

/// What the poller asks its driver to do next.
#[derive(Debug, Clone, Copy, PartialEq, Eq, Structural)]
pub enum PollDecision {
    /// Wait a short fixed delay, then read the same file once more.
    RetryAfterWait,
    /// Re-run file discovery, then read once more.
    RetryAfterRediscover,
    /// Hand the decoded frame out as this cycle's data.
    Publish,
    /// This cycle yields no data; that is not an error.
    Nothing,
}

/// The remote poller's decision state.
///
/// The driver connects, discovers and reads; after every read it
/// reports the outcome and performs the decision returned.  A cycle
/// starts in `FirstRead`; `Publish` and `Nothing` end it.
pub struct RemotePoller {
    /// Hostname of the data recorder being polled.
    pub data_recorder: String,
    /// Remote path of the file currently followed, once discovered.
    pub filename: Option<String>,
    /// Timestamp ticks of the last frame handed out.
    pub last_timestamp: u64,
    /// Where the current poll cycle stands.
    pub phase: PollPhase,
}

impl RemotePoller {
    /// A poller for the given recorder, before discovery: no file, no
    /// previous timestamp, ready for a first read.
    pub fn new(data_recorder: String) -> (r: RemotePoller)
        ensures
            r.data_recorder == data_recorder,
            r.filename is None,
            r.last_timestamp == 0,
            r.phase == PollPhase::FirstRead,
    {
        RemotePoller { data_recorder, filename: None, last_timestamp: 0, phase: PollPhase::FirstRead }
    }

    /// Antenna filtering is a no-op for this backend: the format has
    /// no server side to filter on.
    pub fn filter_antenna(&mut self, _antenna_number: &Vec<String>)
        ensures
            *final(self) == *old(self),
    {
    }

    /// Decide what follows one read of the current file.
    ///
    /// A frame with a fresh timestamp is published and remembered.  A
    /// frame whose timestamp equals the last one means the file rolled
    /// over: discovery is re-run and one more read made, whose frame
    /// is published without a second staleness check.  An unexpected
    /// end of file on the first read is retried exactly once after a
    /// short wait.  Everything else yields no data this cycle.
    pub fn on_read_outcome(&mut self, outcome: ReadOutcome) -> (r: PollDecision)
        ensures
            final(self).data_recorder == old(self).data_recorder,
            final(self).filename == old(self).filename,
            match outcome {
                ReadOutcome::Frame(t) => {
                    if old(self).phase == PollPhase::StaleRecheck {
                        &&& r == PollDecision::Publish
                        &&& final(self).last_timestamp == old(self).last_timestamp
                        &&& final(self).phase == PollPhase::FirstRead
                    } else if t == old(self).last_timestamp {
                        &&& r == PollDecision::RetryAfterRediscover
                        &&& final(self).last_timestamp == old(self).last_timestamp
                        &&& final(self).phase == PollPhase::StaleRecheck
                    } else {
                        &&& r == PollDecision::Publish
                        &&& final(self).last_timestamp == t
                        &&& final(self).phase == PollPhase::FirstRead
                    }
                },
                ReadOutcome::Eof => {
                    if old(self).phase == PollPhase::FirstRead {
                        &&& r == PollDecision::RetryAfterWait
                        &&& final(self).last_timestamp == old(self).last_timestamp
                        &&& final(self).phase == PollPhase::RetryRead
                    } else {
                        &&& r == PollDecision::Nothing
                        &&& final(self).last_timestamp == old(self).last_timestamp
                        &&& final(self).phase == PollPhase::FirstRead
                    }
                },
                _ => {
                    &&& r == PollDecision::Nothing
                    &&& final(self).last_timestamp == old(self).last_timestamp
                    &&& final(self).phase == PollPhase::FirstRead
                },
            },
    {
        match outcome {
            ReadOutcome::Frame(t) => {
                if self.phase == PollPhase::StaleRecheck {
                    self.phase = PollPhase::FirstRead;
                    PollDecision::Publish
                } else if t == self.last_timestamp {
                    self.phase = PollPhase::StaleRecheck;
                    PollDecision::RetryAfterRediscover
                } else {
                    self.last_timestamp = t;
                    self.phase = PollPhase::FirstRead;
                    PollDecision::Publish
                }
            },
            ReadOutcome::Eof => {
                if self.phase == PollPhase::FirstRead {
                    self.phase = PollPhase::RetryRead;
                    PollDecision::RetryAfterWait
                } else {
                    self.phase = PollPhase::FirstRead;
                    PollDecision::Nothing
                }
            },
            ReadOutcome::NoFile => {
                self.phase = PollPhase::FirstRead;
                PollDecision::Nothing
            },
            ReadOutcome::Failed => {
                self.phase = PollPhase::FirstRead;
                PollDecision::Nothing
            },
        }
    }
}

} // verus!
