//! The life of one transfer, as a state machine.
//!
//! A transfer moves through its phases one outcome at a time. In each phase it
//! awaits exactly one [`Action`] of its driver; the driver performs it and
//! reports the outcome as an [`Event`]. [`transition`] says what follows.

use crate::digest::{content_matches, verify_content, DIGEST_INPUT_LIMIT};
use crate::progress::{report, report_of, Aggregator, ProgressEvent, Report, Status, Totals};
use crate::text::text_of;
use vstd::prelude::*;
use vstd::string::*;

verus! {

/// How a transfer ended.
#[derive(Clone, Copy, PartialEq, Eq, Structural, Debug)]
pub enum Outcome {
    /// The destination already held the expected content.
    Skipped,
    /// The body was fetched and written.
    Finished,
    /// The transfer was given up; the driver was told why.
    Failed,
}

/// Where a transfer stands.
#[derive(Clone, Copy, PartialEq, Eq, Structural, Debug)]
pub enum Phase {
    /// Not dispatched yet.
    Queued,
    /// Asking whether the destination exists.
    Probing,
    /// Reading the existing destination to check its digest.
    ReadingExisting,
    /// Making sure that the destination's directory exists.
    PreparingDirectory,
    /// Waiting for the answer to the request.
    Requesting,
    /// Creating the destination; `total` is the declared length, 0 if unknown.
    CreatingFile { total: u64 },
    /// Waiting for the next chunk; `downloaded` bytes are written.
    Receiving { total: u64, downloaded: u64 },
    /// Writing a chunk of `len` bytes.
    Writing { total: u64, downloaded: u64, len: u64 },
    /// At its end.
    Done(Outcome),
}

/// What the driver is asked to do next for a transfer.
#[derive(Clone, Copy, PartialEq, Eq, Structural, Debug)]
pub enum Action {
    /// Nothing: the transfer has not been dispatched.
    Wait,
    /// Find out whether the destination exists.
    Probe,
    /// Read the whole destination.
    ReadExisting,
    /// Create the destination's parent directories.
    PrepareDirectory,
    /// Send the request for the source.
    Request,
    /// Create or truncate the destination.
    CreateFile,
    /// Read the next chunk of the body.
    ReadChunk,
    /// Append the chunk just read to the destination.
    WriteChunk,
    /// Nothing more: the transfer is at its end.
    Stop,
}

/// The outcome of an action, as the driver reports it.
#[derive(Debug)]
pub enum Event {
    /// Whether the destination exists.
    Probed(bool),
    /// The content of the destination, or `None` if it could not be read.
    ExistingRead(Option<Vec<u8>>),
    /// The directory was dealt with; a failure to create it is not reported.
    DirectoryPrepared,
    /// The declared content length of the response, if it has one, or why
    /// the request failed.
    Responded(Result<Option<u64>, String>),
    /// The destination was created, or why it was not.
    FileCreated(Result<(), String>),
    /// The length of the chunk read, `None` at the end of the body, or why
    /// reading failed.
    ChunkRead(Result<Option<usize>, String>),
    /// The chunk was written, or why it was not.
    ChunkWritten(Result<(), String>),
}

/// What one step hands back to the driver.
#[derive(Debug, Clone)]
pub struct Step {
    /// The report to send to the observer, if the step calls for one.
    pub emit: Option<ProgressEvent>,
    /// What to do next for this transfer.
    pub next: Action,
    /// Why the transfer was given up, if this step gave it up.
    pub failure: Option<String>,
}

impl Phase {
    /// Dispatched and not yet at its end.
    pub open spec fn is_active(self) -> bool {
        !(self is Queued) && !(self is Done)
    }

    /// Past the look at the destination and busy with the transfer itself.
    pub open spec fn in_transfer(self) -> bool {
        self is Requesting || self is CreatingFile || self is Receiving || self is Writing
    }

    /// At a successful end.
    pub open spec fn succeeded(self) -> bool {
        self == Phase::Done(Outcome::Skipped) || self == Phase::Done(Outcome::Finished)
    }

    /// Bytes of this file written so far.
    pub open spec fn received(self) -> u64 {
        match self {
            Phase::Receiving { downloaded, .. } => downloaded,
            Phase::Writing { downloaded, .. } => downloaded,
            _ => 0,
        }
    }

    /// The length that the response declared, once there is a response.
    pub open spec fn declared_total(self) -> Option<u64> {
        match self {
            Phase::CreatingFile { total } => Some(total),
            Phase::Receiving { total, .. } => Some(total),
            Phase::Writing { total, .. } => Some(total),
            _ => None,
        }
    }

    /// How far a transfer has come. Receiving and writing alternate, so they
    /// stand at the same place.
    pub open spec fn rank(self) -> nat {
        match self {
            Phase::Queued => 0,
            Phase::Probing => 1,
            Phase::ReadingExisting => 2,
            Phase::PreparingDirectory => 3,
            Phase::Requesting => 4,
            Phase::CreatingFile { .. } => 5,
            Phase::Receiving { .. } => 6,
            Phase::Writing { .. } => 6,
            Phase::Done(_) => 7,
        }
    }

    /// Whether `written` can be the number of bytes that a transfer in this
    /// phase has written: the running total while the body is received,
    /// nothing before that and for a file that was skipped, and whatever had
    /// been written when the transfer finished or was given up.
    pub open spec fn accounts_for(self, written: u64) -> bool {
        match self {
            Phase::Receiving { downloaded, .. } => written == downloaded,
            Phase::Writing { downloaded, .. } => written == downloaded,
            Phase::Done(Outcome::Finished) => true,
            Phase::Done(Outcome::Failed) => true,
            _ => written == 0,
        }
    }

    /// The action that a transfer in this phase awaits.
    pub open spec fn awaited(self) -> Action {
        match self {
            Phase::Queued => Action::Wait,
            Phase::Probing => Action::Probe,
            Phase::ReadingExisting => Action::ReadExisting,
            Phase::PreparingDirectory => Action::PrepareDirectory,
            Phase::Requesting => Action::Request,
            Phase::CreatingFile { .. } => Action::CreateFile,
            Phase::Receiving { .. } => Action::ReadChunk,
            Phase::Writing { .. } => Action::WriteChunk,
            Phase::Done(_) => Action::Stop,
        }
    }

    /// Whether the transfer holds a permit.
    pub fn holds_permit(self) -> (held: bool)
        ensures
            held == self.is_active(),
    {
        match self {
            Phase::Queued => false,
            Phase::Done(_) => false,
            _ => true,
        }
    }

    /// The action that a transfer in this phase awaits.
    pub fn action(self) -> (next: Action)
        ensures
            next == self.awaited(),
    {
        match self {
            Phase::Queued => Action::Wait,
            Phase::Probing => Action::Probe,
            Phase::ReadingExisting => Action::ReadExisting,
            Phase::PreparingDirectory => Action::PrepareDirectory,
            Phase::Requesting => Action::Request,
            Phase::CreatingFile { .. } => Action::CreateFile,
            Phase::Receiving { .. } => Action::ReadChunk,
            Phase::Writing { .. } => Action::WriteChunk,
            Phase::Done(_) => Action::Stop,
        }
    }
}

/// The result of one step, as a mathematical value.
pub ghost struct Transition {
    /// The phase after the step.
    pub phase: Phase,
    /// The counters after the step.
    pub totals: Totals,
    /// The report that the step sends.
    pub emit: Option<Report>,
    /// Why the transfer was given up, if it was.
    pub failure: Option<Seq<char>>,
}

/// A step to `phase` that reports nothing and leaves the counters alone.
pub open spec fn quiet(phase: Phase, totals: Totals) -> Transition {
    Transition { phase, totals, emit: None, failure: None }
}

/// A step that gives the transfer up. Nothing is reported to the observer.
pub open spec fn give_up(prefix: Seq<char>, cause: Seq<char>, totals: Totals) -> Transition {
    Transition {
        phase: Phase::Done(Outcome::Failed),
        totals,
        emit: None,
        failure: Some(prefix + cause),
    }
}

/// A step to a successful end: the file is counted, and the report carries
/// the count after it.
pub open spec fn complete(file: Seq<char>, outcome: Outcome, status: Status, totals: Totals) -> Transition {
    Transition {
        phase: Phase::Done(outcome),
        totals: totals.after_file(),
        emit: Some(report(file, status, 0, 0, totals.after_file())),
        failure: None,
    }
}

/// What follows when a transfer of file `file`, expecting the digest
/// `expected`, is in `phase` and the driver reports `event`, while the
/// counters stand at `totals`. An event that the phase does not await
/// changes nothing.
pub open spec fn transition(
    file: Seq<char>,
    expected: Option<Seq<char>>,
    phase: Phase,
    event: Event,
    totals: Totals,
) -> Transition {
    match phase {
        Phase::Probing => match event {
            Event::Probed(true) => Transition {
                phase: if expected is Some {
                    Phase::ReadingExisting
                } else {
                    Phase::PreparingDirectory
                },
                totals,
                emit: Some(report(file, Status::Verifying, 0, 0, totals)),
                failure: None,
            },
            Event::Probed(false) => quiet(Phase::PreparingDirectory, totals),
            _ => quiet(phase, totals),
        },
        Phase::ReadingExisting => match event {
            Event::ExistingRead(Some(data)) => if expected is Some && content_matches(
                data@,
                expected->0,
            ) {
                complete(file, Outcome::Skipped, Status::Skipped, totals)
            } else {
                quiet(Phase::PreparingDirectory, totals)
            },
            Event::ExistingRead(None) => quiet(Phase::PreparingDirectory, totals),
            _ => quiet(phase, totals),
        },
        Phase::PreparingDirectory => match event {
            Event::DirectoryPrepared => quiet(Phase::Requesting, totals),
            _ => quiet(phase, totals),
        },
        Phase::Requesting => match event {
            Event::Responded(Ok(length)) => quiet(
                Phase::CreatingFile {
                    total: match length {
                        Some(n) => n,
                        None => 0,
                    },
                },
                totals,
            ),
            Event::Responded(Err(cause)) => give_up("Request error: "@, cause@, totals),
            _ => quiet(phase, totals),
        },
        Phase::CreatingFile { total } => match event {
            Event::FileCreated(Ok(_)) => quiet(Phase::Receiving { total, downloaded: 0 }, totals),
            Event::FileCreated(Err(cause)) => give_up("Create file error: "@, cause@, totals),
            _ => quiet(phase, totals),
        },
        Phase::Receiving { total, downloaded } => match event {
            Event::ChunkRead(Ok(Some(len))) => quiet(
                Phase::Writing { total, downloaded, len: len as u64 },
                totals,
            ),
            Event::ChunkRead(Ok(None)) => complete(file, Outcome::Finished, Status::Finished, totals),
            Event::ChunkRead(Err(cause)) => give_up("Download error: "@, cause@, totals),
            _ => quiet(phase, totals),
        },
        Phase::Writing { total, downloaded, len } => match event {
            Event::ChunkWritten(Ok(_)) => Transition {
                phase: Phase::Receiving { total, downloaded: (downloaded + len) as u64 },
                totals: totals.after_bytes(len),
                emit: Some(
                    report(
                        file,
                        Status::Downloading,
                        (downloaded + len) as u64,
                        total,
                        totals.after_bytes(len),
                    ),
                ),
                failure: None,
            },
            Event::ChunkWritten(Err(cause)) => give_up("Write error: "@, cause@, totals),
            _ => quiet(phase, totals),
        },
        _ => quiet(phase, totals),
    }
}

/// What a step needs of the machine it runs on: content that is hashed is
/// within the domain of SHA-1, and no counter leaves its range.
pub open spec fn admissible(phase: Phase, event: Event, totals: Totals) -> bool {
    &&& totals.wf()
    &&& !phase.succeeded() ==> totals.completed_files < totals.total_files
    &&& phase.received() <= totals.total_downloaded_bytes
    &&& phase is ReadingExisting ==> (event matches Event::ExistingRead(Some(data))
        ==> data@.len() < DIGEST_INPUT_LIMIT)
    &&& phase matches Phase::Writing { len, .. } ==> (event is ChunkWritten
        ==> totals.total_downloaded_bytes + len <= u64::MAX)
}

/// Takes one step of a transfer, on the shared counters `progress`.
pub(crate) fn advance(
    file: &String,
    expected: &Option<String>,
    phase: Phase,
    event: &Event,
    progress: &mut Aggregator,
) -> (out: (Phase, Step))
    requires
        admissible(phase, *event, old(progress)@),
    ensures
        ({
            let t = transition(file@, text_of(*expected), phase, *event, old(progress)@);
            &&& out.0 == t.phase
            &&& final(progress)@ == t.totals
            &&& report_of(out.1.emit) == t.emit
            &&& text_of(out.1.failure) == t.failure
            &&& out.1.next == t.phase.awaited()
        }),
{
    let mut after = phase;
    let mut emit: Option<ProgressEvent> = None;
    let mut failure: Option<String> = None;
    match phase {
        Phase::Probing => match event {
            Event::Probed(exists) => {
                if *exists {
                    emit = Some(ProgressEvent::new(file, Status::Verifying, 0, 0, progress.snapshot()));
                    after = if expected.is_some() {
                        Phase::ReadingExisting
                    } else {
                        Phase::PreparingDirectory
                    };
                } else {
                    after = Phase::PreparingDirectory;
                }
            },
            _ => {},
        },
        Phase::ReadingExisting => match event {
            Event::ExistingRead(Some(data)) => {
                let keep = match expected {
                    Some(digest) => verify_content(data.as_slice(), digest),
                    None => false,
                };
                if keep {
                    let _ = progress.file_completed();
                    emit = Some(ProgressEvent::new(file, Status::Skipped, 0, 0, progress.snapshot()));
                    after = Phase::Done(Outcome::Skipped);
                } else {
                    after = Phase::PreparingDirectory;
                }
            },
            Event::ExistingRead(None) => {
                after = Phase::PreparingDirectory;
            },
            _ => {},
        },
        Phase::PreparingDirectory => match event {
            Event::DirectoryPrepared => {
                after = Phase::Requesting;
            },
            _ => {},
        },
        Phase::Requesting => match event {
            Event::Responded(Ok(length)) => {
                let total: u64 = match length {
                    Some(n) => *n,
                    None => 0,
                };
                after = Phase::CreatingFile { total };
            },
            Event::Responded(Err(cause)) => {
                failure = Some(String::from_str("Request error: ").concat(cause.as_str()));
                after = Phase::Done(Outcome::Failed);
            },
            _ => {},
        },
        Phase::CreatingFile { total } => match event {
            Event::FileCreated(Ok(_)) => {
                after = Phase::Receiving { total, downloaded: 0 };
            },
            Event::FileCreated(Err(cause)) => {
                failure = Some(String::from_str("Create file error: ").concat(cause.as_str()));
                after = Phase::Done(Outcome::Failed);
            },
            _ => {},
        },
        Phase::Receiving { total, downloaded } => match event {
            Event::ChunkRead(Ok(Some(len))) => {
                after = Phase::Writing { total, downloaded, len: *len as u64 };
            },
            Event::ChunkRead(Ok(None)) => {
                let _ = progress.file_completed();
                emit = Some(ProgressEvent::new(file, Status::Finished, 0, 0, progress.snapshot()));
                after = Phase::Done(Outcome::Finished);
            },
            Event::ChunkRead(Err(cause)) => {
                failure = Some(String::from_str("Download error: ").concat(cause.as_str()));
                after = Phase::Done(Outcome::Failed);
            },
            _ => {},
        },
        Phase::Writing { total, downloaded, len } => match event {
            Event::ChunkWritten(Ok(_)) => {
                let written: u64 = downloaded + len;
                let _ = progress.bytes_received(len);
                emit = Some(
                    ProgressEvent::new(file, Status::Downloading, written, total, progress.snapshot()),
                );
                after = Phase::Receiving { total, downloaded: written };
            },
            Event::ChunkWritten(Err(cause)) => {
                failure = Some(String::from_str("Write error: ").concat(cause.as_str()));
                after = Phase::Done(Outcome::Failed);
            },
            _ => {},
        },
        _ => {},
    }
    (after, Step { emit, next: after.action(), failure })
}

/// What every step keeps: a transfer neither returns to the queue nor leaves
/// its end, the counters only grow, a file is counted exactly when its
/// transfer reaches a successful end, and a report carries the counters as
/// they stand after the step.
pub proof fn lemma_transition_shape(
    file: Seq<char>,
    expected: Option<Seq<char>>,
    phase: Phase,
    event: Event,
    totals: Totals,
)
    requires
        admissible(phase, event, totals),
    ensures
        ({
            let t = transition(file, expected, phase, event, totals);
            &&& t.totals.wf()
            &&& t.totals.total_files == totals.total_files
            &&& t.phase is Queued <==> phase is Queued
            &&& phase is Queued || phase is Done ==> t == quiet(phase, totals)
            &&& t.phase.is_active() ==> phase.is_active()
            &&& t.phase.succeeded() && !phase.succeeded() ==> t.totals == totals.after_file()
                && t.totals.completed_files == totals.completed_files + 1
            &&& !(t.phase.succeeded() && !phase.succeeded()) ==> t.totals.completed_files
                == totals.completed_files
            &&& t.totals.total_downloaded_bytes >= totals.total_downloaded_bytes
            &&& t.phase.received() <= t.totals.total_downloaded_bytes
            &&& forall|written: u64| #[trigger]
                phase.accounts_for(written) && written <= totals.total_downloaded_bytes
                    ==> t.phase.accounts_for(
                    (written + t.totals.total_downloaded_bytes - totals.total_downloaded_bytes) as u64,
                ) && written + t.totals.total_downloaded_bytes - totals.total_downloaded_bytes
                    <= t.totals.total_downloaded_bytes
            &&& t.emit matches Some(r) ==> {
                &&& r.file == file
                &&& r.completed_files == t.totals.completed_files
                &&& r.total_files == t.totals.total_files
                &&& r.total_downloaded_bytes == t.totals.total_downloaded_bytes
            }
        }),
{
}

/// The reports on one file come in the order of its life: `Verifying` as
/// the transfer leaves the probe, `Downloading` for each chunk written,
/// and `Skipped` or `Finished` as it reaches its end. A transfer never
/// goes back, so `Verifying` comes at most once and before any
/// `Downloading`, and nothing follows `Skipped` or `Finished`.
pub proof fn lemma_reports_follow_the_phases(
    file: Seq<char>,
    expected: Option<Seq<char>>,
    phase: Phase,
    event: Event,
    totals: Totals,
)
    ensures
        ({
            let t = transition(file, expected, phase, event, totals);
            &&& t.phase.rank() >= phase.rank()
            &&& t.phase.rank() == phase.rank() ==> t.phase == phase || (phase.rank() == 6
                && t.phase.declared_total() == phase.declared_total())
            &&& t.emit matches Some(r) ==> {
                ||| r.status == Status::Verifying.label() && phase is Probing && t.phase.rank() > 1
                    && t.phase.rank() < 6
                ||| r.status == Status::Downloading.label() && phase is Writing
                    && t.phase is Receiving
                ||| r.status == Status::Skipped.label() && phase is ReadingExisting && t.phase
                    == Phase::Done(Outcome::Skipped)
                ||| r.status == Status::Finished.label() && phase is Receiving && t.phase
                    == Phase::Done(Outcome::Finished)
            }
            &&& t.phase.succeeded() && !phase.succeeded() ==> t.emit is Some
        }),
{
}

/// A transfer that is given up tells the observer nothing, and the reason is
/// one of the four kinds of failure: of the request, of creating the file, of
/// reading the body or of writing it.
pub proof fn lemma_failures_are_silent(
    file: Seq<char>,
    expected: Option<Seq<char>>,
    phase: Phase,
    event: Event,
    totals: Totals,
)
    ensures
        ({
            let t = transition(file, expected, phase, event, totals);
            &&& t.failure is Some ==> t.emit is None && t.phase == Phase::Done(Outcome::Failed)
                && t.totals == totals
            &&& t.failure is Some <==> {
                ||| phase is Requesting && event matches Event::Responded(Err(_))
                ||| phase is CreatingFile && event matches Event::FileCreated(Err(_))
                ||| phase is Receiving && event matches Event::ChunkRead(Err(_))
                ||| phase is Writing && event matches Event::ChunkWritten(Err(_))
            }
            &&& t.phase == Phase::Done(Outcome::Failed) && phase != t.phase ==> t.failure is Some
        }),
{
}

/// A destination that already holds the expected content is kept. The
/// observer hears `Verifying`, then `Skipped` with the file counted; the
/// transfer is then at its end, and at no point was a request awaited.
pub proof fn lemma_valid_file_is_skipped(
    file: Seq<char>,
    expected: Seq<char>,
    data: Vec<u8>,
    totals: Totals,
)
    requires
        content_matches(data@, expected),
    ensures
        ({
            let first = transition(file, Some(expected), Phase::Probing, Event::Probed(true), totals);
            let second = transition(
                file,
                Some(expected),
                first.phase,
                Event::ExistingRead(Some(data)),
                first.totals,
            );
            &&& first.emit == Some(report(file, Status::Verifying, 0, 0, totals))
            &&& first.phase.awaited() == Action::ReadExisting
            &&& first.totals == totals
            &&& second.emit == Some(report(file, Status::Skipped, 0, 0, totals.after_file()))
            &&& second.phase == Phase::Done(Outcome::Skipped)
            &&& second.phase.awaited() == Action::Stop
            &&& second.totals == totals.after_file()
            &&& first.failure is None && second.failure is None
        }),
{
}

/// A destination whose content does not carry the expected digest is fetched
/// again, whatever the expected text is: the transfer goes on to prepare the
/// directory and to send the request, and nothing is counted or reported.
pub proof fn lemma_wrong_digest_is_fetched_again(
    file: Seq<char>,
    expected: Seq<char>,
    data: Vec<u8>,
    totals: Totals,
)
    requires
        !content_matches(data@, expected),
    ensures
        ({
            let checked = transition(
                file,
                Some(expected),
                Phase::ReadingExisting,
                Event::ExistingRead(Some(data)),
                totals,
            );
            let prepared = transition(
                file,
                Some(expected),
                checked.phase,
                Event::DirectoryPrepared,
                checked.totals,
            );
            &&& checked == quiet(Phase::PreparingDirectory, totals)
            &&& prepared == quiet(Phase::Requesting, totals)
            &&& prepared.phase.awaited() == Action::Request
        }),
{
}

/// A destination that cannot be read, or for which no digest is expected, is
/// fetched again as well.
pub proof fn lemma_unverifiable_file_is_fetched_again(
    file: Seq<char>,
    expected: Option<Seq<char>>,
    totals: Totals,
)
    ensures
        transition(file, expected, Phase::ReadingExisting, Event::ExistingRead(None), totals)
            == quiet(Phase::PreparingDirectory, totals),
        transition(file, None, Phase::Probing, Event::Probed(true), totals).phase
            == Phase::PreparingDirectory,
{
}

/// The length that a response declares stays with the transfer: every
/// `Downloading` report carries it, and the closing `Finished` report
/// carries 0.
pub proof fn lemma_declared_total_is_kept(
    file: Seq<char>,
    expected: Option<Seq<char>>,
    phase: Phase,
    event: Event,
    totals: Totals,
)
    requires
        phase.declared_total() is Some,
    ensures
        ({
            let t = transition(file, expected, phase, event, totals);
            let total = phase.declared_total()->0;
            &&& t.phase.declared_total() == Some(total) || t.phase is Done
            &&& t.emit matches Some(r) ==> {
                ||| r.status == Status::Downloading.label() && r.total == total
                ||| r.status == Status::Finished.label() && r.total == 0
            }
        }),
{
}

/// A response without a content length is no failure. The transfer goes on
/// with a total of 0, and every report that follows carries 0 as the total.
pub proof fn lemma_unknown_length_reports_zero(
    file: Seq<char>,
    expected: Option<Seq<char>>,
    phase: Phase,
    event: Event,
    totals: Totals,
)
    ensures
        transition(file, expected, Phase::Requesting, Event::Responded(Ok(None)), totals) == quiet(
            Phase::CreatingFile { total: 0 },
            totals,
        ),
        phase.declared_total() == Some(0u64) ==> ({
            let t = transition(file, expected, phase, event, totals);
            &&& t.phase.declared_total() == Some(0u64) || t.phase is Done
            &&& t.emit matches Some(r) ==> r.total == 0
        }),
{
}

} // verus!
