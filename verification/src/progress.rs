//! What an observer is told, and the batch-wide counters behind it.

use vstd::prelude::*;
use vstd::string::*;

verus! {

/// The phases of a file's life that an observer hears about.
#[derive(Clone, Copy, PartialEq, Eq, Structural, Debug)]
pub enum Status {
    /// A chunk of the body was written to the destination.
    Downloading,
    /// The destination exists and is being looked at.
    Verifying,
    /// The destination already holds the expected content.
    Skipped,
    /// The whole body was fetched and written.
    Finished,
}

impl Status {
    /// The label under which the status is reported.
    pub open spec fn label(self) -> Seq<char> {
        match self {
            Status::Downloading => "Downloading"@,
            Status::Verifying => "Verifying"@,
            Status::Skipped => "Skipped"@,
            Status::Finished => "Finished"@,
        }
    }

    /// The label as text.
    pub fn name(self) -> (text: String)
        ensures
            text@ == self.label(),
    {
        match self {
            Status::Downloading => String::from_str("Downloading"),
            Status::Verifying => String::from_str("Verifying"),
            Status::Skipped => String::from_str("Skipped"),
            Status::Finished => String::from_str("Finished"),
        }
    }
}

/// No two statuses share a label, so a label tells the status.
pub proof fn lemma_labels_distinct(a: Status, b: Status)
    requires
        a.label() == b.label(),
    ensures
        a == b,
{
    reveal_strlit("Downloading");
    reveal_strlit("Verifying");
    reveal_strlit("Skipped");
    reveal_strlit("Finished");
    assert("Downloading"@[0] == 'D');
    assert("Verifying"@[0] == 'V');
    assert("Skipped"@[0] == 'S');
    assert("Finished"@[0] == 'F');
}

/// A snapshot of the batch-wide counters.
#[derive(Clone, Copy, PartialEq, Eq, Structural, Debug)]
pub struct Totals {
    /// Files that reached a successful end, skipped ones included.
    pub completed_files: usize,
    /// Files in the batch.
    pub total_files: usize,
    /// Bytes written so far, over all files.
    pub total_downloaded_bytes: u64,
}

impl Totals {
    /// The counters of a batch of `total_files` files before any work.
    pub open spec fn initial(total_files: usize) -> Totals {
        Totals { completed_files: 0, total_files, total_downloaded_bytes: 0 }
    }

    /// The counters after one more file has completed.
    pub open spec fn after_file(self) -> Totals {
        Totals { completed_files: (self.completed_files + 1) as usize, ..self }
    }

    /// The counters after `len` more bytes were written.
    pub open spec fn after_bytes(self, len: u64) -> Totals {
        Totals { total_downloaded_bytes: (self.total_downloaded_bytes + len) as u64, ..self }
    }

    /// No more files are counted as completed than the batch holds.
    pub open spec fn wf(self) -> bool {
        self.completed_files <= self.total_files
    }
}

/// The two shared counters of a batch. They only ever grow, and they are
/// reached only through this interface.
pub struct Aggregator {
    completed_files: usize,
    total_files: usize,
    total_downloaded_bytes: u64,
}

impl View for Aggregator {
    type V = Totals;

    closed spec fn view(&self) -> Totals {
        Totals {
            completed_files: self.completed_files,
            total_files: self.total_files,
            total_downloaded_bytes: self.total_downloaded_bytes,
        }
    }
}

impl Aggregator {
    /// Fresh counters for a batch of `total_files` files.
    pub fn new(total_files: usize) -> (fresh: Aggregator)
        ensures
            fresh@ == Totals::initial(total_files),
    {
        Aggregator { completed_files: 0, total_files, total_downloaded_bytes: 0 }
    }

    /// The current values.
    pub fn snapshot(&self) -> (totals: Totals)
        ensures
            totals == self@,
    {
        Totals {
            completed_files: self.completed_files,
            total_files: self.total_files,
            total_downloaded_bytes: self.total_downloaded_bytes,
        }
    }

    /// Counts one more completed file and returns the count after it.
    pub fn file_completed(&mut self) -> (count: usize)
        requires
            old(self)@.completed_files < old(self)@.total_files,
        ensures
            final(self)@ == old(self)@.after_file(),
            count == old(self)@.completed_files + 1,
    {
        self.completed_files = self.completed_files + 1;
        self.completed_files
    }

    /// Adds the length of a written chunk and returns the sum after it.
    pub fn bytes_received(&mut self, len: u64) -> (sum: u64)
        requires
            old(self)@.total_downloaded_bytes + len <= u64::MAX,
        ensures
            final(self)@ == old(self)@.after_bytes(len),
            sum == old(self)@.total_downloaded_bytes + len,
    {
        self.total_downloaded_bytes = self.total_downloaded_bytes + len;
        self.total_downloaded_bytes
    }
}

/// A report on one file and on the batch it belongs to.
#[derive(Debug, Clone, PartialEq, Eq)]
pub struct ProgressEvent {
    /// Base name of the destination.
    pub file: String,
    /// Bytes of this file written so far; 0 outside a transfer.
    pub downloaded: u64,
    /// Declared length of this file; 0 when unknown or outside a transfer.
    pub total: u64,
    /// Label of the status, see [`Status`].
    pub status: String,
    /// Files of the batch completed so far.
    pub completed_files: usize,
    /// Files in the batch.
    pub total_files: usize,
    /// Bytes written so far, over all files of the batch.
    pub total_downloaded_bytes: u64,
}

/// A report as a mathematical value.
pub ghost struct Report {
    pub file: Seq<char>,
    pub downloaded: u64,
    pub total: u64,
    pub status: Seq<char>,
    pub completed_files: usize,
    pub total_files: usize,
    pub total_downloaded_bytes: u64,
}

impl View for ProgressEvent {
    type V = Report;

    open spec fn view(&self) -> Report {
        Report {
            file: self.file@,
            downloaded: self.downloaded,
            total: self.total,
            status: self.status@,
            completed_files: self.completed_files,
            total_files: self.total_files,
            total_downloaded_bytes: self.total_downloaded_bytes,
        }
    }
}

/// The report on file `file` in status `status`, with the counters `totals`.
pub open spec fn report(
    file: Seq<char>,
    status: Status,
    downloaded: u64,
    total: u64,
    totals: Totals,
) -> Report {
    Report {
        file,
        downloaded,
        total,
        status: status.label(),
        completed_files: totals.completed_files,
        total_files: totals.total_files,
        total_downloaded_bytes: totals.total_downloaded_bytes,
    }
}

/// The report that an optional event stands for.
pub open spec fn report_of(event: Option<ProgressEvent>) -> Option<Report> {
    match event {
        Some(e) => Some(e@),
        None => None,
    }
}

impl ProgressEvent {
    /// Builds the report on `file` in `status` with the counters `totals`.
    pub fn new(file: &String, status: Status, downloaded: u64, total: u64, totals: Totals) -> (event:
        ProgressEvent)
        ensures
            event@ == report(file@, status, downloaded, total, totals),
    {
        ProgressEvent {
            file: file.clone(),
            downloaded,
            total,
            status: status.name(),
            completed_files: totals.completed_files,
            total_files: totals.total_files,
            total_downloaded_bytes: totals.total_downloaded_bytes,
        }
    }
}

/// What the observer receives: the closed vocabulary of a batch.
#[derive(Debug, Clone, PartialEq, Eq)]
pub enum Notification {
    /// The batch begins; the payload is the number of its files.
    Started(usize),
    /// A report on one file.
    Progress(ProgressEvent),
    /// Every file of the batch has reached its end.
    Completed,
}

impl Notification {
    /// The channel on which a notification of this kind is sent.
    pub open spec fn channel_name(self) -> Seq<char> {
        match self {
            Notification::Started(_) => "download-start"@,
            Notification::Progress(_) => "download-progress"@,
            Notification::Completed => "download-complete"@,
        }
    }

    /// The channel on which this notification is sent.
    pub fn channel(&self) -> (name: String)
        ensures
            name@ == self.channel_name(),
    {
        match self {
            Notification::Started(_) => String::from_str("download-start"),
            Notification::Progress(_) => String::from_str("download-progress"),
            Notification::Completed => String::from_str("download-complete"),
        }
    }
}

} // verus!
