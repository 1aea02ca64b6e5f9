//! The batch orchestrator: a queue of transfers, a bounded number of which
//! run at once, over one pair of shared counters.

use crate::digest::DIGEST_INPUT_LIMIT;
use crate::model::{
    count, lemma_count_bounds, lemma_count_uniform, lemma_count_update, lemma_initial_wf,
    lemma_move_keeps_wf, BatchModel, Kind, Move, Stage, STREAM_FAN_OUT,
};
use crate::progress::{report_of, Aggregator, Totals};
use crate::text::{text_of, texts};
use crate::task::{path_file_name, DownloadTask};
use crate::worker::{advance, Action, Event, Phase, Step};
use vstd::prelude::*;

verus! {

/// One run of the engine over a fixed list of tasks.
pub struct Batch {
    tasks: Vec<DownloadTask>,
    names: Vec<String>,
    phases: Vec<Phase>,
    written: Vec<u64>,
    progress: Aggregator,
    permits: usize,
    dispatched: usize,
    running: usize,
    stage: Stage,
}

impl View for Batch {
    type V = BatchModel;

    closed spec fn view(&self) -> BatchModel {
        BatchModel {
            tasks: self.tasks@,
            names: texts(self.names@),
            phases: self.phases@,
            written: self.written@,
            totals: self.progress@,
            permits: self.permits,
            dispatched: self.dispatched as nat,
            stage: self.stage,
        }
    }
}

impl Batch {
    /// The batch is in a state that a batch can reach.
    pub closed spec fn wf(&self) -> bool {
        self@.wf() && self.running == self@.active()
    }

    /// A batch is only ever in a well-formed state.
    pub proof fn lemma_wf(&self)
        requires
            self.wf(),
        ensures
            self@.wf(),
    {
    }

    /// A batch over `tasks`, each reported under the file name at its place
    /// in `names`, with a permit pool of `max_concurrent`.
    pub fn new(tasks: Vec<DownloadTask>, names: Vec<String>, max_concurrent: usize) -> (batch:
        Batch)
        requires
            names@.len() == tasks@.len(),
        ensures
            batch.wf(),
            batch@ == BatchModel::initial(tasks@, texts(names@), max_concurrent),
    {
        let n = tasks.len();
        let mut phases: Vec<Phase> = Vec::new();
        let mut written: Vec<u64> = Vec::new();
        let mut i: usize = 0;
        while i < n
            invariant
                i <= n,
                phases@ =~= Seq::new(i as nat, |k: int| Phase::Queued),
                written@ =~= Seq::new(i as nat, |k: int| 0u64),
            decreases n - i,
        {
            phases.push(Phase::Queued);
            written.push(0);
            i = i + 1;
        }
        let batch = Batch {
            tasks,
            names,
            phases,
            written,
            progress: Aggregator::new(n),
            permits: max_concurrent,
            dispatched: 0,
            running: 0,
            stage: Stage::Created,
        };
        proof {
            lemma_initial_wf(batch.tasks@, texts(batch.names@), max_concurrent);
            lemma_count_uniform(batch.phases@, Kind::Active);
        }
        batch
    }

    /// A batch over `tasks`, each reported under the base name of its
    /// destination. There is no batch if a destination has no base name.
    pub fn plan(tasks: Vec<DownloadTask>, max_concurrent: usize) -> (batch: Option<Batch>)
        ensures
            batch matches Some(b) ==> b.wf() && b@ == BatchModel::initial(
                tasks@,
                b@.names,
                max_concurrent,
            ),
            tasks@.len() == 0 ==> batch is Some,
    {
        let mut names: Vec<String> = Vec::new();
        let mut i: usize = 0;
        while i < tasks.len()
            invariant
                i <= tasks@.len(),
                names@.len() == i,
            decreases tasks@.len() - i,
        {
            match path_file_name(tasks[i].path.as_str()) {
                Some(name) => names.push(name),
                None => {
                    return None;
                },
            }
            i = i + 1;
        }
        Some(Batch::new(tasks, names, max_concurrent))
    }

    /// The number of files in the batch.
    pub fn total_files(&self) -> (n: usize)
        requires
            self.wf(),
        ensures
            n == self@.phases.len(),
            n == self@.totals.total_files,
    {
        self.phases.len()
    }

    /// The shared counters as they stand.
    pub fn totals(&self) -> (totals: Totals)
        ensures
            totals == self@.totals,
    {
        self.progress.snapshot()
    }

    /// Where the batch stands.
    pub fn stage(&self) -> (stage: Stage)
        ensures
            stage == self@.stage,
    {
        self.stage
    }

    /// How many transfers may run at once.
    pub fn limit(&self) -> (limit: usize)
        ensures
            limit == self@.limit(),
    {
        if self.permits <= STREAM_FAN_OUT {
            self.permits
        } else {
            STREAM_FAN_OUT
        }
    }

    /// How many transfers hold a permit.
    pub fn running(&self) -> (n: usize)
        requires
            self.wf(),
        ensures
            n == self@.active(),
    {
        self.running
    }

    /// The task at `index`.
    pub fn task(&self, index: usize) -> (task: &DownloadTask)
        requires
            self.wf(),
            index < self@.phases.len(),
        ensures
            *task == self@.tasks[index as int],
    {
        &self.tasks[index]
    }

    /// The file name under which the task at `index` is reported.
    pub fn file_name(&self, index: usize) -> (name: &String)
        requires
            self.wf(),
            index < self@.phases.len(),
        ensures
            name@ == self@.names[index as int],
    {
        &self.names[index]
    }

    /// The bytes written so far for the file at `index`.
    pub fn written(&self, index: usize) -> (bytes: u64)
        requires
            self.wf(),
            index < self@.phases.len(),
        ensures
            bytes == self@.written[index as int],
    {
        self.written[index]
    }

    /// Where the transfer at `index` stands.
    pub fn phase(&self, index: usize) -> (phase: Phase)
        requires
            self.wf(),
            index < self@.phases.len(),
        ensures
            phase == self@.phases[index as int],
    {
        self.phases[index]
    }

    /// Announces the start. The first call returns the number of files, to be
    /// sent to the observer before any transfer runs; later calls return
    /// nothing.
    pub fn start(&mut self) -> (announce: Option<usize>)
        requires
            old(self).wf(),
        ensures
            final(self).wf(),
            final(self)@ == old(self)@.start(),
            announce == if old(self)@.stage is Created {
                Some(old(self)@.totals.total_files)
            } else {
                None
            },
    {
        match self.stage {
            Stage::Created => {
                self.stage = Stage::Running;
                proof {
                    lemma_move_keeps_wf(old(self)@, Move::Start);
                }
                Some(self.phases.len())
            },
            _ => None,
        }
    }

    /// Hands the next queued transfer a permit, if one is free, and returns
    /// its index. Transfers begin in the order of the list; the driver then
    /// performs [`Action::Probe`] for the one returned.
    pub fn dispatch(&mut self) -> (index: Option<usize>)
        requires
            old(self).wf(),
        ensures
            final(self).wf(),
            final(self)@ == old(self)@.dispatch(),
            index == if old(self)@.can_dispatch() {
                Some(old(self)@.dispatched as usize)
            } else {
                None
            },
    {
        let limit = self.limit();
        let running = match self.stage {
            Stage::Running => true,
            _ => false,
        };
        if running && self.dispatched < self.phases.len() && self.running < limit {
            let at = self.dispatched;
            self.phases.set(at, Phase::Probing);
            self.dispatched = at + 1;
            self.running = self.running + 1;
            proof {
                lemma_move_keeps_wf(old(self)@, Move::Dispatch);
                lemma_count_update(old(self)@.phases, at as int, Phase::Probing, Kind::Active);
                assert(old(self)@.phases[at as int] is Queued);
            }
            Some(at)
        } else {
            None
        }
    }

    /// Whether `event` can be delivered to the transfer at `index`.
    pub fn accepts(&self, index: usize, event: &Event) -> (ok: bool)
        requires
            self.wf(),
        ensures
            ok == self@.accepts(index as int, *event),
    {
        if index >= self.phases.len() {
            return true;
        }
        match self.phases[index] {
            Phase::ReadingExisting => match event {
                Event::ExistingRead(Some(data)) => (data.len() as u64) < DIGEST_INPUT_LIMIT,
                _ => true,
            },
            Phase::Writing { len, .. } => match event {
                Event::ChunkWritten(_) => len <= u64::MAX
                    - self.progress.snapshot().total_downloaded_bytes,
                _ => true,
            },
            _ => true,
        }
    }

    /// Delivers the outcome of an action to the transfer at `index` and says
    /// what follows: the report to send, the next action, and the reason if
    /// the transfer was given up. An index outside the batch changes nothing.
    pub fn deliver(&mut self, index: usize, event: &Event) -> (step: Step)
        requires
            old(self).wf(),
            old(self)@.accepts(index as int, *event),
        ensures
            final(self).wf(),
            final(self)@ == old(self)@.deliver(index as int, *event),
            index < old(self)@.phases.len() ==> ({
                let t = old(self)@.outcome(index as int, *event);
                &&& report_of(step.emit) == t.emit
                &&& text_of(step.failure) == t.failure
                &&& step.next == t.phase.awaited()
            }),
            index >= old(self)@.phases.len() ==> step.emit is None && step.failure is None
                && step.next == Action::Wait,
    {
        if index >= self.phases.len() {
            return Step { emit: None, next: Action::Wait, failure: None };
        }
        let phase = self.phases[index];
        proof {
            crate::model::lemma_accepted_is_admissible(self@, index as int, *event);
            lemma_move_keeps_wf(self@, Move::Deliver(index as int, *event));
        }
        let before = self.progress.snapshot().total_downloaded_bytes;
        let (after, step) = advance(
            &self.names[index],
            &self.tasks[index].sha1,
            phase,
            event,
            &mut self.progress,
        );
        proof {
            crate::worker::lemma_transition_shape(
                old(self)@.names[index as int],
                crate::task::expected_digest(old(self)@.tasks[index as int]),
                phase,
                *event,
                old(self)@.totals,
            );
            crate::model::lemma_sum_update(old(self)@.written, index as int, 0);
            assert(phase.accounts_for(old(self)@.written[index as int]));
        }
        let grown = self.written[index] + (self.progress.snapshot().total_downloaded_bytes - before);
        self.written.set(index, grown);
        self.phases.set(index, after);
        if phase.holds_permit() && !after.holds_permit() {
            proof {
                lemma_count_bounds(old(self)@.phases, Kind::Active);
                lemma_count_uniform(old(self)@.phases, Kind::Active);
            }
            self.running = self.running - 1;
        }
        proof {
            lemma_count_update(old(self)@.phases, index as int, after, Kind::Active);
            crate::worker::lemma_transition_shape(
                old(self)@.names[index as int],
                crate::task::expected_digest(old(self)@.tasks[index as int]),
                phase,
                *event,
                old(self)@.totals,
            );
            assert(self@.phases =~= old(self)@.deliver(index as int, *event).phases);
            assert(self@.written =~= old(self)@.deliver(index as int, *event).written);
        }
        step
    }

    /// Announces the end. Returns `true` exactly once: on the first call
    /// after the start at which every transfer is at its end.
    pub fn finish(&mut self) -> (announce: bool)
        requires
            old(self).wf(),
        ensures
            final(self).wf(),
            final(self)@ == old(self)@.finish(),
            announce == old(self)@.can_finish(),
    {
        let running = match self.stage {
            Stage::Running => true,
            _ => false,
        };
        proof {
            lemma_count_bounds(self@.phases, Kind::Active);
            lemma_count_uniform(self@.phases, Kind::Active);
            if self@.settled() && self@.phases.len() > 0 {
                assert(self@.phases[self@.phases.len() - 1] is Done);
            }
            if self.dispatched == self.phases.len() && self.running == 0 {
                assert forall|i: int| 0 <= i < self@.phases.len() implies 
                #[trigger] self@.phases[i] is Done by {
                    assert(!crate::model::is_of(self@.phases[i], Kind::Active));
                }
            }
        }
        if running && self.dispatched == self.phases.len() && self.running == 0 {
            self.stage = Stage::Completed;
            proof {
                lemma_move_keeps_wf(old(self)@, Move::Finish);
            }
            true
        } else {
            false
        }
    }
}

} // verus!
