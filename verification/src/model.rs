//! A batch as a mathematical value: every state that a batch can be in, the
//! moves that lead from one state to the next, and what holds of all of them.

use crate::progress::Totals;
use crate::task::{expected_digest, DownloadTask};
use crate::worker::{
    admissible, lemma_transition_shape, transition, Event, Outcome, Phase, Transition,
};
use crate::digest::DIGEST_INPUT_LIMIT;
use vstd::prelude::*;

verus! {

/// The scheduler drives at most this many transfers at once, whatever the
/// number of permits.
pub const STREAM_FAN_OUT: usize = 10;

/// Where a batch stands.
#[derive(Clone, Copy, PartialEq, Eq, Structural, Debug)]
pub enum Stage {
    /// Nothing has been announced.
    Created,
    /// The start was announced; transfers are dispatched and run.
    Running,
    /// The end was announced.
    Completed,
}

/// The kinds of phase that a batch counts.
#[derive(Clone, Copy, PartialEq, Eq, Structural, Debug)]
pub enum Kind {
    /// Dispatched and not at its end: holds a permit.
    Active,
    /// Busy with the transfer itself.
    InTransfer,
    /// At a successful end.
    Succeeded,
    /// Given up.
    Failed,
    /// At its end, one way or the other.
    Settled,
}

/// Whether `phase` is of the kind `kind`.
pub open spec fn is_of(phase: Phase, kind: Kind) -> bool {
    match kind {
        Kind::Active => phase.is_active(),
        Kind::InTransfer => phase.in_transfer(),
        Kind::Succeeded => phase.succeeded(),
        Kind::Failed => phase == Phase::Done(Outcome::Failed),
        Kind::Settled => phase is Done,
    }
}

/// The number of phases of the kind `kind`.
pub open spec fn count(phases: Seq<Phase>, kind: Kind) -> nat
    decreases phases.len(),
{
    if phases.len() == 0 {
        0
    } else {
        count(phases.drop_last(), kind) + if is_of(phases.last(), kind) {
            1nat
        } else {
            0nat
        }
    }
}

/// A count is at most the number of phases, and below it as soon as one
/// phase is of another kind.
pub proof fn lemma_count_bounds(phases: Seq<Phase>, kind: Kind)
    ensures
        count(phases, kind) <= phases.len(),
        (exists|i: int| 0 <= i < phases.len() && !is_of(#[trigger] phases[i], kind)) ==> count(
            phases,
            kind,
        ) < phases.len(),
        count(phases, kind) == 0 ==> forall|i: int|
            0 <= i < phases.len() ==> !is_of(#[trigger] phases[i], kind),
    decreases phases.len(),
{
    if phases.len() > 0 {
        let front = phases.drop_last();
        lemma_count_bounds(front, kind);
        if exists|i: int| 0 <= i < phases.len() && !is_of(#[trigger] phases[i], kind) {
            let i = choose|i: int| 0 <= i < phases.len() && !is_of(#[trigger] phases[i], kind);
            if i < phases.len() - 1 {
                assert(!is_of(front[i], kind));
            }
        }
        if count(phases, kind) == 0 {
            assert forall|i: int| 0 <= i < phases.len() implies !is_of(
                #[trigger] phases[i],
                kind,
            ) by {
                if i < phases.len() - 1 {
                    assert(phases[i] == front[i]);
                }
            }
        }
    }
}

/// Replacing one phase moves a count by what the old and the new phase
/// contribute.
pub proof fn lemma_count_update(phases: Seq<Phase>, index: int, phase: Phase, kind: Kind)
    requires
        0 <= index < phases.len(),
    ensures
        count(phases.update(index, phase), kind) + (if is_of(phases[index], kind) {
            1nat
        } else {
            0nat
        }) == count(phases, kind) + (if is_of(phase, kind) {
            1nat
        } else {
            0nat
        }),
    decreases phases.len(),
{
    let updated = phases.update(index, phase);
    if index == phases.len() - 1 {
        assert(updated.drop_last() =~= phases.drop_last());
    } else {
        assert(updated.drop_last() =~= phases.drop_last().update(index, phase));
        lemma_count_update(phases.drop_last(), index, phase, kind);
    }
}

/// A kind that is part of another is counted no more often.
pub proof fn lemma_count_within(phases: Seq<Phase>, part: Kind, whole: Kind)
    requires
        forall|p: Phase| is_of(p, part) ==> is_of(p, whole),
    ensures
        count(phases, part) <= count(phases, whole),
    decreases phases.len(),
{
    if phases.len() > 0 {
        lemma_count_within(phases.drop_last(), part, whole);
    }
}

/// Every transfer at its end has either succeeded or failed.
pub proof fn lemma_count_settled(phases: Seq<Phase>)
    ensures
        count(phases, Kind::Succeeded) + count(phases, Kind::Failed) == count(phases, Kind::Settled),
    decreases phases.len(),
{
    if phases.len() > 0 {
        lemma_count_settled(phases.drop_last());
    }
}

/// Where none of the phases is of a kind, the count is 0; where all are, it
/// is their number.
pub proof fn lemma_count_uniform(phases: Seq<Phase>, kind: Kind)
    ensures
        (forall|i: int| 0 <= i < phases.len() ==> !is_of(#[trigger] phases[i], kind)) ==> count(
            phases,
            kind,
        ) == 0,
        (forall|i: int| 0 <= i < phases.len() ==> is_of(#[trigger] phases[i], kind)) ==> count(
            phases,
            kind,
        ) == phases.len(),
    decreases phases.len(),
{
    if phases.len() > 0 {
        let front = phases.drop_last();
        lemma_count_uniform(front, kind);
        if forall|i: int| 0 <= i < phases.len() ==> !is_of(#[trigger] phases[i], kind) {
            assert forall|i: int| 0 <= i < front.len() implies !is_of(#[trigger] front[i], kind) by {
                assert(front[i] == phases[i]);
            }
        }
        if forall|i: int| 0 <= i < phases.len() ==> is_of(#[trigger] phases[i], kind) {
            assert forall|i: int| 0 <= i < front.len() implies is_of(#[trigger] front[i], kind) by {
                assert(front[i] == phases[i]);
            }
        }
    }
}

/// The sum of the numbers of a list.
pub open spec fn sum(numbers: Seq<u64>) -> nat
    decreases numbers.len(),
{
    if numbers.len() == 0 {
        0
    } else {
        sum(numbers.drop_last()) + numbers.last() as nat
    }
}

/// Replacing one number moves the sum by the difference, and no number is
/// larger than the sum.
pub proof fn lemma_sum_update(numbers: Seq<u64>, index: int, value: u64)
    requires
        0 <= index < numbers.len(),
    ensures
        sum(numbers.update(index, value)) + numbers[index] == sum(numbers) + value,
        numbers[index] <= sum(numbers),
    decreases numbers.len(),
{
    let updated = numbers.update(index, value);
    if index == numbers.len() - 1 {
        assert(updated.drop_last() =~= numbers.drop_last());
    } else {
        assert(updated.drop_last() =~= numbers.drop_last().update(index, value));
        lemma_sum_update(numbers.drop_last(), index, value);
    }
}

/// A list of zeros sums to zero.
pub proof fn lemma_sum_zeros(numbers: Seq<u64>)
    requires
        forall|i: int| 0 <= i < numbers.len() ==> numbers[i] == 0,
    ensures
        sum(numbers) == 0,
    decreases numbers.len(),
{
    if numbers.len() > 0 {
        lemma_sum_zeros(numbers.drop_last());
    }
}

/// One thing that happens to a batch.
pub enum Move {
    /// The start is announced.
    Start,
    /// The next queued transfer is dispatched, if a permit is free.
    Dispatch,
    /// The driver reports the outcome of an action for one transfer.
    Deliver(int, Event),
    /// The end is announced, if every transfer is at its end.
    Finish,
}

/// The state of a batch.
pub ghost struct BatchModel {
    /// The tasks, in the order in which they were submitted.
    pub tasks: Seq<DownloadTask>,
    /// The file name under which each task is reported.
    pub names: Seq<Seq<char>>,
    /// Where each transfer stands.
    pub phases: Seq<Phase>,
    /// The bytes written for each file.
    pub written: Seq<u64>,
    /// The shared counters.
    pub totals: Totals,
    /// The size of the permit pool.
    pub permits: usize,
    /// How many transfers have been dispatched.
    pub dispatched: nat,
    /// Where the batch stands.
    pub stage: Stage,
}

impl BatchModel {
    /// A batch on which nothing has happened yet.
    pub open spec fn initial(
        tasks: Seq<DownloadTask>,
        names: Seq<Seq<char>>,
        permits: usize,
    ) -> BatchModel {
        BatchModel {
            tasks,
            names,
            phases: Seq::new(tasks.len(), |i: int| Phase::Queued),
            written: Seq::new(tasks.len(), |i: int| 0u64),
            totals: Totals::initial(tasks.len() as usize),
            permits,
            dispatched: 0,
            stage: Stage::Created,
        }
    }

    /// How many transfers may run at once: the smaller of the permit pool
    /// and the scheduler's own limit.
    pub open spec fn limit(self) -> nat {
        if self.permits <= STREAM_FAN_OUT {
            self.permits as nat
        } else {
            STREAM_FAN_OUT as nat
        }
    }

    /// How many transfers hold a permit.
    pub open spec fn active(self) -> nat {
        count(self.phases, Kind::Active)
    }

    /// Every transfer is at its end.
    pub open spec fn settled(self) -> bool {
        forall|i: int| 0 <= i < self.phases.len() ==> #[trigger] self.phases[i] is Done
    }

    /// What holds of every state that a batch can reach.
    pub open spec fn wf(self) -> bool {
        &&& self.tasks.len() == self.phases.len()
        &&& self.names.len() == self.phases.len()
        &&& self.totals.total_files == self.phases.len()
        &&& self.dispatched <= self.phases.len()
        &&& forall|i: int|
            0 <= i < self.phases.len() ==> (#[trigger] self.phases[i] is Queued <==> i
                >= self.dispatched)
        &&& self.totals.completed_files == count(self.phases, Kind::Succeeded)
        &&& self.active() <= self.limit()
        &&& forall|i: int|
            0 <= i < self.phases.len() ==> (#[trigger] self.phases[i]).received()
                <= self.totals.total_downloaded_bytes
        &&& self.written.len() == self.phases.len()
        &&& sum(self.written) == self.totals.total_downloaded_bytes
        &&& forall|i: int|
            0 <= i < self.phases.len() ==> (#[trigger] self.phases[i]).accounts_for(self.written[i])
        &&& self.stage is Created ==> self.dispatched == 0
        &&& self.stage is Completed ==> self.settled()
    }

    /// The start is announced, once.
    pub open spec fn start(self) -> BatchModel {
        if self.stage is Created {
            BatchModel { stage: Stage::Running, ..self }
        } else {
            self
        }
    }

    /// Whether the next queued transfer may begin.
    pub open spec fn can_dispatch(self) -> bool {
        &&& self.stage is Running
        &&& self.dispatched < self.phases.len()
        &&& self.active() < self.limit()
    }

    /// The next queued transfer begins, if it may.
    pub open spec fn dispatch(self) -> BatchModel {
        if self.can_dispatch() {
            BatchModel {
                phases: self.phases.update(self.dispatched as int, Phase::Probing),
                dispatched: self.dispatched + 1,
                ..self
            }
        } else {
            self
        }
    }

    /// What the step of transfer `index` on `event` comes to.
    pub open spec fn outcome(self, index: int, event: Event) -> Transition {
        transition(
            self.names[index],
            expected_digest(self.tasks[index]),
            self.phases[index],
            event,
            self.totals,
        )
    }

    /// Whether `event` can be delivered to transfer `index`: content that
    /// would be hashed is within the domain of SHA-1, and the byte counter
    /// has room for the chunk.
    pub open spec fn accepts(self, index: int, event: Event) -> bool {
        0 <= index < self.phases.len() ==> {
            &&& self.phases[index] is ReadingExisting ==> (event matches Event::ExistingRead(
                Some(data),
            ) ==> data@.len() < DIGEST_INPUT_LIMIT)
            &&& self.phases[index] matches Phase::Writing { len, .. } ==> (event is ChunkWritten
                ==> self.totals.total_downloaded_bytes + len <= u64::MAX)
        }
    }

    /// The outcome of an action is delivered to transfer `index`.
    pub open spec fn deliver(self, index: int, event: Event) -> BatchModel {
        if 0 <= index < self.phases.len() {
            let t = self.outcome(index, event);
            BatchModel {
                phases: self.phases.update(index, t.phase),
                written: self.written.update(
                    index,
                    (self.written[index] + t.totals.total_downloaded_bytes
                        - self.totals.total_downloaded_bytes) as u64,
                ),
                totals: t.totals,
                ..self
            }
        } else {
            self
        }
    }

    /// Whether the end may be announced now.
    pub open spec fn can_finish(self) -> bool {
        self.stage is Running && self.settled()
    }

    /// The end is announced, if it may be.
    pub open spec fn finish(self) -> BatchModel {
        if self.can_finish() {
            BatchModel { stage: Stage::Completed, ..self }
        } else {
            self
        }
    }

    /// Whether `step` can be made in this state.
    pub open spec fn allows(self, step: Move) -> bool {
        match step {
            Move::Deliver(index, event) => self.accepts(index, event),
            _ => true,
        }
    }

    /// The state after `step`.
    pub open spec fn apply(self, step: Move) -> BatchModel {
        match step {
            Move::Start => self.start(),
            Move::Dispatch => self.dispatch(),
            Move::Deliver(index, event) => self.deliver(index, event),
            Move::Finish => self.finish(),
        }
    }
}

/// In a well-formed batch every delivery that is accepted meets what a step
/// of the transfer needs.
pub proof fn lemma_accepted_is_admissible(m: BatchModel, index: int, event: Event)
    requires
        m.wf(),
        0 <= index < m.phases.len(),
        m.accepts(index, event),
    ensures
        admissible(m.phases[index], event, m.totals),
{
    lemma_count_bounds(m.phases, Kind::Succeeded);
    if !m.phases[index].succeeded() {
        assert(!is_of(m.phases[index], Kind::Succeeded));
    }
}

impl BatchModel {
    /// The state after the moves `steps`, made in order.
    pub open spec fn run(self, steps: Seq<Move>) -> BatchModel
        decreases steps.len(),
    {
        if steps.len() == 0 {
            self
        } else {
            self.run(steps.drop_last()).apply(steps.last())
        }
    }

    /// Whether each of the moves `steps` can be made when its turn comes.
    pub open spec fn allows_run(self, steps: Seq<Move>) -> bool
        decreases steps.len(),
    {
        steps.len() == 0 || (self.allows_run(steps.drop_last()) && self.run(
            steps.drop_last(),
        ).allows(steps.last()))
    }

    /// The report that move `k` of `steps` sends to the observer, if any.
    pub open spec fn report_at(self, steps: Seq<Move>, k: int) -> Option<crate::progress::Report> {
        let before = self.run(steps.take(k));
        match steps[k] {
            Move::Deliver(index, event) => if 0 <= index < before.phases.len() {
                before.outcome(index, event).emit
            } else {
                None
            },
            _ => None,
        }
    }
}

/// A batch on which nothing has happened is well formed.
pub proof fn lemma_initial_wf(tasks: Seq<DownloadTask>, names: Seq<Seq<char>>, permits: usize)
    requires
        names.len() == tasks.len(),
        tasks.len() <= usize::MAX,
    ensures
        BatchModel::initial(tasks, names, permits).wf(),
{
    let m = BatchModel::initial(tasks, names, permits);
    lemma_count_uniform(m.phases, Kind::Succeeded);
    lemma_count_uniform(m.phases, Kind::Active);
    lemma_sum_zeros(m.written);
}

/// Every move leads from a well-formed batch to a well-formed batch.
pub proof fn lemma_move_keeps_wf(m: BatchModel, step: Move)
    requires
        m.wf(),
        m.allows(step),
    ensures
        m.apply(step).wf(),
{
    let after = m.apply(step);
    match step {
        Move::Start => {},
        Move::Finish => {},
        Move::Dispatch => {
            if m.can_dispatch() {
                let at = m.dispatched as int;
                lemma_count_update(m.phases, at, Phase::Probing, Kind::Active);
                lemma_count_update(m.phases, at, Phase::Probing, Kind::Succeeded);
                assert(m.phases[at] is Queued);
                assert(m.phases[at].accounts_for(m.written[at]));
                assert forall|i: int| 0 <= i < after.phases.len() implies (
                #[trigger] after.phases[i]).accounts_for(after.written[i]) by {
                    if i != at {
                        assert(after.phases[i] == m.phases[i]);
                    }
                }
            }
        },
        Move::Deliver(index, event) => {
            if 0 <= index < m.phases.len() {
                let t = m.outcome(index, event);
                lemma_accepted_is_admissible(m, index, event);
                lemma_transition_shape(
                    m.names[index],
                    expected_digest(m.tasks[index]),
                    m.phases[index],
                    event,
                    m.totals,
                );
                lemma_count_update(m.phases, index, t.phase, Kind::Active);
                lemma_count_update(m.phases, index, t.phase, Kind::Succeeded);
                let grown = (m.written[index] + t.totals.total_downloaded_bytes
                    - m.totals.total_downloaded_bytes) as u64;
                lemma_sum_update(m.written, index, grown);
                assert(m.phases[index].accounts_for(m.written[index]));
                assert forall|i: int| 0 <= i < after.phases.len() implies (
                #[trigger] after.phases[i]).accounts_for(after.written[i]) by {
                    if i != index {
                        assert(after.phases[i] == m.phases[i]);
                    }
                }
                assert forall|i: int| 0 <= i < after.phases.len() implies (
                #[trigger] after.phases[i]).received() <= after.totals.total_downloaded_bytes by {
                    if i != index {
                        assert(after.phases[i] == m.phases[i]);
                    }
                }
                assert forall|i: int| 0 <= i < after.phases.len() implies (
                #[trigger] after.phases[i] is Queued <==> i >= after.dispatched) by {
                    if i != index {
                        assert(after.phases[i] == m.phases[i]);
                    }
                }
                if after.stage is Completed {
                    assert forall|i: int| 0 <= i < after.phases.len() implies 
                    #[trigger] after.phases[i] is Done by {
                        assert(m.phases[i] is Done);
                    }
                }
            }
        },
    }
}

/// No move lowers a counter, and none changes the number of files.
pub proof fn lemma_move_counters_grow(m: BatchModel, step: Move)
    requires
        m.wf(),
        m.allows(step),
    ensures
        m.apply(step).totals.completed_files >= m.totals.completed_files,
        m.apply(step).totals.total_downloaded_bytes >= m.totals.total_downloaded_bytes,
        m.apply(step).totals.total_files == m.totals.total_files,
{
    match step {
        Move::Deliver(index, event) => {
            if 0 <= index < m.phases.len() {
                lemma_accepted_is_admissible(m, index, event);
                lemma_transition_shape(
                    m.names[index],
                    expected_digest(m.tasks[index]),
                    m.phases[index],
                    event,
                    m.totals,
                );
            }
        },
        _ => {},
    }
}

/// The concurrency bound: in a well-formed batch no more transfers hold a
/// permit than the smaller of the permit pool and the scheduler's own limit,
/// and no more than that are busy with the transfer itself.
pub proof fn lemma_concurrency_bound(m: BatchModel)
    requires
        m.wf(),
    ensures
        count(m.phases, Kind::InTransfer) <= count(m.phases, Kind::Active),
        count(m.phases, Kind::Active) <= m.permits,
        count(m.phases, Kind::Active) <= STREAM_FAN_OUT,
{
    lemma_count_within(m.phases, Kind::InTransfer, Kind::Active);
}

/// The completed-files counter is the number of transfers that reached a
/// successful end. Together with those that were given up they are the
/// transfers at their end; in a settled batch in which none was given up,
/// the counter is the number of files.
pub proof fn lemma_completed_counts_successes(m: BatchModel)
    requires
        m.wf(),
    ensures
        m.totals.completed_files == count(m.phases, Kind::Succeeded),
        m.totals.completed_files + count(m.phases, Kind::Failed) == count(m.phases, Kind::Settled),
        m.totals.completed_files <= m.totals.total_files,
        m.settled() ==> m.totals.completed_files + count(m.phases, Kind::Failed)
            == m.totals.total_files,
{
    lemma_count_settled(m.phases);
    lemma_count_bounds(m.phases, Kind::Succeeded);
    lemma_count_uniform(m.phases, Kind::Settled);
}

/// Byte accounting: the shared byte counter is the sum of what was written
/// for each file. A file that was skipped, or whose transfer has not begun to
/// receive, contributes nothing; while a body is received, what was written
/// is the running total that the reports carry.
pub proof fn lemma_bytes_are_accounted(m: BatchModel)
    requires
        m.wf(),
    ensures
        sum(m.written) == m.totals.total_downloaded_bytes,
        forall|i: int|
            0 <= i < m.phases.len() && #[trigger] m.phases[i] == Phase::Done(Outcome::Skipped)
                ==> m.written[i] == 0,
        forall|i: int|
            0 <= i < m.phases.len() && ((#[trigger] m.phases[i]) is Receiving
                || m.phases[i] is Writing) ==> m.written[i] == m.phases[i].received(),
{
    assert forall|i: int|
        0 <= i < m.phases.len() && #[trigger] m.phases[i] == Phase::Done(
            Outcome::Skipped,
        ) implies m.written[i] == 0 by {
        assert(m.phases[i].accounts_for(m.written[i]));
    }
    assert forall|i: int|
        0 <= i < m.phases.len() && ((#[trigger] m.phases[i]) is Receiving
            || m.phases[i] is Writing) implies m.written[i] == m.phases[i].received() by {
        assert(m.phases[i].accounts_for(m.written[i]));
    }
}

/// What holds along a run: each prefix of the moves can be made and leads
/// to a well-formed batch, and each move is made on the state that the moves
/// before it led to.
pub proof fn lemma_run_prefix(m: BatchModel, steps: Seq<Move>, n: int)
    requires
        m.wf(),
        m.allows_run(steps),
        0 <= n <= steps.len(),
    ensures
        m.allows_run(steps.take(n)),
        m.run(steps.take(n)).wf(),
        n > 0 ==> m.run(steps.take(n)) == m.run(steps.take(n - 1)).apply(steps[n - 1]) && m.run(
            steps.take(n - 1),
        ).allows(steps[n - 1]),
    decreases steps.len(),
{
    if n == steps.len() {
        assert(steps.take(n) =~= steps);
        if n > 0 {
            assert(steps.take(n - 1) =~= steps.drop_last());
            lemma_run_prefix(m, steps.drop_last(), n - 1);
            assert(steps.drop_last().take(n - 1) =~= steps.drop_last());
            lemma_move_keeps_wf(m.run(steps.drop_last()), steps.last());
        }
    } else {
        lemma_run_prefix(m, steps.drop_last(), n);
        assert(steps.drop_last().take(n) =~= steps.take(n));
        if n > 0 {
            assert(steps.drop_last().take(n - 1) =~= steps.take(n - 1));
        }
    }
}

/// Every state that a batch reaches is well formed.
pub proof fn lemma_run_keeps_wf(m: BatchModel, steps: Seq<Move>)
    requires
        m.wf(),
        m.allows_run(steps),
    ensures
        m.run(steps).wf(),
{
    lemma_run_prefix(m, steps, steps.len() as int);
    assert(steps.take(steps.len() as int) =~= steps);
}

/// The counters never fall along a run: after more moves they are at least
/// what they were after fewer.
pub proof fn lemma_counters_never_fall(m: BatchModel, steps: Seq<Move>, a: int, b: int)
    requires
        m.wf(),
        m.allows_run(steps),
        0 <= a <= b <= steps.len(),
    ensures
        m.run(steps.take(a)).totals.completed_files <= m.run(steps.take(b)).totals.completed_files,
        m.run(steps.take(a)).totals.total_downloaded_bytes <= m.run(
            steps.take(b),
        ).totals.total_downloaded_bytes,
        m.run(steps.take(a)).totals.total_files == m.run(steps.take(b)).totals.total_files,
    decreases b - a,
{
    if a < b {
        lemma_counters_never_fall(m, steps, a, b - 1);
        lemma_run_prefix(m, steps, b);
        lemma_run_prefix(m, steps, b - 1);
        lemma_move_counters_grow(m.run(steps.take(b - 1)), steps[b - 1]);
    }
}

/// Monotonic counters: of two reports that a run sends, the later one
/// carries counters that are at least those of the earlier one. This holds
/// for the reports on one file in particular.
pub proof fn lemma_reports_never_fall(m: BatchModel, steps: Seq<Move>, j: int, k: int)
    requires
        m.wf(),
        m.allows_run(steps),
        0 <= j <= k < steps.len(),
        m.report_at(steps, j) is Some,
        m.report_at(steps, k) is Some,
    ensures
        m.report_at(steps, j)->0.completed_files <= m.report_at(steps, k)->0.completed_files,
        m.report_at(steps, j)->0.total_downloaded_bytes <= m.report_at(
            steps,
            k,
        )->0.total_downloaded_bytes,
        m.report_at(steps, j)->0.total_files == m.report_at(steps, k)->0.total_files,
        m.report_at(steps, k)->0.completed_files <= m.report_at(steps, k)->0.total_files,
{
    lemma_report_carries_totals(m, steps, j);
    lemma_report_carries_totals(m, steps, k);
    lemma_counters_never_fall(m, steps, j + 1, k + 1);
    lemma_run_prefix(m, steps, k + 1);
    lemma_completed_counts_successes(m.run(steps.take(k + 1)));
}

/// A report carries the counters as they stand after the move that sent it.
pub proof fn lemma_report_carries_totals(m: BatchModel, steps: Seq<Move>, k: int)
    requires
        m.wf(),
        m.allows_run(steps),
        0 <= k < steps.len(),
        m.report_at(steps, k) is Some,
    ensures
        ({
            let r = m.report_at(steps, k)->0;
            let after = m.run(steps.take(k + 1)).totals;
            &&& r.completed_files == after.completed_files
            &&& r.total_files == after.total_files
            &&& r.total_downloaded_bytes == after.total_downloaded_bytes
        }),
{
    lemma_run_prefix(m, steps, k + 1);
    lemma_run_prefix(m, steps, k);
    let before = m.run(steps.take(k));
    match steps[k] {
        Move::Deliver(index, event) => {
            lemma_accepted_is_admissible(before, index, event);
            lemma_transition_shape(
                before.names[index],
                expected_digest(before.tasks[index]),
                before.phases[index],
                event,
                before.totals,
            );
        },
        _ => {},
    }
}

/// The end of a batch is announced at most once: once it has been announced,
/// no move changes the stage, and it cannot be announced again.
pub proof fn lemma_end_is_final(m: BatchModel, step: Move)
    requires
        m.stage is Completed,
    ensures
        m.apply(step).stage is Completed,
        !m.apply(step).can_finish(),
        !m.can_dispatch(),
{
}

/// The end is announced only after the start, and only when every transfer
/// is at its end; the start is announced before any transfer is dispatched.
pub proof fn lemma_announcements_in_order(m: BatchModel)
    requires
        m.wf(),
    ensures
        m.can_finish() ==> m.finish().stage is Completed && m.settled() && m.active() == 0,
        m.stage is Created ==> !m.can_dispatch() && !m.can_finish() && forall|i: int|
            0 <= i < m.phases.len() ==> #[trigger] m.phases[i] is Queued,
{
    if m.can_finish() {
        lemma_count_uniform(m.phases, Kind::Active);
    }
}

} // verus!
