//! The run controller: sequences one outcome per input line, assigns
//! operation ids in input order, and turns each outcome into the mode's
//! observable effect — a report row in an update run, a diagnostic line
//! alone in a warmup run. Operation failures never stop a run; only the
//! caller's line source can, by failing a read before an id is assigned.

use vstd::prelude::*;
use vstd::string::StringExecFns;

use crate::errors::OpError;
use crate::render::{dec_string, u64_to_dec};
use crate::report::{encode_header, encode_record, header_row, record_row, ReportRecord, Runtime};

verus! {

/// The diagnostic line recorded for a failed operation: its id and the
/// failure's verbose description.
pub open spec fn warn_text(id: nat, e: OpError) -> Seq<char> {
    "query "@ + dec_string(id) + " failed: "@ + e.verbose_spec()
}

/// Builds the diagnostic line for a failed operation.
fn render_warning(id: u64, e: &OpError) -> (r: String)
    ensures
        r@ == warn_text(id as nat, *e),
{
    let mut r = String::from_str("query ");
    let id_text = u64_to_dec(id);
    r.append(id_text.as_str());
    r.append(" failed: ");
    let detail = e.describe_verbose();
    r.append(detail.as_str());
    r
}

/// What one update-mode step hands back to the caller: the record, its
/// encoded report row, and the diagnostic line when the operation
/// failed. The caller writes the row to the output stream and flushes it
/// before the next operation is dispatched.
pub struct StepReport {
    pub record: ReportRecord,
    pub row: String,
    pub warning: Option<String>,
}

/// An update (benchmark) run: every outcome, success or failure,
/// produces exactly one report record, with ids counted up from zero in
/// input order.
pub struct UpdateRun {
    next_id: u64,
    verbose: bool,
    history: Ghost<Seq<ReportRecord>>,
}

impl UpdateRun {
    /// The records this run has emitted, in emission order.
    pub closed spec fn records(&self) -> Seq<ReportRecord> {
        self.history@
    }

    /// How many operations this run has completed.
    pub closed spec fn ops_done(&self) -> nat {
        self.next_id as nat
    }

    /// Whether failed operations are reported with the verbose error
    /// rendering.
    pub closed spec fn is_verbose(&self) -> bool {
        self.verbose
    }

    /// A run emits one record per completed operation, with ids
    /// `0, 1, 2, ...` in order and no gaps, every record well formed.
    pub open spec fn wf(&self) -> bool {
        &&& self.records().len() == self.ops_done()
        &&& forall|i: int|
            0 <= i < self.records().len() ==> (#[trigger] self.records()[i]).id == i
        &&& forall|i: int| 0 <= i < self.records().len() ==> (#[trigger] self.records()[i]).wf()
    }

    /// Starts an update run and yields the header row, which the caller
    /// writes exactly once before any record, even when the input turns
    /// out to be empty.
    pub fn new(verbose: bool) -> (r: (UpdateRun, String))
        ensures
            r.0.wf(),
            r.0.ops_done() == 0,
            r.0.records() == Seq::<ReportRecord>::empty(),
            r.0.is_verbose() == verbose,
            r.1@ == header_row(),
    {
        let run = UpdateRun { next_id: 0, verbose, history: Ghost(Seq::empty()) };
        let header = encode_header();
        (run, header)
    }

    /// How many operations this run has completed, for callers that must
    /// check the id space before the next step.
    pub fn completed(&self) -> (n: u64)
        ensures
            n as nat == self.ops_done(),
    {
        self.next_id
    }

    /// Records the outcome of the next operation: assigns it the next id,
    /// projects it to a report record — the measured runtime on success,
    /// the unbounded sentinel and the error's description on failure —
    /// and encodes the record as one report row. A failure also yields a
    /// diagnostic line; it never stops the run.
    pub fn step(&mut self, elapsed_nanos: u64, outcome: Result<(), OpError>) -> (out: StepReport)
        requires
            old(self).wf(),
            old(self).ops_done() < u64::MAX,
        ensures
            final(self).wf(),
            final(self).is_verbose() == old(self).is_verbose(),
            final(self).ops_done() == old(self).ops_done() + 1,
            final(self).records() == old(self).records().push(out.record),
            out.record.id == old(self).ops_done(),
            out.record.wf(),
            out.row@ == record_row(out.record),
            outcome is Ok ==> {
                &&& out.record.runtime == (Runtime::Finite { nanos: elapsed_nanos })
                &&& out.record.error_text@.len() == 0
                &&& out.warning is None
            },
            outcome matches Err(e) ==> {
                &&& out.record.runtime is Unbounded
                &&& out.record.error_text@ == if old(self).is_verbose() {
                    e.verbose_spec()
                } else {
                    e.terse_spec()
                }
                &&& out.warning matches Some(w) && w@ == warn_text(old(self).ops_done(), e)
            },
    {
        let id = self.next_id;
        let (record, warning) = match outcome {
            Ok(()) => (ReportRecord::success(id, elapsed_nanos), None),
            Err(e) => {
                let record = ReportRecord::failure(id, &e, self.verbose);
                let warning = render_warning(id, &e);
                (record, Some(warning))
            },
        };
        let row = encode_record(&record);
        self.next_id = id + 1;
        proof {
            self.history@ = self.history@.push(record);
        }
        StepReport { record, row, warning }
    }
}

/// A warmup run: every operation is executed and counted, but no
/// structured record is ever produced; a failed operation yields one
/// diagnostic line naming its id, and nothing else. The step below is
/// total over outcomes — there is no abort path — so an individual
/// operation failure can never end a warmup run; only the caller's line
/// source can, by failing a read.
pub struct WarmupRun {
    next_id: u64,
    failed_ids: Ghost<Seq<u64>>,
}

impl WarmupRun {
    /// How many operations this run has completed.
    pub closed spec fn ops_done(&self) -> nat {
        self.next_id as nat
    }

    /// The ids of the operations that failed, in input order: one entry
    /// per failure, matching the diagnostic lines handed out.
    pub closed spec fn failed_ids(&self) -> Seq<u64> {
        self.failed_ids@
    }

    /// Each recorded failure names an operation the run completed, and
    /// the failed ids are strictly increasing: no operation is ever
    /// reported failed twice.
    pub open spec fn wf(&self) -> bool {
        &&& forall|i: int|
            0 <= i < self.failed_ids().len() ==> (#[trigger] self.failed_ids()[i]) < self.ops_done()
        &&& forall|i: int, j: int|
            0 <= i < j < self.failed_ids().len() ==> self.failed_ids()[i] < self.failed_ids()[j]
    }

    /// Starts a warmup run.
    pub fn new() -> (r: WarmupRun)
        ensures
            r.wf(),
            r.ops_done() == 0,
            r.failed_ids() == Seq::<u64>::empty(),
    {
        WarmupRun { next_id: 0, failed_ids: Ghost(Seq::empty()) }
    }

    /// How many operations this run has completed, for callers that must
    /// check the id space before the next step.
    pub fn completed(&self) -> (n: u64)
        ensures
            n as nat == self.ops_done(),
    {
        self.next_id
    }

    /// Observes the outcome of the next operation. A success leaves no
    /// trace; a failure yields exactly one diagnostic line with the
    /// operation's id. Every outcome is accepted and the run goes on.
    pub fn step(&mut self, outcome: Result<(), OpError>) -> (warning: Option<String>)
        requires
            old(self).wf(),
            old(self).ops_done() < u64::MAX,
        ensures
            final(self).wf(),
            final(self).ops_done() == old(self).ops_done() + 1,
            outcome is Ok ==> {
                &&& warning is None
                &&& final(self).failed_ids() == old(self).failed_ids()
            },
            outcome matches Err(e) ==> {
                &&& warning matches Some(w) && w@ == warn_text(old(self).ops_done(), e)
                &&& final(self).failed_ids() == old(self).failed_ids().push(
                    (old(self).ops_done() as u64),
                )
            },
    {
        let id = self.next_id;
        self.next_id = id + 1;
        match outcome {
            Ok(()) => {
                proof {
                    assert(self.failed_ids() == old(self).failed_ids());
                    assert forall|i: int|
                        0 <= i < self.failed_ids().len() implies (#[trigger] self.failed_ids()[i])
                        < self.ops_done() by {
                        assert(old(self).failed_ids()[i] < old(self).ops_done());
                    }
                }
                None
            },
            Err(e) => {
                proof {
                    self.failed_ids@ = self.failed_ids@.push(id);
                    assert forall|i: int|
                        0 <= i < self.failed_ids().len() implies (#[trigger] self.failed_ids()[i])
                        < self.ops_done() by {
                        if i < old(self).failed_ids().len() {
                            assert(old(self).failed_ids()[i] < old(self).ops_done());
                        }
                    }
                }
                Some(render_warning(id, &e))
            },
        }
    }
}

/// Law: a warmup run completes whatever each operation's outcome is —
/// its step accepts every outcome and has no abort path — and its
/// diagnostics are one per failure: the recorded failed ids are strictly
/// increasing, so no id repeats, and each names an operation the run
/// completed.
pub proof fn lemma_warmup_diagnostics(r: &WarmupRun)
    requires
        r.wf(),
    ensures
        forall|i: int|
            0 <= i < r.failed_ids().len() ==> (#[trigger] r.failed_ids()[i]) < r.ops_done(),
        forall|i: int, j: int|
            0 <= i < j < r.failed_ids().len() ==> r.failed_ids()[i] != r.failed_ids()[j],
{
}

/// Law: an update run's report has exactly one record per completed
/// operation, and their ids are `0 .. n-1`, strictly increasing with no
/// gaps; with the single header row produced when the run starts, a run
/// over `n` input lines therefore yields exactly `n + 1` report rows.
pub proof fn lemma_report_shape(r: &UpdateRun)
    requires
        r.wf(),
    ensures
        r.records().len() == r.ops_done(),
        forall|i: int| 0 <= i < r.records().len() ==> (#[trigger] r.records()[i]).id == i,
        forall|i: int, j: int|
            0 <= i < j < r.records().len() ==> r.records()[i].id < r.records()[j].id,
{
    assert forall|i: int, j: int|
        0 <= i < j < r.records().len() implies r.records()[i].id < r.records()[j].id by {
        assert(r.records()[i].id == i);
        assert(r.records()[j].id == j);
    }
}

} // verus!
