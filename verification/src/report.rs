//! The result sink's records: one report record per operation, projected
//! to the three tabular fields `query_id`, `runtime_secs` and `error`,
//! and encoded as one CSV row each.

use vstd::prelude::*;
use vstd::string::StringExecFns;

use crate::errors::OpError;
use crate::render::{dec_string, nanos_to_secs, secs_string, u64_to_dec};

verus! {

/// A reported runtime: the measured elapsed nanoseconds of a completed
/// operation, or the unbounded sentinel that marks a failed one.
pub enum Runtime {
    Finite { nanos: u64 },
    Unbounded,
}

/// The report's runtime ordering: finite runtimes order by their value,
/// and the unbounded sentinel is strictly above every finite runtime.
pub open spec fn runtime_lt(a: Runtime, b: Runtime) -> bool {
    match (a, b) {
        (Runtime::Finite { nanos: x }, Runtime::Finite { nanos: y }) => x < y,
        (Runtime::Finite { .. }, Runtime::Unbounded) => true,
        _ => false,
    }
}

/// Law: a failed operation's sentinel runtime sorts after every real
/// measurement, so failures are always distinguishable from, and order
/// after, successes under runtime ordering.
pub proof fn lemma_sentinel_sorts_last(nanos: u64)
    ensures
        runtime_lt(Runtime::Finite { nanos }, Runtime::Unbounded),
        !runtime_lt(Runtime::Unbounded, Runtime::Finite { nanos }),
{
}

/// Law: a failed operation's runtime field is always distinguishable
/// from a success's. The sentinel text is shorter than any rendered
/// finite runtime, whose fraction alone has nine digits, so the two can
/// never read the same.
pub proof fn lemma_sentinel_text_distinct(nanos: u64)
    ensures
        runtime_text(Runtime::Finite { nanos }) != runtime_text(Runtime::Unbounded),
{
    reveal_strlit("inf");
    crate::render::lemma_dec_string_nonempty(nanos as nat / (crate::render::NANOS_PER_SEC as nat));
    crate::render::lemma_padded_dec_string_len(
        nanos as nat % (crate::render::NANOS_PER_SEC as nat),
        9,
    );
    assert(runtime_text(Runtime::Finite { nanos }).len() >= 11);
}

/// The text of the `runtime_secs` field: decimal seconds for a finite
/// runtime, the infinity sentinel for an unbounded one.
pub open spec fn runtime_text(rt: Runtime) -> Seq<char> {
    match rt {
        Runtime::Finite { nanos } => secs_string(nanos as nat),
        Runtime::Unbounded => "inf"@,
    }
}

/// Renders the `runtime_secs` field of one record.
pub fn render_runtime(rt: &Runtime) -> (r: String)
    ensures
        r@ == runtime_text(*rt),
{
    match rt {
        Runtime::Finite { nanos } => nanos_to_secs(*nanos),
        Runtime::Unbounded => {
            let r = String::from_str("inf");
            r
        },
    }
}

/// One report record: the externally visible projection of an outcome,
/// `(id, runtime or sentinel, error text or empty)`. Constructed once
/// per outcome, written once, never revisited.
pub struct ReportRecord {
    pub id: u64,
    pub runtime: Runtime,
    pub error_text: String,
}

impl ReportRecord {
    /// A record reports a success exactly when its runtime is finite.
    pub open spec fn is_success(&self) -> bool {
        self.runtime is Finite
    }

    /// A well-formed record pairs a finite runtime with an empty error
    /// field, and the sentinel with the failure's description.
    pub open spec fn wf(&self) -> bool {
        self.is_success() <==> self.error_text@.len() == 0
    }

    /// The record of a completed operation: its measured elapsed time,
    /// and an empty error field.
    pub fn success(id: u64, elapsed_nanos: u64) -> (r: ReportRecord)
        ensures
            r.id == id,
            r.runtime == (Runtime::Finite { nanos: elapsed_nanos }),
            r.error_text@ == Seq::<char>::empty(),
            r.wf(),
    {
        ReportRecord { id, runtime: Runtime::Finite { nanos: elapsed_nanos }, error_text: String::new() }
    }

    /// The record of a failed operation: the unbounded sentinel runtime,
    /// and the failure's description, verbose when richer diagnostic
    /// detail is configured.
    pub fn failure(id: u64, error: &OpError, verbose: bool) -> (r: ReportRecord)
        ensures
            r.id == id,
            r.runtime is Unbounded,
            r.error_text@ == if verbose {
                error.verbose_spec()
            } else {
                error.terse_spec()
            },
            r.wf(),
    {
        let error_text = if verbose {
            error.describe_verbose()
        } else {
            error.describe()
        };
        proof {
            reveal_strlit("Error sending HTTP request");
            reveal_strlit("Received error HTTP response");
            reveal_strlit("Unable to receive HTTP response body");
            assert(error.terse_spec().len() > 0);
            assert(error.verbose_spec().len() > 0);
        }
        ReportRecord { id, runtime: Runtime::Unbounded, error_text }
    }
}

/// What one CSV row holds for three given fields, as the csv crate
/// encodes it: fields delimited by commas, quoted where they hold a
/// delimiter, quote or line break, and closed by a record terminator.
pub uninterp spec fn csv_row(f0: Seq<char>, f1: Seq<char>, f2: Seq<char>) -> Seq<char>;

/// Relies on csv::Writer::write_record: encodes one three-field record
/// as one CSV row, terminated by a newline. Writing a single record to
/// an in-memory buffer cannot fail: the csv crate's write errors are
/// either I/O errors of the underlying writer, which a `Vec<u8>` never
/// returns, or unequal record lengths, which a single record cannot
/// produce; and a row built from `&str` fields is valid UTF-8.
#[verifier::external_body]
fn csv_encode_row(f0: &str, f1: &str, f2: &str) -> (r: String)
    ensures
        r@ == csv_row(f0@, f1@, f2@),
        r@.len() > 0,
        r@.last() == '\n',
{
    let mut w = csv::Writer::from_writer(Vec::new());
    let _ = w.write_record(&[f0, f1, f2]);
    match w.into_inner() {
        Ok(buf) => String::from_utf8(buf).unwrap_or_default(),
        Err(_) => String::new(),
    }
}

/// The header row's field texts.
pub open spec fn header_row() -> Seq<char> {
    csv_row("query_id"@, "runtime_secs"@, "error"@)
}

/// Encodes the header row, written exactly once before the first
/// record, even when the input is empty.
pub fn encode_header() -> (r: String)
    ensures
        r@ == header_row(),
        r@.len() > 0,
        r@.last() == '\n',
{
    csv_encode_row("query_id", "runtime_secs", "error")
}

/// The one CSV row a record encodes to: its id as a decimal numeral,
/// its runtime field, and its error text.
pub open spec fn record_row(r: ReportRecord) -> Seq<char> {
    csv_row(dec_string(r.id as nat), runtime_text(r.runtime), r.error_text@)
}

/// Encodes one report record as one CSV row.
pub fn encode_record(rec: &ReportRecord) -> (r: String)
    ensures
        r@ == record_row(*rec),
        r@.len() > 0,
        r@.last() == '\n',
{
    let id_field = u64_to_dec(rec.id);
    let runtime_field = render_runtime(&rec.runtime);
    csv_encode_row(id_field.as_str(), runtime_field.as_str(), rec.error_text.as_str())
}

} // verus!
