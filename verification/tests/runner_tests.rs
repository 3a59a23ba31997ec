use query_replay::errors::OpError;
use query_replay::report::Runtime;
use query_replay::runner::{UpdateRun, WarmupRun};

fn transport(detail: &str) -> OpError {
    OpError::Transport { detail: detail.to_string() }
}

fn http_status(code: u16, detail: &str) -> OpError {
    OpError::HttpStatus { code, detail: detail.to_string() }
}

#[test]
fn update_run_three_successes() {
    // Three operations, each succeeding in 10ms: header plus three rows,
    // ids 0..2, each with a finite runtime of about 0.01s and an empty
    // error field.
    let (mut run, header) = UpdateRun::new(true);
    assert_eq!(header, "query_id,runtime_secs,error\n");

    let mut rows = Vec::new();
    for _query in ["Q1", "Q2", "Q3"] {
        let out = run.step(10_000_000, Ok(()));
        assert!(out.warning.is_none());
        rows.push(out.row);
    }

    assert_eq!(run.completed(), 3);
    assert_eq!(rows.len(), 3);
    assert_eq!(rows[0], "0,0.010000000,\n");
    assert_eq!(rows[1], "1,0.010000000,\n");
    assert_eq!(rows[2], "2,0.010000000,\n");
    for row in &rows {
        let fields: Vec<&str> = row.trim_end().split(',').collect();
        let runtime: f64 = fields[1].parse().unwrap();
        assert!(runtime.is_finite());
        assert!((runtime - 0.01).abs() < 1e-12);
        assert_eq!(fields[2], "");
    }
}

#[test]
fn update_run_failure_gets_sentinel() {
    // Operation 0 succeeds, operation 1 receives an HTTP 500: row 0 has a
    // finite runtime and an empty error; row 1 has the infinity sentinel
    // and a non-empty error description.
    let (mut run, _header) = UpdateRun::new(true);

    let ok = run.step(2_500_000, Ok(()));
    assert_eq!(ok.row, "0,0.002500000,\n");
    assert!(ok.warning.is_none());

    let failed = run.step(7, Err(http_status(500, "HTTP status 500")));
    assert_eq!(
        failed.row,
        "1,inf,Received error HTTP response: HTTP status 500\n"
    );
    assert!(matches!(failed.record.runtime, Runtime::Unbounded));
    let warning = failed.warning.expect("a failed operation yields a diagnostic");
    assert_eq!(
        warning,
        "query 1 failed: Received error HTTP response: HTTP status 500"
    );

    // The sentinel parses as infinity and sorts after every finite value.
    let ok_runtime: f64 = ok.row.trim_end().split(',').nth(1).unwrap().parse().unwrap();
    let failed_runtime: f64 = failed.row.trim_end().split(',').nth(1).unwrap().parse().unwrap();
    assert!(ok_runtime.is_finite());
    assert!(failed_runtime.is_infinite() && failed_runtime > 0.0);
    assert!(failed_runtime > ok_runtime);
    assert!(failed_runtime > f64::MAX);
}

#[test]
fn update_run_empty_input_emits_header_only() {
    // An empty input yields exactly the header row and no data rows.
    let (run, header) = UpdateRun::new(true);
    assert_eq!(header, "query_id,runtime_secs,error\n");
    assert_eq!(run.completed(), 0);
}

#[test]
fn update_run_ids_increase_without_gaps() {
    // N operations yield N rows whose ids are 0..N-1 in order; with the
    // header that is N+1 output lines.
    let (mut run, header) = UpdateRun::new(false);
    let n = 10u64;
    let mut output = header;
    for i in 0..n {
        let outcome = if i % 3 == 2 { Err(transport("refused")) } else { Ok(()) };
        let out = run.step(1_000 * i, outcome);
        assert_eq!(out.record.id, i);
        output.push_str(&out.row);
    }
    assert_eq!(run.completed(), n);
    let lines: Vec<&str> = output.lines().collect();
    assert_eq!(lines.len() as u64, n + 1);
    for (i, line) in lines.iter().skip(1).enumerate() {
        let id: u64 = line.split(',').next().unwrap().parse().unwrap();
        assert_eq!(id, i as u64);
    }
}

#[test]
fn update_run_terse_rendering() {
    // With the verbose toggle off the error field carries the terse
    // classification alone.
    let (mut run, _header) = UpdateRun::new(false);
    let out = run.step(1, Err(transport("connection reset by peer")));
    assert_eq!(out.row, "0,inf,Error sending HTTP request\n");
}

#[test]
fn warmup_run_isolates_failures() {
    // One failing operation among five: the run completes, no structured
    // output exists, and exactly one diagnostic entry names the failed
    // operation's id.
    let mut run = WarmupRun::new();
    let mut warnings = Vec::new();
    for i in 0..5u64 {
        let outcome = if i == 2 { Err(transport("boom")) } else { Ok(()) };
        if let Some(w) = run.step(outcome) {
            warnings.push(w);
        }
    }
    assert_eq!(run.completed(), 5);
    assert_eq!(warnings.len(), 1);
    assert_eq!(warnings[0], "query 2 failed: Error sending HTTP request: boom");
    assert!(warnings[0].contains('2'));
}

#[test]
fn warmup_run_never_aborts_on_failures() {
    // Every operation can fail and the warmup still runs to completion.
    let mut run = WarmupRun::new();
    for i in 0..100u64 {
        let w = run.step(Err(http_status(503, "unavailable")));
        assert_eq!(w.unwrap(), format!("query {i} failed: Received error HTTP response: unavailable"));
    }
    assert_eq!(run.completed(), 100);
}
