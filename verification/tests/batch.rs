use wasm_boundary::batch::tally;
use wasm_boundary::batch::BatchReport;
use wasm_boundary::error::raise;
use wasm_boundary::error::Failure;

#[test]
fn an_empty_batch_has_no_outcomes() {
    assert_eq!(tally(&Vec::new()), BatchReport { succeeded: 0, failed: 0 });
}

#[test]
fn every_outcome_is_counted_once() {
    let outcomes = vec![
        Ok(String::from("a")),
        Err(raise(Failure::Memory)),
        Ok(String::from("b")),
        Ok(String::new()),
        Err(raise(Failure::CallError(String::from("unreachable")))),
    ];
    assert_eq!(tally(&outcomes), BatchReport { succeeded: 3, failed: 2 });
}

#[test]
fn a_failure_does_not_end_the_count() {
    let mut outcomes = vec![Err(raise(Failure::Memory))];
    for _ in 0..1000 {
        outcomes.push(Ok(".".repeat(1000)));
    }
    assert_eq!(tally(&outcomes), BatchReport { succeeded: 1000, failed: 1 });
}
