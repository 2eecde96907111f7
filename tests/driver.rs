use goupil::driver::{
    located_sector, run_batch, poll_result, Batch, TraceAfter, TraceProgress, TraceStep, MAX_ZERO_STEPS,
    TRACE_POLL_PERIOD, TRANSPORT_POLL_PERIOD,
};
use goupil::error::Error;

#[test]
fn locate_inside_and_outside() {
    // A photon inside the lower of two layers, and one above the top interface.
    assert_eq!(located_sector(Some(0), 2), 0);
    assert_eq!(located_sector(None, 2), 2);
}

#[test]
fn poll_results() {
    assert_eq!(poll_result(false), Ok(()));
    assert_eq!(poll_result(true), Err(Error::Cancelled));
}

#[test]
fn batch_polls_every_period() {
    let mut b = Batch::new(250, TRANSPORT_POLL_PERIOD);
    let mut polls = Vec::new();
    while let Some(i) = b.next_index() {
        if b.finish_item() {
            polls.push(i);
        }
    }
    assert_eq!(polls, vec![0, 100, 200]);
    assert_eq!(b.done, 250);
}

#[test]
fn cancellation_mid_batch() {
    let n = 1_000_000;
    let mut written = vec![false; n];
    let mut b = Batch::new(n, TRANSPORT_POLL_PERIOD);
    let mut result = Ok(());
    while let Some(i) = b.next_index() {
        written[i] = true;
        let signalled = i >= n / 2;
        result = b.complete_item(signalled);
        if result.is_err() {
            break;
        }
    }
    assert_eq!(result, Err(Error::Cancelled));
    assert!(written.iter().any(|w| *w));
    assert!(written.iter().any(|w| !*w));
    assert_eq!(b.done, n / 2 + 1);
}

#[test]
fn signal_between_polls_is_ignored() {
    let mut b = Batch::new(3, TRANSPORT_POLL_PERIOD);
    assert_eq!(b.complete_item(false), Ok(()));
    assert_eq!(b.complete_item(true), Ok(()));
    assert_eq!(b.done, 2);
}

#[test]
fn two_layer_trace_columns() {
    // A photon at z = 0.25 heading up through a layer bounded above at z = 1; the tracer reports
    // one step of 0.75 in sector 0, then the photon is outside.
    let mut p = TraceProgress::new(2);
    let mut columns = vec![0.0f64; 2];
    let sectors = [Some(0), None];
    let steps = [0.75f64];
    let mut k = 0;
    p.start_photon();
    loop {
        match p.next(sectors[k]).unwrap() {
            TraceStep::Done => break,
            TraceStep::Accumulate(s) => {
                columns[s] += steps[k];
                match p.after_step(false, false, steps[k] == 0.0).unwrap() {
                    TraceAfter::Done => break,
                    TraceAfter::Update { poll } => assert!(!poll),
                }
                k += 1;
            }
        }
    }
    assert_eq!(columns, vec![0.75, 0.0]);
}

#[test]
fn trace_length_budget_ends_photon() {
    let mut p = TraceProgress::new(1);
    assert_eq!(p.next(Some(0)), Ok(TraceStep::Accumulate(0)));
    assert_eq!(p.after_step(true, true, false), Ok(TraceAfter::Done));
    assert_eq!(p.steps, 0);
    assert_eq!(p.after_step(true, false, false), Ok(TraceAfter::Update { poll: false }));
    assert_eq!(p.steps, 1);
}

#[test]
fn trace_sector_out_of_range() {
    let p = TraceProgress::new(2);
    assert_eq!(p.next(Some(2)), Err(Error::Io));
    assert_eq!(p.next(None), Ok(TraceStep::Done));
}

#[test]
fn trace_polls_every_period() {
    let mut p = TraceProgress::new(1);
    for _ in 0..TRACE_POLL_PERIOD - 1 {
        assert_eq!(p.after_step(false, false, false), Ok(TraceAfter::Update { poll: false }));
    }
    assert_eq!(p.after_step(false, false, false), Ok(TraceAfter::Update { poll: true }));
    assert_eq!(p.steps, 0);
}

#[test]
fn grazing_steps_are_bounded() {
    let mut p = TraceProgress::new(1);
    for _ in 0..MAX_ZERO_STEPS - 1 {
        assert!(p.after_step(false, false, true).is_ok());
    }
    assert_eq!(p.after_step(false, false, true), Err(Error::NumericalInstability));
    let mut q = TraceProgress::new(1);
    for _ in 0..MAX_ZERO_STEPS - 1 {
        q.after_step(false, false, true).unwrap();
    }
    q.after_step(false, false, false).unwrap();
    assert_eq!(q.zero_steps, 0);
    q.after_step(false, false, true).unwrap();
    q.start_photon();
    assert_eq!(q.zero_steps, 0);
}

#[test]
fn run_batch_cancelled_mid_batch() {
    let n = 1_000_000;
    let signals: Vec<bool> = (0..n).map(|i| i >= 123_456).collect();
    let (written, result) = run_batch(&signals, TRANSPORT_POLL_PERIOD);
    assert_eq!(result, Err(Error::Cancelled));
    assert_eq!(written, 123_501);
    assert!(written >= 1 && written < n);
}

#[test]
fn run_batch_without_signal_completes() {
    let signals = vec![false; 250];
    assert_eq!(run_batch(&signals, TRANSPORT_POLL_PERIOD), (250, Ok(())));
    let late = vec![false, true, true];
    assert_eq!(run_batch(&late, TRANSPORT_POLL_PERIOD), (3, Ok(())));
    assert_eq!(run_batch(&vec![], TRANSPORT_POLL_PERIOD), (0, Ok(())));
    assert_eq!(run_batch(&vec![true, false], TRANSPORT_POLL_PERIOD), (1, Err(Error::Cancelled)));
}
