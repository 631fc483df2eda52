use si470x::{ResetSequence, ResetStep};

fn run(with_sen: bool, fail_at: Option<usize>) -> (Vec<ResetStep>, Option<Result<(), ()>>) {
    let mut seq = ResetSequence::new(with_sen);
    let mut steps = Vec::new();
    while let Some(step) = seq.next_step() {
        let ok = fail_at != Some(steps.len());
        steps.push(step);
        seq.record(ok);
    }
    (steps, seq.outcome())
}

#[test]
fn reset_with_sen() {
    let (steps, outcome) = run(true, None);
    assert_eq!(
        steps,
        vec![
            ResetStep::SetRstLow,
            ResetStep::SetSdaLow,
            ResetStep::SetSenHigh,
            ResetStep::DelayMs(5),
            ResetStep::SetRstHigh,
            ResetStep::DelayMs(5),
        ]
    );
    assert_eq!(outcome, Some(Ok(())));
}

#[test]
fn reset_without_sen() {
    let (steps, outcome) = run(false, None);
    assert_eq!(
        steps,
        vec![
            ResetStep::SetRstLow,
            ResetStep::SetSdaLow,
            ResetStep::DelayMs(5),
            ResetStep::SetRstHigh,
            ResetStep::DelayMs(5),
        ]
    );
    assert_eq!(outcome, Some(Ok(())));
}

#[test]
fn reset_stops_at_first_failure() {
    let (steps, outcome) = run(true, Some(1));
    assert_eq!(steps, vec![ResetStep::SetRstLow, ResetStep::SetSdaLow]);
    assert_eq!(outcome, Some(Err(())));
    let (steps, outcome) = run(false, Some(3));
    assert_eq!(steps.len(), 4);
    assert_eq!(steps[3], ResetStep::SetRstHigh);
    assert_eq!(outcome, Some(Err(())));
}

#[test]
fn reset_in_progress_has_no_outcome() {
    let mut seq = ResetSequence::new(false);
    assert_eq!(seq.outcome(), None);
    seq.record(true);
    assert_eq!(seq.next_step(), Some(ResetStep::SetSdaLow));
    assert_eq!(seq.outcome(), None);
}
