use matrix_goose::cancel::{CancelOp, CancelSignal};

#[test]
fn new_signal_is_not_raised() {
    let signal = CancelSignal::new();
    assert!(!signal.is_cancelled());
}

#[test]
fn signal_cancel_raises_once() {
    let mut signal = CancelSignal::new();
    assert!(signal.signal_cancel());
    assert!(signal.is_cancelled());
    assert!(!signal.signal_cancel());
    assert!(signal.is_cancelled());
}

#[test]
fn raised_signal_never_reverts() {
    let mut signal = CancelSignal::new();
    let history = [
        CancelOp::Read,
        CancelOp::Signal,
        CancelOp::Read,
        CancelOp::Signal,
        CancelOp::Read,
        CancelOp::Read,
    ];
    let mut seen = Vec::new();
    for op in history.iter() {
        seen.push(signal.apply(op));
    }
    assert_eq!(seen, vec![false, true, true, false, true, true]);
    assert!(signal.is_cancelled());
}
