use version_adapter::canonical::ExecutionOutcome;
use version_adapter::canonical::FailureReason;
use version_adapter::classifier::classify;
use version_adapter::raw::FailureDescriptor;

fn reason(code: u64, data: Vec<u8>) -> FailureReason {
    FailureReason { code, data }
}

#[test]
fn no_descriptor_is_success_with_exact_bytes() {
    let outcome = classify(None, vec![0xde, 0xad, 0xbe, 0xef]);
    match outcome {
        ExecutionOutcome::Success { output } => {
            assert_eq!(output, vec![0xde, 0xad, 0xbe, 0xef]);
        }
        _ => panic!("expected a success outcome"),
    }
}

#[test]
fn no_descriptor_empty_return_data_is_success_with_empty_output() {
    let outcome = classify(None, Vec::new());
    match outcome {
        ExecutionOutcome::Success { output } => {
            assert!(output.is_empty());
        }
        _ => panic!("expected a success outcome"),
    }
}

#[test]
fn reverted_descriptor_is_revert_with_reason_unchanged() {
    let descriptor = FailureDescriptor::Reverted(reason(3, vec![1, 2, 3]));
    let outcome = classify(Some(descriptor), vec![9, 9, 9]);
    match outcome {
        ExecutionOutcome::Revert { reason } => {
            assert_eq!(reason.code, 3);
            assert_eq!(reason.data, vec![1, 2, 3]);
        }
        _ => panic!("expected a revert outcome"),
    }
}

#[test]
fn halted_descriptor_is_halt_with_reason_unchanged() {
    let descriptor = FailureDescriptor::Halted(reason(7, vec![4, 5]));
    let outcome = classify(Some(descriptor), vec![9, 9, 9]);
    match outcome {
        ExecutionOutcome::Halt { reason } => {
            assert_eq!(reason.code, 7);
            assert_eq!(reason.data, vec![4, 5]);
        }
        _ => panic!("expected a halt outcome"),
    }
}

#[test]
fn failure_outcomes_never_carry_return_data() {
    let outcome = classify(
        Some(FailureDescriptor::Reverted(reason(1, Vec::new()))),
        vec![0xaa, 0xbb],
    );
    assert!(!matches!(outcome, ExecutionOutcome::Success { .. }));
}
