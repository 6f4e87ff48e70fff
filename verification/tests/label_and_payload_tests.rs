use tunnelcheck::experiment::report_line;
use tunnelcheck::payload::check_payload;
use tunnelcheck::payload::hello_payload;
use tunnelcheck::payload::PayloadError;
use tunnelcheck::policy::CloseDetectMode;
use tunnelcheck::policy::CloseDetectOpts;
use tunnelcheck::policy::ReadingPolicy;
use tunnelcheck::policy::WritingPolicy;

fn opts(
    mode: CloseDetectMode,
    incoming_write: WritingPolicy,
    outgoing_write: WritingPolicy,
    incoming_read: ReadingPolicy,
    outgoing_read: ReadingPolicy,
) -> CloseDetectOpts {
    CloseDetectOpts {
        report_buffer_sizes: false,
        outgoing_write,
        outgoing_read,
        incoming_write,
        incoming_read,
        mode,
    }
}

#[test]
fn label_of_the_clogged_incoming_scenario() {
    let c = opts(
        CloseDetectMode::CloseOutgoingCheckIncoming,
        WritingPolicy::Clog,
        WritingPolicy::Ignore,
        ReadingPolicy::Ignore,
        ReadingPolicy::Ignore,
    );
    assert_eq!(c.label(), "outClose_inClogCheck");
}

#[test]
fn label_names_every_active_policy() {
    let c = opts(
        CloseDetectMode::CloseIncomingCheckOutgoing,
        WritingPolicy::Shutdown,
        WritingPolicy::Clog,
        ReadingPolicy::Ignore,
        ReadingPolicy::Drain,
    );
    assert_eq!(c.label(), "outClogDrainCheck_inShutClose");
}

#[test]
fn label_of_the_all_ignore_configuration_is_bare() {
    let c = opts(
        CloseDetectMode::CloseIncomingCheckOutgoing,
        WritingPolicy::Ignore,
        WritingPolicy::Ignore,
        ReadingPolicy::Ignore,
        ReadingPolicy::Ignore,
    );
    assert_eq!(c.label(), "outCheck_inClose");
}

#[test]
fn report_lines_carry_the_outcome_and_the_label() {
    let c = opts(
        CloseDetectMode::CloseOutgoingCheckIncoming,
        WritingPolicy::Clog,
        WritingPolicy::Ignore,
        ReadingPolicy::Ignore,
        ReadingPolicy::Ignore,
    );
    assert_eq!(
        report_line(&c, true),
        "[ OK ] Clogged close test passed: outClose_inClogCheck"
    );
    assert_eq!(
        report_line(&c, false),
        "[FAIL] Clogged close test failed: outClose_inClogCheck"
    );
}

#[test]
fn hello_payload_is_the_five_hello_bytes() {
    assert_eq!(hello_payload(), b"Hello".to_vec());
}

#[test]
fn verbatim_payload_is_accepted() {
    let v = b"Hello".to_vec();
    assert_eq!(check_payload(&v), Ok(()));
}

#[test]
fn empty_payload_is_rejected_as_empty() {
    let v: Vec<u8> = Vec::new();
    assert_eq!(check_payload(&v), Err(PayloadError::EmptyPayload));
}

#[test]
fn altered_payload_is_rejected_as_mismatched() {
    assert_eq!(check_payload(&b"World".to_vec()), Err(PayloadError::Mismatched));
    assert_eq!(check_payload(&b"Hell".to_vec()), Err(PayloadError::Mismatched));
    assert_eq!(check_payload(&b"Hello!".to_vec()), Err(PayloadError::Mismatched));
    assert_eq!(check_payload(&b"hello".to_vec()), Err(PayloadError::Mismatched));
}

#[test]
fn payload_errors_explain_themselves() {
    assert_eq!(
        PayloadError::EmptyPayload.message(),
        "Empty string received from the forwarder"
    );
    assert_eq!(
        PayloadError::Mismatched.message(),
        "String mismatch after passing through the forwarder"
    );
}
