use qmk_notifier::{aggregate, build_frame, QmkError, SendEvent, SendSession, SendStep};

fn total_failure() -> QmkError {
    QmkError::SendReportError("hidapi error: Failed to send to any devices".to_string())
}

/// What a driven session asked for, step by step.
#[derive(Debug, PartialEq)]
enum Asked {
    Write(usize, usize),
    Read(usize),
}

/// Drives a session to its end; `accepts(device, frame)` says how each write goes.
fn drive(
    devices: usize,
    payload: Vec<u8>,
    accepts: impl Fn(usize, usize) -> bool,
) -> (Vec<Asked>, Result<(), QmkError>) {
    let mut session = SendSession::new(devices, payload.clone());
    let mut asked = Vec::new();
    loop {
        match session.next_step() {
            SendStep::Write { device, frame, report } => {
                assert_eq!(report, build_frame(&payload, frame));
                asked.push(Asked::Write(device, frame));
                if accepts(device, frame) {
                    session.record(SendEvent::Written);
                } else {
                    session.record(SendEvent::WriteFailed);
                }
            }
            SendStep::Read { device, length, timeout_ms } => {
                assert_eq!(length, 33);
                assert_eq!(timeout_ms, 100);
                asked.push(Asked::Read(device));
                session.record(SendEvent::ReadEnded);
            }
            SendStep::Done(outcome) => {
                assert!(session.is_finished());
                return (asked, outcome);
            }
        }
    }
}

fn writes(asked: &[Asked]) -> Vec<(usize, usize)> {
    let mut writes = Vec::new();
    for step in asked {
        if let Asked::Write(device, frame) = step {
            writes.push((*device, *frame));
        }
    }
    writes
}

#[test]
fn aggregate_of_every_mix() {
    assert_eq!(aggregate(0, 0), Ok(()));
    assert_eq!(aggregate(1, 1), Ok(()));
    assert_eq!(aggregate(4, 4), Ok(()));
    assert_eq!(aggregate(0, 1), Err(total_failure()));
    assert_eq!(aggregate(0, 4), Err(total_failure()));
    for n in 2..6usize {
        for k in 1..n {
            assert_eq!(
                aggregate(k, n),
                Err(QmkError::PartialSendError { succeeded: k, failed: n - k })
            );
        }
    }
}

#[test]
fn total_failure_message() {
    assert_eq!(
        total_failure().message(),
        "Error sending report: hidapi error: Failed to send to any devices"
    );
}

#[test]
fn session_starts_with_the_first_report_of_the_first_device() {
    let payload = vec![7u8; 61];
    let session = SendSession::new(2, payload.clone());
    assert_eq!(session.devices(), 2);
    assert_eq!(session.frames(), 3);
    assert_eq!(session.payload(), &payload);
    assert_eq!(session.succeeded(), 0);
    assert_eq!(session.failed(), 0);
    assert!(!session.is_finished());
    let mut report = vec![7u8; 33];
    report[0] = 0x00;
    report[1] = 0x81;
    report[2] = 0x9F;
    assert_eq!(session.next_step(), SendStep::Write { device: 0, frame: 0, report });
}

#[test]
fn session_without_devices_is_finished() {
    let mut session = SendSession::new(0, vec![1, 2, 3]);
    assert!(session.is_finished());
    assert_eq!(session.next_step(), SendStep::Done(Ok(())));
    session.record(SendEvent::Written);
    session.record(SendEvent::ReadEnded);
    session.record(SendEvent::WriteFailed);
    assert_eq!(session, SendSession::new(0, vec![1, 2, 3]));
}

#[test]
fn read_follows_each_report_that_was_written() {
    let (asked, outcome) = drive(2, vec![9u8; 31], |_, _| true);
    assert_eq!(
        asked,
        vec![
            Asked::Write(0, 0),
            Asked::Read(0),
            Asked::Write(0, 1),
            Asked::Read(0),
            Asked::Write(1, 0),
            Asked::Read(1),
            Asked::Write(1, 1),
            Asked::Read(1),
        ]
    );
    assert_eq!(outcome, Ok(()));
}

#[test]
fn no_read_follows_a_report_that_was_refused() {
    let (asked, outcome) = drive(2, vec![9u8; 31], |device, frame| device == 1 || frame == 0);
    assert_eq!(
        asked,
        vec![
            Asked::Write(0, 0),
            Asked::Read(0),
            Asked::Write(0, 1),
            Asked::Write(1, 0),
            Asked::Read(1),
            Asked::Write(1, 1),
            Asked::Read(1),
        ]
    );
    assert_eq!(outcome, Err(QmkError::PartialSendError { succeeded: 1, failed: 1 }));
}

#[test]
fn every_device_gets_every_report_when_all_goes_well() {
    let (asked, outcome) = drive(2, vec![0u8; 61], |_, _| true);
    assert_eq!(writes(&asked), vec![(0, 0), (0, 1), (0, 2), (1, 0), (1, 1), (1, 2)]);
    assert_eq!(outcome, Ok(()));
}

#[test]
fn empty_payload_is_one_report_for_each_device() {
    let (asked, outcome) = drive(3, Vec::new(), |_, _| true);
    assert_eq!(writes(&asked), vec![(0, 0), (1, 0), (2, 0)]);
    assert_eq!(outcome, Ok(()));
}

#[test]
fn failed_write_ends_that_device_only() {
    let (asked, outcome) = drive(3, vec![0u8; 61], |device, frame| !(device == 1 && frame == 1));
    assert_eq!(
        writes(&asked),
        vec![(0, 0), (0, 1), (0, 2), (1, 0), (1, 1), (2, 0), (2, 1), (2, 2)]
    );
    assert_eq!(outcome, Err(QmkError::PartialSendError { succeeded: 2, failed: 1 }));
}

#[test]
fn all_devices_failing_is_a_total_failure() {
    let (asked, outcome) = drive(2, vec![0u8; 31], |_, frame| frame == 0);
    assert_eq!(writes(&asked), vec![(0, 0), (0, 1), (1, 0), (1, 1)]);
    assert_eq!(outcome, Err(total_failure()));

    let (asked, outcome) = drive(1, vec![1, 2, 3], |_, _| false);
    assert_eq!(asked, vec![Asked::Write(0, 0)]);
    assert_eq!(outcome, Err(total_failure()));
}

#[test]
fn event_that_does_not_answer_the_step_changes_nothing() {
    let mut session = SendSession::new(1, vec![5u8; 40]);
    session.record(SendEvent::ReadEnded);
    assert_eq!(session, SendSession::new(1, vec![5u8; 40]));

    session.record(SendEvent::Written);
    assert_eq!(session.next_step(), SendStep::Read { device: 0, length: 33, timeout_ms: 100 });
    session.record(SendEvent::Written);
    session.record(SendEvent::WriteFailed);
    assert_eq!(session.next_step(), SendStep::Read { device: 0, length: 33, timeout_ms: 100 });
    assert_eq!((session.succeeded(), session.failed()), (0, 0));

    session.record(SendEvent::ReadEnded);
    assert_eq!(
        session.next_step(),
        SendStep::Write { device: 0, frame: 1, report: build_frame(&[5u8; 40], 1) }
    );
}

#[test]
fn session_counts_as_it_goes() {
    let mut session = SendSession::new(3, vec![1u8; 10]);
    session.record(SendEvent::Written);
    assert_eq!((session.succeeded(), session.failed()), (0, 0));
    session.record(SendEvent::ReadEnded);
    assert_eq!((session.succeeded(), session.failed()), (1, 0));
    session.record(SendEvent::WriteFailed);
    assert_eq!((session.succeeded(), session.failed()), (1, 1));
    assert_eq!(
        session.next_step(),
        SendStep::Write { device: 2, frame: 0, report: build_frame(&[1u8; 10], 0) }
    );
    session.record(SendEvent::Written);
    session.record(SendEvent::ReadEnded);
    assert_eq!((session.succeeded(), session.failed()), (2, 1));
    assert!(session.is_finished());
    assert_eq!(
        session.next_step(),
        SendStep::Done(Err(QmkError::PartialSendError { succeeded: 2, failed: 1 }))
    );
    session.record(SendEvent::Written);
    session.record(SendEvent::ReadEnded);
    assert_eq!((session.succeeded(), session.failed()), (2, 1));
}

#[test]
fn outcome_counts_the_devices_that_took_every_report() {
    for mask in 0u32..16 {
        let (_, outcome) =
            drive(4, vec![3u8; 45], |device, frame| frame == 0 || mask & (1 << device) != 0);
        let k = mask.count_ones() as usize;
        let expected = if k == 4 {
            Ok(())
        } else if k == 0 {
            Err(total_failure())
        } else {
            Err(QmkError::PartialSendError { succeeded: k, failed: 4 - k })
        };
        assert_eq!(outcome, expected);
    }
}
