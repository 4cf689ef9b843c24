use rust_store::{
    fill_event, CResult, ErrorClass, Job, JobAction, JobEvent, JobStage, MultipartUpload,
    Response, RetryDecision, RetryPolicy, TransferError, UploadAction, UploadStage,
};

#[test]
fn response_starts_uninitialized() {
    let r = Response::new();
    assert_eq!(r.result, CResult::Uninitialized);
    assert_eq!(r.length, 0);
    assert!(r.error_message.is_none());
}

#[test]
fn response_success_and_error() {
    let mut r = Response::new();
    r.from_error("boom".to_string());
    assert_eq!(r.result, CResult::Error);
    assert_eq!(r.length, 0);
    assert_eq!(r.error_message.as_deref(), Some("boom"));
    r.success(42);
    assert_eq!(r.result, CResult::Success);
    assert_eq!(r.length, 42);
    assert!(r.error_message.is_none());
}

#[test]
fn retry_policy_zero_attempts_means_one() {
    assert_eq!(RetryPolicy::new(0, 5).max_attempts, 1);
    assert_eq!(RetryPolicy::new(3, 5), RetryPolicy { max_attempts: 3, delay_ms: 5 });
}

#[test]
fn retry_policy_decisions() {
    let p = RetryPolicy::new(3, 10);
    assert_eq!(p.decide(1, ErrorClass::Transient), RetryDecision::Retry { delay_ms: 10 });
    assert_eq!(p.decide(2, ErrorClass::Transient), RetryDecision::Retry { delay_ms: 10 });
    assert_eq!(p.decide(3, ErrorClass::Transient), RetryDecision::Stop);
    assert_eq!(p.decide(1, ErrorClass::NotFound), RetryDecision::Stop);
    assert_eq!(p.decide(1, ErrorClass::Other), RetryDecision::Stop);
}

#[test]
fn zero_attempt_limit_runs_once() {
    let p = RetryPolicy { max_attempts: 0, delay_ms: 1 };
    assert_eq!(p.decide(1, ErrorClass::Transient), RetryDecision::Stop);
    let (resp, runs, notified) = drive(p, &[Err(ErrorClass::Transient), Ok(1)]);
    assert_eq!(resp.result, CResult::Error);
    assert_eq!(runs, 1);
    assert_eq!(notified, 1);
}

#[test]
fn multipart_finish_event_classes() {
    let mut up = MultipartUpload::new();
    match up.finish_event(Err("denied".to_string()), ErrorClass::Other, 9) {
        JobEvent::TransferFailed(c, m) => {
            assert_eq!(c, ErrorClass::Other);
            assert_eq!(m, "denied");
        }
        _ => panic!("expected a failure"),
    }
    up.step(Ok(()));
    assert!(up.opened);
    match up.finish_event(Err("reset".to_string()), ErrorClass::Other, 9) {
        JobEvent::TransferFailed(c, _) => assert_eq!(c, ErrorClass::Transient),
        _ => panic!("expected a failure"),
    }
    match up.finish_event(Ok(()), ErrorClass::Other, 9) {
        JobEvent::TransferSucceeded(n) => assert_eq!(n, 9),
        _ => panic!("expected a success"),
    }
}

/// Runs a job whose transfer gives `outcomes` in turn; returns the record,
/// the number of transfer runs and the number of host notifications.
fn drive(policy: RetryPolicy, outcomes: &[Result<usize, ErrorClass>]) -> (Response, usize, usize) {
    let mut job = Job::new(policy);
    let mut resp = Response::new();
    let mut runs = 0;
    let mut notified = 0;
    let mut action = job.step(&mut resp, JobEvent::ClientReady);
    let mut next = outcomes.iter();
    loop {
        match action {
            JobAction::StartTransfer | JobAction::RetryAfter(_) => {
                runs += 1;
                let ev = match next.next() {
                    Some(Ok(n)) => JobEvent::TransferSucceeded(*n),
                    Some(Err(c)) => JobEvent::TransferFailed(*c, format!("failure {}", runs)),
                    None => panic!("ran out of outcomes"),
                };
                action = job.step(&mut resp, ev);
            }
            JobAction::NotifyHost => {
                notified += 1;
                break;
            }
            JobAction::Ignore => break,
        }
    }
    assert_eq!(job.step(&mut resp, JobEvent::TransferSucceeded(1)), JobAction::Ignore);
    (resp, runs, notified)
}

#[test]
fn transient_failures_then_success_is_ok() {
    let p = RetryPolicy::new(4, 0);
    let outs = [Err(ErrorClass::Transient), Err(ErrorClass::Transient), Err(ErrorClass::Transient), Ok(7)];
    let (resp, runs, notified) = drive(p, &outs);
    assert_eq!(resp.result, CResult::Success);
    assert_eq!(resp.length, 7);
    assert_eq!(runs, 4);
    assert_eq!(notified, 1);
}

#[test]
fn persistent_transient_failure_exhausts_attempts() {
    let p = RetryPolicy::new(3, 0);
    let outs = [Err(ErrorClass::Transient); 10];
    let (resp, runs, notified) = drive(p, &outs);
    assert_eq!(resp.result, CResult::Error);
    assert_eq!(resp.error_message.as_deref(), Some("failure 3"));
    assert_eq!(runs, 3);
    assert_eq!(notified, 1);
}

#[test]
fn definitive_failure_is_not_retried() {
    let p = RetryPolicy::new(5, 0);
    let outs = [Err(ErrorClass::NotFound), Ok(1)];
    let (resp, runs, notified) = drive(p, &outs);
    assert_eq!(resp.result, CResult::Error);
    assert_eq!(runs, 1);
    assert_eq!(notified, 1);
}

#[test]
fn client_failure_notifies_once() {
    let mut job = Job::new(RetryPolicy::new(3, 0));
    let mut resp = Response::new();
    assert_eq!(job.step(&mut resp, JobEvent::ClientFailed("bad host".to_string())), JobAction::NotifyHost);
    assert_eq!(job.stage, JobStage::Completed);
    assert_eq!(resp.result, CResult::Error);
    assert_eq!(resp.error_message.as_deref(), Some("bad host"));
    assert_eq!(job.step(&mut resp, JobEvent::ClientReady), JobAction::Ignore);
    assert_eq!(job.step(&mut resp, JobEvent::ClientFailed("again".to_string())), JobAction::Ignore);
    assert_eq!(resp.error_message.as_deref(), Some("bad host"));
}

#[test]
fn capacity_failure_notifies_once() {
    let mut job = Job::new(RetryPolicy::new(3, 0));
    let mut resp = Response::new();
    assert_eq!(job.step(&mut resp, JobEvent::ClientReady), JobAction::StartTransfer);
    let ev = fill_event(Err(TransferError::BufferTooSmall));
    assert_eq!(job.step(&mut resp, ev), JobAction::NotifyHost);
    assert_eq!(resp.result, CResult::Error);
    assert_eq!(resp.error_message.as_deref(), Some("Supplied buffer was too small"));
    assert_eq!(job.step(&mut resp, JobEvent::TransferSucceeded(3)), JobAction::Ignore);
    assert_eq!(resp.result, CResult::Error);
}

#[test]
fn fill_event_success() {
    match fill_event(Ok(12)) {
        JobEvent::TransferSucceeded(n) => assert_eq!(n, 12),
        _ => panic!("expected a success"),
    }
}

#[test]
fn events_before_client_are_ignored() {
    let mut job = Job::new(RetryPolicy::new(3, 0));
    let mut resp = Response::new();
    assert_eq!(job.step(&mut resp, JobEvent::TransferSucceeded(3)), JobAction::Ignore);
    assert_eq!(job.stage, JobStage::Resolving);
    assert_eq!(resp.result, CResult::Uninitialized);
}

#[test]
fn multipart_happy_path() {
    let mut up = MultipartUpload::new();
    assert!(matches!(up.step(Ok(())), UploadAction::Write));
    assert!(matches!(up.step(Ok(())), UploadAction::Flush));
    assert!(matches!(up.step(Ok(())), UploadAction::Shutdown));
    assert!(matches!(up.step(Ok(())), UploadAction::Finish(Ok(()))));
    assert!(matches!(up.step(Ok(())), UploadAction::Ignore));
}

#[test]
fn multipart_write_failure_aborts_then_surfaces_it() {
    let mut up = MultipartUpload::new();
    assert!(matches!(up.step(Ok(())), UploadAction::Write));
    assert!(matches!(up.step(Err("write failed".to_string())), UploadAction::Abort));
    match up.step(Err("abort failed".to_string())) {
        UploadAction::Finish(Err(m)) => assert_eq!(m, "write failed"),
        _ => panic!("expected the write failure"),
    }
    assert!(matches!(up.stage, UploadStage::Done(Err(_))));
}

#[test]
fn multipart_flush_failure_aborts() {
    let mut up = MultipartUpload::new();
    up.step(Ok(()));
    up.step(Ok(()));
    assert!(matches!(up.step(Err("flush failed".to_string())), UploadAction::Abort));
    match up.step(Ok(())) {
        UploadAction::Finish(Err(m)) => assert_eq!(m, "flush failed"),
        _ => panic!("expected the flush failure"),
    }
}

#[test]
fn multipart_open_failure_surfaces_without_abort() {
    let mut up = MultipartUpload::new();
    match up.step(Err("no upload".to_string())) {
        UploadAction::Finish(Err(m)) => assert_eq!(m, "no upload"),
        _ => panic!("expected the open failure"),
    }
}

#[test]
fn multipart_shutdown_failure_surfaces() {
    let mut up = MultipartUpload::new();
    up.step(Ok(()));
    up.step(Ok(()));
    up.step(Ok(()));
    match up.step(Err("complete failed".to_string())) {
        UploadAction::Finish(Err(m)) => assert_eq!(m, "complete failed"),
        _ => panic!("expected the shutdown failure"),
    }
}
