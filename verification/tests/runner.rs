use ffmpeg_split::error::{FailedJob, SplitError};
use ffmpeg_split::runner::{max_jobs, Action, JobOutcome, JobRunner};

#[test]
fn wish_for_jobs_is_kept_within_the_machine() {
    assert_eq!(max_jobs(None, 8), 8);
    assert_eq!(max_jobs(Some(0), 8), 8);
    assert_eq!(max_jobs(Some(1), 8), 1);
    assert_eq!(max_jobs(Some(3), 8), 3);
    assert_eq!(max_jobs(Some(8), 8), 8);
    assert_eq!(max_jobs(Some(9), 8), 8);
    assert_eq!(max_jobs(Some(u32::MAX), 1), 1);
    assert_eq!(max_jobs(Some(5), 0), 0);
    assert_eq!(max_jobs(None, 0), 0);
}

#[test]
fn one_job_at_a_time() {
    let mut runner = JobRunner::new(3, Some(1), 4);
    for index in 0..3 {
        assert_eq!(runner.next_action(), Action::Start(index));
        assert_eq!(runner.running(), 1);
        assert_eq!(runner.next_action(), Action::Wait);
        assert!(runner.record(index, JobOutcome::Succeeded));
        assert_eq!(runner.running(), 0);
    }
    assert_eq!(runner.next_action(), Action::Done);
    assert_eq!(runner.next_action(), Action::Done);
    assert!(matches!(runner.finish(), Ok(3)));
}

#[test]
fn never_more_jobs_than_the_limit() {
    let mut runner = JobRunner::new(5, Some(2), 4);
    assert_eq!(runner.next_action(), Action::Start(0));
    assert_eq!(runner.next_action(), Action::Start(1));
    assert_eq!(runner.next_action(), Action::Wait);
    assert_eq!(runner.next_action(), Action::Wait);
    assert_eq!(runner.running(), 2);
    assert!(runner.record(1, JobOutcome::Succeeded));
    assert_eq!(runner.next_action(), Action::Start(2));
    assert_eq!(runner.next_action(), Action::Wait);
    assert!(runner.record(0, JobOutcome::Succeeded));
    assert!(runner.record(2, JobOutcome::Succeeded));
    assert_eq!(runner.running(), 0);
    assert_eq!(runner.next_action(), Action::Start(3));
    assert_eq!(runner.next_action(), Action::Start(4));
    assert_eq!(runner.next_action(), Action::Wait);
    assert!(runner.record(4, JobOutcome::Succeeded));
    assert_eq!(runner.next_action(), Action::Wait);
    assert!(runner.record(3, JobOutcome::Succeeded));
    assert_eq!(runner.next_action(), Action::Done);
    assert!(matches!(runner.finish(), Ok(5)));
}

#[test]
fn all_jobs_at_once_where_the_machine_allows() {
    let mut runner = JobRunner::new(3, None, 16);
    assert_eq!(runner.next_action(), Action::Start(0));
    assert_eq!(runner.next_action(), Action::Start(1));
    assert_eq!(runner.next_action(), Action::Start(2));
    assert_eq!(runner.next_action(), Action::Wait);
    assert_eq!(runner.running(), 3);
}

#[test]
fn limit_of_zero_units_still_runs_one_job() {
    let mut runner = JobRunner::new(2, None, 0);
    assert_eq!(runner.next_action(), Action::Start(0));
    assert_eq!(runner.next_action(), Action::Wait);
    assert!(runner.record(0, JobOutcome::Succeeded));
    assert_eq!(runner.next_action(), Action::Start(1));
}

#[test]
fn no_jobs_are_done_at_once() {
    let mut runner = JobRunner::new(0, Some(4), 4);
    assert_eq!(runner.next_action(), Action::Done);
    assert!(!runner.record(0, JobOutcome::Succeeded));
    assert!(matches!(runner.finish(), Ok(0)));
}

#[test]
fn failures_do_not_stop_the_run() {
    let mut runner = JobRunner::new(3, Some(1), 4);
    assert_eq!(runner.next_action(), Action::Start(0));
    assert!(runner.record(0, JobOutcome::Failed("No such file".to_string())));
    assert_eq!(runner.next_action(), Action::Start(1));
    assert!(runner.record(1, JobOutcome::Succeeded));
    assert_eq!(runner.next_action(), Action::Start(2));
    assert!(runner.record(2, JobOutcome::Failed("File exists".to_string())));
    assert_eq!(runner.next_action(), Action::Done);
    match runner.finish() {
        Err(SplitError::JobExecution(failures)) => {
            assert_eq!(failures.len(), 2);
            assert_eq!(failures[0].index, 0);
            assert_eq!(failures[0].detail, "No such file");
            assert_eq!(failures[1].index, 2);
            assert_eq!(failures[1].detail, "File exists");
        }
        other => panic!("unexpected: {:?}", other),
    }
}

#[test]
fn records_of_jobs_that_do_not_run_are_refused() {
    let mut runner = JobRunner::new(3, Some(2), 4);
    assert!(!runner.record(0, JobOutcome::Failed("early".to_string())));
    assert_eq!(runner.next_action(), Action::Start(0));
    assert!(!runner.record(1, JobOutcome::Succeeded));
    assert!(!runner.record(2, JobOutcome::Failed("not started".to_string())));
    assert!(runner.record(0, JobOutcome::Succeeded));
    assert!(!runner.record(0, JobOutcome::Succeeded));
    assert_eq!(runner.running(), 0);
    assert_eq!(runner.next_action(), Action::Start(1));
    assert_eq!(runner.next_action(), Action::Start(2));
    assert!(runner.record(1, JobOutcome::Succeeded));
    assert!(runner.record(2, JobOutcome::Succeeded));
    assert!(matches!(runner.finish(), Ok(3)));
}

#[test]
fn cancelling_starts_no_more_jobs() {
    let mut runner = JobRunner::new(10, Some(2), 4);
    assert_eq!(runner.next_action(), Action::Start(0));
    assert_eq!(runner.next_action(), Action::Start(1));
    assert!(runner.record(0, JobOutcome::Succeeded));
    runner.cancel();
    assert_eq!(runner.next_action(), Action::Wait);
    assert!(runner.record(1, JobOutcome::Succeeded));
    assert_eq!(runner.next_action(), Action::Done);
    assert!(matches!(runner.finish(), Ok(2)));
}

#[test]
fn a_run_takes_two_steps_for_each_job() {
    for total in 0usize..12 {
        for limit in 1u32..5 {
            let mut runner = JobRunner::new(total, Some(limit), 4);
            let mut running: Vec<usize> = Vec::new();
            let mut steps = 0;
            loop {
                match runner.next_action() {
                    Action::Start(index) => {
                        running.push(index);
                        steps += 1;
                    }
                    Action::Wait => {
                        let index = running.remove(0);
                        assert!(runner.record(index, JobOutcome::Succeeded));
                        steps += 1;
                    }
                    Action::Done => break,
                }
                assert!(running.len() <= limit as usize);
                assert_eq!(runner.running(), running.len());
            }
            assert_eq!(steps, 2 * total);
        }
    }
}

#[test]
fn messages_and_exit_codes() {
    let cases = vec![
        (
            SplitError::ProbeInvocation("No such file or directory".to_string()),
            "Calling ffprobe failed: No such file or directory",
        ),
        (SplitError::Encoding, "Output of ffprobe is not valid UTF-8"),
        (
            SplitError::Parse("expected value at line 1 column 1".to_string()),
            "Could not parse JSON: expected value at line 1 column 1",
        ),
        (SplitError::NoChapters, "Input file contains no chapter metadata. Cannot continue."),
        (
            SplitError::InputFileName,
            "Input file needs a name with an extension, or an output extension",
        ),
        (
            SplitError::DirectoryCreation("\"out\": Permission denied".to_string()),
            "Failed to create directory: \"out\": Permission denied",
        ),
        (
            SplitError::JobExecution(vec![
                FailedJob { index: 0, detail: "File exists".to_string() },
                FailedJob { index: 11, detail: "Invalid data".to_string() },
            ]),
            "Calling ffmpeg failed:\nchapter 1: File exists\nchapter 12: Invalid data",
        ),
        (SplitError::JobExecution(vec![]), "Calling ffmpeg failed:"),
    ];
    for (error, message) in &cases {
        assert_eq!(error.message(), *message);
        assert_ne!(error.exit_code(), 0);
        match error {
            SplitError::NoChapters => assert_eq!(error.exit_code(), 2),
            _ => assert_eq!(error.exit_code(), 1),
        }
    }
}
