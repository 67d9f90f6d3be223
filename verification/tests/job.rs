use rikkahub_shell::job::{
    bind_to_kill_on_close_job, kill_on_close_job, BindEvent, BindStep, JobEvent, JobSlot, JobSource,
    JobStep, NO_JOB,
};

/// Binds against a system that answers as given; returns what was done and what was logged.
fn bind(job: usize, opened: Result<(), String>, ok: bool) -> (Vec<&'static str>, Vec<String>) {
    let (mut done, mut logs) = (vec![], vec![]);
    let mut event = BindEvent::Job(job);
    loop {
        event = match bind_to_kill_on_close_job(42, event) {
            BindStep::Open { pid } => {
                assert_eq!(pid, 42);
                done.push("open");
                BindEvent::Opened(opened.clone())
            }
            BindStep::Assign => {
                done.push("assign");
                BindEvent::Assigned { ok }
            }
            BindStep::Close { log } => {
                logs.extend(log);
                done.push("close");
                BindEvent::Closed
            }
            BindStep::Done { log } => {
                logs.extend(log);
                return (done, logs);
            }
        };
    }
}

#[test]
fn a_job_is_created_limited_and_kept() {
    assert!(matches!(kill_on_close_job(JobEvent::Created(Some(9))), JobStep::Limit(9)));
    assert!(matches!(kill_on_close_job(JobEvent::Limited(9)), JobStep::Keep(9)));
    assert!(matches!(kill_on_close_job(JobEvent::Created(None)), JobStep::Keep(NO_JOB)));
}

#[test]
fn a_process_is_opened_assigned_and_closed() {
    assert_eq!(bind(9, Ok(()), true), (vec!["open", "assign", "close"], vec![]));
}

#[test]
fn without_a_job_nothing_is_done() {
    assert_eq!(bind(NO_JOB, Ok(()), true), (vec![], vec![]));
}

#[test]
fn a_process_that_does_not_open_is_logged() {
    assert_eq!(
        bind(9, Err("denied".to_string()), true),
        (vec!["open"], vec!["[sidecar:job] OpenProcess failed: denied".to_string()])
    );
}

#[test]
fn a_process_that_is_not_assigned_is_logged_and_closed() {
    assert_eq!(
        bind(9, Ok(()), false),
        (
            vec!["open", "assign", "close"],
            vec!["[sidecar:job] AssignProcessToJobObject failed (already in a job?)".to_string()]
        )
    );
}

/// The job for the next sidecar, where creation would be answered with `created`; what is asked of
/// the system is added to `asked`.
fn obtain(slot: &mut JobSlot, created: Option<usize>, asked: &mut Vec<&'static str>) -> usize {
    match slot.source() {
        JobSource::Use(job) => job,
        JobSource::Create => {
            asked.push("create");
            let mut event = JobEvent::Created(created);
            loop {
                event = match kill_on_close_job(event) {
                    JobStep::Limit(job) => {
                        asked.push("limit");
                        JobEvent::Limited(job)
                    }
                    JobStep::Keep(job) => {
                        slot.keep(job);
                        return job;
                    }
                };
            }
        }
    }
}

#[test]
fn the_job_is_created_once_for_all_sidecars() {
    let (mut slot, mut asked) = (JobSlot::new(), vec![]);
    for created in [Some(9), Some(10), None] {
        assert_eq!(obtain(&mut slot, created, &mut asked), 9);
    }
    assert_eq!(asked, vec!["create", "limit"]);
}

#[test]
fn a_failed_creation_is_not_tried_again() {
    let (mut slot, mut asked) = (JobSlot::new(), vec![]);
    for created in [None, Some(10), Some(11)] {
        let job = obtain(&mut slot, created, &mut asked);
        assert_eq!(bind(job, Ok(()), true), (vec![], vec![]));
    }
    assert_eq!(asked, vec!["create"]);
    assert_eq!(slot.source(), JobSource::Use(NO_JOB));
}
