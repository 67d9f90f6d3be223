//! Tying the sidecar's life to the shell's with a job that kills its processes when it is closed.
//! The system closes the job when the shell ends, for whatever reason, because the shell holds the
//! only handle to it and never closes it.

use vstd::prelude::*;

use crate::text::join;

verus! {

/// Stands for a job that could not be created. No valid handle has this value.
pub const NO_JOB: usize = 0;

/// Where the handle of the job that all sidecars share is kept.
#[derive(Debug)]
pub struct JobSlot {
    /// The handle, or [`NO_JOB`], once creation was tried.
    pub handle: Option<usize>,
}

/// Where the job for the next sidecar comes from.
#[derive(Debug, Clone, Copy, PartialEq, Eq, Structural)]
pub enum JobSource {
    /// It has to be created, and then kept.
    Create,
    /// It is the one with this handle, or none where that is [`NO_JOB`].
    Use(usize),
}

/// Where the job comes from, when `handle` is kept.
pub open spec fn job_source(handle: Option<usize>) -> JobSource {
    match handle {
        None => JobSource::Create,
        Some(job) => JobSource::Use(job),
    }
}

impl JobSlot {
    /// A slot for a job that was not created yet.
    pub fn new() -> (r: JobSlot)
        ensures
            r.handle == None::<usize>,
    {
        JobSlot { handle: None }
    }

    /// Where the job for the next sidecar comes from.
    pub fn source(&self) -> (r: JobSource)
        ensures
            r == job_source(self.handle),
            self.handle is None ==> r == JobSource::Create,
            self.handle matches Some(job) ==> r == JobSource::Use(job),
    {
        match self.handle {
            None => JobSource::Create,
            Some(job) => JobSource::Use(job),
        }
    }

    /// Keeps the outcome of creation, a failed one too.
    pub fn keep(&mut self, job: usize)
        ensures
            final(self).handle == Some(job),
    {
        self.handle = Some(job);
    }
}

/// What has happened on the way to the job.
#[derive(Debug)]
pub enum JobEvent {
    /// Creation was tried: the handle, if it is valid.
    Created(Option<usize>),
    /// The job has been told to kill its processes on close, or has refused.
    Limited(usize),
}

/// What is to be done next for the job. It starts with its creation.
#[derive(Debug)]
pub enum JobStep {
    /// Tell the job to kill its processes when it is closed.
    Limit(usize),
    /// Keep this handle for good.
    Keep(usize),
}

/// The step that answers an event.
pub open spec fn job_step(event: JobEvent) -> JobStep {
    match event {
        JobEvent::Created(Some(job)) => JobStep::Limit(job),
        JobEvent::Created(None) => JobStep::Keep(NO_JOB),
        JobEvent::Limited(job) => JobStep::Keep(job),
    }
}

/// Creates the job that all sidecars share. A limit that is refused is passed over.
pub fn kill_on_close_job(event: JobEvent) -> (step: JobStep)
    ensures
        step == job_step(event),
        event matches JobEvent::Created(Some(job)) ==> step == JobStep::Limit(job),
        event matches JobEvent::Limited(job) ==> step == JobStep::Keep(job),
{
    match event {
        JobEvent::Created(Some(job)) => JobStep::Limit(job),
        JobEvent::Created(None) => JobStep::Keep(NO_JOB),
        JobEvent::Limited(job) => JobStep::Keep(job),
    }
}

/// What has happened on the way to a sidecar bound to the job.
#[derive(Debug)]
pub enum BindEvent {
    /// The job's handle, or [`NO_JOB`].
    Job(usize),
    /// The sidecar's process was opened, or not.
    Opened(Result<(), String>),
    /// The process was put into the job, or not.
    Assigned { ok: bool },
    /// The process's handle was closed.
    Closed,
}

/// What is to be done next to bind a sidecar to the job.
#[derive(Debug)]
pub enum BindStep {
    /// Open the sidecar's process.
    Open { pid: u32 },
    /// Put the opened process into the job.
    Assign,
    /// Log the line, if any, and close the process's handle.
    Close { log: Option<String> },
    /// Log the line, if any, and stop.
    Done { log: Option<String> },
}

/// What a [`BindStep`] says.
pub enum BindStepView {
    Open { pid: u32 },
    Assign,
    Close { log: Option<Seq<char>> },
    Done { log: Option<Seq<char>> },
}

impl View for BindStep {
    type V = BindStepView;

    open spec fn view(&self) -> BindStepView {
        match *self {
            BindStep::Open { pid } => BindStepView::Open { pid },
            BindStep::Assign => BindStepView::Assign,
            BindStep::Close { log: Some(s) } => BindStepView::Close { log: Some(s@) },
            BindStep::Close { log: None } => BindStepView::Close { log: None },
            BindStep::Done { log: Some(s) } => BindStepView::Done { log: Some(s@) },
            BindStep::Done { log: None } => BindStepView::Done { log: None },
        }
    }
}

/// The step that answers an event for the process `pid`.
pub open spec fn bind_step(pid: u32, event: BindEvent) -> BindStepView {
    match event {
        BindEvent::Job(job) => if job == NO_JOB {
            BindStepView::Done { log: None }
        } else {
            BindStepView::Open { pid }
        },
        BindEvent::Opened(Ok(_)) => BindStepView::Assign,
        BindEvent::Opened(Err(e)) => BindStepView::Done {
            log: Some("[sidecar:job] OpenProcess failed: "@ + e@),
        },
        BindEvent::Assigned { ok: true } => BindStepView::Close { log: None },
        BindEvent::Assigned { ok: false } => BindStepView::Close {
            log: Some("[sidecar:job] AssignProcessToJobObject failed (already in a job?)"@),
        },
        BindEvent::Closed => BindStepView::Done { log: None },
    }
}

/// Binds the sidecar with process identifier `child_pid` to the job. Nothing that fails here keeps
/// the sidecar from running.
pub fn bind_to_kill_on_close_job(child_pid: u32, event: BindEvent) -> (step: BindStep)
    ensures
        step@ == bind_step(child_pid, event),
        event matches BindEvent::Job(job) && job != NO_JOB ==> step == (BindStep::Open {
            pid: child_pid,
        }),
        step matches BindStep::Open { pid } ==> pid == child_pid,
{
    match event {
        BindEvent::Job(job) => if job == NO_JOB {
            BindStep::Done { log: None }
        } else {
            BindStep::Open { pid: child_pid }
        },
        BindEvent::Opened(opened) => match opened {
            Ok(_) => BindStep::Assign,
            Err(e) => BindStep::Done { log: Some(join("[sidecar:job] OpenProcess failed: ", &e)) },
        },
        BindEvent::Assigned { ok } => if ok {
            BindStep::Close { log: None }
        } else {
            BindStep::Close {
                log: Some(
                    "[sidecar:job] AssignProcessToJobObject failed (already in a job?)".to_owned(),
                ),
            }
        },
        BindEvent::Closed => BindStep::Done { log: None },
    }
}

/// The steps taken for the process `pid`, from the first to the last, when the system answers as
/// given.
pub open spec fn bind_trace(
    pid: u32,
    job: usize,
    opened: Result<(), String>,
    ok: bool,
) -> Seq<BindStepView> {
    let first = bind_step(pid, BindEvent::Job(job));
    if first !is Open {
        seq![first]
    } else {
        let second = bind_step(pid, BindEvent::Opened(opened));
        if second !is Assign {
            seq![first, second]
        } else {
            seq![
                first,
                second,
                bind_step(pid, BindEvent::Assigned { ok }),
                bind_step(pid, BindEvent::Closed),
            ]
        }
    }
}

/// Whatever the system answers, binding ends; a process is opened only for a job that exists, only
/// one that was opened is put into the job, and one that was opened is closed again, once.
pub proof fn law_opened_process_is_closed(
    pid: u32,
    job: usize,
    opened: Result<(), String>,
    ok: bool,
)
    ensures
        ({
            let trace = bind_trace(pid, job, opened, ok);
            &&& trace.last() is Done
            &&& trace.contains(BindStepView::Open { pid }) <==> job != NO_JOB
            &&& trace.contains(BindStepView::Assign) <==> job != NO_JOB && opened is Ok
            &&& job != NO_JOB && opened is Ok ==> trace.len() == 4 && trace[1] is Assign
                && trace[2] is Close
            &&& !(job != NO_JOB && opened is Ok) ==> forall|i: int|
                0 <= i < trace.len() ==> (#[trigger] trace[i]) !is Close
        }),
{
    let trace = bind_trace(pid, job, opened, ok);
    if job != NO_JOB {
        assert(trace[0] == (BindStepView::Open { pid }));
        if opened is Ok {
            assert(trace[1] == BindStepView::Assign);
        }
    }
}

/// A job that was created is the one that is kept, whether or not it took the limit, and is then
/// the one that sidecars are bound to; one that was not created leaves sidecars alone.
pub proof fn law_created_job_is_kept(created: Option<usize>, pid: u32)
    requires
        created matches Some(job) ==> job != NO_JOB,
    ensures
        match created {
            Some(job) => job_step(JobEvent::Created(created)) == JobStep::Limit(job) && job_step(
                JobEvent::Limited(job),
            ) == JobStep::Keep(job) && bind_step(pid, BindEvent::Job(job)) == (BindStepView::Open {
                pid,
            }),
            None => job_step(JobEvent::Created(created)) == JobStep::Keep(NO_JOB) && bind_step(
                pid,
                BindEvent::Job(NO_JOB),
            ) == (BindStepView::Done { log: None }),
        },
{
}

/// What the system is asked to do for the job.
pub enum JobAction {
    Create,
    Limit(usize),
}

/// The handle that is kept after creation was answered with `created`, and what was asked of the
/// system on the way.
pub open spec fn make_job(created: Option<usize>) -> (usize, Seq<JobAction>) {
    match job_step(JobEvent::Created(created)) {
        JobStep::Keep(job) => (job, seq![JobAction::Create]),
        JobStep::Limit(job) => match job_step(JobEvent::Limited(job)) {
            JobStep::Keep(kept) => (kept, seq![JobAction::Create, JobAction::Limit(job)]),
            JobStep::Limit(again) => (
                again,
                seq![JobAction::Create, JobAction::Limit(job), JobAction::Limit(again)],
            ),
        },
    }
}

/// The handle that a sidecar is bound to when `handle` is kept and creation, if it is asked for, is
/// answered with `created`; and what is asked of the system for it.
pub open spec fn obtain_job(handle: Option<usize>, created: Option<usize>) -> (
    usize,
    Seq<JobAction>,
) {
    match job_source(handle) {
        JobSource::Create => make_job(created),
        JobSource::Use(job) => (job, seq![]),
    }
}

/// The handles that sidecars are bound to one after another, where each `created[i]` is the answer
/// that creation would get for sidecar `i`.
pub open spec fn handles_used(handle: Option<usize>, created: Seq<Option<usize>>) -> Seq<usize>
    decreases created.len(),
{
    if created.len() == 0 {
        seq![]
    } else {
        let job = obtain_job(handle, created.first()).0;
        seq![job] + handles_used(Some(job), created.drop_first())
    }
}

/// All that is asked of the system for the job over these sidecars.
pub open spec fn actions_taken(handle: Option<usize>, created: Seq<Option<usize>>) -> Seq<JobAction>
    decreases created.len(),
{
    if created.len() == 0 {
        seq![]
    } else {
        let (job, actions) = obtain_job(handle, created.first());
        actions + actions_taken(Some(job), created.drop_first())
    }
}

proof fn lemma_kept_handle_is_used(job: usize, created: Seq<Option<usize>>)
    ensures
        actions_taken(Some(job), created) == Seq::<JobAction>::empty(),
        handles_used(Some(job), created).len() == created.len(),
        forall|i: int|
            0 <= i < created.len() ==> #[trigger] handles_used(Some(job), created)[i] == job,
    decreases created.len(),
{
    if created.len() > 0 {
        lemma_kept_handle_is_used(job, created.drop_first());
        assert(actions_taken(Some(job), created) =~= seq![]);
    }
}

/// However many sidecars are bound, the job is created once, for the first of them, and limited once
/// at most, right after that; and all of them are bound to that one job.
pub proof fn law_one_job_for_all(created: Seq<Option<usize>>)
    requires
        created.len() > 0,
    ensures
        actions_taken(None, created) == match created[0] {
            Some(job) => seq![JobAction::Create, JobAction::Limit(job)],
            None => seq![JobAction::Create],
        },
        handles_used(None, created).len() == created.len(),
        forall|i: int|
            0 <= i < created.len() ==> #[trigger] handles_used(None, created)[i] == match created[0] {
                Some(job) => job,
                None => NO_JOB,
            },
{
    let job = obtain_job(None, created[0]).0;
    lemma_kept_handle_is_used(job, created.drop_first());
    assert(actions_taken(None, created) =~= obtain_job(None, created[0]).1);
    assert forall|i: int| 0 <= i < created.len() implies #[trigger] handles_used(None, created)[i]
        == job by {
        if i > 0 {
            assert(handles_used(None, created)[i] == handles_used(
                Some(job),
                created.drop_first(),
            )[i - 1]);
        }
    }
}

/// Where the job could not be created, that is final: creation is never tried again, and no sidecar
/// is opened, assigned or closed, nor is a line logged, whatever the system would answer.
pub proof fn law_failed_creation_is_final(
    created: Seq<Option<usize>>,
    i: int,
    pid: u32,
    opened: Result<(), String>,
    ok: bool,
)
    requires
        0 <= i < created.len(),
        created[0] is None,
    ensures
        actions_taken(None, created) == seq![JobAction::Create],
        bind_trace(pid, handles_used(None, created)[i], opened, ok) == seq![
            BindStepView::Done { log: None },
        ],
{
    law_one_job_for_all(created);
    assert(handles_used(None, created)[i] == NO_JOB);
}

/// The slot tells where the job comes from by nothing but what it keeps: a kept handle is used as it
/// is, the one that stands for no job too, and an empty slot asks for creation.
pub proof fn law_kept_handle_is_the_source(job: usize)
    ensures
        job_source(Some(job)) == JobSource::Use(job),
        job_source(None) == JobSource::Create,
{
}

/// Each answer on the way to the job has one consequence, for every handle: a job that was created is
/// limited, one that took the limit or refused it is kept, and where none was created that is kept.
pub proof fn law_each_job_answer_has_one_consequence(job: usize)
    ensures
        job_step(JobEvent::Created(Some(job))) == JobStep::Limit(job),
        job_step(JobEvent::Created(None)) == JobStep::Keep(0),
        job_step(JobEvent::Limited(job)) == JobStep::Keep(job),
{
}

/// Each answer on the way to a bound sidecar has one consequence, for every process and every handle
/// but the one that stands for no job; a failure is logged with its cause as it is.
pub proof fn law_each_bind_answer_has_one_consequence(pid: u32, job: usize, e: String)
    ensures
        job != 0 ==> bind_step(pid, BindEvent::Job(job)) == (BindStepView::Open { pid }),
        bind_step(pid, BindEvent::Job(0)) == (BindStepView::Done { log: None }),
        bind_step(pid, BindEvent::Opened(Ok(()))) == BindStepView::Assign,
        bind_step(pid, BindEvent::Opened(Err(e))) == (BindStepView::Done {
            log: Some("[sidecar:job] OpenProcess failed: "@ + e@),
        }),
        bind_step(pid, BindEvent::Assigned { ok: true }) == (BindStepView::Close { log: None }),
        bind_step(pid, BindEvent::Assigned { ok: false }) == (BindStepView::Close {
            log: Some("[sidecar:job] AssignProcessToJobObject failed (already in a job?)"@),
        }),
        bind_step(pid, BindEvent::Closed) == (BindStepView::Done { log: None }),
{
}

/// No process is ever opened but the one that is to be bound, and which one that is matters to nothing
/// but its opening.
pub proof fn law_only_the_sidecar_is_opened(pid: u32, other: u32, event: BindEvent)
    ensures
        bind_step(pid, event) matches BindStepView::Open { pid: opened } ==> opened == pid,
        bind_step(pid, event) is Open <==> bind_step(other, event) is Open,
        bind_step(pid, event) !is Open ==> bind_step(pid, event) == bind_step(other, event),
{
}

/// The view of a step shows its process and its line.
pub proof fn law_bind_view_shows_the_step(pid: u32, line: String)
    ensures
        (BindStep::Open { pid })@ == (BindStepView::Open { pid }),
        BindStep::Assign@ == BindStepView::Assign,
        (BindStep::Close { log: Some(line) })@ == (BindStepView::Close { log: Some(line@) }),
        (BindStep::Close { log: None })@ == (BindStepView::Close { log: None }),
        (BindStep::Done { log: Some(line) })@ == (BindStepView::Done { log: Some(line@) }),
        (BindStep::Done { log: None })@ == (BindStepView::Done { log: None }),
{
}

/// Calls on the way to a bound sidecar, for every process and every job: a job that was created is the
/// one that is limited and the one that is kept, a slot gives out the handle that it keeps, and the
/// process that is opened for the job is the sidecar's own.
pub proof fn law_sidecar_is_opened_for_the_kept_job(
    job: usize,
    pid: u32,
    slot: JobSlot,
    limit: JobStep,
    keep: JobStep,
    source: JobSource,
    open: BindStep,
)
    requires
        job != 0,
        call_ensures(kill_on_close_job, (JobEvent::Created(Some(job)),), limit),
        call_ensures(kill_on_close_job, (JobEvent::Limited(job),), keep),
        slot.handle == Some(job),
        call_ensures(JobSlot::source, (&slot,), source),
        call_ensures(bind_to_kill_on_close_job, (pid, BindEvent::Job(job)), open),
    ensures
        limit == JobStep::Limit(job),
        keep == JobStep::Keep(job),
        source == JobSource::Use(job),
        open == (BindStep::Open { pid }),
{
}

/// Calls where the system refuses: no job is remembered as such and binds nothing; a process that was
/// not opened is let go with the cause logged as it is, and one that was not taken into the job is
/// closed all the same.
pub proof fn law_refusals_do_not_stop_the_sidecar(
    pid: u32,
    e: String,
    keep: JobStep,
    alone: BindStep,
    not_opened: BindStep,
    not_assigned: BindStep,
    assigned: BindStep,
    closed: BindStep,
)
    requires
        call_ensures(kill_on_close_job, (JobEvent::Created(None),), keep),
        call_ensures(bind_to_kill_on_close_job, (pid, BindEvent::Job(0)), alone),
        call_ensures(bind_to_kill_on_close_job, (pid, BindEvent::Opened(Err(e))), not_opened),
        call_ensures(
            bind_to_kill_on_close_job,
            (pid, BindEvent::Assigned { ok: false }),
            not_assigned,
        ),
        call_ensures(bind_to_kill_on_close_job, (pid, BindEvent::Assigned { ok: true }), assigned),
        call_ensures(bind_to_kill_on_close_job, (pid, BindEvent::Closed), closed),
    ensures
        keep == JobStep::Keep(0),
        alone == (BindStep::Done { log: None }),
        not_opened matches BindStep::Done { log: Some(line) } && line@
            == "[sidecar:job] OpenProcess failed: "@ + e@,
        not_assigned matches BindStep::Close { log: Some(line) } && line@
            == "[sidecar:job] AssignProcessToJobObject failed (already in a job?)"@,
        assigned == (BindStep::Close { log: None }),
        closed == (BindStep::Done { log: None }),
{
}

/// A slot keeps the handle that it is given, the very one, whatever it kept before.
pub proof fn law_slot_keeps_its_handle(slot: Ghost<&mut JobSlot>, job: usize)
    requires
        call_ensures(JobSlot::keep, (slot@, job), ()),
    ensures
        final(slot@).handle == Some(job),
{
}

/// A new slot keeps nothing, so that the first sidecar asks for creation.
pub proof fn law_new_slot_asks_for_creation(slot: JobSlot, source: JobSource)
    requires
        call_ensures(JobSlot::new, (), slot),
        call_ensures(JobSlot::source, (&slot,), source),
    ensures
        source == JobSource::Create,
{
}

} // verus!
