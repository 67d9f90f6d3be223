//! The sidecar: how it is started, what its output means, and how it is stopped.

use vstd::prelude::*;
use vstd::utf8::{decode_utf8, valid_utf8};

use crate::data_dir::DATA_DIR_VAR;
use crate::error::ShellError;
use crate::job::{bind_trace, BindStepView, NO_JOB};
use crate::readiness::{loopback_addr, SIDECAR_PORT};
use crate::text::{
    decimal,
    digits,
    is_white_space,
    join,
    law_digits_read_back,
    law_trim_end_cuts_only_white_space,
    trim_end,
    trimmed_end,
    value_of,
};

verus! {

/// Name of the sidecar's binary.
pub const SIDECAR_NAME: &'static str = "rikkahub-server";

/// Keeps the sidecar from opening a browser: the shell's own window shows the same page.
pub const NO_OPEN_ARG: &'static str = "--no-open";

/// Environment variable that tells the sidecar its port.
pub const PORT_VAR: &'static str = "PORT";

/// The value of an environment variable.
#[derive(Debug)]
pub enum VarValue<P> {
    Path(P),
    Text(String),
}

/// What a [`VarValue`] says.
pub enum VarValueView<P> {
    Path(P),
    Text(Seq<char>),
}

impl<P> View for VarValue<P> {
    type V = VarValueView<P>;

    open spec fn view(&self) -> VarValueView<P> {
        match *self {
            VarValue::Path(p) => VarValueView::Path(p),
            VarValue::Text(s) => VarValueView::Text(s@),
        }
    }
}

/// An environment variable and its value.
#[derive(Debug)]
pub struct Var<P> {
    pub name: String,
    pub value: VarValue<P>,
}

/// How the sidecar is started.
#[derive(Debug)]
pub struct SidecarCommand<P> {
    pub program: String,
    pub args: Vec<String>,
    pub vars: Vec<Var<P>>,
}

impl<P> SidecarCommand<P> {
    /// Whether this starts the sidecar, without a browser, on `dir` and with its port.
    pub open spec fn starts_on(self, dir: P) -> bool {
        &&& self.program@ == SIDECAR_NAME@
        &&& self.args@.len() == 1
        &&& self.args@[0]@ == NO_OPEN_ARG@
        &&& self.vars@.len() == 2
        &&& self.vars@[0].name@ == DATA_DIR_VAR@
        &&& self.vars@[0].value@ == VarValueView::Path(dir)
        &&& self.vars@[1].name@ == PORT_VAR@
        &&& self.vars@[1].value@ == VarValueView::<P>::Text(digits(SIDECAR_PORT as nat))
    }
}

/// How the sidecar is started on the data directory `dir`.
pub fn sidecar_command<P>(dir: P) -> (r: SidecarCommand<P>)
    ensures
        r.starts_on(dir),
{
    let mut args: Vec<String> = Vec::new();
    args.push(NO_OPEN_ARG.to_owned());
    let mut vars: Vec<Var<P>> = Vec::new();
    vars.push(Var { name: DATA_DIR_VAR.to_owned(), value: VarValue::Path(dir) });
    vars.push(
        Var { name: PORT_VAR.to_owned(), value: VarValue::Text(decimal(SIDECAR_PORT as u64)) },
    );
    SidecarCommand { program: SIDECAR_NAME.to_owned(), args, vars }
}

/// What has happened on the way to a running sidecar.
#[derive(Debug)]
pub enum SpawnEvent<P> {
    /// The data directory is known.
    Resolved(P),
    /// The data directory has been created, or not; `shown` is its path for display.
    DirCreated { dir: P, shown: String, created: Result<(), String> },
    /// The sidecar's binary has been looked up for this command.
    LookedUp { command: SidecarCommand<P>, found: Result<(), String> },
    /// The sidecar has been started with this process identifier, or not.
    Spawned(Result<u32, String>),
}

/// What is to be done next for a running sidecar.
#[derive(Debug)]
pub enum SpawnStep<P> {
    /// Create the data directory, with its parents.
    CreateDir(P),
    /// Look up the binary that the command names.
    LookUp(SidecarCommand<P>),
    /// Start the command.
    Spawn(SidecarCommand<P>),
    /// Tie the process to the shell's own life, and watch its output.
    Watch { pid: u32 },
    /// Give up.
    Failed(ShellError),
}

/// Whether `step` is the step that answers `event`.
pub open spec fn spawn_answers<P>(event: SpawnEvent<P>, step: SpawnStep<P>) -> bool {
    match event {
        SpawnEvent::Resolved(dir) => step == SpawnStep::CreateDir(dir),
        SpawnEvent::DirCreated { dir, shown: _, created: Ok(_) } => step matches SpawnStep::LookUp(
            command,
        ) && command.starts_on(dir),
        SpawnEvent::DirCreated { dir: _, shown, created: Err(cause) } => step
            == SpawnStep::<P>::Failed(ShellError::DataDirNotCreated { dir: shown, cause }),
        SpawnEvent::LookedUp { command, found: Ok(_) } => step == SpawnStep::Spawn(command),
        SpawnEvent::LookedUp { command: _, found: Err(e) } => step == SpawnStep::<P>::Failed(
            ShellError::SidecarNotFound(e),
        ),
        SpawnEvent::Spawned(Ok(pid)) => step == (SpawnStep::<P>::Watch { pid }),
        SpawnEvent::Spawned(Err(e)) => step == SpawnStep::<P>::Failed(
            ShellError::SidecarNotSpawned(e),
        ),
    }
}

/// Starts the sidecar: first its data directory is made, then its binary is looked up, then it is
/// started on that directory. The first failure ends it.
pub fn spawn_sidecar<P>(event: SpawnEvent<P>) -> (step: SpawnStep<P>)
    ensures
        spawn_answers(event, step),
        event matches SpawnEvent::Resolved(dir) ==> step == SpawnStep::CreateDir(dir),
        event matches SpawnEvent::LookedUp { command, found: Ok(_) } ==> step == SpawnStep::Spawn(
            command,
        ),
        event matches SpawnEvent::Spawned(Ok(pid)) ==> step == (SpawnStep::<P>::Watch { pid }),
{
    match event {
        SpawnEvent::Resolved(dir) => SpawnStep::CreateDir(dir),
        SpawnEvent::DirCreated { dir, shown, created } => match created {
            Ok(_) => SpawnStep::LookUp(sidecar_command(dir)),
            Err(cause) => SpawnStep::Failed(ShellError::DataDirNotCreated { dir: shown, cause }),
        },
        SpawnEvent::LookedUp { command, found } => match found {
            Ok(_) => SpawnStep::Spawn(command),
            Err(e) => SpawnStep::Failed(ShellError::SidecarNotFound(e)),
        },
        SpawnEvent::Spawned(Ok(pid)) => SpawnStep::Watch { pid },
        SpawnEvent::Spawned(Err(e)) => SpawnStep::Failed(ShellError::SidecarNotSpawned(e)),
    }
}

/// The directory that was resolved is the one that is created, and the one that the sidecar is
/// started on, when nothing fails on the way.
pub proof fn law_sidecar_gets_resolved_dir<P>(
    dir: P,
    shown: String,
    create: SpawnStep<P>,
    look_up: SpawnStep<P>,
    spawn: SpawnStep<P>,
)
    requires
        spawn_answers(SpawnEvent::Resolved(dir), create),
        create matches SpawnStep::CreateDir(created_dir) && spawn_answers(
            (SpawnEvent::DirCreated { dir: created_dir, shown, created: Ok(()) }),
            look_up,
        ),
        look_up matches SpawnStep::LookUp(command) && spawn_answers(
            (SpawnEvent::LookedUp { command, found: Ok(()) }),
            spawn,
        ),
    ensures
        create == SpawnStep::CreateDir(dir),
        spawn matches SpawnStep::Spawn(command) && command.starts_on(dir),
{
}

/// The sidecar is told to listen where the shell looks for it.
pub proof fn law_sidecar_listens_where_probed<P>(command: SidecarCommand<P>, dir: P)
    requires
        command.starts_on(dir),
    ensures
        command.vars@[1].value@ matches VarValueView::Text(port) && loopback_addr(SIDECAR_PORT)
            == "127.0.0.1:"@ + port,
{
}

/// What the sidecar's process reports.
#[derive(Debug)]
pub enum SidecarEvent {
    /// A line of output.
    Stdout(Vec<u8>),
    /// A line of error output.
    Stderr(Vec<u8>),
    /// The reports themselves failed.
    Error(String),
    /// The process ended; the string says how.
    Terminated(String),
    /// Anything else.
    Other,
    /// There will be no more reports.
    Closed,
}

/// What follows from a report.
#[derive(Debug)]
pub struct WatchStep {
    /// The line to log.
    pub log: Option<String>,
    /// Whether the process is now known to be dead.
    pub dead: bool,
    /// Whether to stop watching.
    pub stop: bool,
}

/// The line logged for a report: the text of the output, without the white space it ends with.
/// Output that is not UTF-8 is not logged.
pub open spec fn log_line(event: SidecarEvent) -> Option<Seq<char>> {
    match event {
        SidecarEvent::Stdout(line) if valid_utf8(line@) => Some(
            "[sidecar] "@ + trimmed_end(decode_utf8(line@)),
        ),
        SidecarEvent::Stderr(line) if valid_utf8(line@) => Some(
            "[sidecar:err] "@ + trimmed_end(decode_utf8(line@)),
        ),
        SidecarEvent::Error(e) => Some("[sidecar:error] "@ + e@),
        SidecarEvent::Terminated(how) => Some("[sidecar] terminated: "@ + how@),
        _ => None,
    }
}

/// Whether a report means that the process is dead: it says so, or it is the last one.
pub open spec fn means_dead(event: SidecarEvent) -> bool {
    event is Terminated || event is Closed
}

fn output_line(prefix: &str, line: Vec<u8>) -> (r: Option<String>)
    ensures
        match r {
            Some(s) => valid_utf8(line@) && s@ == prefix@ + trimmed_end(decode_utf8(line@)),
            None => !valid_utf8(line@),
        },
{
    match String::from_utf8(line) {
        Ok(text) => Some(join(prefix, trim_end(&text))),
        Err(_) => None,
    }
}

/// Watches the sidecar's reports.
pub fn watch_sidecar(event: SidecarEvent) -> (step: WatchStep)
    ensures
        match step.log {
            Some(s) => log_line(event) == Some(s@),
            None => log_line(event) is None,
        },
        step.dead == means_dead(event),
        step.stop == means_dead(event),
        step.dead == (event is Terminated || event is Closed),
        step.stop == (event is Terminated || event is Closed),
{
    match event {
        SidecarEvent::Stdout(line) => WatchStep {
            log: output_line("[sidecar] ", line),
            dead: false,
            stop: false,
        },
        SidecarEvent::Stderr(line) => WatchStep {
            log: output_line("[sidecar:err] ", line),
            dead: false,
            stop: false,
        },
        SidecarEvent::Error(e) => WatchStep {
            log: Some(join("[sidecar:error] ", &e)),
            dead: false,
            stop: false,
        },
        SidecarEvent::Terminated(how) => WatchStep {
            log: Some(join("[sidecar] terminated: ", &how)),
            dead: true,
            stop: true,
        },
        SidecarEvent::Other => WatchStep { log: None, dead: false, stop: false },
        SidecarEvent::Closed => WatchStep { log: None, dead: true, stop: true },
    }
}

/// Whether the process is known to be dead after these reports, where watching stops at the first
/// report that means so.
pub open spec fn known_dead(events: Seq<SidecarEvent>) -> bool
    decreases events.len(),
{
    events.len() > 0 && (means_dead(events.first()) || known_dead(events.drop_first()))
}

/// The process is known to be dead exactly when some report said that it ended or was the last:
/// output, errors and unknown reports never count as its end, and its end is never missed.
pub proof fn law_dead_iff_reported(events: Seq<SidecarEvent>)
    ensures
        known_dead(events) <==> exists|i: int|
            0 <= i < events.len() && means_dead(#[trigger] events[i]),
    decreases events.len(),
{
    if events.len() > 0 {
        let rest = events.drop_first();
        law_dead_iff_reported(rest);
        assert(forall|i: int| 0 <= i < rest.len() ==> rest[i] == events[i + 1]);
        if exists|i: int| 0 <= i < events.len() && means_dead(#[trigger] events[i]) {
            let i = choose|i: int| 0 <= i < events.len() && means_dead(#[trigger] events[i]);
            if i > 0 {
                assert(means_dead(rest[i - 1]));
            }
        }
        if known_dead(rest) {
            let i = choose|i: int| 0 <= i < rest.len() && means_dead(#[trigger] rest[i]);
            assert(means_dead(events[i + 1]));
        }
    }
}

/// Once known to be dead, the process stays so, whatever is reported later.
pub proof fn law_dead_stays_dead(events: Seq<SidecarEvent>, later: Seq<SidecarEvent>)
    requires
        known_dead(events),
    ensures
        known_dead(events + later),
{
    law_dead_iff_reported(events);
    law_dead_iff_reported(events + later);
    let i = choose|i: int| 0 <= i < events.len() && means_dead(#[trigger] events[i]);
    assert((events + later)[i] == events[i]);
}

/// The line of one report, if it has one, as a sequence.
pub open spec fn line_of(event: SidecarEvent) -> Seq<Seq<char>> {
    match log_line(event) {
        Some(line) => seq![line],
        None => seq![],
    }
}

/// The lines of all these reports, in order.
pub open spec fn lines_of(events: Seq<SidecarEvent>) -> Seq<Seq<char>>
    decreases events.len(),
{
    if events.len() == 0 {
        seq![]
    } else {
        line_of(events.first()) + lines_of(events.drop_first())
    }
}

/// The lines that are logged when watching stops at the first report that means the process is dead.
pub open spec fn logged_lines(events: Seq<SidecarEvent>) -> Seq<Seq<char>>
    decreases events.len(),
{
    if events.len() == 0 {
        seq![]
    } else if means_dead(events.first()) {
        line_of(events.first())
    } else {
        line_of(events.first()) + logged_lines(events.drop_first())
    }
}

/// Every report up to the one that means the process is dead, and that one too, is logged, in order;
/// none is logged after it. While no report means that, all are logged.
pub proof fn law_logged_up_to_death(events: Seq<SidecarEvent>, k: int)
    requires
        0 <= k <= events.len(),
        forall|i: int| 0 <= i < k ==> !means_dead(#[trigger] events[i]),
        k < events.len() ==> means_dead(events[k]),
    ensures
        logged_lines(events) == lines_of(
            if k < events.len() {
                events.take(k + 1)
            } else {
                events
            },
        ),
    decreases k,
{
    if events.len() == 0 {
    } else if k == 0 {
        let first = events.take(1);
        assert(first.drop_first() =~= seq![]);
        assert(lines_of(first) =~= line_of(events[0]) + lines_of(first.drop_first()));
        assert(lines_of(seq![]) =~= seq![]);
        assert(logged_lines(events) =~= lines_of(first));
    } else {
        let rest = events.drop_first();
        assert(!means_dead(events[0]));
        assert forall|i: int| 0 <= i < k - 1 implies !means_dead(#[trigger] rest[i]) by {
            assert(!means_dead(events[i + 1]));
        }
        law_logged_up_to_death(rest, k - 1);
        if k < events.len() {
            assert(events.take(k + 1).drop_first() =~= rest.take(k));
        }
    }
}

/// The running sidecar, as a handle of some type `C`, if there is one to stop.
#[derive(Debug)]
pub struct SidecarState<C> {
    pub child: Option<C>,
}

impl<C> Default for SidecarState<C> {
    fn default() -> (r: SidecarState<C>)
        ensures
            r.child == None::<C>,
    {
        SidecarState { child: None }
    }
}

/// What happens to the window or the application.
#[derive(Debug, Clone, Copy, PartialEq, Eq, Structural)]
pub enum LifecycleEvent {
    /// The window is asked to close.
    CloseRequested,
    /// The application is asked to exit.
    ExitRequested,
    /// Anything else.
    Other,
}

/// Whether the sidecar has to be stopped on an event.
pub open spec fn ends_sidecar(event: LifecycleEvent) -> bool {
    event != LifecycleEvent::Other
}

impl<C> SidecarState<C> {
    /// Remembers a sidecar that was started.
    pub fn store(&mut self, child: C)
        ensures
            final(self).child == Some(child),
    {
        self.child = Some(child);
    }

    /// Gives out the sidecar to kill on an event, and forgets it; gives out nothing where the event
    /// does not end the sidecar, or where there is none.
    pub fn tear_down(&mut self, event: LifecycleEvent) -> (kill: Option<C>)
        ensures
            (kill, final(self).child) == torn_down(old(self).child, event),
            event == LifecycleEvent::Other ==> kill is None && final(self).child == old(
                self,
            ).child,
            event != LifecycleEvent::Other ==> kill == old(self).child && final(self).child is None,
    {
        match event {
            LifecycleEvent::Other => None,
            _ => self.child.take(),
        }
    }
}

/// The sidecar to kill on an event, and the one that is then left.
pub open spec fn torn_down<C>(child: Option<C>, event: LifecycleEvent) -> (Option<C>, Option<C>) {
    if ends_sidecar(event) {
        (child, None)
    } else {
        (None, child)
    }
}

/// The sidecars killed by these events, in order.
pub open spec fn killed<C>(child: Option<C>, events: Seq<LifecycleEvent>) -> Seq<C>
    decreases events.len(),
{
    if events.len() == 0 {
        seq![]
    } else {
        let (kill, left) = torn_down(child, events.first());
        let rest = killed(left, events.drop_first());
        match kill {
            Some(c) => seq![c] + rest,
            None => rest,
        }
    }
}

/// A sidecar is killed once, however often the window closes and the application exits, and it is
/// killed if either ever happens.
pub proof fn law_killed_once<C>(child: C, events: Seq<LifecycleEvent>)
    ensures
        killed(Some(child), events) == if exists|i: int|
            0 <= i < events.len() && ends_sidecar(#[trigger] events[i]) {
            seq![child]
        } else {
            seq![]
        },
    decreases events.len(),
{
    if events.len() > 0 {
        let rest = events.drop_first();
        assert(forall|i: int| 0 <= i < rest.len() ==> rest[i] == events[i + 1]);
        if ends_sidecar(events.first()) {
            lemma_none_left(None::<C>, rest);
            assert(ends_sidecar(events[0]));
            assert(killed(Some(child), events) =~= seq![child]);
        } else {
            law_killed_once(child, rest);
            if exists|i: int| 0 <= i < events.len() && ends_sidecar(#[trigger] events[i]) {
                let i = choose|i: int| 0 <= i < events.len() && ends_sidecar(#[trigger] events[i]);
                assert(ends_sidecar(rest[i - 1]));
            } else if exists|i: int| 0 <= i < rest.len() && ends_sidecar(#[trigger] rest[i]) {
                let i = choose|i: int| 0 <= i < rest.len() && ends_sidecar(#[trigger] rest[i]);
                assert(ends_sidecar(events[i + 1]));
            }
        }
    }
}

proof fn lemma_none_left<C>(child: Option<C>, events: Seq<LifecycleEvent>)
    requires
        child is None,
    ensures
        killed(child, events) == Seq::<C>::empty(),
    decreases events.len(),
{
    if events.len() > 0 {
        lemma_none_left(child, events.drop_first());
    }
}

/// The process that is tied to the shell is the very one that was started, whatever its identifier,
/// and a process is tied only after it was started; when the shell has a job, that process is the
/// one that is opened for it.
pub proof fn law_started_process_is_tied<P>(
    event: SpawnEvent<P>,
    step: SpawnStep<P>,
    pid: u32,
    job: usize,
    opened: Result<(), String>,
    ok: bool,
)
    requires
        spawn_answers(event, step),
    ensures
        event == SpawnEvent::<P>::Spawned(Ok(pid)) <==> (step matches SpawnStep::Watch { pid: tied }
            && tied == pid),
        event == SpawnEvent::<P>::Spawned(Ok(pid)) && job != NO_JOB ==> (step matches SpawnStep::Watch {
            pid: tied,
        } && bind_trace(tied, job, opened, ok)[0] == (BindStepView::Open { pid })),
{
}

/// Each step is about what the event before it was about: the directory that was resolved is created,
/// the command whose binary was found is started as it is, and each failure is passed on with its
/// cause as it is.
pub proof fn law_steps_pass_on_what_they_got<P>(
    dir: P,
    command: SidecarCommand<P>,
    shown: String,
    e: String,
    step: SpawnStep<P>,
)
    ensures
        spawn_answers(SpawnEvent::Resolved(dir), step) <==> step == SpawnStep::CreateDir(dir),
        spawn_answers((SpawnEvent::LookedUp { command, found: Ok(()) }), step) <==> step
            == SpawnStep::Spawn(command),
        spawn_answers((SpawnEvent::DirCreated { dir, shown, created: Err(e) }), step) <==> step
            == SpawnStep::<P>::Failed(ShellError::DataDirNotCreated { dir: shown, cause: e }),
        spawn_answers((SpawnEvent::LookedUp { command, found: Err(e) }), step) <==> step
            == SpawnStep::<P>::Failed(ShellError::SidecarNotFound(e)),
        spawn_answers(SpawnEvent::<P>::Spawned(Err(e)), step) <==> step == SpawnStep::<P>::Failed(
            ShellError::SidecarNotSpawned(e),
        ),
{
}

/// The command that is looked up once the data directory exists: the sidecar's program, told not to
/// open a browser, with that directory and the port in its environment, and nothing else.
pub proof fn law_command_is_the_sidecars<P>(dir: P, shown: String, step: SpawnStep<P>)
    requires
        spawn_answers((SpawnEvent::DirCreated { dir, shown, created: Ok(()) }), step),
    ensures
        step is LookUp,
        ({
            let command = step->LookUp_0;
            &&& command.program@ == "rikkahub-server"@
            &&& command.args@.len() == 1 && command.args@[0]@ == "--no-open"@
            &&& command.vars@.len() == 2
            &&& command.vars@[0].name@ == "RIKKAHUB_PC_DATA_DIR"@
            &&& command.vars@[0].value == VarValue::Path(dir)
            &&& command.vars@[1].name@ == "PORT"@
            &&& command.vars@[1].value matches VarValue::Text(port) && value_of(port@)
                == SIDECAR_PORT && forall|i: int|
                0 <= i < port@.len() ==> '0' <= #[trigger] port@[i] <= '9'
        }),
{
    law_digits_read_back(SIDECAR_PORT as nat);
}

/// Only the end of the process, or of its reports, means that it is dead: no output does, on
/// whichever stream and whatever its bytes, nor does a failure of the reports or an unknown one.
pub proof fn law_only_the_end_means_dead(bytes: Vec<u8>, text: String)
    ensures
        !means_dead(SidecarEvent::Stdout(bytes)),
        !means_dead(SidecarEvent::Stderr(bytes)),
        !means_dead(SidecarEvent::Error(text)),
        !means_dead(SidecarEvent::Other),
        means_dead(SidecarEvent::Terminated(text)),
        means_dead(SidecarEvent::Closed),
{
}

/// Over any reports, the process is known to be dead exactly when one of them is its end or the end of
/// the reports.
pub proof fn law_dead_iff_ended_or_closed(events: Seq<SidecarEvent>)
    ensures
        known_dead(events) <==> exists|i: int|
            0 <= i < events.len() && ((#[trigger] events[i]) is Terminated || events[i] is Closed),
{
    law_dead_iff_reported(events);
}

/// A sidecar that only prints is never taken for dead, however much and whatever it prints.
pub proof fn law_output_is_no_death(events: Seq<SidecarEvent>)
    requires
        forall|i: int|
            0 <= i < events.len() ==> (#[trigger] events[i]) is Stdout || events[i] is Stderr,
    ensures
        !known_dead(events),
{
    law_dead_iff_ended_or_closed(events);
}

/// A line of output is logged behind the mark of its stream, with nothing missing but white space at
/// its end; bytes that are no UTF-8 are not logged.
pub proof fn law_output_is_logged_whole(bytes: Vec<u8>)
    ensures
        !valid_utf8(bytes@) ==> log_line(SidecarEvent::Stdout(bytes)) is None && log_line(
            SidecarEvent::Stderr(bytes),
        ) is None,
        valid_utf8(bytes@) ==> exists|j: int|
            {
                &&& 0 <= j <= decode_utf8(bytes@).len()
                &&& log_line(SidecarEvent::Stdout(bytes)) == Some(
                    "[sidecar] "@ + #[trigger] decode_utf8(bytes@).subrange(0, j),
                )
                &&& log_line(SidecarEvent::Stderr(bytes)) == Some(
                    "[sidecar:err] "@ + decode_utf8(bytes@).subrange(0, j),
                )
                &&& forall|k: int|
                    j <= k < decode_utf8(bytes@).len() ==> is_white_space(
                        #[trigger] decode_utf8(bytes@)[k],
                    )
                &&& 0 < j ==> !is_white_space(decode_utf8(bytes@)[j - 1])
            },
{
    law_trim_end_cuts_only_white_space(decode_utf8(bytes@));
}

/// What is said about the end of the process or a failure of its reports is logged whole; an unknown
/// report and the end of the reports are not logged.
pub proof fn law_other_reports_are_logged_whole(text: String)
    ensures
        log_line(SidecarEvent::Error(text)) == Some("[sidecar:error] "@ + text@),
        log_line(SidecarEvent::Terminated(text)) == Some("[sidecar] terminated: "@ + text@),
        log_line(SidecarEvent::Other) is None,
        log_line(SidecarEvent::Closed) is None,
{
}

/// Closing the window and exiting both give out the sidecar that is there, the very one, and leave
/// none; anything else gives out none and leaves the sidecar as it is.
pub proof fn law_each_end_gives_out_the_sidecar<C>(child: Option<C>)
    ensures
        torn_down(child, LifecycleEvent::CloseRequested) == (child, None::<C>),
        torn_down(child, LifecycleEvent::ExitRequested) == (child, None::<C>),
        torn_down(child, LifecycleEvent::Other) == (None::<C>, child),
{
}

/// What calls of [`spawn_sidecar`] lead to when nothing fails: the directory that was resolved is
/// created, the sidecar is looked up and started on that directory, the very command that was looked
/// up, and the process that is tied to the shell is the very one that was started, whatever its
/// identifier.
pub proof fn law_start_ties_the_started_process<P>(
    dir: P,
    shown: String,
    pid: u32,
    create: SpawnStep<P>,
    look_up: SpawnStep<P>,
    spawn: SpawnStep<P>,
    watch: SpawnStep<P>,
)
    requires
        call_ensures(spawn_sidecar::<P>, (SpawnEvent::Resolved(dir),), create),
        call_ensures(
            spawn_sidecar::<P>,
            (SpawnEvent::DirCreated { dir, shown, created: Ok(()) },),
            look_up,
        ),
        call_ensures(
            spawn_sidecar::<P>,
            (SpawnEvent::LookedUp { command: look_up->LookUp_0, found: Ok(()) },),
            spawn,
        ),
        call_ensures(spawn_sidecar::<P>, (SpawnEvent::Spawned(Ok(pid)),), watch),
    ensures
        create == SpawnStep::CreateDir(dir),
        look_up is LookUp,
        spawn == SpawnStep::Spawn(look_up->LookUp_0),
        spawn->Spawn_0.program@ == "rikkahub-server"@,
        spawn->Spawn_0.vars@[0].value == VarValue::Path(dir),
        watch matches SpawnStep::Watch { pid: tied } && tied == pid,
{
    law_command_is_the_sidecars(dir, shown, look_up);
}

/// The first failure on the way ends the start, with its own error, which holds the cause as it is.
pub proof fn law_first_failure_ends_the_start<P>(
    dir: P,
    command: SidecarCommand<P>,
    shown: String,
    e: String,
    no_dir: SpawnStep<P>,
    no_binary: SpawnStep<P>,
    no_process: SpawnStep<P>,
)
    requires
        call_ensures(
            spawn_sidecar::<P>,
            (SpawnEvent::DirCreated { dir, shown, created: Err(e) },),
            no_dir,
        ),
        call_ensures(
            spawn_sidecar::<P>,
            (SpawnEvent::LookedUp { command, found: Err(e) },),
            no_binary,
        ),
        call_ensures(spawn_sidecar::<P>, (SpawnEvent::Spawned(Err(e)),), no_process),
    ensures
        no_dir == SpawnStep::<P>::Failed(ShellError::DataDirNotCreated { dir: shown, cause: e }),
        no_binary == SpawnStep::<P>::Failed(ShellError::SidecarNotFound(e)),
        no_process == SpawnStep::<P>::Failed(ShellError::SidecarNotSpawned(e)),
{
}

/// The command for a directory names that directory, the very one, and the port that the shell
/// connects to.
pub proof fn law_command_names_its_directory<P>(dir: P, command: SidecarCommand<P>)
    requires
        call_ensures(sidecar_command::<P>, (dir,), command),
    ensures
        command.program@ == "rikkahub-server"@,
        command.args@.len() == 1 && command.args@[0]@ == "--no-open"@,
        command.vars@.len() == 2,
        command.vars@[0].name@ == "RIKKAHUB_PC_DATA_DIR"@,
        command.vars@[0].value == VarValue::Path(dir),
        command.vars@[1].name@ == "PORT"@,
        command.vars@[1].value matches VarValue::Text(port) && value_of(port@) == SIDECAR_PORT,
{
    law_digits_read_back(SIDECAR_PORT as nat);
}

/// What a call of [`watch_sidecar`] makes of a report: the process counts as dead, and watching stops,
/// for the end of the process and the end of the reports, and for nothing else, whatever the bytes or
/// the text; and a line is logged whole but for white space at its end.
pub proof fn law_watching_stops_at_the_end_alone(event: SidecarEvent, step: WatchStep)
    requires
        call_ensures(watch_sidecar, (event,), step),
    ensures
        event is Stdout || event is Stderr || event is Error || event is Other ==> !step.dead
            && !step.stop,
        event is Terminated || event is Closed ==> step.dead && step.stop,
        event matches SidecarEvent::Stdout(bytes) ==> (step.log is Some <==> valid_utf8(bytes@)),
        event matches SidecarEvent::Stderr(bytes) ==> (step.log is Some <==> valid_utf8(bytes@)),
        event matches SidecarEvent::Stdout(bytes) ==> step.log is Some ==> step.log->0@
            == "[sidecar] "@ + trimmed_end(decode_utf8(bytes@)),
        event matches SidecarEvent::Stderr(bytes) ==> step.log is Some ==> step.log->0@
            == "[sidecar:err] "@ + trimmed_end(decode_utf8(bytes@)),
        event matches SidecarEvent::Error(text) ==> step.log is Some && step.log->0@
            == "[sidecar:error] "@ + text@,
        event matches SidecarEvent::Terminated(how) ==> step.log is Some && step.log->0@
            == "[sidecar] terminated: "@ + how@,
        event is Other || event is Closed ==> step.log is None,
{
}

/// A sidecar that is remembered is the one that is given out at the end, the very one: closing the
/// window or exiting takes it out, and anything else leaves it where it is.
pub proof fn law_stored_sidecar_is_given_out<C>(
    stored: Ghost<&mut SidecarState<C>>,
    ended: Ghost<&mut SidecarState<C>>,
    child: C,
    event: LifecycleEvent,
    kill: Option<C>,
)
    requires
        call_ensures(SidecarState::<C>::store, (stored@, child), ()),
        ended@.child == final(stored@).child,
        call_ensures(SidecarState::<C>::tear_down, (ended@, event), kill),
    ensures
        event == LifecycleEvent::CloseRequested || event == LifecycleEvent::ExitRequested ==> kill
            == Some(child) && final(ended@).child is None,
        event == LifecycleEvent::Other ==> kill is None && final(ended@).child == Some(child),
{
}

} // verus!
