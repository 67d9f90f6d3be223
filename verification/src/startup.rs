//! What the shell does when it starts, and when it is started a second time.

use vstd::prelude::*;

use crate::error::ShellError;
use crate::readiness::{
    after_rounds,
    decides,
    inconclusive,
    law_first_decision_counts,
    Round,
    WaitStep,
    SIDECAR_PORT,
};
use crate::text::join;

verus! {

/// Label of the shell's window.
pub const MAIN_WINDOW: &'static str = "main";

/// Event that tells the window that the sidecar answers.
pub const READY_EVENT: &'static str = "sidecar://ready";

/// Title of the dialog for a start that failed.
pub const STARTUP_ERROR_TITLE: &'static str = "Rikkahub 启动失败";

/// Exit code of a shell that could not start.
pub const STARTUP_FAILED: i32 = 1;

/// An error shown in a dialog, and logged.
#[derive(Debug)]
pub struct ErrorDialog {
    pub title: String,
    pub message: String,
    pub log: String,
}

impl ErrorDialog {
    /// Whether the dialog shows `message`.
    pub open spec fn shows(self, message: Seq<char>) -> bool {
        &&& self.title@ == STARTUP_ERROR_TITLE@
        &&& self.message@ == message
        &&& self.log@ == "[startup-error] "@ + message
    }
}

/// The dialog for a start that failed.
pub fn show_startup_error(message: &str) -> (r: ErrorDialog)
    ensures
        r.shows(message@),
        r.message@ == message@,
        r.log@ == "[startup-error] "@ + message@,
{
    ErrorDialog {
        title: STARTUP_ERROR_TITLE.to_owned(),
        message: message.to_owned(),
        log: join("[startup-error] ", message),
    }
}

/// What has happened while the shell starts. It begins by starting the sidecar.
#[derive(Debug)]
pub enum StartupEvent {
    /// The sidecar was started, or not.
    Spawned(Result<(), ShellError>),
    /// The sidecar was waited for.
    Waited(Result<(), ShellError>),
}

/// What the shell does next while it starts.
#[derive(Debug)]
pub enum StartupStep {
    /// Wait for the sidecar to answer.
    WaitForSidecar,
    /// Emit [`READY_EVENT`] with the value `true`; the shell has started.
    EmitReady,
    /// Show the dialog until it is dismissed, then exit with the code.
    Fail { dialog: ErrorDialog, code: i32 },
}

/// What a [`StartupStep`] says. A step that fails is told by what its dialog shows.
pub enum StartupStepView {
    WaitForSidecar,
    EmitReady,
    Fail { title: Seq<char>, message: Seq<char>, log: Seq<char>, code: i32 },
}

impl View for StartupStep {
    type V = StartupStepView;

    open spec fn view(&self) -> StartupStepView {
        match *self {
            StartupStep::WaitForSidecar => StartupStepView::WaitForSidecar,
            StartupStep::EmitReady => StartupStepView::EmitReady,
            StartupStep::Fail { dialog, code } => StartupStepView::Fail {
                title: dialog.title@,
                message: dialog.message@,
                log: dialog.log@,
                code,
            },
        }
    }
}

/// The step that gives up, with `message`.
pub open spec fn gives_up(message: Seq<char>) -> StartupStepView {
    StartupStepView::Fail {
        title: STARTUP_ERROR_TITLE@,
        message,
        log: "[startup-error] "@ + message,
        code: STARTUP_FAILED,
    }
}

/// The step that answers an event.
pub open spec fn startup_step(event: StartupEvent) -> StartupStepView {
    match event {
        StartupEvent::Spawned(Ok(_)) => StartupStepView::WaitForSidecar,
        StartupEvent::Spawned(Err(e)) => gives_up("Rikkahub 后端启动失败：\n\n"@ + e.text()),
        StartupEvent::Waited(Ok(_)) => StartupStepView::EmitReady,
        StartupEvent::Waited(Err(e)) => gives_up(e.text()),
    }
}

/// Starts the shell: the sidecar has to be started and has to answer; otherwise the user is told
/// and the shell exits, so that it never shows another instance's page.
pub fn start_up(event: StartupEvent) -> (step: StartupStep)
    ensures
        step@ == startup_step(event),
        step is EmitReady <==> (event matches StartupEvent::Waited(Ok(_))),
        step is WaitForSidecar <==> (event matches StartupEvent::Spawned(Ok(_))),
        step matches StartupStep::Fail { code, .. } ==> code == STARTUP_FAILED,
{
    match event {
        StartupEvent::Spawned(Ok(_)) => StartupStep::WaitForSidecar,
        StartupEvent::Spawned(Err(e)) => StartupStep::Fail {
            dialog: show_startup_error(&join("Rikkahub 后端启动失败：\n\n", &e.message())),
            code: STARTUP_FAILED,
        },
        StartupEvent::Waited(Ok(_)) => StartupStep::EmitReady,
        StartupEvent::Waited(Err(e)) => StartupStep::Fail {
            dialog: show_startup_error(&e.message()),
            code: STARTUP_FAILED,
        },
    }
}

/// How the start ends when the sidecar is started, and answers, as given.
pub open spec fn startup_end(
    spawned: Result<(), ShellError>,
    waited: Result<(), ShellError>,
) -> StartupStepView {
    match startup_step(StartupEvent::Spawned(spawned)) {
        StartupStepView::WaitForSidecar => startup_step(StartupEvent::Waited(waited)),
        step => step,
    }
}

/// The shell starts exactly when the sidecar was started and answered; otherwise it gives up, with
/// the first failure in its message.
pub proof fn law_shell_needs_its_sidecar(
    spawned: Result<(), ShellError>,
    waited: Result<(), ShellError>,
)
    ensures
        startup_end(spawned, waited) == match (spawned, waited) {
            (Ok(_), Ok(_)) => StartupStepView::EmitReady,
            (Ok(_), Err(e)) => gives_up(e.text()),
            (Err(e), _) => gives_up("Rikkahub 后端启动失败：\n\n"@ + e.text()),
        },
{
}

/// Where the sidecar is seen dead before the time is up and before anything answered, or right after
/// the first answer, the shell gives up and says that the port is taken, even if another process
/// goes on answering there.
pub proof fn law_taken_port_is_reported(timeout: u128, rounds: Seq<Round>, k: int)
    requires
        0 <= k < rounds.len(),
        rounds[k].dead || (rounds[k].connected && rounds[k].dead_after),
        rounds[k].elapsed < timeout,
        forall|j: int| 0 <= j < k ==> inconclusive(timeout, #[trigger] rounds[j]),
    ensures
        after_rounds(timeout, rounds) matches WaitStep::Done(waited) && startup_end(Ok(()), waited)
            == gives_up((ShellError::PortTaken { port: SIDECAR_PORT }).text()),
{
    law_first_decision_counts(timeout, rounds);
    assert(decides(timeout, rounds, k));
}

/// Something done to the shell's window.
#[derive(Debug, Clone, Copy, PartialEq, Eq, Structural)]
pub enum WindowAction {
    Unminimize,
    Show,
    Focus,
}

/// What a running shell does when another one is started: it brings its window, if it has one, to
/// the front.
pub fn on_second_instance(has_window: bool) -> (actions: Vec<WindowAction>)
    ensures
        actions@ == if has_window {
            seq![WindowAction::Unminimize, WindowAction::Show, WindowAction::Focus]
        } else {
            seq![]
        },
{
    let mut actions: Vec<WindowAction> = Vec::new();
    if has_window {
        actions.push(WindowAction::Unminimize);
        actions.push(WindowAction::Show);
        actions.push(WindowAction::Focus);
    }
    actions
}

/// A failure ends the start with a dialog that holds the failure's own text whole: alone, where the
/// sidecar did not answer, and behind a heading, where it was not started. The same is logged, and the
/// exit code is 1, whatever the failure.
pub proof fn law_failure_is_shown_whole(e: ShellError)
    ensures
        startup_step(StartupEvent::Waited(Err(e))) == (StartupStepView::Fail {
            title: "Rikkahub 启动失败"@,
            message: e.text(),
            log: "[startup-error] "@ + e.text(),
            code: 1,
        }),
        startup_step(StartupEvent::Spawned(Err(e))) == (StartupStepView::Fail {
            title: "Rikkahub 启动失败"@,
            message: "Rikkahub 后端启动失败：\n\n"@ + e.text(),
            log: "[startup-error] "@ + ("Rikkahub 后端启动失败：\n\n"@ + e.text()),
            code: 1,
        }),
{
}

/// A sidecar that was started is waited for, and one that answered makes the shell ready; nothing else
/// does either.
pub proof fn law_success_goes_on(event: StartupEvent)
    ensures
        startup_step(event) == StartupStepView::WaitForSidecar <==> (event
            matches StartupEvent::Spawned(Ok(_))),
        startup_step(event) == StartupStepView::EmitReady <==> (event matches StartupEvent::Waited(
            Ok(_),
        )),
{
}

/// A dialog shows one message only, whole: the same that it logs.
pub proof fn law_dialog_shows_one_message(dialog: ErrorDialog, message: Seq<char>, code: i32)
    ensures
        dialog.shows(message) <==> {
            &&& dialog.title@ == "Rikkahub 启动失败"@
            &&& dialog.message@ == message
            &&& dialog.log@ == "[startup-error] "@ + message
        },
        (StartupStep::Fail { dialog, code })@ == (StartupStepView::Fail {
            title: dialog.title@,
            message: dialog.message@,
            log: dialog.log@,
            code,
        }),
        StartupStep::WaitForSidecar@ == StartupStepView::WaitForSidecar,
        StartupStep::EmitReady@ == StartupStepView::EmitReady,
{
}

/// Calls of [`start_up`]: a sidecar that was started is waited for, and one that answered makes the
/// shell ready; each failure is shown in a dialog with its own text whole, and the exit code is 1.
pub proof fn law_start_ends_as_its_sidecar_does(
    e: ShellError,
    wait: StartupStep,
    ready: StartupStep,
    not_started: StartupStep,
    not_ready: StartupStep,
)
    requires
        call_ensures(start_up, (StartupEvent::Spawned(Ok(())),), wait),
        call_ensures(start_up, (StartupEvent::Waited(Ok(())),), ready),
        call_ensures(start_up, (StartupEvent::Spawned(Err(e)),), not_started),
        call_ensures(start_up, (StartupEvent::Waited(Err(e)),), not_ready),
    ensures
        wait is WaitForSidecar,
        ready is EmitReady,
        not_started matches StartupStep::Fail { dialog, code } && code == 1 && dialog.message@
            == "Rikkahub 后端启动失败：\n\n"@ + e.text() && dialog.title@
            == "Rikkahub 启动失败"@ && dialog.log@ == "[startup-error] "@ + dialog.message@,
        not_ready matches StartupStep::Fail { dialog, code } && code == 1 && dialog.message@
            == e.text() && dialog.title@ == "Rikkahub 启动失败"@ && dialog.log@
            == "[startup-error] "@ + dialog.message@,
{
}

/// The dialog shows the message it is given, whole, and the same is logged.
pub proof fn law_dialog_shows_its_message(message: &str, dialog: ErrorDialog)
    requires
        call_ensures(show_startup_error, (message,), dialog),
    ensures
        dialog.title@ == "Rikkahub 启动失败"@,
        dialog.message@ == message@,
        dialog.log@ == "[startup-error] "@ + message@,
{
}

/// A second start brings the window to the front, in this order, and does nothing without a window.
pub proof fn law_second_start_shows_the_window(
    with: Vec<WindowAction>,
    without: Vec<WindowAction>,
)
    requires
        call_ensures(on_second_instance, (true,), with),
        call_ensures(on_second_instance, (false,), without),
    ensures
        with@.len() == 3,
        with@[0] == WindowAction::Unminimize && with@[1] == WindowAction::Show && with@[2]
            == WindowAction::Focus,
        without@.len() == 0,
{
}

} // verus!
