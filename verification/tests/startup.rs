use rikkahub_shell::error::ShellError;
use rikkahub_shell::readiness::{wait_for_sidecar_ready, WaitEvent, WaitStep};
use rikkahub_shell::startup::{
    on_second_instance, show_startup_error, start_up, StartupEvent, StartupStep, WindowAction,
};

fn failure(event: StartupEvent) -> String {
    match start_up(event) {
        StartupStep::Fail { dialog, code } => {
            assert_eq!(code, 1);
            assert_eq!(dialog.title, "Rikkahub 启动失败");
            assert_eq!(dialog.log, format!("[startup-error] {}", dialog.message));
            dialog.message
        }
        other => panic!("{:?}", other),
    }
}

#[test]
fn a_sidecar_that_answers_starts_the_shell() {
    assert!(matches!(start_up(StartupEvent::Spawned(Ok(()))), StartupStep::WaitForSidecar));
    assert!(matches!(start_up(StartupEvent::Waited(Ok(()))), StartupStep::EmitReady));
}

#[test]
fn a_sidecar_that_does_not_start_ends_the_shell() {
    assert_eq!(
        failure(StartupEvent::Spawned(Err(ShellError::SidecarNotSpawned("x".to_string())))),
        "Rikkahub 后端启动失败：\n\nFailed to spawn sidecar: x"
    );
}

#[test]
fn a_sidecar_that_does_not_answer_ends_the_shell() {
    assert_eq!(
        failure(StartupEvent::Waited(Err(ShellError::NotReady { seconds: 20 }))),
        "Rikkahub 后端服务在 20s 内未启动完成，请重试。"
    );
    assert_eq!(
        failure(StartupEvent::Waited(Err(ShellError::PortTaken { port: 8080 }))),
        ShellError::PortTaken { port: 8080 }.message()
    );
}

#[test]
fn a_taken_port_ends_the_shell() {
    let waited = match wait_for_sidecar_ready(20, WaitEvent::Child { dead: true }) {
        WaitStep::Done(result) => result,
        other => panic!("{:?}", other),
    };
    let message = failure(StartupEvent::Waited(waited));
    assert!(message.starts_with("Rikkahub 启动失败：端口 8080 已被占用。\n\n"));
}

#[test]
fn the_dialog_shows_and_logs_the_message() {
    let dialog = show_startup_error("m");
    assert_eq!(dialog.title, "Rikkahub 启动失败");
    assert_eq!(dialog.message, "m");
    assert_eq!(dialog.log, "[startup-error] m");
}

#[test]
fn a_second_instance_brings_the_window_to_the_front() {
    assert_eq!(
        on_second_instance(true),
        vec![WindowAction::Unminimize, WindowAction::Show, WindowAction::Focus]
    );
    assert!(on_second_instance(false).is_empty());
}
