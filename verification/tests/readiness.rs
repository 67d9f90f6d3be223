use rikkahub_shell::error::ShellError;
use rikkahub_shell::readiness::{
    sidecar_addr, wait_for_sidecar_ready, WaitEvent, WaitStep, SIDECAR_PORT,
    SIDECAR_READY_TIMEOUT_SECS,
};

/// Elapsed time, death, an answer, and death after it.
type Round = (u128, bool, bool, bool);

/// Waits through rounds, and says how many it took.
fn wait(timeout: u128, rounds: &[Round]) -> (Option<Result<(), ShellError>>, usize) {
    for (i, &(elapsed, dead, connected, dead_after)) in rounds.iter().enumerate() {
        let mut step = WaitStep::ReadClock;
        loop {
            let event = match step {
                WaitStep::ReadClock => WaitEvent::Elapsed(elapsed),
                WaitStep::CheckChild => WaitEvent::Child { dead },
                WaitStep::Connect { millis } => {
                    assert_eq!(millis, 200);
                    WaitEvent::Probe { connected, dead: dead_after }
                }
                WaitStep::Pause { millis } => {
                    assert_eq!(millis, 150);
                    assert!(matches!(
                        wait_for_sidecar_ready(timeout, WaitEvent::Paused),
                        WaitStep::ReadClock
                    ));
                    break;
                }
                WaitStep::Done(result) => return (Some(result), i + 1),
            };
            step = wait_for_sidecar_ready(timeout, event);
        }
    }
    (None, rounds.len())
}

#[test]
fn an_answer_means_ready() {
    let (result, rounds) = wait(20, &[(0, false, false, false), (5, false, false, false), (9, false, true, false)]);
    assert!(matches!(result, Some(Ok(()))));
    assert_eq!(rounds, 3);
}

#[test]
fn waiting_goes_on_while_nothing_answers() {
    assert!(wait(20, &[(0, false, false, false), (19, false, false, false)]).0.is_none());
}

#[test]
fn a_dead_sidecar_is_not_ready_even_if_something_answers() {
    let (result, rounds) = wait(20, &[(0, false, false, false), (1, true, true, true), (2, false, true, false)]);
    assert_eq!(rounds, 2);
    match result {
        Some(Err(e)) => {
            assert!(matches!(e, ShellError::PortTaken { port: 8080 }));
            assert_eq!(
                e.message(),
                "Rikkahub 启动失败：端口 8080 已被占用。\n\n\
                 请打开任务管理器，关闭已有的 rikkahub-server.exe 或 rikkahub-pc.exe 进程，\
                 然后重新启动 Rikkahub。"
            );
        }
        other => panic!("{:?}", other),
    }
}

#[test]
fn a_sidecar_that_dies_while_something_answers_is_not_ready() {
    let (result, rounds) = wait(20, &[(0, false, true, true)]);
    assert!(matches!(result, Some(Err(ShellError::PortTaken { port: 8080 }))));
    assert_eq!(rounds, 1);
}

#[test]
fn a_sidecar_that_dies_while_nothing_answers_is_noticed_in_the_next_round() {
    let (result, rounds) = wait(20, &[(0, false, false, true), (1, true, true, true)]);
    assert!(matches!(result, Some(Err(ShellError::PortTaken { port: 8080 }))));
    assert_eq!(rounds, 2);
}

#[test]
fn time_runs_out() {
    let (result, rounds) = wait(20, &[(19, false, false, false), (20, true, true, true)]);
    assert_eq!(rounds, 2);
    match result {
        Some(Err(e)) => {
            assert!(matches!(e, ShellError::NotReady { seconds: 20 }));
            assert_eq!(e.message(), "Rikkahub 后端服务在 20s 内未启动完成，请重试。");
        }
        other => panic!("{:?}", other),
    }
}

#[test]
fn attempts_are_bounded() {
    let timeout = u128::from(SIDECAR_READY_TIMEOUT_SECS) * 1_000_000_000;
    let pauses = |n: u128| n * 150_000_000;
    let attempted = |n: u128| {
        matches!(
            wait_for_sidecar_ready(timeout, WaitEvent::Elapsed(pauses(n))),
            WaitStep::CheckChild
        )
    };
    assert!(attempted(133));
    assert!(!attempted(134));
}

#[test]
fn no_time_at_all_is_no_time() {
    assert!(matches!(wait(0, &[(0, false, true, false)]), (Some(Err(ShellError::NotReady { .. })), 1)));
}

#[test]
fn the_timeout_reads_as_a_duration() {
    let timeout = std::time::Duration::from_secs(SIDECAR_READY_TIMEOUT_SECS);
    let e = ShellError::NotReady { seconds: SIDECAR_READY_TIMEOUT_SECS };
    assert_eq!(e.message(), format!("Rikkahub 后端服务在 {timeout:?} 内未启动完成，请重试。"));
}

#[test]
fn the_address_is_loopback() {
    assert_eq!(SIDECAR_PORT, 8080);
    assert_eq!(sidecar_addr(), "127.0.0.1:8080");
}
