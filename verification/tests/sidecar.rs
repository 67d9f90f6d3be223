use rikkahub_shell::readiness::sidecar_addr;
use rikkahub_shell::sidecar::{
    sidecar_command, spawn_sidecar, watch_sidecar, LifecycleEvent, SidecarCommand, SidecarEvent,
    SidecarState, SpawnEvent, SpawnStep, VarValue,
};

fn check_command(command: &SidecarCommand<&str>, dir: &str) {
    assert_eq!(command.program, "rikkahub-server");
    assert_eq!(command.args, vec!["--no-open".to_string()]);
    assert_eq!(command.vars.len(), 2);
    assert_eq!(command.vars[0].name, "RIKKAHUB_PC_DATA_DIR");
    assert!(matches!(command.vars[0].value, VarValue::Path(p) if p == dir));
    assert_eq!(command.vars[1].name, "PORT");
    assert!(matches!(&command.vars[1].value, VarValue::Text(t) if t == "8080"));
}

#[test]
fn the_sidecar_gets_its_directory_and_port() {
    check_command(&sidecar_command("D:/data"), "D:/data");
}

#[test]
fn the_sidecar_listens_where_it_is_looked_for() {
    match &sidecar_command("d").vars[1].value {
        VarValue::Text(port) => assert_eq!(sidecar_addr(), format!("127.0.0.1:{}", port)),
        other => panic!("{:?}", other),
    }
}

#[test]
fn the_sidecar_is_started_step_by_step() {
    let dir = match spawn_sidecar(SpawnEvent::Resolved("D:/data")) {
        SpawnStep::CreateDir(dir) => dir,
        other => panic!("{:?}", other),
    };
    let shown = dir.to_string();
    let command = match spawn_sidecar(SpawnEvent::DirCreated { dir, shown, created: Ok(()) }) {
        SpawnStep::LookUp(command) => command,
        other => panic!("{:?}", other),
    };
    check_command(&command, "D:/data");
    let command = match spawn_sidecar(SpawnEvent::LookedUp { command, found: Ok(()) }) {
        SpawnStep::Spawn(command) => command,
        other => panic!("{:?}", other),
    };
    check_command(&command, "D:/data");
    assert!(matches!(
        spawn_sidecar::<&str>(SpawnEvent::Spawned(Ok(77))),
        SpawnStep::Watch { pid: 77 }
    ));
}

fn failure(event: SpawnEvent<&str>) -> String {
    match spawn_sidecar(event) {
        SpawnStep::Failed(e) => e.message(),
        other => panic!("{:?}", other),
    }
}

#[test]
fn every_failure_to_start_is_reported() {
    assert_eq!(
        failure(SpawnEvent::DirCreated {
            dir: "d",
            shown: "D:\\data".to_string(),
            created: Err("denied".to_string()),
        }),
        "Failed to create data dir D:\\data: denied"
    );
    assert_eq!(
        failure(SpawnEvent::LookedUp {
            command: sidecar_command("d"),
            found: Err("no such file".to_string()),
        }),
        "Sidecar binary `rikkahub-server` not found: no such file"
    );
    assert_eq!(
        failure(SpawnEvent::Spawned(Err("out of memory".to_string()))),
        "Failed to spawn sidecar: out of memory"
    );
}

fn logged(event: SidecarEvent) -> Option<String> {
    let step = watch_sidecar(event);
    assert!(!step.dead);
    assert!(!step.stop);
    step.log
}

#[test]
fn output_is_logged_without_its_line_end() {
    let line = |s: &str| s.as_bytes().to_vec();
    assert_eq!(
        logged(SidecarEvent::Stdout(line(" 监听 8080 \r\n"))).as_deref(),
        Some("[sidecar]  监听 8080")
    );
    assert_eq!(
        logged(SidecarEvent::Stderr(line("warn\n"))).as_deref(),
        Some("[sidecar:err] warn")
    );
    assert_eq!(logged(SidecarEvent::Stdout(line(""))).as_deref(), Some("[sidecar] "));
    assert_eq!(
        logged(SidecarEvent::Error("pipe".to_string())).as_deref(),
        Some("[sidecar:error] pipe")
    );
    assert_eq!(logged(SidecarEvent::Other), None);
}

#[test]
fn output_that_is_not_utf8_is_not_logged() {
    assert_eq!(logged(SidecarEvent::Stdout(vec![0xff, 0x41])), None);
    assert_eq!(logged(SidecarEvent::Stderr(vec![0xe4, 0xb8])), None);
    assert_eq!(logged(SidecarEvent::Stdout(vec![0xed, 0xa0, 0x80])), None);
    assert_eq!(logged(SidecarEvent::Stdout(vec![0xc0, 0x80])), None);
    assert_eq!(
        logged(SidecarEvent::Stdout(vec![0xf0, 0x9f, 0x98, 0x80])).as_deref(),
        Some("[sidecar] 😀")
    );
}

#[test]
fn the_end_of_the_process_is_noticed() {
    let step = watch_sidecar(SidecarEvent::Terminated("code 1".to_string()));
    assert_eq!(step.log.as_deref(), Some("[sidecar] terminated: code 1"));
    assert!(step.dead && step.stop);
    let step = watch_sidecar(SidecarEvent::Closed);
    assert_eq!(step.log, None);
    assert!(step.dead && step.stop);
}

#[test]
fn death_is_noticed_among_other_reports() {
    let reports = vec![
        SidecarEvent::Stdout(b"up\n".to_vec()),
        SidecarEvent::Other,
        SidecarEvent::Error("e".to_string()),
        SidecarEvent::Terminated("t".to_string()),
        SidecarEvent::Stdout(b"late\n".to_vec()),
    ];
    let mut seen = 0;
    let mut dead = false;
    let mut lines = vec![];
    for report in reports {
        let step = watch_sidecar(report);
        seen += 1;
        dead = dead || step.dead;
        lines.extend(step.log);
        if step.stop {
            break;
        }
    }
    assert!(dead);
    assert_eq!(seen, 4);
    assert_eq!(lines, vec!["[sidecar] up", "[sidecar:error] e", "[sidecar] terminated: t"]);
}

#[test]
fn the_sidecar_is_killed_once() {
    let mut state = SidecarState::default();
    assert_eq!(state.tear_down(LifecycleEvent::CloseRequested), None);
    state.store("child");
    assert_eq!(state.tear_down(LifecycleEvent::Other), None);
    assert_eq!(state.child, Some("child"));
    assert_eq!(state.tear_down(LifecycleEvent::CloseRequested), Some("child"));
    assert_eq!(state.tear_down(LifecycleEvent::ExitRequested), None);
    assert_eq!(state.child, None);
}

#[test]
fn exit_alone_kills_the_sidecar() {
    let mut state = SidecarState::default();
    state.store(1);
    state.store(2);
    assert_eq!(state.tear_down(LifecycleEvent::ExitRequested), Some(2));
    assert_eq!(state.tear_down(LifecycleEvent::CloseRequested), None);
}
