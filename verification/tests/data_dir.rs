use rikkahub_shell::config::{set_data_dir, UserConfig};
use rikkahub_shell::data_dir::{
    exe_dir, resolve_data_dir, DataDir, DataDirEvent, DataDirStep, ExeDir,
};

/// Answers the steps from these sources, and says how many were asked.
fn resolve(env: Option<&str>, config: Option<&str>, exe: Option<&'static str>) -> (String, usize) {
    let mut event: DataDirEvent<&str> = DataDirEvent::Env(env.map(|s| s.to_string()));
    let mut asked = 1;
    loop {
        event = match resolve_data_dir(event) {
            DataDirStep::Done(DataDir::Chosen(path)) => return (path, asked),
            DataDirStep::Done(DataDir::Portable(child)) => {
                let base = match child.base {
                    ExeDir::Parent(p) => p.to_string(),
                    ExeDir::Relative(s) => s,
                };
                return (format!("{}/{}", base, child.name), asked);
            }
            DataDirStep::LoadConfig => {
                DataDirEvent::Config(UserConfig { data_dir: config.map(|s| s.to_string()) })
            }
            DataDirStep::LocateExe => DataDirEvent::Exe(exe),
        };
        asked += 1;
    }
}

#[test]
fn the_environment_comes_first() {
    assert_eq!(resolve(Some("E:\\env"), Some("cfg"), Some("exe")), ("E:\\env".to_string(), 1));
}

#[test]
fn a_path_in_the_environment_is_not_trimmed() {
    assert_eq!(resolve(Some(" x "), None, None), (" x ".to_string(), 1));
}

#[test]
fn the_configuration_comes_second() {
    assert_eq!(resolve(None, Some("D:\\cfg"), Some("exe")), ("D:\\cfg".to_string(), 2));
    assert_eq!(resolve(Some(" \t"), Some("D:\\cfg"), Some("exe")), ("D:\\cfg".to_string(), 2));
    assert_eq!(resolve(Some(""), Some(" y "), Some("exe")), (" y ".to_string(), 2));
}

#[test]
fn the_executable_comes_last() {
    assert_eq!(resolve(None, None, Some("C:/app")), ("C:/app/pc-data".to_string(), 3));
    assert_eq!(resolve(Some(""), Some(" \n"), Some("C:/app")), ("C:/app/pc-data".to_string(), 3));
    assert_eq!(resolve(None, None, None), ("./pc-data".to_string(), 3));
}

#[test]
fn exe_dir_falls_back_to_the_current_directory() {
    assert!(matches!(exe_dir(Some("C:/app")), ExeDir::Parent("C:/app")));
    match exe_dir::<&str>(None) {
        ExeDir::Relative(s) => assert_eq!(s, "."),
        other => panic!("{:?}", other),
    }
}

#[test]
fn what_is_set_is_what_is_used() {
    let mut cfg = UserConfig::default();
    set_data_dir(&mut cfg, "  F:\\rikka ");
    assert_eq!(resolve(None, cfg.data_dir.as_deref(), Some("exe")).0, "F:\\rikka");
    assert_eq!(resolve(Some("env"), cfg.data_dir.as_deref(), Some("exe")).0, "env");
    set_data_dir(&mut cfg, "   ");
    assert_eq!(resolve(None, cfg.data_dir.as_deref(), Some("exe")).0, "exe/pc-data");
}
