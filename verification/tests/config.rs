use rikkahub_shell::config::{
    config_path, config_written, load_user_config, save_user_config, set_data_dir,
    ConfigPathEvent, ConfigPathStep, ConfigRead, UserConfig, CONFIG_FILE,
};
use rikkahub_shell::error::ShellError;
use rikkahub_shell::path::ChildPath;

fn config(data_dir: Option<&str>) -> UserConfig {
    UserConfig { data_dir: data_dir.map(|d| d.to_string()) }
}

fn saved(cfg: &UserConfig) -> String {
    let path = ChildPath { base: "base", name: CONFIG_FILE.to_string() };
    match save_user_config(Ok(path), cfg) {
        Ok(request) => {
            assert_eq!(request.path.base, "base");
            assert_eq!(request.path.name, "user-config.json");
            request.text
        }
        Err(e) => panic!("{}", e.message()),
    }
}

#[test]
fn config_path_creates_the_directory_first() {
    match config_path(ConfigPathEvent::Resolved(Ok("dir"))) {
        ConfigPathStep::Create(dir) => assert_eq!(dir, "dir"),
        other => panic!("{:?}", other),
    }
    match config_path(ConfigPathEvent::Created("dir", Ok(()))) {
        ConfigPathStep::Done(Ok(path)) => {
            assert_eq!(path.base, "dir");
            assert_eq!(path.name, "user-config.json");
        }
        other => panic!("{:?}", other),
    }
}

#[test]
fn config_path_reports_an_unknown_directory() {
    match config_path::<&str>(ConfigPathEvent::Resolved(Err("no home".to_string()))) {
        ConfigPathStep::Done(Err(e)) => {
            assert!(matches!(e, ShellError::ConfigDirUnresolved(_)));
            assert_eq!(e.message(), "Failed to resolve app config dir: no home");
        }
        other => panic!("{:?}", other),
    }
}

#[test]
fn config_path_reports_a_directory_that_cannot_be_created() {
    match config_path(ConfigPathEvent::Created("dir", Err("read-only".to_string()))) {
        ConfigPathStep::Done(Err(e)) => {
            assert!(matches!(e, ShellError::ConfigDirNotCreated(_)));
            assert_eq!(e.message(), "Failed to create config dir: read-only");
        }
        other => panic!("{:?}", other),
    }
}

#[test]
fn unreadable_configuration_is_the_default() {
    assert_eq!(UserConfig::default().data_dir, None);
    assert_eq!(load_user_config(ConfigRead::NoPath).data_dir, None);
    assert_eq!(load_user_config(ConfigRead::NoText).data_dir, None);
    assert_eq!(load_user_config(ConfigRead::BadText).data_dir, None);
    let cfg = load_user_config(ConfigRead::Parsed(config(Some("E:\\rikka"))));
    assert_eq!(cfg.data_dir.as_deref(), Some("E:\\rikka"));
}

#[test]
fn saved_text_is_pretty_json() {
    assert_eq!(saved(&config(None)), "{\n  \"data_dir\": null\n}");
    assert_eq!(
        saved(&config(Some("D:\\数据\\\"x\""))),
        "{\n  \"data_dir\": \"D:\\\\数据\\\\\\\"x\\\"\"\n}"
    );
    assert_eq!(
        saved(&config(Some("\u{8}\t\n\u{c}\r\u{0}\u{1b}\u{7f}/"))),
        "{\n  \"data_dir\": \"\\b\\t\\n\\f\\r\\u0000\\u001b\u{7f}/\"\n}"
    );
}

#[test]
fn saved_text_reads_back() {
    let mut all = String::new();
    for c in '\0'..='\u{ff}' {
        all.push(c);
    }
    for dir in ["", "C:\\a b", "null", "\"", "\\u0041", all.as_str()] {
        let text = saved(&config(Some(dir)));
        let value: serde_json::Value = serde_json::from_str(&text).unwrap();
        assert_eq!(value["data_dir"].as_str(), Some(dir));
    }
    let value: serde_json::Value = serde_json::from_str(&saved(&config(None))).unwrap();
    assert!(value["data_dir"].is_null());
}

#[test]
fn different_settings_have_different_texts() {
    let settings = [None, Some(""), Some("null"), Some("\""), Some("\\\""), Some("\\")];
    for (i, a) in settings.iter().enumerate() {
        for (j, b) in settings.iter().enumerate() {
            assert_eq!(saved(&config(*a)) == saved(&config(*b)), i == j);
        }
    }
}

#[test]
fn saving_without_a_path_reports_why() {
    let path: Result<ChildPath<&str>, ShellError> =
        Err(ShellError::ConfigDirNotCreated("full".to_string()));
    match save_user_config(path, &config(None)) {
        Err(e) => assert_eq!(e.message(), "Failed to create config dir: full"),
        Ok(request) => panic!("{:?}", request),
    }
}

#[test]
fn a_failed_write_is_reported() {
    assert!(config_written(Ok(())).is_ok());
    match config_written(Err("disk full".to_string())) {
        Err(e) => assert_eq!(e.message(), "Failed to write config: disk full"),
        Ok(()) => panic!("a failed write went unnoticed"),
    }
}

#[test]
fn a_config_without_text_would_be_reported() {
    let e = ShellError::ConfigNotSerialized("key must be a string".to_string());
    assert_eq!(e.message(), "Failed to serialize config: key must be a string");
}

#[test]
fn set_data_dir_trims_and_clears() {
    let mut cfg = config(Some("old"));
    set_data_dir(&mut cfg, "  D:\\data dir\n");
    assert_eq!(cfg.data_dir.as_deref(), Some("D:\\data dir"));
    set_data_dir(&mut cfg, "D:\\data dir");
    assert_eq!(cfg.clone().data_dir, cfg.data_dir);
    assert_eq!(cfg.data_dir.as_deref(), Some("D:\\data dir"));
    set_data_dir(&mut cfg, " \u{3000}\t");
    assert_eq!(cfg.data_dir, None);
    set_data_dir(&mut cfg, "");
    assert_eq!(cfg.data_dir, None);
}
