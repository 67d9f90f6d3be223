use rikkahub_shell::error::ShellError;
use rikkahub_shell::installer::{
    launch_installer, launch_with_extension, InstallerEvent, InstallerStep,
};

/// Runs a request against a system where every path exists, or none.
fn launch(path: &str, exists: bool) -> Result<String, ShellError> {
    let path = match launch_installer(InstallerEvent::Requested(path.to_string())) {
        InstallerStep::CheckExists(path) => path,
        InstallerStep::Done(Err(e)) => return Err(e),
        other => panic!("{:?}", other),
    };
    match launch_installer(InstallerEvent::Checked { path, exists }) {
        InstallerStep::Launch(path) => Ok(path),
        InstallerStep::Done(Err(e)) => Err(e),
        other => panic!("{:?}", other),
    }
}

#[test]
fn an_installer_is_launched() {
    assert_eq!(launch(" C:\\Temp\\Rikkahub Setup 1.2.0.exe\n", true).unwrap(),
        "C:\\Temp\\Rikkahub Setup 1.2.0.exe");
    assert_eq!(launch("/tmp/setup.exe", true).unwrap(), "/tmp/setup.exe");
    assert_eq!(launch("setup.EXE", true).unwrap(), "setup.EXE");
    assert_eq!(launch("C:setup.eXe", true).unwrap(), "C:setup.eXe");
    assert_eq!(launch("/tmp/a:.exe", true).unwrap(), "/tmp/a:.exe");
    let share = "\\\\server\\share\\setup.exe";
    assert_eq!(launch(share, true).unwrap(), share);
    assert_eq!(launch("//server/share/setup.exe/", true).unwrap(), "//server/share/setup.exe/");
    for path in [
        "\\\\?\\C:\\dir\\setup.exe",
        "\\\\?\\UNC\\server\\share\\setup.exe",
        "\\\\.\\C:\\setup.exe",
    ] {
        assert_eq!(launch(path, true).unwrap(), path);
    }
    assert_eq!(launch("/tmp/..exe", true).unwrap(), "/tmp/..exe");
}

#[test]
fn a_blank_path_is_refused() {
    for path in ["", "  ", "\t\u{3000}\n"] {
        let e = launch(path, true).unwrap_err();
        assert!(matches!(e, ShellError::InstallerPathEmpty));
        assert_eq!(e.message(), "Installer path is empty");
    }
}

#[test]
fn a_missing_installer_is_refused_before_its_extension_counts() {
    for path in [" /tmp/none.exe ", "/tmp/none.bat"] {
        let e = launch(path, false).unwrap_err();
        assert!(matches!(e, ShellError::InstallerNotFound(_)));
        assert_eq!(e.message(), format!("Installer not found: {}", path.trim()));
    }
}

#[test]
fn anything_but_an_exe_is_refused() {
    for path in [
        "/tmp/run.bat",
        "/tmp/setup.exe.ps1",
        "/tmp/setup",
        "/tmp/exe",
        "/tmp/.exe",
        "/tmp/setup.exe.",
        "/tmp/setup.exee",
        "/tmp/setup.ex",
        "/tmp/x.exe/run",
        "/tmp/x.exe/..",
        "..",
        ".",
        "C:\\Temp\\run.cmd",
        "\\\\server\\share\\run.cmd",
        "/tmp/run.bat/.",
        "\\\\?\\C:\\dir\\run.ps1",
        "setup.exe/..",
        "/tmp/setup.ёхе",
    ] {
        let e = launch(path, true).unwrap_err();
        assert!(matches!(e, ShellError::InstallerNotExe(_)), "{}", path);
        assert_eq!(e.message(), format!("Refusing to launch non-exe: {}", path));
    }
}

#[test]
fn what_trails_a_name_is_not_part_of_it() {
    assert!(launch("/tmp/setup.exe/", true).is_ok());
    assert!(launch("/tmp/setup.exe//./", true).is_ok());
    assert!(launch("setup.exe/.", true).is_ok());
    assert!(launch("C:\\Temp\\setup.exe/", true).is_ok());
}

#[test]
fn the_extension_alone_decides() {
    let decide = |e: Option<&str>| {
        launch_with_extension("p".to_string(), e.map(|e| e.to_string()))
    };
    assert!(matches!(decide(Some("exe")), InstallerStep::Launch(p) if p == "p"));
    assert!(matches!(decide(Some("EXE")), InstallerStep::Launch(p) if p == "p"));
    for e in [None, Some(""), Some("ps1"), Some("exe ")] {
        match decide(e) {
            InstallerStep::Done(Err(ShellError::InstallerNotExe(p))) => assert_eq!(p, "p"),
            other => panic!("{:?}", other),
        }
    }
}

#[test]
fn a_failed_launch_is_reported() {
    assert!(matches!(
        launch_installer(InstallerEvent::Launched(Ok(()))),
        InstallerStep::Done(Ok(()))
    ));
    match launch_installer(InstallerEvent::Launched(Err("blocked".to_string()))) {
        InstallerStep::Done(Err(e)) => {
            assert_eq!(e.message(), "Failed to launch installer: blocked")
        }
        other => panic!("{:?}", other),
    }
}
