//! What can go wrong in the shell, and what the user is told about it.

use vstd::prelude::*;

use crate::text::{decimal, digits, join, law_digits_read_back, value_of};

verus! {

/// A failure the user hears about. The strings it holds are the paths and causes that the message
/// quotes.
#[derive(Debug)]
pub enum ShellError {
    /// The configuration directory is unknown.
    ConfigDirUnresolved(String),
    /// The configuration directory cannot be created.
    ConfigDirNotCreated(String),
    /// The configuration has no text.
    ConfigNotSerialized(String),
    /// The configuration file cannot be written.
    ConfigNotWritten(String),
    /// The data directory cannot be created.
    DataDirNotCreated { dir: String, cause: String },
    /// The sidecar's binary is missing.
    SidecarNotFound(String),
    /// The sidecar did not start.
    SidecarNotSpawned(String),
    /// The sidecar died before it answered, so another process owns its port.
    PortTaken { port: u16 },
    /// The sidecar did not answer in time.
    NotReady { seconds: u64 },
    /// No installer was named.
    InstallerPathEmpty,
    /// The installer does not exist.
    InstallerNotFound(String),
    /// The installer is not an executable.
    InstallerNotExe(String),
    /// The installer did not start.
    InstallerNotLaunched(String),
}

impl ShellError {
    /// The text shown for the failure.
    pub open spec fn text(self) -> Seq<char> {
        match self {
            ShellError::ConfigDirUnresolved(e) => "Failed to resolve app config dir: "@ + e@,
            ShellError::ConfigDirNotCreated(e) => "Failed to create config dir: "@ + e@,
            ShellError::ConfigNotSerialized(e) => "Failed to serialize config: "@ + e@,
            ShellError::ConfigNotWritten(e) => "Failed to write config: "@ + e@,
            ShellError::DataDirNotCreated { dir, cause } => "Failed to create data dir "@ + dir@
                + ": "@ + cause@,
            ShellError::SidecarNotFound(e) => "Sidecar binary `rikkahub-server` not found: "@ + e@,
            ShellError::SidecarNotSpawned(e) => "Failed to spawn sidecar: "@ + e@,
            ShellError::PortTaken { port } => "Rikkahub 启动失败：端口 "@ + digits(port as nat)
                + " 已被占用。\n\n请打开任务管理器，关闭已有的 rikkahub-server.exe 或 rikkahub-pc.exe 进程，然后重新启动 Rikkahub。"@,
            ShellError::NotReady { seconds } => "Rikkahub 后端服务在 "@ + digits(seconds as nat)
                + "s 内未启动完成，请重试。"@,
            ShellError::InstallerPathEmpty => "Installer path is empty"@,
            ShellError::InstallerNotFound(path) => "Installer not found: "@ + path@,
            ShellError::InstallerNotExe(path) => "Refusing to launch non-exe: "@ + path@,
            ShellError::InstallerNotLaunched(e) => "Failed to launch installer: "@ + e@,
        }
    }

    /// The text shown for the failure.
    pub fn message(&self) -> (r: String)
        ensures
            r@ == self.text(),
    {
        match self {
            ShellError::ConfigDirUnresolved(e) => join("Failed to resolve app config dir: ", e),
            ShellError::ConfigDirNotCreated(e) => join("Failed to create config dir: ", e),
            ShellError::ConfigNotSerialized(e) => join("Failed to serialize config: ", e),
            ShellError::ConfigNotWritten(e) => join("Failed to write config: ", e),
            ShellError::DataDirNotCreated { dir, cause } => join(
                "Failed to create data dir ",
                dir,
            ).concat(": ").concat(cause),
            ShellError::SidecarNotFound(e) => join(
                "Sidecar binary `rikkahub-server` not found: ",
                e,
            ),
            ShellError::SidecarNotSpawned(e) => join("Failed to spawn sidecar: ", e),
            ShellError::PortTaken { port } => join(
                "Rikkahub 启动失败：端口 ",
                &decimal(*port as u64),
            ).concat(
                " 已被占用。\n\n请打开任务管理器，关闭已有的 rikkahub-server.exe 或 rikkahub-pc.exe 进程，然后重新启动 Rikkahub。",
            ),
            ShellError::NotReady { seconds } => join(
                "Rikkahub 后端服务在 ",
                &decimal(*seconds),
            ).concat("s 内未启动完成，请重试。"),
            ShellError::InstallerPathEmpty => "Installer path is empty".to_owned(),
            ShellError::InstallerNotFound(path) => join("Installer not found: ", path),
            ShellError::InstallerNotExe(path) => join("Refusing to launch non-exe: ", path),
            ShellError::InstallerNotLaunched(e) => join("Failed to launch installer: ", e),
        }
    }
}

/// A message quotes its cause, or the path it is about, whole and as it is.
pub proof fn law_message_quotes_its_cause(e: String, dir: String)
    ensures
        ShellError::ConfigDirUnresolved(e).text() == "Failed to resolve app config dir: "@ + e@,
        ShellError::ConfigDirNotCreated(e).text() == "Failed to create config dir: "@ + e@,
        ShellError::ConfigNotSerialized(e).text() == "Failed to serialize config: "@ + e@,
        ShellError::ConfigNotWritten(e).text() == "Failed to write config: "@ + e@,
        (ShellError::DataDirNotCreated { dir, cause: e }).text() == "Failed to create data dir "@
            + dir@ + ": "@ + e@,
        ShellError::SidecarNotFound(e).text() == "Sidecar binary `rikkahub-server` not found: "@
            + e@,
        ShellError::SidecarNotSpawned(e).text() == "Failed to spawn sidecar: "@ + e@,
        ShellError::InstallerNotFound(e).text() == "Installer not found: "@ + e@,
        ShellError::InstallerNotExe(e).text() == "Refusing to launch non-exe: "@ + e@,
        ShellError::InstallerNotLaunched(e).text() == "Failed to launch installer: "@ + e@,
        ShellError::InstallerPathEmpty.text() == "Installer path is empty"@,
{
}

/// Two failures of one kind that quotes one string are told apart by their messages exactly when these
/// strings differ.
pub proof fn law_messages_tell_causes_apart(a: String, b: String)
    ensures
        ShellError::ConfigDirUnresolved(a).text() == ShellError::ConfigDirUnresolved(b).text()
            <==> a@ == b@,
        ShellError::ConfigDirNotCreated(a).text() == ShellError::ConfigDirNotCreated(b).text()
            <==> a@ == b@,
        ShellError::ConfigNotSerialized(a).text() == ShellError::ConfigNotSerialized(b).text()
            <==> a@ == b@,
        ShellError::ConfigNotWritten(a).text() == ShellError::ConfigNotWritten(b).text() <==> a@
            == b@,
        ShellError::SidecarNotFound(a).text() == ShellError::SidecarNotFound(b).text() <==> a@ == b@,
        ShellError::SidecarNotSpawned(a).text() == ShellError::SidecarNotSpawned(b).text() <==> a@
            == b@,
        ShellError::InstallerNotFound(a).text() == ShellError::InstallerNotFound(b).text() <==> a@
            == b@,
        ShellError::InstallerNotExe(a).text() == ShellError::InstallerNotExe(b).text() <==> a@ == b@,
        ShellError::InstallerNotLaunched(a).text() == ShellError::InstallerNotLaunched(b).text()
            <==> a@ == b@,
{
    law_message_quotes_its_cause(a, a);
    law_message_quotes_its_cause(b, b);
    lemma_same_head("Failed to resolve app config dir: "@, a@, b@);
    lemma_same_head("Failed to create config dir: "@, a@, b@);
    lemma_same_head("Failed to serialize config: "@, a@, b@);
    lemma_same_head("Failed to write config: "@, a@, b@);
    lemma_same_head("Sidecar binary `rikkahub-server` not found: "@, a@, b@);
    lemma_same_head("Failed to spawn sidecar: "@, a@, b@);
    lemma_same_head("Installer not found: "@, a@, b@);
    lemma_same_head("Refusing to launch non-exe: "@, a@, b@);
    lemma_same_head("Failed to launch installer: "@, a@, b@);
}

proof fn lemma_same_head(head: Seq<char>, a: Seq<char>, b: Seq<char>)
    ensures
        head + a == head + b <==> a == b,
{
    if head + a == head + b {
        assert((head + a).skip(head.len() as int) =~= a);
        assert((head + b).skip(head.len() as int) =~= b);
    }
}

/// The messages about the port and the time hold the number itself: in decimal, whatever it is.
pub proof fn law_messages_hold_the_number(port: u16, seconds: u64)
    ensures
        exists|d: Seq<char>|
            {
                &&& (ShellError::PortTaken { port }).text() == #[trigger] (
                "Rikkahub 启动失败：端口 "@ + d)
                    + " 已被占用。\n\n请打开任务管理器，关闭已有的 rikkahub-server.exe 或 rikkahub-pc.exe 进程，然后重新启动 Rikkahub。"@
                &&& value_of(d) == port
                &&& forall|i: int| 0 <= i < d.len() ==> '0' <= #[trigger] d[i] <= '9'
            },
        exists|d: Seq<char>|
            {
                &&& (ShellError::NotReady { seconds }).text() == #[trigger] (
                "Rikkahub 后端服务在 "@ + d) + "s 内未启动完成，请重试。"@
                &&& value_of(d) == seconds
                &&& forall|i: int| 0 <= i < d.len() ==> '0' <= #[trigger] d[i] <= '9'
            },
{
    let p = digits(port as nat);
    let t = digits(seconds as nat);
    law_digits_read_back(port as nat);
    law_digits_read_back(seconds as nat);
    assert((ShellError::PortTaken { port }).text() == ("Rikkahub 启动失败：端口 "@ + p)
        + " 已被占用。\n\n请打开任务管理器，关闭已有的 rikkahub-server.exe 或 rikkahub-pc.exe 进程，然后重新启动 Rikkahub。"@);
    assert((ShellError::NotReady { seconds }).text() == ("Rikkahub 后端服务在 "@ + t)
        + "s 内未启动完成，请重试。"@);
}

/// The message that is shown is the failure's text, with the path and the cause in it whole.
pub proof fn law_message_is_the_text(e: ShellError, message: String)
    requires
        call_ensures(ShellError::message, (&e,), message),
    ensures
        message@ == e.text(),
        e matches ShellError::DataDirNotCreated { dir, cause } ==> message@
            == "Failed to create data dir "@ + dir@ + ": "@ + cause@,
        e matches ShellError::SidecarNotSpawned(cause) ==> message@ == "Failed to spawn sidecar: "@
            + cause@,
        e matches ShellError::InstallerNotExe(path) ==> message@ == "Refusing to launch non-exe: "@
            + path@,
{
}

} // verus!
