//! The user's configuration: what it holds, where it lives, and how it is read, changed and saved.

use vstd::prelude::*;

use crate::error::ShellError;
use crate::json::{
    json_object,
    json_string,
    json_value,
    law_json_object_reads_back,
    read_object,
    to_string_pretty,
};
use crate::path::ChildPath;
use crate::text::{
    is_blank,
    is_white_space,
    law_blank_is_all_white_space,
    law_trim_cuts_only_white_space,
    law_trim_idempotent,
    law_trimmed_ends,
    trim,
    trimmed,
};

verus! {

/// Name of the configuration file in the configuration directory.
pub const CONFIG_FILE: &'static str = "user-config.json";

/// Name of the one member of the configuration's JSON object.
pub const DATA_DIR_KEY: &'static str = "data_dir";

/// What the user has set.
#[derive(Debug)]
pub struct UserConfig {
    /// Where the data should live; without it, next to the executable.
    pub data_dir: Option<String>,
}

impl View for UserConfig {
    type V = Option<Seq<char>>;

    open spec fn view(&self) -> Option<Seq<char>> {
        match self.data_dir {
            None => None,
            Some(d) => Some(d@),
        }
    }
}

impl Clone for UserConfig {
    fn clone(&self) -> (r: UserConfig)
        ensures
            r@ == self@,
    {
        let data_dir = match &self.data_dir {
            None => None,
            Some(d) => Some(d.clone()),
        };
        UserConfig { data_dir }
    }
}

impl Default for UserConfig {
    fn default() -> (r: UserConfig)
        ensures
            r@ == None::<Seq<char>>,
    {
        UserConfig { data_dir: None }
    }
}

/// What is left to do for the path of the configuration file.
#[derive(Debug)]
pub enum ConfigPathStep<P> {
    /// Create the directory, with its parents.
    Create(P),
    /// The path, or why there is none.
    Done(Result<ChildPath<P>, ShellError>),
}

/// What has happened on the way to the path of the configuration file.
#[derive(Debug)]
pub enum ConfigPathEvent<P> {
    /// The system has been asked for the configuration directory.
    Resolved(Result<P, String>),
    /// The directory has been created, or not.
    Created(P, Result<(), String>),
}

/// Finds the configuration file: it stands in the configuration directory, which is created first.
pub fn config_path<P>(event: ConfigPathEvent<P>) -> (step: ConfigPathStep<P>)
    ensures
        match event {
            ConfigPathEvent::Resolved(Ok(dir)) => step == ConfigPathStep::Create(dir),
            ConfigPathEvent::Resolved(Err(e)) => step == ConfigPathStep::<P>::Done(
                Err(ShellError::ConfigDirUnresolved(e)),
            ),
            ConfigPathEvent::Created(dir, Ok(_)) => step matches ConfigPathStep::Done(Ok(path))
                && path.is_entry(dir, CONFIG_FILE@),
            ConfigPathEvent::Created(dir, Err(e)) => step == ConfigPathStep::<P>::Done(
                Err(ShellError::ConfigDirNotCreated(e)),
            ),
        },
{
    match event {
        ConfigPathEvent::Resolved(Ok(dir)) => ConfigPathStep::Create(dir),
        ConfigPathEvent::Resolved(Err(e)) => ConfigPathStep::Done(
            Err(ShellError::ConfigDirUnresolved(e)),
        ),
        ConfigPathEvent::Created(dir, Ok(_)) => ConfigPathStep::Done(
            Ok(ChildPath { base: dir, name: CONFIG_FILE.to_owned() }),
        ),
        ConfigPathEvent::Created(_, Err(e)) => ConfigPathStep::Done(
            Err(ShellError::ConfigDirNotCreated(e)),
        ),
    }
}

/// How far reading the configuration file got.
#[derive(Debug)]
pub enum ConfigRead {
    /// The file's path is unknown.
    NoPath,
    /// The file cannot be read.
    NoText,
    /// The file does not hold a configuration.
    BadText,
    /// The configuration that the file holds.
    Parsed(UserConfig),
}

/// The setting to go by: the one that was read, or the default where none could be.
pub open spec fn loaded(read: ConfigRead) -> Option<Seq<char>> {
    match read {
        ConfigRead::Parsed(c) => c@,
        _ => None,
    }
}

/// The configuration to go by: the one that was read, or the default where none could be.
pub fn load_user_config(read: ConfigRead) -> (cfg: UserConfig)
    ensures
        cfg@ == loaded(read),
        read matches ConfigRead::Parsed(c) ==> cfg == c,
        read !is Parsed ==> cfg.data_dir is None,
{
    match read {
        ConfigRead::Parsed(c) => c,
        _ => UserConfig::default(),
    }
}

/// A file to be written.
#[derive(Debug)]
pub struct WriteRequest<P> {
    pub path: ChildPath<P>,
    pub text: String,
}

/// The file's text for a setting of the data directory.
pub open spec fn config_text(setting: Option<Seq<char>>) -> Seq<char> {
    json_object(DATA_DIR_KEY@, setting)
}

/// What has to be written to save `cfg` at `path`. An unknown path is reported as it is; nothing
/// else can fail before the write.
pub fn save_user_config<P>(path: Result<ChildPath<P>, ShellError>, cfg: &UserConfig) -> (r: Result<
    WriteRequest<P>,
    ShellError,
>)
    ensures
        match path {
            Err(e) => r == Err::<WriteRequest<P>, ShellError>(e),
            Ok(p) => r matches Ok(w) && w.path == p && w.text@ == config_text(cfg@),
        },
        r matches Ok(w) ==> w.text@ == json_object(
            DATA_DIR_KEY@,
            match cfg.data_dir {
                None => None,
                Some(d) => Some(d@),
            },
        ),
{
    let p = match path {
        Ok(p) => p,
        Err(e) => {
            return Err(e);
        },
    };
    let value = match &cfg.data_dir {
        None => None,
        Some(d) => Some(d.as_str()),
    };
    match to_string_pretty(DATA_DIR_KEY, value) {
        Ok(text) => Ok(WriteRequest { path: p, text }),
        Err(e) => Err(ShellError::ConfigNotSerialized(e.to_string())),
    }
}

/// The outcome of saving, once the write has been tried.
pub fn config_written(written: Result<(), String>) -> (r: Result<(), ShellError>)
    ensures
        r == match written {
            Ok(_) => Ok::<(), ShellError>(()),
            Err(e) => Err(ShellError::ConfigNotWritten(e)),
        },
{
    match written {
        Ok(_) => Ok(()),
        Err(e) => Err(ShellError::ConfigNotWritten(e)),
    }
}

/// The setting that a path entered by the user stands for: blank input clears it, any other is
/// kept without the white space round it.
pub open spec fn setting_for(path: Seq<char>) -> Option<Seq<char>> {
    if is_blank(path) {
        None
    } else {
        Some(trimmed(path))
    }
}

/// Sets the data directory to the path that the user entered.
pub fn set_data_dir(cfg: &mut UserConfig, path: &str)
    ensures
        final(cfg)@ == setting_for(path@),
        final(cfg).data_dir is None <==> is_blank(path@),
        final(cfg).data_dir matches Some(d) ==> d@ == trimmed(path@),
{
    let trimmed_path = trim(path);
    proof {
        law_trimmed_ends(path@);
    }
    cfg.data_dir = if trimmed_path.is_empty() {
        None
    } else {
        Some(trimmed_path.to_owned())
    };
}

/// What is set is never blank and has no white space at its ends, so that setting it once more
/// leaves it as it is.
pub proof fn law_setting_is_clean(path: Seq<char>)
    ensures
        setting_for(path) matches Some(s) ==> !is_blank(s) && trimmed(s) == s && setting_for(s)
            == Some(s),
{
    law_trimmed_ends(path);
    law_trim_idempotent(path);
    law_trimmed_ends(trimmed(path));
}

/// The saved text tells the setting: no two settings are saved as the same text.
pub proof fn law_saved_text_tells_setting(a: Option<Seq<char>>, b: Option<Seq<char>>)
    requires
        config_text(a) == config_text(b),
    ensures
        a == b,
{
    crate::json::law_json_object_injective(DATA_DIR_KEY@, a, b);
}

/// Loading gives back what was saved, whatever it was, when the file still holds the text that was
/// saved and the configuration parsed from it is one that has that text.
pub proof fn law_save_then_load(cfg: UserConfig, text: Seq<char>, parsed: UserConfig)
    requires
        text == config_text(cfg@),
        text == config_text(parsed@),
    ensures
        loaded(ConfigRead::Parsed(parsed)) == cfg@,
{
    law_saved_text_tells_setting(cfg@, parsed@);
}

/// The view of a configuration is its field, and nothing else.
pub proof fn law_view_is_the_field(cfg: UserConfig)
    ensures
        cfg.data_dir is None <==> cfg@ is None,
        cfg.data_dir matches Some(d) ==> cfg@ == Some(d@),
{
}

/// What is set is one stretch of what was entered: everything before and after it is white space, and
/// neither of its own ends is. Nothing is set exactly when there is nothing but white space.
pub proof fn law_setting_is_the_entered_path(path: Seq<char>)
    ensures
        setting_for(path) is None <==> forall|k: int|
            0 <= k < path.len() ==> is_white_space(#[trigger] path[k]),
        setting_for(path) matches Some(s) ==> exists|i: int, j: int|
            {
                &&& 0 <= i < j <= path.len()
                &&& s == #[trigger] path.subrange(i, j)
                &&& forall|k: int|
                    0 <= k < i || j <= k < path.len() ==> is_white_space(#[trigger] path[k])
                &&& !is_white_space(path[i]) && !is_white_space(path[j - 1])
            },
{
    law_blank_is_all_white_space(path);
    law_trim_cuts_only_white_space(path);
    law_trimmed_ends(path);
}

/// A configuration that was read is the one to go by, whatever it holds; where none was read, nothing
/// is set.
pub proof fn law_read_configuration_counts(read: ConfigRead)
    ensures
        read matches ConfigRead::Parsed(c) ==> match c.data_dir {
            None => loaded(read) is None,
            Some(d) => loaded(read) == Some(d@),
        },
        read !is Parsed ==> loaded(read) is None,
{
}

/// For every setting, the saved text is a JSON document whose only member is the data directory, and
/// that reads back as the setting; nothing stands in front of it or behind it.
pub proof fn law_saved_text_reads_back(setting: Option<Seq<char>>)
    ensures
        read_object(config_text(setting)) == Some((DATA_DIR_KEY@, setting)),
        config_text(setting)[0] == '{',
        config_text(setting).last() == '}',
{
    law_json_object_reads_back(DATA_DIR_KEY@, setting);
}

/// The texts of two settings differ in the value alone.
pub proof fn law_saved_texts_differ_in_the_value(a: Option<Seq<char>>, b: Option<Seq<char>>)
    ensures
        exists|head: Seq<char>, tail: Seq<char>|
            {
                &&& config_text(a) == #[trigger] (head + json_value(a) + tail)
                &&& config_text(b) == head + json_value(b) + tail
                &&& tail == seq!['\n', '}']
            },
{
    let head = seq!['{', '\n', ' ', ' '] + json_string(DATA_DIR_KEY@) + seq![':', ' '];
    let tail = seq!['\n', '}'];
    assert(config_text(a) == head + json_value(a) + tail);
    assert(config_text(b) == head + json_value(b) + tail);
}

/// What the user enters is what is loaded at the next start, without the white space round it, when
/// the saved text is read as the JSON document that it is.
pub proof fn law_entered_path_survives_restart(path: Seq<char>, read: ConfigRead)
    requires
        read matches ConfigRead::Parsed(c) && read_object(config_text(setting_for(path))) == Some(
            (DATA_DIR_KEY@, c@),
        ),
    ensures
        is_blank(path) ==> loaded(read) is None,
        !is_blank(path) ==> loaded(read) == Some(trimmed(path)),
{
    law_saved_text_reads_back(setting_for(path));
}

/// The configuration file stands in the directory that the system names, under its one name, and that
/// directory is the one that is created for it; each failure is passed on with its cause as it is.
pub proof fn law_config_file_is_in_its_directory<P>(
    dir: P,
    e: String,
    create: ConfigPathStep<P>,
    path: ConfigPathStep<P>,
    unresolved: ConfigPathStep<P>,
    not_created: ConfigPathStep<P>,
)
    requires
        call_ensures(config_path::<P>, (ConfigPathEvent::Resolved(Ok(dir)),), create),
        call_ensures(config_path::<P>, (ConfigPathEvent::Created(dir, Ok(())),), path),
        call_ensures(config_path::<P>, (ConfigPathEvent::Resolved(Err(e)),), unresolved),
        call_ensures(config_path::<P>, (ConfigPathEvent::Created(dir, Err(e)),), not_created),
    ensures
        create matches ConfigPathStep::Create(created) && created == dir,
        path matches ConfigPathStep::Done(Ok(file)) && file.base == dir && file.name@
            == "user-config.json"@,
        unresolved == ConfigPathStep::<P>::Done(Err(ShellError::ConfigDirUnresolved(e))),
        not_created == ConfigPathStep::<P>::Done(Err(ShellError::ConfigDirNotCreated(e))),
{
}

/// What saving writes goes to the path that was found and is a JSON document that reads back as the
/// configuration that was saved; where there is no path, nothing is written, and the reason is passed
/// on as it is.
pub proof fn law_saving_writes_what_reads_back<P>(
    path: Result<ChildPath<P>, ShellError>,
    cfg: UserConfig,
    r: Result<WriteRequest<P>, ShellError>,
)
    requires
        call_ensures(save_user_config::<P>, (path, &cfg), r),
    ensures
        r is Ok <==> path is Ok,
        path matches Err(e) ==> r == Err::<WriteRequest<P>, ShellError>(e),
        r matches Ok(w) ==> w.path == path->Ok_0 && read_object(w.text@) == Some(
            (
                "data_dir"@,
                match cfg.data_dir {
                    None => None,
                    Some(d) => Some(d@),
                },
            ),
        ),
{
    law_saved_text_reads_back(cfg@);
}

/// A write that succeeded is a save that succeeded, and one that failed is passed on with its cause as
/// it is.
pub proof fn law_write_decides_the_save(
    e: String,
    saved: Result<(), ShellError>,
    failed: Result<(), ShellError>,
)
    requires
        call_ensures(config_written, (Ok(()),), saved),
        call_ensures(config_written, (Err(e),), failed),
    ensures
        saved is Ok,
        failed == Err::<(), ShellError>(ShellError::ConfigNotWritten(e)),
{
}

/// Loading gives the very configuration that was read, and one with nothing set where none was.
pub proof fn law_loading_gives_what_was_read(read: ConfigRead, cfg: UserConfig)
    requires
        call_ensures(load_user_config, (read,), cfg),
    ensures
        read matches ConfigRead::Parsed(c) ==> cfg == c,
        read !is Parsed ==> cfg.data_dir is None,
{
}

/// What a call of [`set_data_dir`] sets is one stretch of what was entered, with nothing but white
/// space cut off at its ends, whatever was set before; it sets nothing exactly when nothing but white
/// space was entered.
pub proof fn law_entered_path_is_set(cfg: Ghost<&mut UserConfig>, path: &str)
    requires
        call_ensures(set_data_dir, (cfg@, path), ()),
    ensures
        final(cfg@).data_dir is None <==> forall|k: int|
            0 <= k < path@.len() ==> is_white_space(#[trigger] path@[k]),
        final(cfg@).data_dir matches Some(d) ==> exists|i: int, j: int|
            {
                &&& 0 <= i < j <= path@.len()
                &&& d@ == #[trigger] path@.subrange(i, j)
                &&& forall|k: int|
                    0 <= k < i || j <= k < path@.len() ==> is_white_space(#[trigger] path@[k])
                &&& !is_white_space(path@[i]) && !is_white_space(path@[j - 1])
            },
{
    law_setting_is_the_entered_path(path@);
}

/// A copy of a configuration has the same setting, whatever it is, and so the same saved text.
pub proof fn law_copy_has_the_same_setting(cfg: UserConfig, copy: UserConfig)
    requires
        call_ensures(UserConfig::clone, (&cfg,), copy),
    ensures
        copy.data_dir is None <==> cfg.data_dir is None,
        copy.data_dir matches Some(d) ==> d@ == cfg.data_dir->0@,
        config_text(copy@) == config_text(cfg@),
{
    law_view_is_the_field(cfg);
    law_view_is_the_field(copy);
}

} // verus!
