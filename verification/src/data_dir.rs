//! Where the data lives.

use vstd::prelude::*;

use crate::config::{setting_for, UserConfig};
use crate::path::ChildPath;
use crate::text::{
    is_blank,
    is_white_space,
    law_blank_is_all_white_space,
    law_trimmed_ends,
    trim,
    trimmed,
};

verus! {

/// Environment variable that overrides the data directory, and that tells the sidecar about it.
pub const DATA_DIR_VAR: &'static str = "RIKKAHUB_PC_DATA_DIR";

/// Name of the data directory next to the executable.
pub const PORTABLE_DIR: &'static str = "pc-data";

/// The directory of the running executable.
#[derive(Debug)]
pub enum ExeDir<P> {
    /// The parent of the executable's path.
    Parent(P),
    /// A relative path that stands in for it.
    Relative(String),
}

/// What an [`ExeDir`] says.
pub enum ExeDirView<P> {
    Parent(P),
    Relative(Seq<char>),
}

impl<P> View for ExeDir<P> {
    type V = ExeDirView<P>;

    open spec fn view(&self) -> ExeDirView<P> {
        match *self {
            ExeDir::Parent(p) => ExeDirView::Parent(p),
            ExeDir::Relative(s) => ExeDirView::Relative(s@),
        }
    }
}

/// The executable's directory: its parent where that is known, else the current directory.
pub open spec fn exe_dir_of<P>(parent: Option<P>) -> ExeDirView<P> {
    match parent {
        Some(p) => ExeDirView::Parent(p),
        None => ExeDirView::Relative("."@),
    }
}

/// The executable's directory: its parent where that is known, else the current directory.
pub fn exe_dir<P>(parent: Option<P>) -> (r: ExeDir<P>)
    ensures
        r@ == exe_dir_of(parent),
        parent matches Some(p) ==> r == ExeDir::Parent(p),
        parent is None ==> (r matches ExeDir::Relative(s) && s@ == "."@),
{
    match parent {
        Some(p) => ExeDir::Parent(p),
        None => ExeDir::Relative(".".to_owned()),
    }
}

/// The data directory.
#[derive(Debug)]
pub enum DataDir<P> {
    /// The path that the environment or the configuration names.
    Chosen(String),
    /// The directory next to the executable.
    Portable(ChildPath<ExeDir<P>>),
}

/// What a [`DataDir`] says.
pub enum DataDirView<P> {
    Chosen(Seq<char>),
    Portable { base: ExeDirView<P>, name: Seq<char> },
}

impl<P> View for DataDir<P> {
    type V = DataDirView<P>;

    open spec fn view(&self) -> DataDirView<P> {
        match *self {
            DataDir::Chosen(s) => DataDirView::Chosen(s@),
            DataDir::Portable(c) => DataDirView::Portable { base: c.base@, name: c.name@ },
        }
    }
}

/// What has been found out about the data directory.
#[derive(Debug)]
pub enum DataDirEvent<P> {
    /// The value of the environment variable, where it is set and is text.
    Env(Option<String>),
    /// The user's configuration.
    Config(UserConfig),
    /// The parent of the executable's path, where it is known.
    Exe(Option<P>),
}

/// What a [`DataDirEvent`] says.
pub enum DataDirEventView<P> {
    Env(Option<Seq<char>>),
    Config(Option<Seq<char>>),
    Exe(Option<P>),
}

impl<P> View for DataDirEvent<P> {
    type V = DataDirEventView<P>;

    open spec fn view(&self) -> DataDirEventView<P> {
        match *self {
            DataDirEvent::Env(None) => DataDirEventView::Env(None),
            DataDirEvent::Env(Some(s)) => DataDirEventView::Env(Some(s@)),
            DataDirEvent::Config(c) => DataDirEventView::Config(c@),
            DataDirEvent::Exe(p) => DataDirEventView::Exe(p),
        }
    }
}

/// What is to be done next about the data directory.
#[derive(Debug)]
pub enum DataDirStep<P> {
    /// Nothing: this is it.
    Done(DataDir<P>),
    /// Load the user's configuration.
    LoadConfig,
    /// Find the parent of the executable's path.
    LocateExe,
}

/// What a [`DataDirStep`] says.
pub enum DataDirStepView<P> {
    Done(DataDirView<P>),
    LoadConfig,
    LocateExe,
}

impl<P> View for DataDirStep<P> {
    type V = DataDirStepView<P>;

    open spec fn view(&self) -> DataDirStepView<P> {
        match *self {
            DataDirStep::Done(d) => DataDirStepView::Done(d@),
            DataDirStep::LoadConfig => DataDirStepView::LoadConfig,
            DataDirStep::LocateExe => DataDirStepView::LocateExe,
        }
    }
}

/// The path that `value` names: a blank value names none.
pub open spec fn named_path(value: Option<Seq<char>>) -> Option<Seq<char>> {
    match value {
        Some(s) if !is_blank(s) => value,
        _ => None,
    }
}

/// The step that answers an event: a path that is named settles the matter, with nothing cut off;
/// otherwise the next source is asked, and the last one always has an answer.
pub open spec fn data_dir_step<P>(event: DataDirEventView<P>) -> DataDirStepView<P> {
    match event {
        DataDirEventView::Env(value) => match named_path(value) {
            Some(path) => DataDirStepView::Done(DataDirView::Chosen(path)),
            None => DataDirStepView::LoadConfig,
        },
        DataDirEventView::Config(value) => match named_path(value) {
            Some(path) => DataDirStepView::Done(DataDirView::Chosen(path)),
            None => DataDirStepView::LocateExe,
        },
        DataDirEventView::Exe(parent) => DataDirStepView::Done(
            DataDirView::Portable { base: exe_dir_of(parent), name: PORTABLE_DIR@ },
        ),
    }
}

fn names_path(value: &Option<String>) -> (r: bool)
    ensures
        r == match *value {
            Some(s) => !is_blank(s@),
            None => false,
        },
{
    match value {
        Some(s) => {
            proof {
                law_trimmed_ends(s@);
            }
            !trim(s).is_empty()
        },
        None => false,
    }
}

/// Resolves the data directory. It starts from the environment and goes on from what each step
/// asked for.
pub fn resolve_data_dir<P>(event: DataDirEvent<P>) -> (step: DataDirStep<P>)
    ensures
        step@ == data_dir_step(event@),
        match event {
            DataDirEvent::Env(Some(path)) => if is_blank(path@) {
                step == DataDirStep::<P>::LoadConfig
            } else {
                step == DataDirStep::<P>::Done(DataDir::Chosen(path))
            },
            DataDirEvent::Env(None) => step == DataDirStep::<P>::LoadConfig,
            DataDirEvent::Config(cfg) => match cfg.data_dir {
                Some(path) => if is_blank(path@) {
                    step == DataDirStep::<P>::LocateExe
                } else {
                    step == DataDirStep::<P>::Done(DataDir::Chosen(path))
                },
                None => step == DataDirStep::<P>::LocateExe,
            },
            DataDirEvent::Exe(Some(parent)) => step matches DataDirStep::Done(
                DataDir::Portable(child),
            ) && child.is_entry(ExeDir::Parent(parent), PORTABLE_DIR@),
            DataDirEvent::Exe(None) => step matches DataDirStep::Done(DataDir::Portable(child))
                && child.name@ == PORTABLE_DIR@ && (child.base matches ExeDir::Relative(dot) && dot@
                == "."@),
        },
{
    match event {
        DataDirEvent::Env(value) => {
            let named = names_path(&value);
            match value {
                Some(path) if named => DataDirStep::Done(DataDir::Chosen(path)),
                _ => DataDirStep::LoadConfig,
            }
        },
        DataDirEvent::Config(cfg) => {
            let named = names_path(&cfg.data_dir);
            match cfg.data_dir {
                Some(path) if named => DataDirStep::Done(DataDir::Chosen(path)),
                _ => DataDirStep::LocateExe,
            }
        },
        DataDirEvent::Exe(parent) => DataDirStep::Done(
            DataDir::Portable(ChildPath { base: exe_dir(parent), name: PORTABLE_DIR.to_owned() }),
        ),
    }
}

/// The data directory, by priority: the environment, then the configuration, then the directory
/// next to the executable.
pub open spec fn resolved<P>(
    env: Option<Seq<char>>,
    config: Option<Seq<char>>,
    exe: Option<P>,
) -> DataDirView<P> {
    match (named_path(env), named_path(config)) {
        (Some(path), _) => DataDirView::Chosen(path),
        (None, Some(path)) => DataDirView::Chosen(path),
        (None, None) => DataDirView::Portable { base: exe_dir_of(exe), name: PORTABLE_DIR@ },
    }
}

/// Where the steps lead that start from the environment and are answered by `config` and `exe`:
/// nowhere, if one of them asks for what it was not to ask for.
pub open spec fn settled<P>(
    env: Option<Seq<char>>,
    config: Option<Seq<char>>,
    exe: Option<P>,
) -> Option<DataDirView<P>> {
    match data_dir_step(DataDirEventView::<P>::Env(env)) {
        DataDirStepView::Done(d) => Some(d),
        DataDirStepView::LoadConfig => match data_dir_step(DataDirEventView::<P>::Config(config)) {
            DataDirStepView::Done(d) => Some(d),
            DataDirStepView::LocateExe => match data_dir_step(DataDirEventView::Exe(exe)) {
                DataDirStepView::Done(d) => Some(d),
                _ => None,
            },
            DataDirStepView::LoadConfig => None,
        },
        DataDirStepView::LocateExe => None,
    }
}

/// The steps always end, with the data directory that has priority.
pub proof fn law_steps_follow_priority<P>(
    env: Option<Seq<char>>,
    config: Option<Seq<char>>,
    exe: Option<P>,
)
    ensures
        settled(env, config, exe) == Some(resolved(env, config, exe)),
{
}

/// A path in the environment wins over whatever is configured, and is taken as it is; the
/// configuration is then not even loaded.
pub proof fn law_env_overrides<P>(
    env: Seq<char>,
    config: Option<Seq<char>>,
    exe: Option<P>,
)
    requires
        !is_blank(env),
    ensures
        resolved(Some(env), config, exe) == DataDirView::<P>::Chosen(env),
        data_dir_step(DataDirEventView::<P>::Env(Some(env))) !is LoadConfig,
{
}

/// Without a path in the environment, the data directory is the one that the user set last, without
/// the white space round it; blank input brings back the directory next to the executable.
pub proof fn law_set_then_resolve<P>(env: Option<Seq<char>>, path: Seq<char>, exe: Option<P>)
    requires
        named_path(env) is None,
    ensures
        !is_blank(path) ==> resolved(env, setting_for(path), exe) == DataDirView::<P>::Chosen(
            trimmed(path),
        ),
        is_blank(path) ==> resolved(env, setting_for(path), exe) == resolved(None, None, exe),
        resolved(None, None, exe) == (DataDirView::Portable {
            base: exe_dir_of(exe),
            name: PORTABLE_DIR@,
        }),
{
    crate::config::law_setting_is_clean(path);
}

/// Each source is taken at its word: a path with a character that is not white space is the data
/// directory, exactly as it stands, and any other value is passed over.
pub proof fn law_each_source_is_taken_as_it_is<P>(value: Seq<char>)
    ensures
        (exists|i: int| 0 <= i < value.len() && !is_white_space(#[trigger] value[i])) ==> {
            &&& data_dir_step(DataDirEventView::<P>::Env(Some(value))) == DataDirStepView::<P>::Done(
                DataDirView::Chosen(value),
            )
            &&& data_dir_step(DataDirEventView::<P>::Config(Some(value)))
                == DataDirStepView::<P>::Done(DataDirView::Chosen(value))
        },
        (forall|i: int| 0 <= i < value.len() ==> is_white_space(#[trigger] value[i])) ==> {
            &&& data_dir_step(DataDirEventView::<P>::Env(Some(value)))
                == DataDirStepView::<P>::LoadConfig
            &&& data_dir_step(DataDirEventView::<P>::Config(Some(value)))
                == DataDirStepView::<P>::LocateExe
        },
        data_dir_step(DataDirEventView::<P>::Env(None)) == DataDirStepView::<P>::LoadConfig,
        data_dir_step(DataDirEventView::<P>::Config(None)) == DataDirStepView::<P>::LocateExe,
{
    law_blank_is_all_white_space(value);
}

/// The last source always has an answer: the directory next to the executable, or in the current
/// directory where the executable's is unknown.
pub proof fn law_portable_dir_is_beside_the_exe<P>(parent: P)
    ensures
        data_dir_step(DataDirEventView::Exe(Some(parent))) == DataDirStepView::Done(
            DataDirView::Portable { base: ExeDirView::Parent(parent), name: PORTABLE_DIR@ },
        ),
        data_dir_step(DataDirEventView::<P>::Exe(None)) == DataDirStepView::<P>::Done(
            DataDirView::Portable { base: ExeDirView::Relative("."@), name: PORTABLE_DIR@ },
        ),
{
}

/// What is resolved depends on a source only where no source before it names a path; and where a
/// source names one, it is that path whole.
pub proof fn law_resolution_by_cases<P>(
    env: Option<Seq<char>>,
    config: Option<Seq<char>>,
    exe: Option<P>,
    other: Option<Seq<char>>,
    elsewhere: Option<P>,
)
    ensures
        env matches Some(e) && !is_blank(e) ==> resolved(env, config, exe) == DataDirView::<
            P,
        >::Chosen(env->0) && resolved(env, other, elsewhere) == resolved(env, config, exe),
        (env is None || is_blank(env->0)) && (config matches Some(c) && !is_blank(c)) ==> {
            &&& resolved(env, config, exe) == DataDirView::<P>::Chosen(config->0)
            &&& resolved(env, config, elsewhere) == resolved(env, config, exe)
        },
        (env is None || is_blank(env->0)) && (config is None || is_blank(config->0)) ==> resolved(
            env,
            config,
            exe,
        ) == (DataDirView::Portable {
            base: match exe {
                Some(p) => ExeDirView::Parent(p),
                None => ExeDirView::Relative("."@),
            },
            name: PORTABLE_DIR@,
        }),
{
}

/// The views show the values that they are views of.
pub proof fn law_views_show_the_values<P>(s: String, p: P, child: ChildPath<ExeDir<P>>)
    ensures
        DataDir::<P>::Chosen(s)@ == DataDirView::<P>::Chosen(s@),
        ExeDir::Parent(p)@ == ExeDirView::Parent(p),
        ExeDir::<P>::Relative(s)@ == ExeDirView::<P>::Relative(s@),
        DataDir::Portable(child)@ == (DataDirView::Portable {
            base: child.base@,
            name: child.name@,
        }),
        DataDirEvent::<P>::Env(Some(s))@ == DataDirEventView::<P>::Env(Some(s@)),
        DataDirEvent::Exe(Some(p))@ == DataDirEventView::Exe(Some(p)),
        DataDirEvent::<P>::Exe(None)@ == DataDirEventView::<P>::Exe(None),
        DataDirEvent::<P>::Env(None)@ == DataDirEventView::<P>::Env(None),
        DataDirEvent::<P>::Config(UserConfig { data_dir: Some(s) })@
            == DataDirEventView::<P>::Config(Some(s@)),
        DataDirEvent::<P>::Config(UserConfig { data_dir: None })@ == DataDirEventView::<P>::Config(
            None,
        ),
        DataDirStep::<P>::Done(DataDir::Chosen(s))@ == DataDirStepView::<P>::Done(
            DataDirView::Chosen(s@),
        ),
{
}

/// What each source says is decided on as it is: a path that holds a character other than white space
/// is the data directory itself, not a copy cut at its ends; any other value leads to the next source;
/// and the last source gives the directory next to the executable, or in the current directory.
pub proof fn law_sources_are_asked_in_turn<P>(
    value: String,
    parent: P,
    env: DataDirStep<P>,
    config: DataDirStep<P>,
    exe: DataDirStep<P>,
    no_exe: DataDirStep<P>,
)
    requires
        call_ensures(resolve_data_dir::<P>, (DataDirEvent::Env(Some(value)),), env),
        call_ensures(
            resolve_data_dir::<P>,
            (DataDirEvent::Config(UserConfig { data_dir: Some(value) }),),
            config,
        ),
        call_ensures(resolve_data_dir::<P>, (DataDirEvent::Exe(Some(parent)),), exe),
        call_ensures(resolve_data_dir::<P>, (DataDirEvent::Exe(None),), no_exe),
    ensures
        (exists|i: int| 0 <= i < value@.len() && !is_white_space(#[trigger] value@[i])) ==> env
            == DataDirStep::<P>::Done(DataDir::Chosen(value)) && config == DataDirStep::<P>::Done(
            DataDir::Chosen(value),
        ),
        (forall|i: int| 0 <= i < value@.len() ==> is_white_space(#[trigger] value@[i])) ==> env
            == DataDirStep::<P>::LoadConfig && config == DataDirStep::<P>::LocateExe,
        exe matches DataDirStep::Done(DataDir::Portable(child)) && child.base == ExeDir::Parent(
            parent,
        ) && child.name@ == "pc-data"@,
        no_exe matches DataDirStep::Done(DataDir::Portable(child)) && child.name@ == "pc-data"@ && (
        child.base matches ExeDir::Relative(dot) && dot@ == "."@),
{
    law_blank_is_all_white_space(value@);
}

/// The executable's directory is the parent that is known, the very one, and the current directory
/// only where none is.
pub proof fn law_known_parent_is_the_exe_dir<P>(parent: P, known: ExeDir<P>, unknown: ExeDir<P>)
    requires
        call_ensures(exe_dir::<P>, (Some(parent),), known),
        call_ensures(exe_dir::<P>, (None,), unknown),
    ensures
        known == ExeDir::Parent(parent),
        unknown matches ExeDir::Relative(dot) && dot@ == "."@,
{
}

} // verus!
