//! Launching a downloaded installer.

use vstd::prelude::*;

use crate::error::ShellError;
use crate::text::{
    ascii_lower,
    eq_ignore_ascii_case,
    is_blank,
    is_white_space,
    law_blank_is_all_white_space,
    law_clean_text_is_kept,
    law_trim_cuts_only_white_space,
    law_trimmed_ends,
    same_but_for_ascii_case,
    trim,
    trimmed,
};

verus! {

/// The one extension an installer may have, in any case.
pub const INSTALLER_EXTENSION: &'static str = "exe";

/// Whether `c` is a slash or a backslash.
pub open spec fn is_slash(c: char) -> bool {
    c == '/' || c == '\\'
}

/// Whether some platform lets a name begin after `path`: it ends in a slash or a backslash, or is a
/// drive with its colon.
pub open spec fn ends_before_name(path: Seq<char>) -> bool {
    path.len() > 0 && (is_slash(path.last()) || (path.len() == 2 && path.last() == ':'))
}

/// The end of `path` after its last separator of any platform.
pub open spec fn final_name(path: Seq<char>) -> Seq<char>
    decreases path.len(),
{
    if path.len() == 0 || ends_before_name(path) {
        seq![]
    } else {
        final_name(path.drop_last()).push(path.last())
    }
}

/// The end of `name` after its last dot, if it has one.
pub open spec fn after_last_dot(name: Seq<char>) -> Option<Seq<char>>
    decreases name.len(),
{
    if name.len() == 0 {
        None
    } else if name.last() == '.' {
        Some(seq![])
    } else {
        match after_last_dot(name.drop_last()) {
            Some(e) => Some(e.push(name.last())),
            None => None,
        }
    }
}

/// The extension of a file's name: what follows its last dot, unless the name starts with that dot.
pub open spec fn extension_of(name: Seq<char>) -> Option<Seq<char>> {
    match after_last_dot(name) {
        Some(e) if e.len() + 1 < name.len() => Some(e),
        _ => None,
    }
}

/// `path` without the slashes, and the dots behind a slash, that it ends with: no platform counts
/// them as part of a name.
pub open spec fn file_part(path: Seq<char>) -> Seq<char>
    decreases path.len(),
{
    if path.len() > 0 && path.last() == '/' {
        file_part(path.drop_last())
    } else if path.len() >= 2 && path.last() == '.' && path[path.len() - 2] == '/' {
        file_part(path.drop_last())
    } else {
        path
    }
}

/// The name of the file that `path` names, as far as the platforms agree on one.
pub open spec fn file_name_of(path: Seq<char>) -> Seq<char> {
    final_name(file_part(path))
}

/// Whether `path` starts as a network share or a device does on some platform.
pub open spec fn starts_like_share(path: Seq<char>) -> bool {
    path.len() >= 2 && is_slash(path[0]) && is_slash(path[1])
}

/// Whether `path` names something inside a share: a server, a separator, a share, and one more
/// separator. A lone `?` or `.` is no server.
pub open spec fn is_inside_share(path: Seq<char>) -> bool {
    &&& starts_like_share(path)
    &&& path.len() > 3 && !is_slash(path[2])
    &&& path[2] == '?' || path[2] == '.' ==> !is_slash(path[3])
    &&& exists|i: int, j: int|
        2 < i && i + 1 < j < path.len() && is_slash(#[trigger] path[i]) && is_slash(
            #[trigger] path[j],
        )
}

/// Whether `path` names something inside a device, which stands behind `\\.\`.
pub open spec fn is_inside_device(path: Seq<char>) -> bool {
    &&& starts_like_share(path)
    &&& path.len() > 4 && path[2] == '.' && is_slash(path[3]) && !is_slash(path[4])
    &&& exists|i: int| 4 < i < path.len() && is_slash(#[trigger] path[i])
}

/// Whether `path` is verbatim, that is starts with `\\?\`, and names something inside what stands
/// there: a drive or a volume, or a server and a share behind `UNC`. Only backslashes separate in
/// such a path, and there is no slash in this one.
pub open spec fn is_inside_verbatim(path: Seq<char>) -> bool {
    &&& path.len() > 4 && path[0] == '\\' && path[1] == '\\' && path[2] == '?' && path[3] == '\\'
        && path[4] != '\\'
    &&& forall|i: int| 0 <= i < path.len() ==> #[trigger] path[i] != '/'
    &&& {
        ||| path[4] != 'U' && path[4] != 'u' && exists|i: int|
            4 < i < path.len() && #[trigger] path[i] == '\\'
        ||| exists|i: int, j: int, k: int|
            4 < i && i + 1 < j && j + 1 < k < path.len() && #[trigger] path[i] == '\\'
                && #[trigger] path[j] == '\\' && #[trigger] path[k] == '\\'
    }
}

/// Whether every platform finds in `path` the extension of [`file_name_of`] it: there is such a
/// name, it is not taken for a share or a device, and either it has an extension, whatever stands
/// before it, or only slashes separate.
pub open spec fn extension_is_known(path: Seq<char>) -> bool {
    let file = file_part(path);
    let name = final_name(file);
    &&& name.len() > 0
    &&& !(name.len() == 1 && name[0] == '.')
    &&& !(name.len() == 2 && name[0] == '.' && name[1] == '.')
    &&& starts_like_share(file) ==> is_inside_share(file) || is_inside_device(file)
        || is_inside_verbatim(path)
    &&& extension_of(name) is Some || {
        &&& forall|i: int| 0 <= i < file.len() ==> #[trigger] file[i] != '\\'
        &&& file.len() >= 2 ==> file[1] != ':'
    }
}

/// Whether `rest` may follow a file's name at the end of a path: separators, and single dots behind
/// a separator, which stand for the directory itself.
pub open spec fn trails(rest: Seq<char>) -> bool {
    forall|i: int|
        0 <= i < rest.len() ==> is_slash(#[trigger] rest[i]) || (rest[i] == '.' && i > 0 && is_slash(
            rest[i - 1],
        ))
}

/// Whether `path` is `stem`, a dot, `e` and what may trail, where the dot is the last before the
/// trailing part.
pub open spec fn splits(
    path: Seq<char>,
    stem: Seq<char>,
    e: Seq<char>,
    rest: Seq<char>,
) -> bool {
    &&& path == stem + seq!['.'] + e + rest
    &&& stem.len() > 0
    &&& !e.contains('.')
    &&& trails(rest)
}

/// Whether `e` can be the extension of the file that `path` names.
pub open spec fn can_have_extension(path: Seq<char>, e: Seq<char>) -> bool {
    exists|stem: Seq<char>, rest: Seq<char>| splits(path, stem, e, rest)
}

/// `std::path::Path::extension`. What it returns depends on the platform's separators: on any of
/// them it is what follows the last dot of the file's name, which has something before that dot and
/// is followed by nothing but separators and single dots behind one. Where [`extension_is_known`] holds, it is exactly
/// the extension of [`file_name_of`] the path. On other paths, on most of which the platforms differ,
/// it is left unsaid which dot counts, if any.
#[verifier::external_body]
fn path_extension(path: &str) -> (r: Option<String>)
    ensures
        r matches Some(e) ==> can_have_extension(path@, e@),
        extension_is_known(path@) ==> match r {
            Some(e) => extension_of(file_name_of(path@)) == Some(e@),
            None => extension_of(file_name_of(path@)) is None,
        },
{
    std::path::Path::new(path).extension().and_then(|e| e.to_str()).map(|e| e.to_owned())
}

/// What has happened on the way to a running installer.
#[derive(Debug)]
pub enum InstallerEvent {
    /// This path was asked for.
    Requested(String),
    /// It was looked up whether the path exists.
    Checked { path: String, exists: bool },
    /// The installer was started, or not.
    Launched(Result<(), String>),
}

/// What is to be done next for a running installer.
#[derive(Debug)]
pub enum InstallerStep {
    /// See whether the path exists.
    CheckExists(String),
    /// Start the program at the path, and let it go.
    Launch(String),
    /// It is started, or refused.
    Done(Result<(), ShellError>),
}

/// Whether an extension is an installer's.
pub open spec fn is_installer_extension(e: Seq<char>) -> bool {
    same_but_for_ascii_case(e, INSTALLER_EXTENSION@)
}

/// Whether an extension, if there is one, is an installer's.
pub open spec fn admits(extension: Option<Seq<char>>) -> bool {
    extension matches Some(e) && is_installer_extension(e)
}

/// Launches `path`, which exists and has this extension, if it is an installer.
pub fn launch_with_extension(path: String, extension: Option<String>) -> (step: InstallerStep)
    ensures
        step == if admits(
            match extension {
                Some(e) => Some(e@),
                None => None,
            },
        ) {
            InstallerStep::Launch(path)
        } else {
            InstallerStep::Done(Err(ShellError::InstallerNotExe(path)))
        },
        step == InstallerStep::Launch(path) || step == InstallerStep::Done(
            Err(ShellError::InstallerNotExe(path)),
        ),
        step is Launch <==> (extension matches Some(e) && {
            &&& e@.len() == 3
            &&& e@[0] == 'e' || e@[0] == 'E'
            &&& e@[1] == 'x' || e@[1] == 'X'
            &&& e@[2] == 'e' || e@[2] == 'E'
        }),
{
    proof {
        if extension is Some {
            law_installer_extension(extension->0@);
        }
    }
    let ok = match extension {
        Some(e) => eq_ignore_ascii_case(&e, INSTALLER_EXTENSION),
        None => false,
    };
    if ok {
        InstallerStep::Launch(path)
    } else {
        InstallerStep::Done(Err(ShellError::InstallerNotExe(path)))
    }
}

/// Whether `step` is a step that answers `event`. Where the path exists it is launched or refused by
/// its extension, on which the platform has a say unless all of them agree.
pub open spec fn installer_answers(event: InstallerEvent, step: InstallerStep) -> bool {
    match event {
        InstallerEvent::Requested(path) => if is_blank(path@) {
            step == InstallerStep::Done(Err(ShellError::InstallerPathEmpty))
        } else {
            step matches InstallerStep::CheckExists(p) && p@ == trimmed(path@)
        },
        InstallerEvent::Checked { path, exists: false } => step == InstallerStep::Done(
            Err(ShellError::InstallerNotFound(path)),
        ),
        InstallerEvent::Checked { path, exists: true } => {
            let refused = InstallerStep::Done(Err(ShellError::InstallerNotExe(path)));
            &&& step == InstallerStep::Launch(path) || step == refused
            &&& step == InstallerStep::Launch(path) ==> exists|e: Seq<char>| #[trigger]
                can_have_extension(path@, e) && is_installer_extension(e)
            &&& extension_is_known(path@) ==> step == if admits(
                extension_of(file_name_of(path@)),
            ) {
                InstallerStep::Launch(path)
            } else {
                refused
            }
        },
        InstallerEvent::Launched(Ok(_)) => step == InstallerStep::Done(Ok(())),
        InstallerEvent::Launched(Err(e)) => step == InstallerStep::Done(
            Err(ShellError::InstallerNotLaunched(e)),
        ),
    }
}

/// Launches an installer: a path that is not blank, that exists, and whose extension is an
/// installer's, so that no script is run by accident.
pub fn launch_installer(event: InstallerEvent) -> (step: InstallerStep)
    ensures
        installer_answers(event, step),
        step is CheckExists ==> event is Requested,
        step matches InstallerStep::Launch(p) ==> (event matches InstallerEvent::Checked {
            path,
            exists,
        } && exists && path == p),
        step == InstallerStep::Done(Ok(())) <==> (event matches InstallerEvent::Launched(Ok(_))),
{
    match event {
        InstallerEvent::Requested(path) => {
            proof {
                law_trimmed_ends(path@);
            }
            let p = trim(&path);
            if p.is_empty() {
                InstallerStep::Done(Err(ShellError::InstallerPathEmpty))
            } else {
                InstallerStep::CheckExists(p.to_owned())
            }
        },
        InstallerEvent::Checked { path, exists } => if exists {
            let extension = path_extension(&path);
            launch_with_extension(path, extension)
        } else {
            InstallerStep::Done(Err(ShellError::InstallerNotFound(path)))
        },
        InstallerEvent::Launched(result) => match result {
            Ok(_) => InstallerStep::Done(Ok(())),
            Err(e) => InstallerStep::Done(Err(ShellError::InstallerNotLaunched(e))),
        },
    }
}

proof fn lemma_final_name_of(dir: Seq<char>, name: Seq<char>)
    requires
        dir.len() == 0 || ends_before_name(dir),
        forall|i: int| 0 <= i < name.len() ==> !is_slash(#[trigger] name[i]),
        dir.len() + name.len() >= 2 && dir.len() < 2 ==> (dir + name)[1] != ':',
    ensures
        final_name(dir + name) == name,
    decreases name.len(),
{
    if name.len() == 0 {
        assert(dir + name =~= dir);
        assert(final_name(dir) =~= name);
    } else {
        let front = name.drop_last();
        assert((dir + name).drop_last() =~= dir + front);
        assert((dir + name).last() == name.last());
        if dir.len() + front.len() >= 2 {
            assert((dir + name)[1] == (dir + front)[1]);
        }
        lemma_final_name_of(dir, front);
        assert(front.push(name.last()) =~= name);
    }
}

proof fn lemma_after_last_dot_of(stem: Seq<char>, e: Seq<char>)
    requires
        !e.contains('.'),
    ensures
        after_last_dot(stem + seq!['.'] + e) == Some(e),
    decreases e.len(),
{
    let name = stem + seq!['.'] + e;
    if e.len() == 0 {
        assert(name.last() == '.');
        assert(e =~= seq![]);
    } else {
        let front = e.drop_last();
        assert forall|i: int| 0 <= i < front.len() implies front[i] != '.' by {
            assert(e.contains(e[i]));
        }
        lemma_after_last_dot_of(stem, front);
        assert(name.drop_last() =~= stem + seq!['.'] + front);
        assert(e.contains(e.last()));
        assert(name.last() == e.last());
        assert(front.push(e.last()) =~= e);
    }
}

/// A name with something before its last dot has what follows that dot for its extension, on every
/// platform and in whatever directory, on a drive, inside a share or behind a verbatim prefix. A colon
/// right after a first character belongs to a drive, so it is part of the directory. So such a path
/// is launched if that is `exe` in any case, and refused otherwise.
pub proof fn law_named_extension_is_known(dir: Seq<char>, stem: Seq<char>, e: Seq<char>)
    requires
        dir.len() == 0 || ends_before_name(dir),
        starts_like_share(dir) ==> is_inside_share(dir) || is_inside_device(dir)
            || is_inside_verbatim(dir),
        stem.len() > 0,
        !(stem.len() == 1 && stem[0] == '.' && e.len() == 0),
        forall|i: int| 0 <= i < stem.len() ==> !is_slash(#[trigger] stem[i]),
        forall|i: int| 0 <= i < e.len() ==> !is_slash(#[trigger] e[i]),
        !e.contains('.'),
        dir.len() < 2 ==> (dir + (stem + seq!['.'] + e))[1] != ':',
    ensures
        extension_is_known(dir + (stem + seq!['.'] + e)),
        extension_of(file_name_of(dir + (stem + seq!['.'] + e))) == Some(e),
{
    let name = stem + seq!['.'] + e;
    let path = dir + name;
    assert forall|i: int| 0 <= i < name.len() implies !is_slash(#[trigger] name[i]) by {
        if i < stem.len() {
            assert(name[i] == stem[i]);
        } else if i > stem.len() {
            assert(name[i] == e[i - stem.len() - 1]);
        }
    }
    lemma_final_name_of(dir, name);
    lemma_after_last_dot_of(stem, e);
    assert(name[0] == stem[0]);
    assert(path.last() == name.last());
    assert(path[path.len() - 2] == name[name.len() - 2]);
    assert(file_part(path) == path);
    if starts_like_share(path) {
        if dir.len() == 0 {
            assert(path[0] == name[0]);
        } else if dir.len() == 1 {
            assert(path[1] == name[0]);
        } else {
            lemma_inside_stays_inside(dir, name);
        }
    }
}

proof fn lemma_inside_stays_inside(dir: Seq<char>, name: Seq<char>)
    requires
        forall|i: int| 0 <= i < name.len() ==> !is_slash(#[trigger] name[i]),
    ensures
        is_inside_share(dir) ==> is_inside_share(dir + name),
        is_inside_device(dir) ==> is_inside_device(dir + name),
        is_inside_verbatim(dir) ==> is_inside_verbatim(dir + name),
        dir.len() >= 2 && starts_like_share(dir + name) ==> starts_like_share(dir),
{
    let path = dir + name;
    assert(forall|i: int| 0 <= i < dir.len() ==> #[trigger] path[i] == dir[i]);
    assert(forall|i: int| 0 <= i < dir.len() ==> #[trigger] dir[i] == path[i]);
    assert(forall|i: int| dir.len() <= i < path.len() ==> #[trigger] path[i] == name[i - dir.len()]);
}

/// A slash at the end of a path, or a slash and a dot, changes nothing about its extension, unless
/// the path is verbatim.
pub proof fn law_trailing_slash_is_ignored(path: Seq<char>)
    requires
        !is_inside_verbatim(path),
    ensures
        file_name_of(path.push('/')) == file_name_of(path),
        file_name_of(path.push('/').push('.')) == file_name_of(path),
        extension_is_known(path.push('/')) == extension_is_known(path),
        extension_is_known(path.push('/').push('.')) == extension_is_known(path),
{
    reveal_with_fuel(file_part, 3);
    assert(path.push('/').drop_last() =~= path);
    assert(path.push('/').push('.').drop_last() =~= path.push('/'));
    assert(path.push('/')[path.len() as int] == '/');
    assert(path.push('/').push('.')[path.len() as int] == '/');
}

/// A path that ends in two dots names a parent directory, or a file without an installer's extension:
/// on no platform is it launched.
pub proof fn law_two_dots_are_refused(path: Seq<char>, e: Seq<char>)
    requires
        path.len() >= 2,
        path[path.len() - 1] == '.',
        path[path.len() - 2] == '.',
        is_installer_extension(e),
    ensures
        !can_have_extension(path, e),
{
    law_installer_extension(e);
    assert forall|stem: Seq<char>, rest: Seq<char>| !splits(path, stem, e, rest) by {
        if splits(path, stem, e, rest) {
            let n = rest.len() as int;
            if n == 0 {
                assert(path.last() == e[2]);
            } else {
                assert(path.last() == rest[n - 1]);
                if n > 1 {
                    assert(path[path.len() - 2] == rest[n - 2]);
                }
            }
        }
    }
}

/// What is launched is what was asked for, without the white space round it, and it was found to
/// exist and has an installer's extension. Nothing is launched for a blank path, nor for one that
/// does not exist.
pub proof fn law_launched_is_requested(
    request: String,
    check: InstallerStep,
    exists: bool,
    launch: InstallerStep,
)
    requires
        installer_answers(InstallerEvent::Requested(request), check),
        check matches InstallerStep::CheckExists(path) ==> installer_answers(
            (InstallerEvent::Checked { path, exists }),
            launch,
        ),
    ensures
        check !is Launch,
        check is CheckExists <==> !is_blank(request@),
        check is CheckExists && launch is Launch ==> {
            &&& exists
            &&& launch->Launch_0@ == trimmed(request@)
            &&& exists|e: Seq<char>| #[trigger]
                can_have_extension(trimmed(request@), e) && is_installer_extension(e)
        },
        check is CheckExists && launch !is Launch ==> launch matches InstallerStep::Done(Err(_)),
{
}

/// An installer's extension is `exe`, in any mix of cases, and nothing else.
pub proof fn law_installer_extension(e: Seq<char>)
    ensures
        is_installer_extension(e) <==> {
            &&& e.len() == 3
            &&& e[0] == 'e' || e[0] == 'E'
            &&& e[1] == 'x' || e[1] == 'X'
            &&& e[2] == 'e' || e[2] == 'E'
        },
{
    reveal_strlit("exe");
    let lowered = e.map_values(|c: char| ascii_lower(c));
    let wanted = INSTALLER_EXTENSION@.map_values(|c: char| ascii_lower(c));
    assert(wanted =~= seq!['e', 'x', 'e']);
    if e.len() == 3 {
        assert(lowered[0] == ascii_lower(e[0]));
        assert(lowered[1] == ascii_lower(e[1]));
        assert(lowered[2] == ascii_lower(e[2]));
        if ascii_lower(e[0]) == 'e' && ascii_lower(e[1]) == 'x' && ascii_lower(e[2]) == 'e' {
            assert(lowered =~= wanted);
        }
    } else {
        assert(lowered.len() != wanted.len());
    }
}

/// The path that is looked up is one stretch of what was asked for: everything before and after it is
/// white space, and neither of its own ends is. So a path without white space at its ends is looked
/// up unchanged, whatever its length. A request is refused as empty exactly when it holds nothing but
/// white space.
pub proof fn law_requested_path_is_looked_up(request: String, step: InstallerStep)
    requires
        installer_answers(InstallerEvent::Requested(request), step),
    ensures
        step == InstallerStep::Done(Err(ShellError::InstallerPathEmpty)) <==> forall|k: int|
            0 <= k < request@.len() ==> is_white_space(#[trigger] request@[k]),
        step is CheckExists || step == InstallerStep::Done(Err(ShellError::InstallerPathEmpty)),
        step matches InstallerStep::CheckExists(path) ==> exists|i: int, j: int|
            {
                &&& 0 <= i < j <= request@.len()
                &&& path@ == #[trigger] request@.subrange(i, j)
                &&& forall|k: int|
                    0 <= k < i || j <= k < request@.len() ==> is_white_space(#[trigger] request@[k])
                &&& !is_white_space(request@[i]) && !is_white_space(request@[j - 1])
            },
        request@.len() > 0 && !is_white_space(request@[0]) && !is_white_space(
            request@[request@.len() - 1],
        ) ==> (step matches InstallerStep::CheckExists(path) && path@ == request@),
{
    law_blank_is_all_white_space(request@);
    law_trim_cuts_only_white_space(request@);
    law_trimmed_ends(request@);
    if request@.len() > 0 && !is_white_space(request@[0]) && !is_white_space(
        request@[request@.len() - 1],
    ) {
        law_clean_text_is_kept(request@);
    }
}

/// A path that does not exist is reported as it is, whatever its extension; and what comes of starting
/// the installer is passed on, a failure with its cause as it is.
pub proof fn law_outcomes_are_passed_on(path: String, e: String, step: InstallerStep)
    ensures
        installer_answers((InstallerEvent::Checked { path, exists: false }), step) <==> step
            == InstallerStep::Done(Err(ShellError::InstallerNotFound(path))),
        installer_answers(InstallerEvent::Launched(Ok(())), step) <==> step == InstallerStep::Done(
            Ok(()),
        ),
        installer_answers(InstallerEvent::Launched(Err(e)), step) <==> step == InstallerStep::Done(
            Err(ShellError::InstallerNotLaunched(e)),
        ),
{
}

/// A path that exists is launched as it is or refused as it is. Where it names a file with something
/// before its last dot, it is launched exactly when `exe` follows that dot, in any mix of cases,
/// whatever the directory and however long the name.
pub proof fn law_existing_path_goes_by_its_extension(
    dir: Seq<char>,
    stem: Seq<char>,
    e: Seq<char>,
    path: String,
    step: InstallerStep,
)
    requires
        installer_answers((InstallerEvent::Checked { path, exists: true }), step),
        path@ == dir + (stem + seq!['.'] + e),
        dir.len() == 0 || ends_before_name(dir),
        starts_like_share(dir) ==> is_inside_share(dir) || is_inside_device(dir)
            || is_inside_verbatim(dir),
        stem.len() > 0,
        !(stem.len() == 1 && stem[0] == '.' && e.len() == 0),
        forall|i: int| 0 <= i < stem.len() ==> !is_slash(#[trigger] stem[i]),
        forall|i: int| 0 <= i < e.len() ==> !is_slash(#[trigger] e[i]),
        !e.contains('.'),
        dir.len() < 2 ==> (dir + (stem + seq!['.'] + e))[1] != ':',
    ensures
        step == if e.len() == 3 && (e[0] == 'e' || e[0] == 'E') && (e[1] == 'x' || e[1] == 'X') && (
        e[2] == 'e' || e[2] == 'E') {
            InstallerStep::Launch(path)
        } else {
            InstallerStep::Done(Err(ShellError::InstallerNotExe(path)))
        },
{
    law_named_extension_is_known(dir, stem, e);
    law_installer_extension(e);
}

/// Whatever is launched has a dot with something before it and `exe` right behind it, in any mix of
/// cases, and then nothing but separators, and single dots behind one. All other paths that exist are
/// refused as they are.
pub proof fn law_launched_path_ends_in_exe(path: String, step: InstallerStep)
    requires
        installer_answers((InstallerEvent::Checked { path, exists: true }), step),
    ensures
        step == InstallerStep::Launch(path) || step == InstallerStep::Done(
            Err(ShellError::InstallerNotExe(path)),
        ),
        step is Launch ==> exists|i: int|
            {
                &&& 0 < i && i + 3 < path@.len()
                &&& #[trigger] path@[i] == '.'
                &&& path@[i + 1] == 'e' || path@[i + 1] == 'E'
                &&& path@[i + 2] == 'x' || path@[i + 2] == 'X'
                &&& path@[i + 3] == 'e' || path@[i + 3] == 'E'
                &&& forall|k: int|
                    i + 3 < k < path@.len() ==> is_slash(#[trigger] path@[k]) || (path@[k] == '.'
                        && is_slash(path@[k - 1]))
            },
{
    if step is Launch {
        let e = choose|e: Seq<char>| #[trigger]
            can_have_extension(path@, e) && is_installer_extension(e);
        law_installer_extension(e);
        let (stem, rest) = choose|stem: Seq<char>, rest: Seq<char>| splits(path@, stem, e, rest);
        let i = stem.len() as int;
        assert(path@[i] == '.');
        assert(path@[i + 1] == e[0]);
        assert(path@[i + 2] == e[1]);
        assert(path@[i + 3] == e[2]);
        assert forall|k: int| i + 3 < k < path@.len() implies is_slash(#[trigger] path@[k]) || (
        path@[k] == '.' && is_slash(path@[k - 1])) by {
            assert(path@[k] == rest[k - i - 4]);
            if k > i + 4 {
                assert(path@[k - 1] == rest[k - i - 5]);
            }
        }
    }
}

/// A path without a dot is never launched.
pub proof fn law_no_dot_is_refused(path: String, step: InstallerStep)
    requires
        installer_answers((InstallerEvent::Checked { path, exists: true }), step),
        forall|k: int| 0 <= k < path@.len() ==> #[trigger] path@[k] != '.',
    ensures
        step == InstallerStep::Done(Err(ShellError::InstallerNotExe(path))),
{
    law_launched_path_ends_in_exe(path, step);
}

/// Which extensions are admitted does not depend on the case of their letters, and none is admitted
/// where there is none.
pub proof fn law_case_of_extension_does_not_matter(a: Seq<char>, b: Seq<char>)
    ensures
        same_but_for_ascii_case(a, b) ==> admits(Some(a)) == admits(Some(b)),
        admits(Some(a)) && admits(Some(b)) ==> same_but_for_ascii_case(a, b),
        admits(Some("exe"@)),
        !admits(None),
{
}

/// Calls of [`launch_installer`] from the request to the launch: what is launched is one stretch of what
/// was asked for, with nothing but white space cut off, it was found to exist, and it ends in `.exe`,
/// in any mix of cases, but for separators and single dots behind one.
pub proof fn law_request_to_launch(
    request: String,
    check: InstallerStep,
    exists: bool,
    launch: InstallerStep,
)
    requires
        call_ensures(launch_installer, (InstallerEvent::Requested(request),), check),
        check is CheckExists,
        call_ensures(
            launch_installer,
            (InstallerEvent::Checked { path: check->CheckExists_0, exists },),
            launch,
        ),
    ensures
        exists|i: int, j: int|
            {
                &&& 0 <= i < j <= request@.len()
                &&& check->CheckExists_0@ == #[trigger] request@.subrange(i, j)
                &&& forall|k: int|
                    0 <= k < i || j <= k < request@.len() ==> is_white_space(#[trigger] request@[k])
                &&& !is_white_space(request@[i]) && !is_white_space(request@[j - 1])
            },
        !exists ==> launch == InstallerStep::Done(
            Err(ShellError::InstallerNotFound(check->CheckExists_0)),
        ),
        exists ==> launch == InstallerStep::Launch(check->CheckExists_0) || launch
            == InstallerStep::Done(Err(ShellError::InstallerNotExe(check->CheckExists_0))),
        launch matches InstallerStep::Launch(path) ==> exists|i: int|
            {
                &&& 0 < i && i + 3 < path@.len()
                &&& #[trigger] path@[i] == '.'
                &&& path@[i + 1] == 'e' || path@[i + 1] == 'E'
                &&& path@[i + 2] == 'x' || path@[i + 2] == 'X'
                &&& path@[i + 3] == 'e' || path@[i + 3] == 'E'
                &&& forall|k: int|
                    i + 3 < k < path@.len() ==> is_slash(#[trigger] path@[k]) || (path@[k] == '.'
                        && is_slash(path@[k - 1]))
            },
{
    law_requested_path_is_looked_up(request, check);
    if exists {
        law_launched_path_ends_in_exe(check->CheckExists_0, launch);
    }
}

/// With its extension known, a path that exists is launched exactly when that is `exe` in any mix of
/// cases, and is refused as it is otherwise.
pub proof fn law_exe_is_launched(path: String, extension: Option<String>, step: InstallerStep)
    requires
        call_ensures(launch_with_extension, (path, extension), step),
    ensures
        step == InstallerStep::Launch(path) <==> (extension matches Some(e) && {
            &&& e@.len() == 3
            &&& e@[0] == 'e' || e@[0] == 'E'
            &&& e@[1] == 'x' || e@[1] == 'X'
            &&& e@[2] == 'e' || e@[2] == 'E'
        }),
        step != InstallerStep::Launch(path) ==> step == InstallerStep::Done(
            Err(ShellError::InstallerNotExe(path)),
        ),
{
    if extension is Some {
        law_installer_extension(extension->0@);
    }
}

/// A file whose only dot is the first character of its name has no extension: it is refused, even where
/// `exe` follows that dot, in whatever directory that only slashes separate.
pub proof fn law_dot_file_is_refused(
    dir: Seq<char>,
    e: Seq<char>,
    path: String,
    step: InstallerStep,
)
    requires
        installer_answers((InstallerEvent::Checked { path, exists: true }), step),
        path@ == dir + (seq!['.'] + e),
        dir.len() == 0 || dir.last() == '/',
        !starts_like_share(dir),
        forall|i: int| 0 <= i < dir.len() ==> #[trigger] dir[i] != '\\',
        dir.len() >= 2 ==> dir[1] != ':',
        dir.len() == 0 ==> e[0] != ':',
        e.len() > 0,
        forall|i: int| 0 <= i < e.len() ==> !is_slash(#[trigger] e[i]) && e[i] != '.',
    ensures
        step == InstallerStep::Done(Err(ShellError::InstallerNotExe(path))),
{
    let none = Seq::<char>::empty();
    let name = seq!['.'] + e;
    assert forall|i: int| 0 <= i < name.len() implies !is_slash(#[trigger] name[i]) by {
        if i > 0 {
            assert(name[i] == e[i - 1]);
        }
    }
    lemma_final_name_of(dir, name);
    lemma_after_last_dot_of(none, e);
    assert(none + seq!['.'] + e =~= name);
    assert(name[1] == e[0]);
    assert(path@.last() == e.last());
    assert(e[e.len() - 1] != '.');
    assert(file_part(path@) == path@);
    assert(forall|i: int| 0 <= i < dir.len() ==> #[trigger] path@[i] == dir[i]);
    assert(forall|i: int|
        dir.len() <= i < path@.len() ==> #[trigger] path@[i] == name[i - dir.len()]);
    assert(!starts_like_share(path@));
    assert(extension_is_known(path@));
}

} // verus!
