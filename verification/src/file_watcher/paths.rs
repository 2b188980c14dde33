//! Resolves the directory to watch: the default folder on the user's desktop,
//! or an override path that has to be non-blank and absolute.
//!
//! Nothing here reads the environment or touches the file system. The caller
//! asks the platform for the desktop directory and hands it in; the resolved
//! path is handed back to the caller, who creates the directory if it is
//! missing.

use crate::error::{ErrorView, LateraError};
use vstd::prelude::*;
use vstd::string::StringExecFns;

verus! {

/// Name of the folder inside the desktop directory that is watched when no
/// override path is given.
pub const DEFAULT_WATCH_FOLDER_NAME: &'static str = "Latera";

/// The characters with the Unicode property `White_Space`.
pub open spec fn is_whitespace(c: char) -> bool {
    let n = c as u32;
    ||| 0x09 <= n <= 0x0D
    ||| n == 0x20
    ||| n == 0x85
    ||| n == 0xA0
    ||| n == 0x1680
    ||| 0x2000 <= n <= 0x200A
    ||| n == 0x2028
    ||| n == 0x2029
    ||| n == 0x202F
    ||| n == 0x205F
    ||| n == 0x3000
}

/// A text is blank when trimming whitespace from both ends leaves nothing:
/// when it has no character that is not whitespace.
pub open spec fn is_blank(text: Seq<char>) -> bool {
    forall|i: int| 0 <= i < text.len() ==> is_whitespace(#[trigger] text[i])
}

/// Computes [`is_whitespace`].
pub fn char_is_whitespace(c: char) -> (yes: bool)
    ensures
        yes == is_whitespace(c),
{
    let n: u32 = c as u32;
    (0x09 <= n && n <= 0x0D) || n == 0x20 || n == 0x85 || n == 0xA0 || n == 0x1680 || (0x2000 <= n
        && n <= 0x200A) || n == 0x2028 || n == 0x2029 || n == 0x202F || n == 0x205F || n == 0x3000
}

/// Computes [`is_blank`].
pub fn str_is_blank(text: &str) -> (yes: bool)
    ensures
        yes == is_blank(text@),
{
    let mut blank = true;
    for c in it: text.chars()
        invariant
            it.seq() == text@,
            blank == is_blank(text@.take(it.index() as int)),
    {
        proof {
            let i = it.index();
            let shorter = text@.take(i);
            let longer = text@.take(i + 1);
            assert(longer[i] == c);
            assert forall|j: int| 0 <= j < shorter.len() implies shorter[j] == longer[j] by {}
            if is_blank(longer) {
                assert forall|j: int| 0 <= j < shorter.len() implies is_whitespace(
                    #[trigger] shorter[j],
                ) by {
                    assert(is_whitespace(longer[j]));
                }
            }
            if is_blank(shorter) && is_whitespace(c) {
                assert forall|j: int| 0 <= j < longer.len() implies is_whitespace(
                    #[trigger] longer[j],
                ) by {
                    if j < i {
                        assert(is_whitespace(shorter[j]));
                    }
                }
            }
        }
        if !char_is_whitespace(c) {
            blank = false;
        }
    }
    proof {
        assert(text@.take(text@.len() as int) =~= text@);
    }
    blank
}

/// A resolution result as a mathematical value.
pub open spec fn resolution_view(result: Result<String, LateraError>) -> Result<
    Seq<char>,
    ErrorView,
> {
    match result {
        Ok(path) => Ok(path@),
        Err(error) => Err(error@),
    }
}

/// What becomes of an override path, given whether the platform takes it for
/// absolute: a blank path is refused as empty, a relative one as not
/// absolute, and any other is the watch directory as it stands.
pub open spec fn override_outcome(path: Seq<char>, absolute: bool) -> Result<Seq<char>, ErrorView> {
    if is_blank(path) {
        Err(ErrorView::InvalidPath("empty override_path"@))
    } else if !absolute {
        Err(ErrorView::InvalidPath("override_path must be absolute: "@ + path))
    } else {
        Ok(path)
    }
}

/// Whether the platform takes `path` for absolute. The answer follows the
/// platform's path syntax (a leading root on Unix, a prefix and a root on
/// Windows) and depends on nothing but the characters of `path`.
pub uninterp spec fn absolute_text(path: Seq<char>) -> bool;

/// The path that the platform makes of `base` with `name` adjoined. Where
/// separators go, and what a `name` with a root or a prefix replaces, is the
/// platform's path syntax; the result depends on nothing but the two texts.
pub uninterp spec fn joined_text(base: Seq<char>, name: Seq<char>) -> Seq<char>;

/// What becomes of the default location, given the desktop directory that
/// the platform reported, if any: the folder [`DEFAULT_WATCH_FOLDER_NAME`]
/// adjoined to it, or `DesktopDirNotFound` when there is none.
pub open spec fn default_outcome(desktop: Option<Seq<char>>) -> Result<Seq<char>, ErrorView> {
    match desktop {
        Some(dir) => Ok(joined_text(dir, DEFAULT_WATCH_FOLDER_NAME@)),
        None => Err(ErrorView::DesktopDirNotFound),
    }
}

/// What a request to watch resolves to: with an override path, what becomes
/// of that path, whatever the desktop directory is; without one, what becomes
/// of the default location.
pub open spec fn watch_dir_outcome(
    override_path: Option<Seq<char>>,
    desktop: Option<Seq<char>>,
) -> Result<Seq<char>, ErrorView> {
    match override_path {
        Some(path) => override_outcome(path, absolute_text(path)),
        None => default_outcome(desktop),
    }
}

/// The view of an optional text.
pub open spec fn text_view(text: Option<String>) -> Option<Seq<char>> {
    match text {
        Some(text) => Some(text@),
        None => None,
    }
}

/// Asks `std::path::Path::is_absolute` whether `path` is absolute. The rules
/// of the platform's path syntax are not written out here: the answer only
/// has a name, as a function of the characters of `path`.
#[verifier::external_body]
fn path_is_absolute(path: &str) -> (absolute: bool)
    ensures
        absolute == absolute_text(path@),
{
    std::path::Path::new(path).is_absolute()
}

/// Adjoins `name` to `base` with `std::path::Path::join`. The rules of the
/// platform's path syntax are not written out here: the result only has a
/// name, as a function of the characters of the two texts.
#[verifier::external_body]
fn path_join(base: &str, name: &str) -> (joined: String)
    ensures
        joined@ == joined_text(base@, name@),
{
    std::path::Path::new(base).join(name).to_string_lossy().into_owned()
}

/// Validates an override path, given whether the platform takes it for
/// absolute.
pub fn check_override_path(override_path: &str, absolute: bool) -> (result: Result<
    String,
    LateraError,
>)
    ensures
        resolution_view(result) == override_outcome(override_path@, absolute),
{
    if str_is_blank(override_path) {
        return Err(LateraError::InvalidPath(String::from_str("empty override_path")));
    }
    if !absolute {
        return Err(
            LateraError::InvalidPath(
                String::from_str("override_path must be absolute: ").concat(override_path),
            ),
        );
    }
    Ok(String::from_str(override_path))
}

/// Settles an override path as the watch directory. A blank path is refused
/// as empty, a path that the platform does not take for absolute as not
/// absolute, and any other is the watch directory as it stands. The
/// directory that comes back has to exist before it is watched: the caller
/// creates it, with its parents, if it is missing.
pub fn ensure_override_dir(override_path: &str) -> (result: Result<String, LateraError>)
    ensures
        resolution_view(result) == override_outcome(override_path@, absolute_text(override_path@)),
{
    if str_is_blank(override_path) {
        check_override_path(override_path, false)
    } else {
        let absolute = path_is_absolute(override_path);
        check_override_path(override_path, absolute)
    }
}

/// Settles the default watch directory, given the desktop directory that the
/// platform reported to the caller, if any: the folder
/// [`DEFAULT_WATCH_FOLDER_NAME`] on that desktop. Fails exactly when there is
/// no desktop directory. The directory that comes back has to exist before
/// it is watched: the caller creates it, with its parents, if it is missing.
pub fn ensure_default_watch_dir(desktop: Option<String>) -> (result: Result<String, LateraError>)
    ensures
        resolution_view(result) == default_outcome(text_view(desktop)),
{
    match desktop {
        Some(dir) => Ok(path_join(dir.as_str(), DEFAULT_WATCH_FOLDER_NAME)),
        None => Err(LateraError::DesktopDirNotFound),
    }
}

/// Resolves the directory to watch: the override path if there is one, the
/// default location on the reported desktop otherwise. With an override path
/// the desktop directory plays no part.
pub fn resolve_watch_dir(override_path: Option<String>, desktop: Option<String>) -> (result: Result<
    String,
    LateraError,
>)
    ensures
        resolution_view(result) == watch_dir_outcome(text_view(override_path), text_view(desktop)),
{
    match override_path {
        Some(path) => ensure_override_dir(path.as_str()),
        None => ensure_default_watch_dir(desktop),
    }
}

} // verus!
