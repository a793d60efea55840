//! Where the settings file lies, and what has to be done to it before it is read.

use vstd::prelude::*;
use vstd::string::*;

verus! {

/// The place of the settings file when the command line names none.
pub open spec fn default_config_path() -> Seq<char> {
    "~/.config/gitlab-branch-gen/config.yml"@
}

/// The path as the user means it: the one given, or the default.
pub open spec fn requested_path(custom: Option<Seq<char>>) -> Seq<char> {
    match custom {
        Some(path) => path,
        None => default_config_path(),
    }
}

/// The path of the settings file before it is normalised: the one from the
/// command line where there is one, the default otherwise.
pub fn requested_config_path(custom: &Option<String>) -> (r: String)
    ensures
        r@ == requested_path(custom.deep_view()),
{
    match custom {
        Some(path) => path.clone(),
        None => String::from_str("~/.config/gitlab-branch-gen/config.yml"),
    }
}

/// The characters that part the segments of a path: both slashes, and the
/// replacement character, which is read as a slash too.
pub open spec fn is_separator(c: char) -> bool {
    c == '/' || c == '\\' || c == '\u{fffd}'
}

/// The segments of a path: its longest runs of characters that are no
/// separators, from left to right.
pub open spec fn segments(path: Seq<char>) -> Seq<Seq<char>>
    decreases path.len(),
{
    if path.len() == 0 {
        Seq::empty()
    } else if is_separator(path.last()) {
        segments(path.drop_last())
    } else if path.len() > 1 && !is_separator(path[path.len() - 2]) {
        let before = segments(path.drop_last());
        before.drop_last().push(before.last().push(path.last()))
    } else {
        segments(path.drop_last()).push(seq![path.last()])
    }
}

/// The segments that are left when each `..` takes away the segment before
/// it, going from left to right; a `..` with nothing before it just goes.
pub open spec fn without_parents(parts: Seq<Seq<char>>) -> Seq<Seq<char>>
    decreases parts.len(),
{
    if parts.len() == 0 {
        Seq::empty()
    } else {
        let before = without_parents(parts.drop_last());
        if parts.last() != ".."@ {
            before.push(parts.last())
        } else if before.len() > 0 {
            before.drop_last()
        } else {
            before
        }
    }
}

/// Whether `text` ends with `tail`.
pub open spec fn ends_with(text: Seq<char>, tail: Seq<char>) -> bool {
    text.len() >= tail.len() && text.subrange(text.len() - tail.len(), text.len() as int) == tail
}

/// What expanding the home directory may make of a path. The path stays as
/// it is; or, where it is `~` alone or starts with `~` and a slash, something
/// takes the place of the `~` and the rest stays.
pub open spec fn home_expanded(path: Seq<char>, expanded: Seq<char>) -> bool {
    ||| expanded == path
    ||| (path.len() > 0 && path[0] == '~' && (path.len() == 1 || path[1] == '/' || path[1] == '\\')
        && ends_with(expanded, path.skip(1)))
}

/// What the place of the settings file has to do with the path that was
/// asked for: some path with the segments of the requested one, its `..`
/// resolved, was expanded to it.
pub open spec fn located(requested: Seq<char>, location: Seq<char>) -> bool {
    exists|resolved: Seq<char>|
        segments(resolved) == without_parents(segments(requested)) && #[trigger] home_expanded(
            resolved,
            location,
        )
}

/// Makes an `os_path::OsPath` of the text, calls `OsPath::resolve` on it and
/// gives the path back as text.
///
/// Trusted: the result is taken to have the segments of `path`, each `..`
/// gone together with the segment before it. Which separator stands between
/// them, and whether one leads or ends the result, follows the platform the
/// program was built for, and nothing is claimed of it.
#[verifier::external_body]
fn resolve_path(path: &str) -> (r: String)
    ensures
        segments(r@) == without_parents(segments(path@)),
{
    let mut resolved = os_path::OsPath::from(path);
    resolved.resolve();
    resolved.to_string()
}

/// Calls `shellexpand::tilde`.
///
/// Trusted: the result is taken to be `path` itself, or, where `path` is `~`
/// alone or starts with `~` and a slash, a text that ends with what follows
/// the `~`. What stands in its place is the home directory of whoever runs
/// the program, of which nothing is claimed.
#[verifier::external_body]
fn expand_home(path: &str) -> (r: String)
    ensures
        home_expanded(path@, r@),
{
    shellexpand::tilde(path).into_owned()
}

/// The place of the settings file on this machine: the requested path with
/// its `..` segments resolved and a leading `~` replaced by the home
/// directory. The separators and the home directory depend on the platform
/// and on the user; the segments and what follows the `~` do not.
pub fn config_location(custom: &Option<String>) -> (r: String)
    ensures
        located(requested_path(custom.deep_view()), r@),
{
    let requested = requested_config_path(custom);
    let resolved = resolve_path(requested.as_str());
    let location = expand_home(resolved.as_str());
    assert(home_expanded(resolved@, location@));
    location
}

/// A path that ends in a character that is no separator has a last segment.
proof fn lemma_open_path_has_segments(path: Seq<char>)
    requires
        path.len() > 0,
        !is_separator(path.last()),
    ensures
        segments(path).len() > 0,
{
}

/// A path that is `~` alone, or `~` and a separator and more, has `~` as
/// its first segment, and after it the segments of what follows the `~`.
pub proof fn lemma_home_is_first_segment(path: Seq<char>)
    requires
        path.len() > 0,
        path[0] == '~',
        path.len() == 1 || is_separator(path[1]),
    ensures
        segments(path) == seq![seq!['~']] + segments(path.skip(1)),
    decreases path.len(),
{
    let rest = path.drop_last();
    let tail = path.skip(1);
    if path.len() == 1 {
        assert(segments(rest) =~= Seq::empty());
        assert(segments(path) =~= seq![seq!['~']]);
        assert(segments(tail) =~= Seq::empty());
    } else {
        lemma_home_is_first_segment(rest);
        assert(tail.drop_last() =~= rest.skip(1));
        assert(tail.last() == path.last());
        let before = segments(rest);
        let inner = segments(rest.skip(1));
        if is_separator(path.last()) {
        } else if !is_separator(path[path.len() - 2]) {
            assert(path.len() >= 3);
            assert(tail[tail.len() - 2] == path[path.len() - 2]);
            assert(rest.skip(1).last() == path[path.len() - 2]);
            lemma_open_path_has_segments(rest.skip(1));
            assert(before.last() == inner.last());
            assert(before.drop_last() =~= seq![seq!['~']] + inner.drop_last());
            assert(segments(path) =~= seq![seq!['~']] + segments(tail));
        } else {
            if tail.len() > 1 {
                assert(tail[tail.len() - 2] == path[path.len() - 2]);
            }
            assert(segments(path) =~= seq![seq!['~']] + segments(tail));
        }
    }
}

/// Unless the requested path, its `..` resolved, begins with the segment
/// `~`, the place of the settings file has exactly its segments.
pub proof fn lemma_location_keeps_segments(requested: Seq<char>, location: Seq<char>)
    requires
        located(requested, location),
    ensures
        segments(location) == without_parents(segments(requested)) || (without_parents(
            segments(requested),
        ).len() > 0 && without_parents(segments(requested))[0] == seq!['~']),
{
    let resolved = choose|resolved: Seq<char>|
        segments(resolved) == without_parents(segments(requested)) && #[trigger] home_expanded(
            resolved,
            location,
        );
    if location != resolved {
        lemma_home_is_first_segment(resolved);
    }
}

/// What is written to the settings file before it is read.
#[derive(Clone, Copy, Debug, PartialEq, Eq, Structural)]
pub struct FileSteps {
    /// The file is missing and is created from the command line's values.
    pub initialize: bool,
    /// The file is replaced by the command line's values on request.
    pub overwrite: bool,
}

/// Decides what to write: a missing file is created, and a refresh that was
/// asked for is done whether the file was there or not.
pub fn file_steps(exists: bool, update_config: bool) -> (r: FileSteps)
    ensures
        r.initialize == !exists,
        r.overwrite == update_config,
{
    FileSteps { initialize: !exists, overwrite: update_config }
}

} // verus!
