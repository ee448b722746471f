//! Building-block operations: idempotent filesystem primitives (clean
//! directory, glob-delete, recursive copy and move of directory contents,
//! existence probe) and workspace discovery (nearest manifest directory,
//! workspace root via the build tool's metadata query).

use vstd::prelude::*;
use crate::command::{plain_command, read_step, str_views, CommandSpec, SpecCommand};
use crate::textfmt::{join_path, lemma_parent_path_shorter, parent_path, parent_path_spec};

verus! {

/// A structured failure from a filesystem or workspace operation.
#[derive(PartialEq, Eq, Structural, Clone, Copy, Debug)]
pub enum OpsError {
    /// The path exists but is a regular file where a directory was needed.
    NotADirectory,
    /// The glob pattern is not valid.
    PatternSyntax,
    /// Reading, creating, copying, moving or removing an entry failed.
    Io,
    /// A child process failed or its output could not be captured.
    Subprocess,
    /// Structured output could not be parsed or lacks the needed field.
    Malformed,
    /// No enclosing directory holds the manifest file.
    NotFound,
}

/// Relies on std's Path::exists: whether the path points at an existing
/// entity on disk, symbolic links followed.
#[verifier::external_body]
fn fs_exists(path: &str) -> bool {
    std::path::Path::new(path).exists()
}

/// Relies on std's Path::is_dir: whether the path exists and points at a
/// directory, symbolic links followed.
#[verifier::external_body]
fn path_is_dir(path: &str) -> bool {
    std::path::Path::new(path).is_dir()
}

/// Relies on std's Path::canonicalize: the absolute form of the current
/// working directory, or nothing when it cannot be resolved or does not
/// decode as UTF-8.
#[verifier::external_body]
fn current_dir_abs() -> Option<String> {
    let p = std::path::Path::new(".").canonicalize().ok()?;
    Some(p.to_str()?.to_string())
}

/// Relies on fs_extra::dir::create_all: creates the directory and every
/// missing ancestor; `true` on success.
#[verifier::external_body]
fn dir_create_all(path: &str) -> bool {
    fs_extra::dir::create_all(path, false).is_ok()
}

/// Relies on fs_extra::dir::remove: removes the directory with its whole
/// contents, succeeding when it does not exist; `true` on success.
#[verifier::external_body]
fn dir_remove_all(path: &str) -> bool {
    fs_extra::dir::remove(path).is_ok()
}

/// Relies on fs_extra::file::remove: removes one regular file,
/// succeeding also when the path does not exist; `true` on success.
#[verifier::external_body]
fn file_remove(path: &str) -> bool {
    fs_extra::file::remove(path).is_ok()
}

/// Relies on fs_extra::dir::copy with the content_only option: copies the
/// contents of `from` into `to` (not `from` itself); with `overwrite`
/// existing destination entries are replaced, without it they make the
/// copy fail. The copied size in bytes, or nothing on failure.
#[verifier::external_body]
fn dir_copy_contents(from: &str, to: &str, overwrite: bool) -> Option<u64> {
    let opts = fs_extra::dir::CopyOptions::new().content_only(true).overwrite(overwrite);
    fs_extra::dir::copy(from, to, &opts).ok()
}

/// Relies on fs_extra::dir::move_dir with the content_only option: moves
/// the contents of `from` into `to` (not `from` itself); with `overwrite`
/// existing destination entries are replaced, without it they make the
/// move fail. The moved size in bytes, or nothing on failure.
#[verifier::external_body]
fn dir_move_contents(from: &str, to: &str, overwrite: bool) -> Option<u64> {
    let opts = fs_extra::dir::CopyOptions::new().content_only(true).overwrite(overwrite);
    fs_extra::dir::move_dir(from, to, &opts).ok()
}

/// Whether the text is a valid glob pattern: a pure function of the
/// pattern text alone, as glob::Pattern::new decides it.
pub uninterp spec fn glob_pattern_ok(pattern: Seq<char>) -> bool;

/// Relies on glob::glob: expands the pattern against the filesystem and
/// hands the matched paths back as strings (lossily decoded).
/// `PatternSyntax` exactly when the pattern is not valid (pattern
/// parsing precedes any filesystem walk), `Io` when walking the
/// filesystem fails partway.
#[verifier::external_body]
fn glob_paths(pattern: &str) -> (r: Result<Vec<String>, OpsError>)
    ensures
        (r == Result::<Vec<String>, OpsError>::Err(OpsError::PatternSyntax)) == !glob_pattern_ok(
            pattern@,
        ),
{
    let paths = match glob::glob(pattern) {
        Ok(paths) => paths,
        Err(_) => return Err(OpsError::PatternSyntax),
    };
    let mut out: Vec<String> = Vec::new();
    for p in paths {
        match p {
            Ok(pb) => out.push(pb.to_string_lossy().into_owned()),
            Err(_) => return Err(OpsError::Io),
        }
    }
    Ok(out)
}

/// The `workspace_root` string of a metadata document: the content of
/// the top-level `workspace_root` field when the text parses as a JSON
/// object carrying that field as a string, and nothing otherwise. A
/// pure function of the text alone.
pub uninterp spec fn workspace_root_of(s: Seq<char>) -> Option<Seq<char>>;

/// Relies on serde_json::from_str, serde_json::Value::get and
/// serde_json::Value::as_str: parses the text as JSON and hands back the
/// content of the top-level `workspace_root` string field; nothing when
/// the text is not valid JSON, the field is absent, or it is not a
/// string.
#[verifier::external_body]
fn extract_workspace_root(out: &str) -> (r: Option<String>)
    ensures
        (r is Some) == (workspace_root_of(out@) is Some),
        r matches Some(t) ==> workspace_root_of(out@) matches Some(v) && t@ == v,
{
    let parsed: serde_json::Value = serde_json::from_str(out).ok()?;
    let field = parsed.get("workspace_root")?;
    Some(field.as_str()?.to_string())
}

/// Check if a path exists on disk (symbolic links followed).
pub fn path_exists(path: &str) -> bool {
    fs_exists(path)
}

/// What making a path a clean directory does, as a function of what the
/// filesystem probes say of it.
#[derive(PartialEq, Eq, Structural, Clone, Copy, Debug)]
pub enum DirAction {
    /// The path does not exist: create it and every missing ancestor.
    CreateMissing,
    /// The path is a directory: remove its whole contents and recreate it
    /// empty.
    ClearExisting,
    /// The path exists but is not a directory: refuse it, touching
    /// nothing.
    RejectNotADirectory,
}

/// The action that `get_clean_directory` takes for a path that the probes
/// describe: absent paths are created, directories are cleared, anything
/// else is refused.
pub open spec fn clean_directory_action(path_exists: bool, is_dir: bool) -> DirAction {
    if !path_exists {
        DirAction::CreateMissing
    } else if is_dir {
        DirAction::ClearExisting
    } else {
        DirAction::RejectNotADirectory
    }
}

/// A path that does not exist is never refused: the clean-directory call
/// creates it (with every missing ancestor), so it ends existing and
/// empty whenever creation succeeds.
pub proof fn lemma_clean_directory_missing_path(is_dir: bool)
    ensures
        clean_directory_action(false, is_dir) == DirAction::CreateMissing,
{
}

/// A path that exists but is not a directory is refused with the
/// not-a-directory error, and the action touches nothing on disk.
pub proof fn lemma_clean_directory_regular_file()
    ensures
        clean_directory_action(true, false) == DirAction::RejectNotADirectory,
{
}

/// A path that exists as a directory is cleared: every prior entry is
/// removed and the directory is recreated empty.
pub proof fn lemma_clean_directory_existing_dir()
    ensures
        clean_directory_action(true, true) == DirAction::ClearExisting,
{
}

/// Picks the clean-directory action for the probed state of a path.
pub fn choose_clean_directory_action(path_exists: bool, is_dir: bool) -> (a: DirAction)
    ensures
        a == clean_directory_action(path_exists, is_dir),
{
    if !path_exists {
        DirAction::CreateMissing
    } else if is_dir {
        DirAction::ClearExisting
    } else {
        DirAction::RejectNotADirectory
    }
}

/// Makes `path` an existing empty directory: creates it (and all missing
/// ancestors) when it is absent, removes all its contents and recreates
/// it when it exists as a directory, and fails with `NotADirectory` when
/// it exists but is a regular file, leaving it unchanged.
pub fn get_clean_directory(path: &str) -> (r: Result<(), OpsError>)
    ensures
        r matches Err(e) ==> e == OpsError::NotADirectory || e == OpsError::Io,
{
    match choose_clean_directory_action(fs_exists(path), path_is_dir(path)) {
        DirAction::CreateMissing => {
            if dir_create_all(path) {
                Ok(())
            } else {
                Err(OpsError::Io)
            }
        },
        DirAction::ClearExisting => {
            if dir_remove_all(path) && dir_create_all(path) {
                Ok(())
            } else {
                Err(OpsError::Io)
            }
        },
        DirAction::RejectNotADirectory => Err(OpsError::NotADirectory),
    }
}

/// Creates the directory and every missing ancestor when it is absent;
/// an existing one is left exactly as it is.
pub fn create_dir_if_missing(path: &str) -> (r: Result<(), OpsError>)
    ensures
        r matches Err(e) ==> e == OpsError::Io,
{
    if fs_exists(path) {
        Ok(())
    } else if dir_create_all(path) {
        Ok(())
    } else {
        Err(OpsError::Io)
    }
}

/// Removes every file in the list, in order, stopping at the first
/// removal that fails; nothing already removed is restored. An empty
/// list always succeeds, with no side effect; a full run removes
/// exactly the listed files and reports how many that was.
pub fn remove_files(files: &Vec<String>) -> (r: Result<usize, OpsError>)
    ensures
        files@.len() == 0 ==> r is Ok,
        r matches Ok(n) ==> n == files@.len(),
        r matches Err(e) ==> e == OpsError::Io,
{
    let mut i: usize = 0;
    while i < files.len()
        invariant
            i <= files@.len(),
        decreases files@.len() - i,
    {
        if !file_remove(files[i].as_str()) {
            return Err(OpsError::Io);
        }
        i = i + 1;
    }
    Ok(i)
}

/// Remove the set of files a glob pattern matches: a pattern with no
/// match succeeds without side effects; otherwise every matched file is
/// removed, stopping at the first failure (partial removals are not
/// rolled back).
pub fn clean_files(pattern: &str) -> (r: Result<(), OpsError>)
    ensures
        r matches Err(e) ==> e == OpsError::PatternSyntax || e == OpsError::Io,
        (r == Result::<(), OpsError>::Err(OpsError::PatternSyntax)) == !glob_pattern_ok(pattern@),
{
    match glob_paths(pattern) {
        Ok(files) => match remove_files(&files) {
            Ok(_) => Ok(()),
            Err(e) => Err(e),
        },
        Err(e) => {
            if matches!(e, OpsError::PatternSyntax) {
                Err(OpsError::PatternSyntax)
            } else {
                Err(OpsError::Io)
            }
        },
    }
}

/// Remove a single file; a path that does not exist counts as removed.
pub fn remove_file(path: &str) -> (r: Result<(), OpsError>)
    ensures
        r matches Err(e) ==> e == OpsError::Io,
{
    if file_remove(path) {
        Ok(())
    } else {
        Err(OpsError::Io)
    }
}

/// Remove a directory with its contents; a path that does not exist
/// counts as removed.
pub fn remove_dir(path: &str) -> (r: Result<(), OpsError>)
    ensures
        r matches Err(e) ==> e == OpsError::Io,
{
    if dir_remove_all(path) {
        Ok(())
    } else {
        Err(OpsError::Io)
    }
}

/// Copy the entire contents of `from` into `to` (not `from` itself); with
/// `overwrite` off, entries already present at the destination make the
/// copy fail. The copied size in bytes on success.
pub fn copy_contents(from: &str, to: &str, overwrite: bool) -> (r: Result<u64, OpsError>)
    ensures
        r matches Err(e) ==> e == OpsError::Io,
{
    match dir_copy_contents(from, to, overwrite) {
        Some(bytes) => Ok(bytes),
        None => Err(OpsError::Io),
    }
}

/// Move the entire contents of `from` into `to` (not `from` itself); with
/// `overwrite` off, entries already present at the destination make the
/// move fail. The moved size in bytes on success.
pub fn move_contents(from: &str, to: &str, overwrite: bool) -> (r: Result<u64, OpsError>)
    ensures
        r matches Err(e) ==> e == OpsError::Io,
{
    match dir_move_contents(from, to, overwrite) {
        Some(bytes) => Ok(bytes),
        None => Err(OpsError::Io),
    }
}

/// The ancestor of `s` reached after `k` steps of `parent_path_spec`,
/// when the chain carries that far.
pub open spec fn ancestor_at(s: Seq<char>, k: nat) -> Option<Seq<char>>
    decreases k,
{
    if k == 0 {
        Option::Some(s)
    } else {
        match ancestor_at(s, (k - 1) as nat) {
            Option::Some(p) => parent_path_spec(p),
            Option::None => Option::None,
        }
    }
}

/// Whether `anc` lies on the ancestor chain of `s` (`s` itself
/// included).
pub open spec fn is_ancestor_path(anc: Seq<char>, s: Seq<char>) -> bool {
    exists|k: nat| ancestor_at(s, k) == Option::Some(anc)
}

/// The nearest directory, walking upward from `start` through its
/// ancestors (inclusive), that holds the manifest file `Cargo.toml`;
/// the result lies on the ancestor chain of `start`. `NotFound` when
/// the walk runs out of ancestors.
#[verifier::loop_isolation(false)]
pub fn nearest_cargo_dir_from(start: String) -> (r: Result<String, OpsError>)
    ensures
        r matches Err(e) ==> e == OpsError::NotFound,
        r matches Ok(d) ==> is_ancestor_path(d@, start@),
{
    let ghost start0 = start@;
    let mut dir = start;
    proof {
        assert(ancestor_at(start0, 0) == Option::Some(start0));
    }
    loop
        invariant
            is_ancestor_path(dir@, start0),
        decreases dir@.len(),
    {
        let candidate = join_path(dir.as_str(), "Cargo.toml");
        if fs_exists(candidate.as_str()) {
            return Ok(dir);
        }
        match parent_path(dir.as_str()) {
            Some(p) => {
                proof {
                    lemma_parent_path_shorter(dir@);
                    let k = choose|k: nat| ancestor_at(start0, k) == Option::Some(dir@);
                    assert(ancestor_at(start0, k + 1) == Option::Some(p@));
                }
                dir = p;
            },
            None => {
                return Err(OpsError::NotFound);
            },
        }
    }
}

/// Starting at the current working directory, walk upward through the
/// ancestors (inclusive) until a directory holding the manifest file is
/// found. `NotFound` when no ancestor holds one, `Io` when the current
/// directory cannot be resolved.
pub fn nearest_cargo_dir() -> (r: Result<String, OpsError>)
    ensures
        r matches Err(e) ==> e == OpsError::NotFound || e == OpsError::Io,
{
    match current_dir_abs() {
        Some(d) => nearest_cargo_dir_from(d),
        None => Err(OpsError::Io),
    }
}

/// The build tool's metadata query: `cargo metadata --format-version 1`.
pub open spec fn metadata_query_spec() -> SpecCommand {
    plain_command("cargo"@, seq!["metadata"@, "--format-version"@, "1"@])
}

/// Builds the metadata query invocation.
fn metadata_query() -> (c: CommandSpec)
    ensures
        c@ == metadata_query_spec(),
{
    let mut args: Vec<String> = Vec::new();
    args.push(String::from_str("metadata"));
    args.push(String::from_str("--format-version"));
    args.push(String::from_str("1"));
    let ghost av = args@;
    let c = CommandSpec::new("cargo", args);
    proof {
        assert(str_views(av) =~= seq!["metadata"@, "--format-version"@, "1"@]);
        assert(c@ =~= metadata_query_spec());
    }
    c
}

/// The `workspace_root` field of a captured metadata document: exactly
/// the string that `workspace_root_of` names, and `Malformed` exactly
/// when the text carries none (not valid JSON, field absent, or not a
/// string).
pub fn workspace_root_from_metadata(out: &str) -> (r: Result<String, OpsError>)
    ensures
        (r is Ok) == (workspace_root_of(out@) is Some),
        r matches Ok(t) ==> workspace_root_of(out@) matches Some(v) && t@ == v,
        r matches Err(e) ==> e == OpsError::Malformed && workspace_root_of(out@) is None,
{
    match extract_workspace_root(out) {
        Some(t) => Ok(t),
        None => Err(OpsError::Malformed),
    }
}

/// The root of the workspace: runs the build tool's metadata query and
/// extracts the top-level `workspace_root` string field from its JSON
/// output through `workspace_root_from_metadata`. `Subprocess` when the
/// query fails or its output cannot be captured; `Malformed` when the
/// captured output carries no `workspace_root` string.
pub fn get_workspace_root() -> (r: Result<String, OpsError>)
    ensures
        r matches Err(e) ==> e == OpsError::Subprocess || e == OpsError::Malformed,
{
    let query = metadata_query();
    let out = match read_step(&query) {
        Some(o) => o,
        None => {
            return Err(OpsError::Subprocess);
        },
    };
    workspace_root_from_metadata(out.as_str())
}

} // verus!
