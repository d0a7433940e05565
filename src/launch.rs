//! Resolution of a launch: which program runs, with which argument vector,
//! in which working directory, or why the launch cannot be made.
use vstd::prelude::*;

verus! {

/// Why a launch was not made. Every one ends that launch attempt; none is
/// retried here.
#[derive(Debug, Clone, PartialEq, Eq)]
pub enum LaunchError {
    /// The anchored script path does not resolve, or resolves to something
    /// that is not an existing file.
    ScriptNotFound,
    /// The resolved script path has no parent directory to run in.
    NoParentDirectory,
    /// The operating system refused to create the process; carries its reason.
    SpawnFailed(String),
}

/// Everything the host needs to create the child process.
#[derive(Debug, Clone, PartialEq, Eq)]
pub struct LaunchPlan {
    /// Interpreter to run, found through the system's executable search.
    pub program: String,
    /// Arguments after the program name: the script path first, then the
    /// caller's arguments in their order.
    pub argv: Vec<String>,
    /// Directory the child starts in: the script's parent directory.
    pub cwd: String,
}

/// The parent directory of a path, as text.
pub uninterp spec fn parent_of(path: Seq<char>) -> Option<Seq<char>>;

/// Relies on `std::path::Path::parent`: the parent is a function of the
/// path text alone, and the empty path has none.
#[verifier::external_body]
fn parent_dir(path: &String) -> (r: Option<String>)
    ensures
        r is Some <==> parent_of(path@) is Some,
        r is Some ==> parent_of(path@)->Some_0 == r->Some_0@,
        path@.len() == 0 ==> r is None,
{
    std::path::Path::new(path.as_str()).parent().map(|d| d.to_string_lossy().into_owned())
}

/// The argument vector handed to the interpreter: the script path, then the
/// caller's arguments unchanged and in order.
pub fn script_argv(script: String, args: Vec<String>) -> (r: Vec<String>)
    ensures
        r@ == seq![script] + args@,
{
    let mut r: Vec<String> = Vec::new();
    r.push(script);
    let mut rest = args;
    r.append(&mut rest);
    r
}

/// The plan for a script whose resolution and parent directory are given.
///
/// `script` is the resolved absolute path of the script (`None` where it did
/// not resolve), `script_is_file` whether it names an existing file, and
/// `parent` the parent directory of that path.
pub fn plan_with_parent(
    program: String,
    script: Option<String>,
    script_is_file: bool,
    parent: Option<String>,
    args: Vec<String>,
) -> (r: Result<LaunchPlan, LaunchError>)
    ensures
        (r is Err && r->Err_0 == LaunchError::ScriptNotFound) <==> (script is None
            || !script_is_file),
        (r is Err && r->Err_0 == LaunchError::NoParentDirectory) <==> (script is Some
            && script_is_file && parent is None),
        r is Ok <==> (script is Some && script_is_file && parent is Some),
        r is Ok ==> r->Ok_0.program == program && r->Ok_0.argv@ == seq![script->Some_0]
            + args@ && r->Ok_0.cwd == parent->Some_0,
{
    match script {
        None => Err(LaunchError::ScriptNotFound),
        Some(path) => {
            if !script_is_file {
                Err(LaunchError::ScriptNotFound)
            } else {
                match parent {
                    None => Err(LaunchError::NoParentDirectory),
                    Some(dir) => {
                        let argv = script_argv(path, args);
                        Ok(LaunchPlan { program, argv, cwd: dir })
                    },
                }
            }
        },
    }
}

/// The plan for a launch of `program` on a resolved script.
///
/// `script` is the anchored script path after resolution to an absolute
/// path (`None` where resolution failed) and `script_is_file` whether that
/// path names an existing file. The working directory is the script's
/// parent directory.
pub fn plan_launch(
    program: String,
    script: Option<String>,
    script_is_file: bool,
    args: Vec<String>,
) -> (r: Result<LaunchPlan, LaunchError>)
    ensures
        (r is Err && r->Err_0 == LaunchError::ScriptNotFound) <==> (script is None
            || !script_is_file),
        (r is Err && r->Err_0 == LaunchError::NoParentDirectory) <==> (script is Some
            && script_is_file && parent_of(script->Some_0@) is None),
        r is Ok <==> (script is Some && script_is_file && parent_of(script->Some_0@) is Some),
        r is Ok ==> r->Ok_0.program == program && r->Ok_0.argv@ == seq![script->Some_0]
            + args@ && r->Ok_0.cwd@ == parent_of(script->Some_0@)->Some_0,
{
    let parent = match &script {
        Some(path) => if script_is_file {
            parent_dir(path)
        } else {
            None
        },
        None => None,
    };
    plan_with_parent(program, script, script_is_file, parent, args)
}

} // verus!
