use vstd::prelude::*;

use crate::fspath::{fs_exists, spec_join, FsPath, FsSnapshot};
use crate::locator::{
    get_resource_dir, spec_locate, HostPaths, BACKEND_DIR, PYTHON_DIR,
};

verus! {

/// The family of operating system the host runs on.
#[derive(Clone, Copy, Debug, PartialEq, Eq, Structural)]
pub enum Platform {
    Windows,
    Unix,
}

/// The interpreter's file name on Windows.
pub const WINDOWS_INTERPRETER: &'static str = "python.exe";

/// The interpreter's file name elsewhere.
pub const UNIX_INTERPRETER: &'static str = "python3";

/// The backend's entry script, in the backend directory.
pub const ENTRY_SCRIPT: &'static str = "main.py";

/// The Windows process-creation flag that keeps a console window from
/// appearing (`CREATE_NO_WINDOW`).
pub const CREATE_NO_WINDOW: u32 = 0x08000000;

pub open spec fn interpreter_name(platform: Platform) -> Seq<char> {
    match platform {
        Platform::Windows => WINDOWS_INTERPRETER@,
        Platform::Unix => UNIX_INTERPRETER@,
    }
}

pub open spec fn spec_creation_flags(platform: Platform) -> u32 {
    match platform {
        Platform::Windows => CREATE_NO_WINDOW,
        Platform::Unix => 0,
    }
}

/// `root/python/<interpreter>`.
pub open spec fn interpreter_path(root: Seq<Seq<char>>, platform: Platform) -> Seq<Seq<char>> {
    spec_join(spec_join(root, PYTHON_DIR@), interpreter_name(platform))
}

/// `root/backend/main.py`.
pub open spec fn script_path(root: Seq<Seq<char>>) -> Seq<Seq<char>> {
    spec_join(spec_join(root, BACKEND_DIR@), ENTRY_SCRIPT@)
}

/// `root/backend`, where the backend runs.
pub open spec fn backend_path(root: Seq<Seq<char>>) -> Seq<Seq<char>> {
    spec_join(root, BACKEND_DIR@)
}

/// The backend can be launched from `root`: its interpreter, its entry script
/// and its working directory all exist.
pub open spec fn launch_ready(
    root: Seq<Seq<char>>,
    platform: Platform,
    fs: Seq<(Seq<Seq<char>>, bool)>,
) -> bool {
    fs_exists(fs, interpreter_path(root, platform)) && fs_exists(fs, script_path(root))
        && fs_exists(fs, backend_path(root))
}

/// Why the backend could not be started.
#[derive(Debug)]
pub enum StartError {
    /// The interpreter, the entry script or the backend directory is missing.
    ConfigurationError,
    /// The operating system refused to create the process; its message.
    SpawnError(String),
}

/// How to spawn the backend: run `program` with `script` as its sole argument,
/// in `working_dir`, with `creation_flags` (Windows only).
pub struct LaunchPlan {
    pub program: FsPath,
    pub script: FsPath,
    pub working_dir: FsPath,
    pub creation_flags: u32,
}

/// The interpreter's file name on `platform`.
pub fn interpreter_file(platform: Platform) -> (r: &'static str)
    ensures
        r@ == interpreter_name(platform),
{
    match platform {
        Platform::Windows => WINDOWS_INTERPRETER,
        Platform::Unix => UNIX_INTERPRETER,
    }
}

/// Checks the layout under `root` and gives the command that starts the
/// backend: a `ConfigurationError` exactly where the interpreter, the entry
/// script or the backend directory is missing.
pub fn prepare_launch(root: &FsPath, platform: Platform, fs: &FsSnapshot) -> (r: Result<
    LaunchPlan,
    StartError,
>)
    ensures
        r is Ok <==> launch_ready(root@, platform, fs@),
        r is Err ==> r matches Err(StartError::ConfigurationError),
        r matches Ok(plan) ==> plan.program@ == interpreter_path(root@, platform)
            && plan.script@ == script_path(root@) && plan.working_dir@ == backend_path(root@)
            && plan.creation_flags == spec_creation_flags(platform),
{
    let program = root.join(PYTHON_DIR).join(interpreter_file(platform));
    let working_dir = root.join(BACKEND_DIR);
    let script = working_dir.join(ENTRY_SCRIPT);
    if !fs.contains(&program) || !fs.contains(&script) || !fs.contains(&working_dir) {
        return Err(StartError::ConfigurationError);
    }
    let creation_flags: u32 = match platform {
        Platform::Windows => CREATE_NO_WINDOW,
        Platform::Unix => 0,
    };
    Ok(LaunchPlan { program, script, working_dir, creation_flags })
}

/// The first steps of starting the backend: locates the resource directory
/// and checks the layout under it. A `ConfigurationError` exactly where no
/// candidate directory could be computed or the one located lacks a part.
pub fn plan_python_server(h: &HostPaths, platform: Platform, fs: &FsSnapshot) -> (r: Result<
    LaunchPlan,
    StartError,
>)
    ensures
        r is Ok <==> (spec_locate(h, fs@) matches Some(root) && launch_ready(
            root,
            platform,
            fs@,
        )),
        r is Err ==> r matches Err(StartError::ConfigurationError),
        r matches Ok(plan) ==> spec_locate(h, fs@) matches Some(root) && plan.program@
            == interpreter_path(root, platform) && plan.script@ == script_path(root)
            && plan.working_dir@ == backend_path(root) && plan.creation_flags
            == spec_creation_flags(platform),
{
    match get_resource_dir(h, fs) {
        Some(root) => prepare_launch(&root, platform, fs),
        None => Err(StartError::ConfigurationError),
    }
}

/// Where the entry script is missing, the backend is not launched.
pub proof fn lemma_missing_script_is_refused(
    root: Seq<Seq<char>>,
    platform: Platform,
    fs: Seq<(Seq<Seq<char>>, bool)>,
)
    requires
        !fs_exists(fs, script_path(root)),
    ensures
        !launch_ready(root, platform, fs),
{
}

} // verus!
