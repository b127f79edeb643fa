//! The layout of a project's environment for a chosen interpreter.
use vstd::prelude::*;
use crate::version::Version;
use crate::catalog::Os;
use crate::provision::Resolved;
use crate::install::{EnvError, WaitOutcome, VENV_WAIT_LIMIT_MS, wait_outcome};

verus! {

/// The folder of a virtual environment's executables.
pub open spec fn bin_dir_text(os: Os) -> Seq<char> {
    match os {
        Os::Windows => "Scripts"@,
        _ => "bin"@,
    }
}

/// The file name of the environment's interpreter.
pub open spec fn venv_python_text(os: Os) -> Seq<char> {
    match os {
        Os::Windows => "python.exe"@,
        _ => "python"@,
    }
}

/// The file name of the environment's package installer.
pub open spec fn venv_pip_text(os: Os) -> Seq<char> {
    match os {
        Os::Windows => "pip.exe"@,
        _ => "pip"@,
    }
}

/// `<major>.<minor>/lib`, below the project's package folder.
pub open spec fn lib_dir_text(v: Version) -> Seq<char> {
    v.series_text() + "/lib"@
}

/// `<major>.<minor>/lib/.venv`.
pub open spec fn venv_dir_text(v: Version) -> Seq<char> {
    lib_dir_text(v) + "/"@ + ".venv"@
}

/// `<major>.<minor>/lib/.venv/<bin dir>/`.
pub open spec fn venv_bin_text(v: Version, os: Os) -> Seq<char> {
    venv_dir_text(v) + "/"@ + bin_dir_text(os) + "/"@
}

/// The paths, relative to a project's package folder, that building its
/// environment works with, and the version the environment is for.
pub struct EnvPlan {
    pub version: Version,
    pub lib_dir: String,
    pub venv_dir: String,
    pub python_exe: String,
    pub pip_exe: String,
}

impl EnvPlan {
    pub open spec fn wf(self, v: Version, os: Os) -> bool {
        &&& self.version == v
        &&& self.lib_dir@ == lib_dir_text(v)
        &&& self.venv_dir@ == venv_dir_text(v)
        &&& self.python_exe@ == venv_bin_text(v, os) + venv_python_text(os)
        &&& self.pip_exe@ == venv_bin_text(v, os) + venv_pip_text(os)
    }

    /// The plan for the chosen interpreter. The folder is named after the
    /// version the interpreter reported, not the one requested.
    pub fn new(resolved: &Resolved, os: Os) -> (r: EnvPlan)
        ensures
            r.wf(resolved.version, os),
    {
        let v = resolved.version;
        let mut lib_dir = v.series_string();
        lib_dir.append("/lib");
        let mut venv_dir = lib_dir.clone();
        venv_dir.append("/");
        venv_dir.append(".venv");
        let mut bin = venv_dir.clone();
        bin.append("/");
        bin.append(
            match os {
                Os::Windows => "Scripts",
                _ => "bin",
            },
        );
        bin.append("/");
        let mut python_exe = bin.clone();
        python_exe.append(
            match os {
                Os::Windows => "python.exe",
                _ => "python",
            },
        );
        let mut pip_exe = bin;
        pip_exe.append(
            match os {
                Os::Windows => "pip.exe",
                _ => "pip",
            },
        );
        EnvPlan { version: v, lib_dir, venv_dir, python_exe, pip_exe }
    }
}

/// The arguments that install the bootstrap package quietly into the
/// environment: `-m pip install --quiet wheel`.
pub fn bootstrap_args() -> (r: Vec<String>)
    ensures
        r@.len() == 5,
        r@[0]@ == "-m"@,
        r@[1]@ == "pip"@,
        r@[2]@ == "install"@,
        r@[3]@ == "--quiet"@,
        r@[4]@ == "wheel"@,
{
    let mut r: Vec<String> = Vec::new();
    r.push(String::from_str("-m"));
    r.push(String::from_str("pip"));
    r.push(String::from_str("install"));
    r.push(String::from_str("--quiet"));
    r.push(String::from_str("wheel"));
    r
}

/// Where building an environment stands.
pub enum EnvStage {
    Start,
    /// Waiting for the `lib` folder to be created.
    CreatingLib,
    /// Waiting for the interpreter to create the virtual environment.
    CreatingVenv,
    /// Waiting for the environment's executables to appear.
    Waiting,
    /// Waiting for the bootstrap package to be installed.
    Bootstrapping,
    /// Built, or failed.
    Finished,
}

/// What the caller observed.
pub enum EnvEvent {
    Begin,
    /// The last action succeeded, or not.
    Completed(bool),
    /// How long the wait has lasted, and which executables are there.
    Polled { elapsed_ms: u64, python_present: bool, pip_present: bool },
}

/// What the caller is to do next.
pub enum EnvAction {
    /// Create the plan's `lib_dir`, with its parents, if absent.
    CreateLibDir,
    /// Have the chosen interpreter create a virtual environment in the
    /// plan's `venv_dir`.
    CreateVenv,
    /// Look for the plan's `python_exe` and `pip_exe`, after a pause if
    /// some time has passed already.
    Poll,
    /// Run the environment's interpreter with these arguments.
    Bootstrap(Vec<String>),
    /// The environment is ready, for an interpreter of this version.
    Finish(Version),
    Fail(EnvError),
}

/// The building of one project environment, driven by the caller.
pub struct EnvBuilder {
    pub plan: EnvPlan,
    pub stage: EnvStage,
}

/// One step of building: from `pre`, on `event`, to `post`, doing `a`.
pub open spec fn env_step_relation(pre: EnvBuilder, event: EnvEvent, post: EnvBuilder, a: EnvAction) -> bool {
    &&& post.plan == pre.plan
    &&& match (pre.stage, event) {
        (EnvStage::Start, EnvEvent::Begin) => post.stage is CreatingLib && a is CreateLibDir,
        (EnvStage::CreatingLib, EnvEvent::Completed(ok)) => if ok {
            post.stage is CreatingVenv && a is CreateVenv
        } else {
            post.stage is Finished && a == EnvAction::Fail(EnvError::CreateDir)
        },
        (EnvStage::CreatingVenv, EnvEvent::Completed(ok)) => if ok {
            post.stage is Waiting && a is Poll
        } else {
            post.stage is Finished && a == EnvAction::Fail(EnvError::CreateVenv)
        },
        (EnvStage::Waiting, EnvEvent::Polled { elapsed_ms, python_present, pip_present }) => {
            if python_present && pip_present {
                &&& post.stage is Bootstrapping
                &&& a is Bootstrap
                &&& a->Bootstrap_0@.len() == 5
                &&& a->Bootstrap_0@[0]@ == "-m"@
                &&& a->Bootstrap_0@[1]@ == "pip"@
                &&& a->Bootstrap_0@[2]@ == "install"@
                &&& a->Bootstrap_0@[3]@ == "--quiet"@
                &&& a->Bootstrap_0@[4]@ == "wheel"@
            } else if elapsed_ms < VENV_WAIT_LIMIT_MS {
                post.stage is Waiting && a is Poll
            } else {
                post.stage is Finished && a == EnvAction::Fail(EnvError::Timeout)
            }
        },
        (EnvStage::Bootstrapping, EnvEvent::Completed(ok)) => if ok {
            post.stage is Finished && a == EnvAction::Finish(pre.plan.version)
        } else {
            post.stage is Finished && a == EnvAction::Fail(EnvError::Bootstrap)
        },
        _ => post.stage is Finished && a == EnvAction::Fail(EnvError::OutOfOrder),
    }
}

impl EnvBuilder {
    pub fn new(plan: EnvPlan) -> (r: EnvBuilder)
        ensures
            r.plan == plan,
            r.stage is Start,
    {
        EnvBuilder { plan, stage: EnvStage::Start }
    }

    /// Takes what the caller observed, and returns what to do next.
    pub fn step(&mut self, event: EnvEvent) -> (a: EnvAction)
        ensures
            env_step_relation(*old(self), event, *final(self), a),
    {
        let mut stage = EnvStage::Finished;
        core::mem::swap(&mut self.stage, &mut stage);
        match (stage, event) {
            (EnvStage::Start, EnvEvent::Begin) => {
                self.stage = EnvStage::CreatingLib;
                EnvAction::CreateLibDir
            },
            (EnvStage::CreatingLib, EnvEvent::Completed(ok)) => if ok {
                self.stage = EnvStage::CreatingVenv;
                EnvAction::CreateVenv
            } else {
                EnvAction::Fail(EnvError::CreateDir)
            },
            (EnvStage::CreatingVenv, EnvEvent::Completed(ok)) => if ok {
                self.stage = EnvStage::Waiting;
                EnvAction::Poll
            } else {
                EnvAction::Fail(EnvError::CreateVenv)
            },
            (EnvStage::Waiting, EnvEvent::Polled { elapsed_ms, python_present, pip_present }) => {
                match wait_outcome(elapsed_ms, python_present, pip_present) {
                    WaitOutcome::Ready => {
                        self.stage = EnvStage::Bootstrapping;
                        EnvAction::Bootstrap(bootstrap_args())
                    },
                    WaitOutcome::KeepWaiting => {
                        self.stage = EnvStage::Waiting;
                        EnvAction::Poll
                    },
                    WaitOutcome::GiveUp => EnvAction::Fail(EnvError::Timeout),
                }
            },
            (EnvStage::Bootstrapping, EnvEvent::Completed(ok)) => if ok {
                EnvAction::Finish(self.plan.version)
            } else {
                EnvAction::Fail(EnvError::Bootstrap)
            },
            _ => EnvAction::Fail(EnvError::OutOfOrder),
        }
    }
}

} // verus!
