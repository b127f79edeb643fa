//! What installing a hosted build and building a project environment take:
//! the names involved, the order of the steps, and when waiting gives up.
use vstd::prelude::*;
use crate::catalog::{
    PyVers, Os, url_text, archive_text, extracted_folder_text, install_folder_text,
    download_url, artifact_name, extracted_folder_name, final_folder_name,
};

verus! {

/// One step of installing a build into the installs directory.
pub enum InstallStep {
    /// Download `url` and save it as `archive`.
    Fetch { url: String, archive: String },
    /// Unpack `archive` into the installs directory.
    Extract { archive: String },
    /// Rename the folder `from` to `to`.
    Rename { from: String, to: String },
}

/// The names that installing one hosted build on one platform works with.
pub struct InstallPlan {
    pub build: PyVers,
    pub url: String,
    pub archive: String,
    pub extracted: String,
    pub folder: String,
}

impl InstallPlan {
    pub open spec fn wf(self, os: Os) -> bool {
        &&& self.url@ == url_text(self.build, os)
        &&& self.archive@ == archive_text(self.build, os)
        &&& self.extracted@ == extracted_folder_text(self.build, os)
        &&& self.folder@ == install_folder_text(self.build.version())
    }

    pub fn new(build: PyVers, os: Os) -> (r: InstallPlan)
        ensures
            r.build == build,
            r.wf(os),
    {
        InstallPlan {
            build,
            url: download_url(build, os),
            archive: artifact_name(build, os),
            extracted: extracted_folder_name(build, os),
            folder: final_folder_name(build),
        }
    }

    /// The steps of an install: an archive already in the installs directory
    /// is not fetched again; the archive is then unpacked, and the folder it
    /// unpacks to loses its platform tag.
    pub open spec fn steps_spec(self, archive_exists: bool) -> Seq<InstallStep> {
        let tail = seq![
            InstallStep::Extract { archive: self.archive },
            InstallStep::Rename { from: self.extracted, to: self.folder },
        ];
        if archive_exists {
            tail
        } else {
            seq![InstallStep::Fetch { url: self.url, archive: self.archive }] + tail
        }
    }

    pub fn steps(&self, archive_exists: bool) -> (r: Vec<InstallStep>)
        ensures
            r@ == self.steps_spec(archive_exists),
    {
        let mut r: Vec<InstallStep> = Vec::new();
        if !archive_exists {
            r.push(InstallStep::Fetch { url: self.url.clone(), archive: self.archive.clone() });
        }
        r.push(InstallStep::Extract { archive: self.archive.clone() });
        r.push(InstallStep::Rename { from: self.extracted.clone(), to: self.folder.clone() });
        proof {
            assert(r@ =~= self.steps_spec(archive_exists));
        }
        r
    }
}

/// Installing twice: the second run, which finds the archive the first one
/// fetched, fetches nothing, and ends as the first did, with the unpacked
/// folder renamed to the build's canonical folder name.
pub proof fn lemma_second_install_skips_fetch(plan: InstallPlan, os: Os)
    requires
        plan.wf(os),
    ensures
        plan.steps_spec(false)[0] == (InstallStep::Fetch { url: plan.url, archive: plan.archive }),
        forall|i: int|
            0 <= i < plan.steps_spec(true).len() ==> !(#[trigger] plan.steps_spec(true)[i] is Fetch),
        plan.steps_spec(true).last() == plan.steps_spec(false).last(),
        plan.steps_spec(true).last() == (InstallStep::Rename { from: plan.extracted, to: plan.folder }),
        plan.folder@ == install_folder_text(plan.build.version()),
{
}

/// Why building a project environment failed.
#[derive(Clone, Copy, Debug, PartialEq, Eq, Structural)]
pub enum EnvError {
    /// The environment's `lib` folder could not be created.
    CreateDir,
    /// The interpreter did not create the virtual environment.
    CreateVenv,
    /// The environment's executables did not appear in time.
    Timeout,
    /// Installing the bootstrap package failed.
    Bootstrap,
    /// An event came that the current stage does not wait for.
    OutOfOrder,
}

impl EnvError {
    pub open spec fn text(self) -> Seq<char> {
        match self {
            EnvError::CreateDir => "Problem creating __pypackages__ directory"@,
            EnvError::CreateVenv => "Problem creating virtual environment"@,
            EnvError::Timeout => "Timed out waiting for venv to be created."@,
            EnvError::Bootstrap => "Problem installing `wheel`"@,
            EnvError::OutOfOrder => "Environment setup went out of order"@,
        }
    }

    pub fn message(&self) -> (r: String)
        ensures
            r@ == self.text(),
    {
        match self {
            EnvError::CreateDir => String::from_str("Problem creating __pypackages__ directory"),
            EnvError::CreateVenv => String::from_str("Problem creating virtual environment"),
            EnvError::Timeout => String::from_str("Timed out waiting for venv to be created."),
            EnvError::Bootstrap => String::from_str("Problem installing `wheel`"),
            EnvError::OutOfOrder => String::from_str("Environment setup went out of order"),
        }
    }
}

/// How long to wait for a new environment's executables, in milliseconds.
pub const VENV_WAIT_LIMIT_MS: u64 = 10000;

/// What to do while waiting for a new environment's executables.
#[derive(Clone, Copy, Debug, PartialEq, Eq, Structural)]
pub enum WaitOutcome {
    Ready,
    KeepWaiting,
    GiveUp,
}

/// Ready once both executables are there; else keep waiting until the limit
/// has passed, and then give up.
pub fn wait_outcome(elapsed_ms: u64, python_present: bool, pip_present: bool) -> (r: WaitOutcome)
    ensures
        python_present && pip_present ==> r == WaitOutcome::Ready,
        !(python_present && pip_present) && elapsed_ms < VENV_WAIT_LIMIT_MS ==> r
            == WaitOutcome::KeepWaiting,
        !(python_present && pip_present) && elapsed_ms >= VENV_WAIT_LIMIT_MS ==> r
            == WaitOutcome::GiveUp,
{
    if python_present && pip_present {
        WaitOutcome::Ready
    } else if elapsed_ms < VENV_WAIT_LIMIT_MS {
        WaitOutcome::KeepWaiting
    } else {
        WaitOutcome::GiveUp
    }
}

} // verus!
