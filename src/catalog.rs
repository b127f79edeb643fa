//! The closed set of builds that are hosted for download, the platforms they
//! are built for, and the names of their artifacts.
use vstd::prelude::*;
use crate::version::{Version, dec};

verus! {

/// The builds that are hosted: one per supported minor version of Python 3.
#[derive(Clone, Copy, Debug, PartialEq, Eq, Structural)]
pub enum PyVers {
    V3_7_4,
    V3_6_9,
    V3_5_6,
    V3_4_10,
}

/// Why a requested version has no hosted build.
#[derive(Clone, Copy, Debug, PartialEq, Eq, Structural)]
pub enum ConfigError {
    /// The major version is not 3.
    UnsupportedMajor,
    /// The minor version of Python 3 is not among the hosted builds.
    UnsupportedMinor,
}

impl ConfigError {
    pub open spec fn text(self) -> Seq<char> {
        match self {
            ConfigError::UnsupportedMajor =>
                "Unsupported python version requested; only Python 3 is supported"@,
            ConfigError::UnsupportedMinor =>
                "Unsupported python version requested; only Python >=3.4 is supported"@,
        }
    }

    pub fn message(&self) -> (r: String)
        ensures
            r@ == self.text(),
    {
        match self {
            ConfigError::UnsupportedMajor => String::from_str(
                "Unsupported python version requested; only Python 3 is supported",
            ),
            ConfigError::UnsupportedMinor => String::from_str(
                "Unsupported python version requested; only Python >=3.4 is supported",
            ),
        }
    }
}

/// The hosted build for a requested version, matched on major and minor.
pub open spec fn hosted(v: Version) -> Result<PyVers, ConfigError> {
    if v.major != 3 {
        Err(ConfigError::UnsupportedMajor)
    } else if v.minor == 4 {
        Ok(PyVers::V3_4_10)
    } else if v.minor == 5 {
        Ok(PyVers::V3_5_6)
    } else if v.minor == 6 {
        Ok(PyVers::V3_6_9)
    } else if v.minor == 7 {
        Ok(PyVers::V3_7_4)
    } else {
        Err(ConfigError::UnsupportedMinor)
    }
}

impl PyVers {
    /// The exact version of the build.
    pub open spec fn version(self) -> Version {
        match self {
            PyVers::V3_7_4 => Version { major: 3, minor: 7, patch: 4 },
            PyVers::V3_6_9 => Version { major: 3, minor: 6, patch: 9 },
            PyVers::V3_5_6 => Version { major: 3, minor: 5, patch: 6 },
            PyVers::V3_4_10 => Version { major: 3, minor: 4, patch: 10 },
        }
    }

    /// Matches a requested version to the hosted build of the same major and
    /// minor version; any other request is a configuration error.
    pub fn from_version(v: Version) -> (r: Result<PyVers, ConfigError>)
        ensures
            r == hosted(v),
            r is Ok ==> r->Ok_0.version().same_series(v),
    {
        if v.major != 3 {
            return Err(ConfigError::UnsupportedMajor);
        }
        match v.minor {
            4 => Ok(PyVers::V3_4_10),
            5 => Ok(PyVers::V3_5_6),
            6 => Ok(PyVers::V3_6_9),
            7 => Ok(PyVers::V3_7_4),
            _ => Err(ConfigError::UnsupportedMinor),
        }
    }

    pub fn to_vers(self) -> (r: Version)
        ensures
            r == self.version(),
    {
        match self {
            PyVers::V3_7_4 => Version::new(3, 7, 4),
            PyVers::V3_6_9 => Version::new(3, 6, 9),
            PyVers::V3_5_6 => Version::new(3, 5, 6),
            PyVers::V3_4_10 => Version::new(3, 4, 10),
        }
    }

    /// The dotted version text, as it appears in artifact names and release tags.
    pub fn to_string(self) -> (r: String)
        ensures
            r@ == self.version().text(),
    {
        self.to_vers().to_string()
    }
}

/// Every request of Python 3 with a hosted minor version matches exactly one
/// build, the one with that minor version.
pub proof fn lemma_hosted_match_unique(v: Version)
    requires
        v.major == 3,
        4 <= v.minor <= 7,
    ensures
        hosted(v) is Ok,
        hosted(v)->Ok_0.version().same_series(v),
        forall|b: PyVers| #[trigger] b.version().same_series(v) ==> b == hosted(v)->Ok_0,
{
    assert forall|b: PyVers| #[trigger] b.version().same_series(v) implies b == hosted(v)->Ok_0 by {
        match b {
            PyVers::V3_7_4 => {},
            PyVers::V3_6_9 => {},
            PyVers::V3_5_6 => {},
            PyVers::V3_4_10 => {},
        }
    }
}

/// A request outside the hosted set is refused with a configuration error,
/// and no hosted build shares its major and minor version.
pub proof fn lemma_unhosted_refused(v: Version)
    requires
        v.major != 3 || v.minor < 4 || v.minor > 7,
    ensures
        hosted(v) is Err,
        v.major != 3 ==> hosted(v) == Err::<PyVers, ConfigError>(ConfigError::UnsupportedMajor),
        v.major == 3 ==> hosted(v) == Err::<PyVers, ConfigError>(ConfigError::UnsupportedMinor),
        forall|b: PyVers| !(#[trigger] b.version().same_series(v)),
{
    assert forall|b: PyVers| !(#[trigger] b.version().same_series(v)) by {
        match b {
            PyVers::V3_7_4 => {},
            PyVers::V3_6_9 => {},
            PyVers::V3_5_6 => {},
            PyVers::V3_4_10 => {},
        }
    }
}

/// The platforms builds are made for.
#[derive(Clone, Copy, Debug, PartialEq, Eq, Structural)]
pub enum Os {
    Ubuntu,
    Windows,
    Mac,
}

impl Os {
    /// The platform segment of an artifact name.
    pub open spec fn tag_text(self) -> Seq<char> {
        match self {
            Os::Ubuntu => "ubuntu"@,
            Os::Windows => "windows"@,
            Os::Mac => "mac"@,
        }
    }

    pub fn tag(self) -> (r: &'static str)
        ensures
            r@ == self.tag_text(),
    {
        match self {
            Os::Ubuntu => "ubuntu",
            Os::Windows => "windows",
            Os::Mac => "mac",
        }
    }

    /// The interpreter's file name inside an installed build's `bin` folder.
    pub open spec fn interpreter_text(self) -> Seq<char> {
        match self {
            Os::Windows => "python"@,
            _ => "python3"@,
        }
    }

    pub fn interpreter_name(self) -> (r: &'static str)
        ensures
            r@ == self.interpreter_text(),
    {
        match self {
            Os::Windows => "python",
            _ => "python3",
        }
    }
}

/// `python-<version>`: the folder an installed build lives in, and the folder
/// name an extracted archive is renamed to.
pub open spec fn install_folder_text(v: Version) -> Seq<char> {
    "python-"@ + v.text()
}

/// `python-<version>-<platform>`: the folder an archive extracts to.
pub open spec fn extracted_folder_text(b: PyVers, os: Os) -> Seq<char> {
    install_folder_text(b.version()) + "-"@ + os.tag_text()
}

/// `python-<version>-<platform>.tar.xz`: the archive of a build.
pub open spec fn archive_text(b: PyVers, os: Os) -> Seq<char> {
    extracted_folder_text(b, os) + ".tar.xz"@
}

/// Where the archive of a build is published: under a release tagged with
/// its version.
pub open spec fn url_text(b: PyVers, os: Os) -> Seq<char> {
    "https://github.com/David-OConnor/pybin/releases/download/"@ + b.version().text() + "/"@
        + archive_text(b, os)
}

pub fn install_folder_name(v: &Version) -> (r: String)
    ensures
        r@ == install_folder_text(*v),
{
    let mut s = String::from_str("python-");
    let t = v.to_string();
    s.append(t.as_str());
    s
}

pub fn extracted_folder_name(b: PyVers, os: Os) -> (r: String)
    ensures
        r@ == extracted_folder_text(b, os),
{
    let mut s = install_folder_name(&b.to_vers());
    s.append("-");
    s.append(os.tag());
    s
}

pub fn final_folder_name(b: PyVers) -> (r: String)
    ensures
        r@ == install_folder_text(b.version()),
{
    install_folder_name(&b.to_vers())
}

pub fn artifact_name(b: PyVers, os: Os) -> (r: String)
    ensures
        r@ == archive_text(b, os),
{
    let mut s = extracted_folder_name(b, os);
    s.append(".tar.xz");
    s
}

pub fn download_url(b: PyVers, os: Os) -> (r: String)
    ensures
        r@ == url_text(b, os),
{
    let mut s = String::from_str("https://github.com/David-OConnor/pybin/releases/download/");
    let t = b.to_string();
    s.append(t.as_str());
    s.append("/");
    let a = artifact_name(b, os);
    s.append(a.as_str());
    s
}

} // verus!
