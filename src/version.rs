//! Interpreter versions and their decimal text.
use vstd::prelude::*;

verus! {

/// The text of one decimal digit.
pub open spec fn digit_text(d: nat) -> Seq<char> {
    if d == 0 {
        "0"@
    } else if d == 1 {
        "1"@
    } else if d == 2 {
        "2"@
    } else if d == 3 {
        "3"@
    } else if d == 4 {
        "4"@
    } else if d == 5 {
        "5"@
    } else if d == 6 {
        "6"@
    } else if d == 7 {
        "7"@
    } else if d == 8 {
        "8"@
    } else {
        "9"@
    }
}

/// The decimal text of a natural number, without leading zeros.
pub open spec fn dec(n: nat) -> Seq<char>
    decreases n,
{
    if n < 10 {
        digit_text(n)
    } else {
        dec(n / 10) + digit_text(n % 10)
    }
}

fn digit_str(d: u64) -> (r: &'static str)
    requires
        d < 10,
    ensures
        r@ == digit_text(d as nat),
{
    if d == 0 {
        "0"
    } else if d == 1 {
        "1"
    } else if d == 2 {
        "2"
    } else if d == 3 {
        "3"
    } else if d == 4 {
        "4"
    } else if d == 5 {
        "5"
    } else if d == 6 {
        "6"
    } else if d == 7 {
        "7"
    } else if d == 8 {
        "8"
    } else {
        "9"
    }
}

/// Writes `n` in decimal.
pub fn dec_string(n: u64) -> (r: String)
    ensures
        r@ == dec(n as nat),
    decreases n,
{
    if n < 10 {
        String::from_str(digit_str(n))
    } else {
        let mut s = dec_string(n / 10);
        s.append(digit_str(n % 10));
        s
    }
}

/// A Python version, ordered by major, then minor, then patch number. Two
/// versions are of the same series when their major and minor numbers agree;
/// the patch number is informational.
#[derive(Clone, Copy, Debug, PartialEq, Eq, Structural, PartialOrd, Ord)]
pub struct Version {
    pub major: u32,
    pub minor: u32,
    pub patch: u32,
}

impl Version {
    pub fn new(major: u32, minor: u32, patch: u32) -> (r: Version)
        ensures
            r == (Version { major, minor, patch }),
    {
        Version { major, minor, patch }
    }

    /// Whether `self` and `other` agree on major and minor.
    pub open spec fn same_series(self, other: Version) -> bool {
        self.major == other.major && self.minor == other.minor
    }

    pub fn matches(&self, other: &Version) -> (r: bool)
        ensures
            r == self.same_series(*other),
    {
        self.major == other.major && self.minor == other.minor
    }

    /// The dotted text `major.minor.patch`.
    pub open spec fn text(self) -> Seq<char> {
        dec(self.major as nat) + "."@ + dec(self.minor as nat) + "."@ + dec(self.patch as nat)
    }

    /// The dotted text `major.minor`, which names a project environment.
    pub open spec fn series_text(self) -> Seq<char> {
        dec(self.major as nat) + "."@ + dec(self.minor as nat)
    }

    pub fn to_string(&self) -> (r: String)
        ensures
            r@ == self.text(),
    {
        let mut s = self.series_string();
        s.append(".");
        let p = dec_string(self.patch as u64);
        s.append(p.as_str());
        s
    }

    pub fn series_string(&self) -> (r: String)
        ensures
            r@ == self.series_text(),
    {
        let mut s = dec_string(self.major as u64);
        s.append(".");
        let m = dec_string(self.minor as u64);
        s.append(m.as_str());
        s
    }
}

} // verus!
