//! Finding Python interpreters on the search path: the names worth probing,
//! reading an interpreter's version report, keeping the matches, and the
//! operator's choice among several.
use vstd::prelude::*;
use crate::version::{Version, dec, dec_string};

verus! {

/// The command names probed on the search path, most preferred first.
pub open spec fn candidate_texts() -> Seq<Seq<char>> {
    seq![
        "python3.10"@, "python3.9"@, "python3.8"@, "python3.7"@, "python3.6"@, "python3.5"@,
        "python3.4"@, "python3.3"@, "python3.2"@, "python3.1"@, "python3"@, "python"@,
        "python2"@,
    ]
}

pub fn candidate_aliases() -> (r: Vec<String>)
    ensures
        r@.len() == candidate_texts().len(),
        forall|i: int| 0 <= i < r@.len() ==> #[trigger] r@[i]@ == candidate_texts()[i],
{
    let names = [
        "python3.10", "python3.9", "python3.8", "python3.7", "python3.6", "python3.5",
        "python3.4", "python3.3", "python3.2", "python3.1", "python3", "python", "python2",
    ];
    let mut r: Vec<String> = Vec::new();
    for k in 0..13
        invariant
            names@.len() == 13,
            forall|i: int| 0 <= i < 13 ==> #[trigger] names@[i]@ == candidate_texts()[i],
            r@.len() == k,
            forall|i: int| 0 <= i < k ==> #[trigger] r@[i]@ == candidate_texts()[i],
    {
        r.push(String::from_str(names[k]));
    }
    r
}

/// The probed candidates that report the requested major and minor version,
/// in probe order, each with the version it reported.
pub open spec fn alias_matches(
    requested: Version,
    probes: Seq<(String, Option<Version>)>,
) -> Seq<(String, Version)>
    decreases probes.len(),
{
    if probes.len() == 0 {
        Seq::empty()
    } else {
        let rest = alias_matches(requested, probes.drop_last());
        let last = probes.last();
        if last.1 is Some && last.1->Some_0.same_series(requested) {
            rest.push((last.0, last.1->Some_0))
        } else {
            rest
        }
    }
}

/// Every alias kept reports the requested major and minor version.
pub proof fn lemma_aliases_match_request(
    requested: Version,
    probes: Seq<(String, Option<Version>)>,
)
    ensures
        forall|k: int|
            0 <= k < alias_matches(requested, probes).len() ==> (#[trigger] alias_matches(
                requested,
                probes,
            )[k]).1.same_series(requested),
    decreases probes.len(),
{
    if probes.len() > 0 {
        lemma_aliases_match_request(requested, probes.drop_last());
        let rest = alias_matches(requested, probes.drop_last());
        let all = alias_matches(requested, probes);
        assert forall|k: int| 0 <= k < all.len() implies (#[trigger] all[k]).1.same_series(
            requested,
        ) by {
            if k < rest.len() {
                assert(rest[k].1.same_series(requested));
            }
        }
    }
}

/// Keeps the probed aliases whose reported version has the requested major
/// and minor numbers. Each probe pairs a command name with the version it
/// reported, or `None` where it did not run or its report did not parse.
pub fn find_py_aliases(version: &Version, probes: &Vec<(String, Option<Version>)>) -> (r: Vec<
    (String, Version),
>)
    ensures
        r@ == alias_matches(*version, probes@),
        forall|k: int| 0 <= k < r@.len() ==> (#[trigger] r@[k]).1.same_series(*version),
{
    let mut result: Vec<(String, Version)> = Vec::new();
    let n = probes.len();
    for i in 0..n
        invariant
            n == probes@.len(),
            result@ == alias_matches(*version, probes@.subrange(0, i as int)),
    {
        proof {
            assert(probes@.subrange(0, i + 1).drop_last() =~= probes@.subrange(0, i as int));
        }
        let (alias, reported) = &probes[i];
        match reported {
            Some(v) => {
                if v.matches(version) {
                    result.push((alias.clone(), *v));
                }
            },
            None => {},
        }
    }
    proof {
        assert(probes@.subrange(0, n as int) =~= probes@);
        lemma_aliases_match_request(*version, probes@);
    }
    result
}


pub open spec fn is_digit(c: u8) -> bool {
    48 <= c <= 57
}

/// The index just past the run of decimal digits that starts at `i`.
pub open spec fn digits_end(b: Seq<u8>, i: int) -> int
    decreases b.len() - i,
{
    if 0 <= i < b.len() && is_digit(b[i]) {
        digits_end(b, i + 1)
    } else {
        i
    }
}

/// The value of the decimal digits in `b[i..j]`.
pub open spec fn digits_value(b: Seq<u8>, i: int, j: int) -> nat
    decreases j - i,
{
    if j <= i {
        0
    } else {
        digits_value(b, i, j - 1) * 10 + (b[j - 1] - 48) as nat
    }
}

/// The number written at `i` and the index past it, if a digit stands there
/// and the number fits in a `u32`.
pub open spec fn number_at(b: Seq<u8>, i: int) -> Option<(u32, int)> {
    let e = digits_end(b, i);
    if e > i && digits_value(b, i, e) <= u32::MAX {
        Some((digits_value(b, i, e) as u32, e))
    } else {
        None
    }
}

/// `Python `, which opens an interpreter's version report.
pub open spec fn report_prefix() -> Seq<u8> {
    seq![80u8, 121u8, 116u8, 104u8, 111u8, 110u8, 32u8]
}

/// The version in a report of the form `Python <major>.<minor>.<patch>`,
/// where each number is a run of decimal digits. Whatever follows the patch
/// number (a release tag, a line break) is ignored.
pub open spec fn parse_report(b: Seq<u8>) -> Option<Version> {
    if b.len() < 7 || b.subrange(0, 7) != report_prefix() {
        None
    } else {
        match number_at(b, 7) {
            None => None,
            Some((major, e1)) => if e1 >= b.len() || b[e1] != 46u8 {
                None
            } else {
                match number_at(b, e1 + 1) {
                    None => None,
                    Some((minor, e2)) => if e2 >= b.len() || b[e2] != 46u8 {
                        None
                    } else {
                        match number_at(b, e2 + 1) {
                            None => None,
                            Some((patch, _e3)) => Some(Version { major, minor, patch }),
                        }
                    },
                }
            },
        }
    }
}

proof fn lemma_digits_end_bounds(b: Seq<u8>, i: int)
    requires
        0 <= i <= b.len(),
    ensures
        i <= digits_end(b, i) <= b.len(),
        forall|k: int| i <= k < digits_end(b, i) ==> is_digit(#[trigger] b[k]),
    decreases b.len() - i,
{
    if i < b.len() && is_digit(b[i]) {
        lemma_digits_end_bounds(b, i + 1);
    }
}

proof fn lemma_digits_value_grows(b: Seq<u8>, i: int, j: int, k: int)
    requires
        i <= j <= k,
        forall|m: int| i <= m < k ==> is_digit(#[trigger] b[m]),
    ensures
        digits_value(b, i, j) <= digits_value(b, i, k),
    decreases k - j,
{
    if j < k {
        lemma_digits_value_grows(b, i, j, k - 1);
    }
}

/// Reads the number written at `start`.
fn read_number(b: &[u8], start: usize) -> (r: Option<(u32, usize)>)
    requires
        start <= b@.len(),
    ensures
        match r {
            Some((v, e)) => number_at(b@, start as int) == Some((v, e as int)),
            None => number_at(b@, start as int) is None,
        },
{
    proof {
        lemma_digits_end_bounds(b@, start as int);
    }
    let ghost end = digits_end(b@, start as int);
    let mut i = start;
    let mut acc: u64 = 0;
    while i < b.len() && 48 <= b[i] && b[i] <= 57
        invariant
            start <= i <= end,
            end == digits_end(b@, start as int),
            end <= b@.len(),
            digits_end(b@, i as int) == end,
            acc as nat == digits_value(b@, start as int, i as int),
            acc <= u32::MAX,
            forall|k: int| start <= k < end ==> is_digit(#[trigger] b@[k]),
        decreases b@.len() - i,
    {
        proof {
            assert(digits_end(b@, i as int) == digits_end(b@, i + 1));
            lemma_digits_end_bounds(b@, i + 1);
            assert(digits_value(b@, start as int, i + 1) == digits_value(b@, start as int, i as int)
                * 10 + (b@[i as int] - 48) as nat);
        }
        let next = acc * 10 + (b[i] - 48) as u64;
        if next > u32::MAX as u64 {
            proof {
                lemma_digits_value_grows(b@, start as int, i + 1, end);
                assert(digits_value(b@, start as int, end) > u32::MAX);
            }
            return None;
        }
        acc = next;
        i = i + 1;
    }
    if i == start {
        None
    } else {
        Some((acc as u32, i))
    }
}

/// Reads the version from an interpreter's report of it, as printed by
/// `python --version`.
pub fn parse_version_report(out: &[u8]) -> (r: Option<Version>)
    ensures
        r == parse_report(out@),
{
    let b = out;
    if b.len() < 7 || b[0] != 80 || b[1] != 121 || b[2] != 116 || b[3] != 104 || b[4] != 111
        || b[5] != 110 || b[6] != 32 {
        proof {
            if b@.len() >= 7 {
                assert(b@.subrange(0, 7)[0] == b@[0]);
                assert(b@.subrange(0, 7)[1] == b@[1]);
                assert(b@.subrange(0, 7)[2] == b@[2]);
                assert(b@.subrange(0, 7)[3] == b@[3]);
                assert(b@.subrange(0, 7)[4] == b@[4]);
                assert(b@.subrange(0, 7)[5] == b@[5]);
                assert(b@.subrange(0, 7)[6] == b@[6]);
            }
        }
        return None;
    }
    proof {
        assert(b@.subrange(0, 7) =~= report_prefix());
    }
    let (major, e1) = match read_number(b, 7) {
        Some(x) => x,
        None => return None,
    };
    if e1 >= b.len() || b[e1] != 46 {
        return None;
    }
    let (minor, e2) = match read_number(b, e1 + 1) {
        Some(x) => x,
        None => return None,
    };
    if e2 >= b.len() || b[e2] != 46 {
        return None;
    }
    let (patch, _e3) = match read_number(b, e2 + 1) {
        Some(x) => x,
        None => return None,
    };
    Some(Version::new(major, minor, patch))
}

/// The failure of an operator's choice among several aliases.
#[derive(Debug)]
pub struct AliasError {
    pub details: String,
}

impl AliasError {
    pub fn description(&self) -> (r: &str)
        ensures
            r@ == self.details@,
    {
        self.details.as_str()
    }
}

pub open spec fn no_input_text() -> Seq<char> {
    "Problem reading input"@
}

pub open spec fn not_a_number_text() -> Seq<char> {
    "Enter the number associated with the Python alias."@
}

pub open spec fn no_such_alias_text() -> Seq<char> {
    "Can't find the Python alias associated with that number. Is it in the list above?"@
}

/// The operator's choice among `count` listed aliases: the first character
/// of the answer is read as a digit, and the digit `d` picks the alias listed
/// as `d`, at position `d - 1`.
pub open spec fn selection(answer: Seq<char>, count: nat) -> Result<nat, Seq<char>> {
    if answer.len() == 0 {
        Err(no_input_text())
    } else if !('0' <= answer[0] <= '9') {
        Err(not_a_number_text())
    } else {
        let d = (answer[0] as u32 - '0' as u32) as nat;
        if 1 <= d <= count {
            Ok((d - 1) as nat)
        } else {
            Err(no_such_alias_text())
        }
    }
}

/// Reads the operator's answer to the alias prompt as a position in the
/// list of `count` aliases.
pub fn parse_selection(answer: &str, count: usize) -> (r: Result<usize, AliasError>)
    ensures
        match r {
            Ok(i) => selection(answer@, count as nat) == Ok::<nat, Seq<char>>(i as nat),
            Err(e) => selection(answer@, count as nat) == Err::<nat, Seq<char>>(e.details@),
        },
{
    if answer.is_empty() {
        return Err(AliasError { details: String::from_str("Problem reading input") });
    }
    let c = answer.get_char(0);
    if !('0' <= c && c <= '9') {
        return Err(
            AliasError {
                details: String::from_str("Enter the number associated with the Python alias."),
            },
        );
    }
    let d = (c as u32 - '0' as u32) as usize;
    if 1 <= d && d <= count {
        Ok(d - 1)
    } else {
        Err(
            AliasError {
                details: String::from_str(
                    "Can't find the Python alias associated with that number. Is it in the list above?",
                ),
            },
        )
    }
}

/// The line that lists alias `i` in the prompt: its number, counted from 1,
/// its name and its version.
pub open spec fn prompt_line_text(i: int, alias: (String, Version)) -> Seq<char> {
    dec((i + 1) as nat) + ": "@ + alias.0@ + " version: "@ + alias.1.text()
}

pub open spec fn prompt_header_text() -> Seq<char> {
    "Found multiple compatible Python aliases. Please enter the number associated with the one you'd like to use for this project:"@
}

pub fn prompt_header() -> (r: String)
    ensures
        r@ == prompt_header_text(),
{
    String::from_str(
        "Found multiple compatible Python aliases. Please enter the number associated with the one you'd like to use for this project:",
    )
}

/// The lines of the prompt that lists the aliases, one per alias, in order.
pub fn prompt_lines(aliases: &Vec<(String, Version)>) -> (r: Vec<String>)
    ensures
        r@.len() == aliases@.len(),
        forall|i: int| 0 <= i < r@.len() ==> #[trigger] r@[i]@ == prompt_line_text(i, aliases@[i]),
{
    let mut r: Vec<String> = Vec::new();
    let n = aliases.len();
    for i in 0..n
        invariant
            n == aliases@.len(),
            r@.len() == i,
            forall|k: int| 0 <= k < i ==> #[trigger] r@[k]@ == prompt_line_text(k, aliases@[k]),
    {
        let mut line = dec_string(i as u64 + 1);
        line.append(": ");
        line.append(aliases[i].0.as_str());
        line.append(" version: ");
        let t = aliases[i].1.to_string();
        line.append(t.as_str());
        r.push(line);
    }
    r
}

} // verus!
