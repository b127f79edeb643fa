//! The choice of an interpreter, as a state machine driven by the caller.
//!
//! In order of preference the interpreter is a build that was installed
//! earlier, an interpreter on the search path, or a freshly installed build.
//! Each call of [`Provisioner::step`] takes what the caller observed and
//! returns the next thing for the caller to do.
use vstd::prelude::*;
use crate::version::Version;
use crate::catalog::{PyVers, Os, ConfigError, hosted, install_folder_text, install_folder_name};
use crate::probe::{
    AliasError, alias_matches, candidate_texts, candidate_aliases, find_py_aliases,
    parse_selection, prompt_line_text, prompt_lines, selection,
};
use crate::install::InstallPlan;

verus! {

/// How to run an interpreter: by a command name on the search path, or by the
/// path of its executable.
pub enum InterpreterHandle {
    Alias(String),
    Path(String),
}

/// The interpreter chosen, with the version it reported.
pub struct Resolved {
    pub handle: InterpreterHandle,
    pub version: Version,
}

/// Why no interpreter could be chosen.
pub enum ProvisionError {
    /// The requested version has no hosted build.
    Config(ConfigError),
    /// The operator's choice among several aliases was not understood.
    Selection(AliasError),
    /// An event came that the current stage does not wait for.
    OutOfOrder,
}

/// Where the choice stands.
pub enum Stage {
    /// Nothing done yet.
    Start,
    /// Waiting for the versions of the builds in the installs directory.
    Scanning,
    /// Waiting for the versions the candidate aliases report.
    Probing,
    /// Waiting for the operator to choose among these aliases.
    Choosing(Vec<(String, Version)>),
    /// Waiting for this build to be installed.
    Installing(PyVers),
    /// A choice was made, or failed.
    Done,
}

/// What the caller observed.
pub enum Event {
    /// The caller wants an interpreter.
    Begin,
    /// For each folder of the installs directory, in the order read, the
    /// version its interpreter reported; `None` where it reported none.
    Scanned(Vec<Option<Version>>),
    /// For each candidate alias, the version it reported, if any.
    Probed(Vec<(String, Option<Version>)>),
    /// The line the operator answered the prompt with.
    Answered(String),
    /// The build was installed.
    Installed,
}

/// What the caller is to do next.
pub enum Action {
    /// Read the installs directory, creating it if absent, and probe the
    /// interpreter of each folder in it.
    ScanInstalls,
    /// Probe each of these command names for its version.
    ProbeAliases(Vec<String>),
    /// Show these lines, one per alias, and read the operator's answer.
    Prompt(Vec<String>),
    /// Install this build.
    Install(InstallPlan),
    /// Use this interpreter.
    Use(Resolved),
    /// Give up.
    Fail(ProvisionError),
}

/// The first installed build of the requested major and minor version, in
/// scan order.
pub open spec fn first_installed(requested: Version, scanned: Seq<Option<Version>>) -> Option<
    Version,
>
    decreases scanned.len(),
{
    if scanned.len() == 0 {
        None
    } else if scanned[0] is Some && scanned[0]->Some_0.same_series(requested) {
        scanned[0]
    } else {
        first_installed(requested, scanned.drop_first())
    }
}

/// `<dir>/python-<version>/bin/<interpreter>`: the interpreter of an
/// installed build.
pub open spec fn installed_interpreter_text(dir: Seq<char>, v: Version, os: Os) -> Seq<char> {
    dir + "/"@ + install_folder_text(v) + "/bin/"@ + os.interpreter_text()
}

pub fn installed_interpreter(dir: &String, v: &Version, os: Os) -> (r: String)
    ensures
        r@ == installed_interpreter_text(dir@, *v, os),
{
    let mut s = dir.clone();
    s.append("/");
    let f = install_folder_name(v);
    s.append(f.as_str());
    s.append("/bin/");
    s.append(os.interpreter_name());
    s
}

/// The first installed build that matches the request.
pub fn find_installed(requested: &Version, scanned: &Vec<Option<Version>>) -> (r: Option<Version>)
    ensures
        r == first_installed(*requested, scanned@),
{
    let n = scanned.len();
    proof {
        assert(scanned@.skip(0) =~= scanned@);
    }
    for i in 0..n
        invariant
            n == scanned@.len(),
            first_installed(*requested, scanned@) == first_installed(
                *requested,
                scanned@.skip(i as int),
            ),
    {
        proof {
            assert(scanned@.skip(i as int).drop_first() =~= scanned@.skip(i + 1));
        }
        if let Some(v) = scanned[i] {
            if v.matches(requested) {
                return Some(v);
            }
        }
    }
    proof {
        assert(scanned@.skip(n as int) =~= Seq::<Option<Version>>::empty());
    }
    None
}

/// The choice of an interpreter for one requested version. `installs_dir`
/// is the folder that builds are installed into.
pub struct Provisioner {
    pub requested: Version,
    pub os: Os,
    pub installs_dir: String,
    pub stage: Stage,
}

/// Whether `a` uses the interpreter at `path` of version `v`.
pub open spec fn uses_path(a: Action, path: Seq<char>, v: Version) -> bool {
    &&& a is Use
    &&& a->Use_0.handle is Path
    &&& a->Use_0.handle->Path_0@ == path
    &&& a->Use_0.version == v
}

/// Whether `a` uses the alias `alias`.
pub open spec fn uses_alias(a: Action, alias: (String, Version)) -> bool {
    &&& a is Use
    &&& a->Use_0.handle is Alias
    &&& a->Use_0.handle->Alias_0@ == alias.0@
    &&& a->Use_0.version == alias.1
}

/// Whether `lines` list `aliases` in order, numbered from 1.
pub open spec fn lists(lines: Seq<String>, aliases: Seq<(String, Version)>) -> bool {
    &&& lines.len() == aliases.len()
    &&& forall|i: int| 0 <= i < lines.len() ==> #[trigger] lines[i]@ == prompt_line_text(i, aliases[i])
}

/// One step of the choice: from `pre`, on `event`, to `post`, doing `a`.
pub open spec fn step_relation(pre: Provisioner, event: Event, post: Provisioner, a: Action) -> bool {
    let req = pre.requested;
    &&& post.requested == pre.requested
    &&& post.os == pre.os
    &&& post.installs_dir == pre.installs_dir
    &&& match (pre.stage, event) {
        (Stage::Start, Event::Begin) => post.stage is Scanning && a is ScanInstalls,
        (Stage::Scanning, Event::Scanned(s)) => match first_installed(req, s@) {
            Some(v) => post.stage is Done && uses_path(
                a,
                installed_interpreter_text(pre.installs_dir@, v, pre.os),
                v,
            ),
            None => {
                &&& post.stage is Probing
                &&& a is ProbeAliases
                &&& a->ProbeAliases_0@.len() == candidate_texts().len()
                &&& forall|i: int|
                    0 <= i < candidate_texts().len() ==> #[trigger] a->ProbeAliases_0@[i]@
                        == candidate_texts()[i]
            },
        },
        (Stage::Probing, Event::Probed(p)) => {
            let m = alias_matches(req, p@);
            if m.len() == 0 {
                match hosted(req) {
                    Ok(b) => {
                        &&& post.stage == Stage::Installing(b)
                        &&& a is Install
                        &&& a->Install_0.build == b
                        &&& a->Install_0.wf(pre.os)
                    },
                    Err(e) => post.stage is Done && a is Fail && a->Fail_0 == ProvisionError::Config(
                        e,
                    ),
                }
            } else if m.len() == 1 {
                post.stage is Done && uses_alias(a, m[0])
            } else {
                &&& post.stage is Choosing
                &&& post.stage->Choosing_0@ == m
                &&& a is Prompt
                &&& lists(a->Prompt_0@, m)
            }
        },
        (Stage::Choosing(m), Event::Answered(answer)) => {
            &&& post.stage is Done
            &&& match selection(answer@, m@.len()) {
                Ok(i) => uses_alias(a, m@[i as int]),
                Err(t) => a is Fail && a->Fail_0 is Selection && a->Fail_0->Selection_0.details@
                    == t,
            }
        },
        (Stage::Installing(b), Event::Installed) => post.stage is Done && uses_path(
            a,
            installed_interpreter_text(pre.installs_dir@, b.version(), pre.os),
            b.version(),
        ),
        _ => post.stage is Done && a is Fail && a->Fail_0 is OutOfOrder,
    }
}

impl Provisioner {
    pub fn new(requested: Version, os: Os, installs_dir: String) -> (r: Provisioner)
        ensures
            r.requested == requested,
            r.os == os,
            r.installs_dir == installs_dir,
            r.stage is Start,
    {
        Provisioner { requested, os, installs_dir, stage: Stage::Start }
    }

    /// Takes what the caller observed, and returns what to do next.
    pub fn step(&mut self, event: Event) -> (a: Action)
        ensures
            step_relation(*old(self), event, *final(self), a),
    {
        let mut stage = Stage::Done;
        core::mem::swap(&mut self.stage, &mut stage);
        match (stage, event) {
            (Stage::Start, Event::Begin) => {
                self.stage = Stage::Scanning;
                Action::ScanInstalls
            },
            (Stage::Scanning, Event::Scanned(s)) => match find_installed(&self.requested, &s) {
                Some(v) => {
                    let path = installed_interpreter(&self.installs_dir, &v, self.os);
                    Action::Use(Resolved { handle: InterpreterHandle::Path(path), version: v })
                },
                None => {
                    self.stage = Stage::Probing;
                    Action::ProbeAliases(candidate_aliases())
                },
            },
            (Stage::Probing, Event::Probed(p)) => {
                let m = find_py_aliases(&self.requested, &p);
                if m.len() == 0 {
                    match PyVers::from_version(self.requested) {
                        Ok(b) => {
                            self.stage = Stage::Installing(b);
                            Action::Install(InstallPlan::new(b, self.os))
                        },
                        Err(e) => Action::Fail(ProvisionError::Config(e)),
                    }
                } else if m.len() == 1 {
                    let (alias, v) = &m[0];
                    Action::Use(
                        Resolved { handle: InterpreterHandle::Alias(alias.clone()), version: *v },
                    )
                } else {
                    let lines = prompt_lines(&m);
                    self.stage = Stage::Choosing(m);
                    Action::Prompt(lines)
                }
            },
            (Stage::Choosing(m), Event::Answered(answer)) => match parse_selection(
                answer.as_str(),
                m.len(),
            ) {
                Ok(i) => {
                    let (alias, v) = &m[i];
                    Action::Use(
                        Resolved { handle: InterpreterHandle::Alias(alias.clone()), version: *v },
                    )
                },
                Err(e) => Action::Fail(ProvisionError::Selection(e)),
            },
            (Stage::Installing(b), Event::Installed) => {
                let v = b.to_vers();
                let path = installed_interpreter(&self.installs_dir, &v, self.os);
                Action::Use(Resolved { handle: InterpreterHandle::Path(path), version: v })
            },
            _ => Action::Fail(ProvisionError::OutOfOrder),
        }
    }
}

/// Once the choice is made, it stays made: every further step fails and
/// leaves the choice done, so nothing more is probed, prompted or installed.
pub proof fn lemma_done_is_final(pre: Provisioner)
    requires
        pre.stage is Done,
    ensures
        forall|e: Event, post: Provisioner, a: Action| #[trigger]
            step_relation(pre, e, post, a) ==> post.stage is Done && a is Fail,
{
}

/// When an installed build matches the request, it is used, and neither an
/// alias is probed nor a build installed, then or later.
pub proof fn lemma_installed_build_short_circuits(
    pre: Provisioner,
    event: Event,
    post: Provisioner,
    a: Action,
)
    requires
        step_relation(pre, event, post, a),
        pre.stage is Scanning,
        event is Scanned,
        first_installed(pre.requested, event->Scanned_0@) is Some,
    ensures
        a is Use,
        a->Use_0.handle is Path,
        a->Use_0.version == first_installed(pre.requested, event->Scanned_0@)->Some_0,
        post.stage is Done,
        forall|e: Event, p: Provisioner, b: Action| #[trigger]
            step_relation(post, e, p, b) ==> p.stage is Done && b is Fail,
{
    lemma_done_is_final(post);
}

/// A request without a hosted build, where no alias matched, fails with a
/// configuration error and nothing is installed, then or later.
pub proof fn lemma_unhosted_request_installs_nothing(
    pre: Provisioner,
    event: Event,
    post: Provisioner,
    a: Action,
)
    requires
        step_relation(pre, event, post, a),
        pre.stage is Probing,
        event is Probed,
        alias_matches(pre.requested, event->Probed_0@).len() == 0,
        hosted(pre.requested) is Err,
    ensures
        a is Fail,
        a->Fail_0 == ProvisionError::Config(hosted(pre.requested)->Err_0),
        post.stage is Done,
        forall|e: Event, p: Provisioner, b: Action| #[trigger]
            step_relation(post, e, p, b) ==> !(b is Install),
{
    lemma_done_is_final(post);
}

/// A single matching alias is used without a prompt; several are listed in
/// one prompt, in the order they were found.
pub proof fn lemma_prompt_only_when_ambiguous(
    pre: Provisioner,
    event: Event,
    post: Provisioner,
    a: Action,
)
    requires
        step_relation(pre, event, post, a),
        pre.stage is Probing,
        event is Probed,
    ensures
        alias_matches(pre.requested, event->Probed_0@).len() == 1 ==> {
            &&& !(a is Prompt)
            &&& uses_alias(a, alias_matches(pre.requested, event->Probed_0@)[0])
            &&& post.stage is Done
        },
        alias_matches(pre.requested, event->Probed_0@).len() >= 2 ==> {
            &&& a is Prompt
            &&& lists(a->Prompt_0@, alias_matches(pre.requested, event->Probed_0@))
            &&& post.stage is Choosing
            &&& post.stage->Choosing_0@ == alias_matches(pre.requested, event->Probed_0@)
        },
{
}

/// The answer to the prompt picks the alias listed under the number given,
/// and no second prompt follows.
pub proof fn lemma_choice_is_listed_alias(
    pre: Provisioner,
    event: Event,
    post: Provisioner,
    a: Action,
)
    requires
        step_relation(pre, event, post, a),
        pre.stage is Choosing,
        event is Answered,
        selection(event->Answered_0@, pre.stage->Choosing_0@.len()) is Ok,
    ensures
        ({
            let m = pre.stage->Choosing_0@;
            let i = selection(event->Answered_0@, m.len())->Ok_0 as int;
            &&& 0 <= i < m.len()
            &&& uses_alias(a, m[i])
            &&& prompt_line_text(i, m[i]) == crate::version::dec((i + 1) as nat) + ": "@ + m[i].0@
                + " version: "@ + m[i].1.text()
        }),
        post.stage is Done,
        forall|e: Event, p: Provisioner, b: Action| #[trigger]
            step_relation(post, e, p, b) ==> !(b is Prompt),
{
    lemma_done_is_final(post);
}

} // verus!
