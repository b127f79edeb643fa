use pyprovision::catalog::{Os, PyVers};
use pyprovision::environment::{bootstrap_args, EnvAction, EnvBuilder, EnvEvent, EnvPlan};
use pyprovision::install::{wait_outcome, EnvError, InstallPlan, InstallStep, WaitOutcome, VENV_WAIT_LIMIT_MS};
use pyprovision::provision::{InterpreterHandle, Resolved};
use pyprovision::version::Version;

#[test]
fn second_install_does_not_fetch() {
    let plan = InstallPlan::new(PyVers::V3_7_4, Os::Ubuntu);
    let first = plan.steps(false);
    assert_eq!(first.len(), 3);
    match &first[0] {
        InstallStep::Fetch { url, archive } => {
            assert_eq!(
                url,
                "https://github.com/David-OConnor/pybin/releases/download/3.7.4/python-3.7.4-ubuntu.tar.xz"
            );
            assert_eq!(archive, "python-3.7.4-ubuntu.tar.xz");
        }
        _ => panic!("first step should fetch"),
    }
    let second = plan.steps(true);
    assert_eq!(second.len(), 2);
    assert!(second.iter().all(|s| !matches!(s, InstallStep::Fetch { .. })));
    match &second[0] {
        InstallStep::Extract { archive } => assert_eq!(archive, "python-3.7.4-ubuntu.tar.xz"),
        _ => panic!("extract comes first"),
    }
    match &second[1] {
        InstallStep::Rename { from, to } => {
            assert_eq!(from, "python-3.7.4-ubuntu");
            assert_eq!(to, "python-3.7.4");
        }
        _ => panic!("rename comes last"),
    }
}

#[test]
fn environment_layout() {
    let r = Resolved {
        handle: InterpreterHandle::Alias("python3".to_string()),
        version: Version::new(3, 7, 4),
    };
    let p = EnvPlan::new(&r, Os::Ubuntu);
    assert_eq!(p.version, Version::new(3, 7, 4));
    assert_eq!(p.lib_dir, "3.7/lib");
    assert_eq!(p.venv_dir, "3.7/lib/.venv");
    assert_eq!(p.python_exe, "3.7/lib/.venv/bin/python");
    assert_eq!(p.pip_exe, "3.7/lib/.venv/bin/pip");
    let w = EnvPlan::new(&r, Os::Windows);
    assert_eq!(w.python_exe, "3.7/lib/.venv/Scripts/python.exe");
    assert_eq!(w.pip_exe, "3.7/lib/.venv/Scripts/pip.exe");
    assert_eq!(bootstrap_args(), vec!["-m", "pip", "install", "--quiet", "wheel"]);
}

#[test]
fn waiting_for_the_environment() {
    assert_eq!(wait_outcome(0, true, true), WaitOutcome::Ready);
    assert_eq!(wait_outcome(VENV_WAIT_LIMIT_MS + 5, true, true), WaitOutcome::Ready);
    assert_eq!(wait_outcome(0, true, false), WaitOutcome::KeepWaiting);
    assert_eq!(wait_outcome(VENV_WAIT_LIMIT_MS, false, true), WaitOutcome::GiveUp);
    assert_eq!(EnvError::Timeout.message(), "Timed out waiting for venv to be created.");
    assert_eq!(EnvError::CreateVenv.message(), "Problem creating virtual environment");
}

fn builder_for(version: Version) -> EnvBuilder {
    let r = Resolved { handle: InterpreterHandle::Path("/i/python-3.7.4/bin/python3".to_string()), version };
    EnvBuilder::new(EnvPlan::new(&r, Os::Ubuntu))
}

#[test]
fn environment_steps_in_order() {
    let mut b = builder_for(Version::new(3, 7, 4));
    assert!(matches!(b.step(EnvEvent::Begin), EnvAction::CreateLibDir));
    assert!(matches!(b.step(EnvEvent::Completed(true)), EnvAction::CreateVenv));
    assert!(matches!(b.step(EnvEvent::Completed(true)), EnvAction::Poll));
    let waiting = EnvEvent::Polled { elapsed_ms: 300, python_present: true, pip_present: false };
    assert!(matches!(b.step(waiting), EnvAction::Poll));
    let ready = EnvEvent::Polled { elapsed_ms: 400, python_present: true, pip_present: true };
    match b.step(ready) {
        EnvAction::Bootstrap(args) => assert_eq!(args, vec!["-m", "pip", "install", "--quiet", "wheel"]),
        _ => panic!("expected the bootstrap"),
    }
    match b.step(EnvEvent::Completed(true)) {
        EnvAction::Finish(v) => assert_eq!(v, Version::new(3, 7, 4)),
        _ => panic!("expected the end"),
    }
    match b.step(EnvEvent::Begin) {
        EnvAction::Fail(e) => assert_eq!(e, EnvError::OutOfOrder),
        _ => panic!("expected a failure"),
    }
}

#[test]
fn environment_failures() {
    let mut b = builder_for(Version::new(3, 6, 9));
    b.step(EnvEvent::Begin);
    match b.step(EnvEvent::Completed(false)) {
        EnvAction::Fail(e) => assert_eq!(e, EnvError::CreateDir),
        _ => panic!("expected a failure"),
    }
    let mut b = builder_for(Version::new(3, 6, 9));
    b.step(EnvEvent::Begin);
    b.step(EnvEvent::Completed(true));
    match b.step(EnvEvent::Completed(false)) {
        EnvAction::Fail(e) => assert_eq!(e, EnvError::CreateVenv),
        _ => panic!("expected a failure"),
    }
    let mut b = builder_for(Version::new(3, 6, 9));
    b.step(EnvEvent::Begin);
    b.step(EnvEvent::Completed(true));
    b.step(EnvEvent::Completed(true));
    let late = EnvEvent::Polled { elapsed_ms: VENV_WAIT_LIMIT_MS, python_present: false, pip_present: false };
    match b.step(late) {
        EnvAction::Fail(e) => assert_eq!(e, EnvError::Timeout),
        _ => panic!("expected a timeout"),
    }
    let mut b = builder_for(Version::new(3, 6, 9));
    b.step(EnvEvent::Begin);
    b.step(EnvEvent::Completed(true));
    b.step(EnvEvent::Completed(true));
    b.step(EnvEvent::Polled { elapsed_ms: 0, python_present: true, pip_present: true });
    match b.step(EnvEvent::Completed(false)) {
        EnvAction::Fail(e) => assert_eq!(e, EnvError::Bootstrap),
        _ => panic!("expected a failure"),
    }
}
