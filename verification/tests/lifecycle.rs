use strayphotons::{AppRegistry, Phase, SessionEnd, StrayPhotons};

#[test]
fn test_sp() {
    // A full normal lifecycle, with the native boundary's answers standing
    // in as plain values: initialize returns a live handle, run ends with
    // status zero, cleanup destroys the handle once.
    let mut sp = StrayPhotons::new();
    let args = sp.marshaled_args();
    assert_eq!(args.len(), 1);
    assert!(sp.begin_session(1));
    let end = sp.finish_session(0);
    assert_eq!(end, SessionEnd::Completed);
    assert_eq!(sp.release(), Some(1));
}

#[test]
fn never_run_never_destroys() {
    // A manager that never reaches the session offers nothing to destroy,
    // however often it is released.
    let mut sp = StrayPhotons::new();
    assert_eq!(sp.handle(), 0);
    assert_eq!(sp.phase(), Phase::Uninitialized);
    assert_eq!(sp.release(), None);
    assert_eq!(sp.release(), None);
    assert_eq!(sp.phase(), Phase::Destroyed);
}

#[test]
fn success_destroys_once_handle_42() {
    // Initializer returns handle 42; run returns 0: destroy is offered once,
    // with handle 42, during cleanup, and never again.
    let mut sp = StrayPhotons::new();
    assert!(sp.begin_session(42));
    assert_eq!(sp.phase(), Phase::Running);
    assert_eq!(sp.handle(), 42);
    assert_eq!(sp.finish_session(0), SessionEnd::Completed);
    assert_eq!(sp.phase(), Phase::Completed);
    assert_eq!(sp.release(), Some(42));
    assert_eq!(sp.phase(), Phase::Destroyed);
    assert_eq!(sp.handle(), 0);
    assert_eq!(sp.release(), None);
}

#[test]
fn failure_destroys_once_handle_7() {
    // Initializer returns handle 7; run returns 3: the failure directive
    // carries handle 7 to destroy and exit code 3, the stored handle is
    // already cleared, and the automatic release afterwards is a no-op.
    let mut sp = StrayPhotons::new();
    assert!(sp.begin_session(7));
    let end = sp.finish_session(3);
    assert_eq!(end, SessionEnd::Failed { handle: 7, code: 3 });
    assert_eq!(sp.handle(), 0);
    assert_eq!(sp.phase(), Phase::Destroyed);
    assert_eq!(sp.release(), None);
}

#[test]
fn failed_init_never_destroys() {
    // Initializer returns the sentinel: the manager short-circuits to its
    // terminal state and nothing is ever offered for destruction.
    let mut sp = StrayPhotons::new();
    assert!(!sp.begin_session(0));
    assert_eq!(sp.phase(), Phase::Destroyed);
    assert_eq!(sp.handle(), 0);
    assert_eq!(sp.release(), None);
}

#[test]
fn registry_write_once() {
    // The first write sticks; a later write is ignored and reports so.
    let mut reg: AppRegistry<u64> = AppRegistry::new();
    assert_eq!(reg.get_app(), &None);
    assert!(reg.set_app(41));
    assert_eq!(reg.get_app(), &Some(41));
    assert!(!reg.set_app(97));
    assert_eq!(reg.get_app(), &Some(41));
}

#[test]
fn marshal_default_argument() {
    // A fresh manager passes exactly one argument: the program identifier,
    // NUL-terminated.
    let sp = StrayPhotons::new();
    assert_eq!(sp.arg_count(), 1);
    let args = sp.marshaled_args();
    assert_eq!(args, vec![b"sp-rs\0".to_vec()]);
}

#[test]
fn marshal_keeps_count_order_and_termination() {
    // N configured arguments come out as exactly N entries, in configured
    // order, each with exactly one terminating NUL byte.
    let mut sp = StrayPhotons::new();
    sp.with_arg(b"--map".to_vec());
    sp.with_arg(b"sponza".to_vec());
    assert_eq!(sp.arg_count(), 3);
    let args = sp.marshaled_args();
    assert_eq!(
        args,
        vec![b"sp-rs\0".to_vec(), b"--map\0".to_vec(), b"sponza\0".to_vec()]
    );
}
