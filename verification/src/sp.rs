//! The opaque handle lifecycle manager. It owns a single native resource
//! handle from creation through destruction and decides, for every outcome
//! the native entry points report, what the host must do next: which handle
//! to destroy, at most once and never the sentinel, and with which status to
//! terminate the process.
//!
//! The native boundary itself (initialize, run, destroy) is performed by the
//! host around this crate. The manager records the handle the initializer
//! returned (`begin_session`), consumes the exit status of the run entry
//! point (`finish_session`), and hands out the one handle to destroy
//! (`release`, or the failure directive of `finish_session`). Its abstract
//! state, [`ManagerState`], keeps the full history of handles offered for
//! destruction, so "destroy is invoked exactly once" is a theorem about
//! every trace, not a convention.

use vstd::prelude::*;

verus! {

/// The lifecycle phases of a manager.
///
/// `Uninitialized -> Running -> Completed -> Destroyed` is the normal path;
/// a failed session or a failed initialization moves to `Destroyed` directly.
/// `Destroyed` is terminal: a manager is single-use.
#[derive(Clone, Copy, PartialEq, Eq, Structural, Debug)]
pub enum Phase {
    /// Fresh manager: sentinel handle, nothing touched on the native boundary.
    Uninitialized,
    /// A live handle is stored; the native session is in progress.
    Running,
    /// The session ended normally; the live handle awaits the automatic release.
    Completed,
    /// No live resource remains; nothing is left to destroy.
    Destroyed,
}

/// What the run entry point's exit status demands of the host.
#[derive(Clone, Copy, PartialEq, Eq, Structural, Debug)]
pub enum SessionEnd {
    /// Normal completion: the handle stays stored until the automatic release.
    Completed,
    /// Abnormal termination: destroy `handle` now, then end the process with
    /// exit code `code`. The manager has already cleared its stored handle,
    /// so the automatic release afterwards is a no-op.
    Failed { handle: u64, code: i32 },
}

/// No NUL byte anywhere in a configured argument, so that appending the
/// terminator yields exactly one correctly terminated byte string.
pub open spec fn arg_wf(arg: Seq<u8>) -> bool {
    forall|j: int| 0 <= j < arg.len() ==> arg[j] != 0
}

/// Every configured argument is NUL-free.
pub open spec fn args_wf(args: Seq<Seq<u8>>) -> bool {
    forall|i: int| 0 <= i < args.len() ==> arg_wf(#[trigger] args[i])
}

/// The byte sequences of a list of byte vectors, in order.
pub open spec fn args_view(args: Seq<Vec<u8>>) -> Seq<Seq<u8>> {
    Seq::new(args.len(), |i: int| args[i]@)
}

/// The program identifier handed to the native initializer as its first
/// argument: the bytes of "sp-rs", without a terminator.
pub open spec fn program_name() -> Seq<u8> {
    seq![115u8, 112u8, 45u8, 114u8, 115u8]
}

/// The abstract state of a manager: its phase, its stored handle, its
/// configured arguments, and the handles it has offered for destruction so
/// far, oldest first.
#[verifier::ext_equal]
pub struct ManagerState {
    pub phase: Phase,
    pub handle: u64,
    pub args: Seq<Seq<u8>>,
    pub destroys: Seq<u64>,
}

impl ManagerState {
    /// The state of a fresh manager: uninitialized, sentinel handle, the
    /// program identifier as its single configured argument, nothing
    /// destroyed.
    pub open spec fn init_state() -> ManagerState {
        ManagerState {
            phase: Phase::Uninitialized,
            handle: 0,
            args: seq![program_name()],
            destroys: Seq::empty(),
        }
    }

    /// Well-formedness: the phase pins down the handle and the destroy
    /// history. Before the session ends nothing has been destroyed; once the
    /// manager is terminal the handle is the sentinel; destruction happens at
    /// most once and never for the sentinel; the configured arguments are
    /// NUL-free.
    pub open spec fn wf(self) -> bool {
        &&& (self.phase == Phase::Uninitialized ==> self.handle == 0 && self.destroys.len() == 0)
        &&& (self.phase == Phase::Running ==> self.handle != 0 && self.destroys.len() == 0)
        &&& (self.phase == Phase::Completed ==> self.handle != 0 && self.destroys.len() == 0)
        &&& (self.phase == Phase::Destroyed ==> self.handle == 0)
        &&& self.destroys.len() <= 1
        &&& (forall|i: int| 0 <= i < self.destroys.len() ==> self.destroys[i] != 0)
        &&& args_wf(self.args)
    }

    /// Appending one configured argument.
    pub open spec fn with_arg_tr(self, arg: Seq<u8>) -> ManagerState {
        ManagerState { args: self.args.push(arg), ..self }
    }

    /// Recording the handle the native initializer returned. A sentinel
    /// means initialization failed: the manager short-circuits to its
    /// terminal state with nothing to destroy.
    pub open spec fn begin_tr(self, handle: u64) -> ManagerState {
        if handle == 0 {
            ManagerState { phase: Phase::Destroyed, ..self }
        } else {
            ManagerState { phase: Phase::Running, handle: handle, ..self }
        }
    }

    /// Consuming the exit status of the run entry point. Zero completes the
    /// session and leaves the handle stored; nonzero destroys the handle
    /// immediately and clears it, so that nothing is left to release when the
    /// process is then torn down.
    pub open spec fn finish_tr(self, status: i32) -> ManagerState {
        if status == 0 {
            ManagerState { phase: Phase::Completed, ..self }
        } else {
            ManagerState {
                phase: Phase::Destroyed,
                handle: 0,
                destroys: self.destroys.push(self.handle),
                ..self
            }
        }
    }

    /// Release-and-clear: destroy the stored handle if it is live, record
    /// that, and clear it to the sentinel; a sentinel handle releases
    /// nothing. Terminal either way.
    pub open spec fn release_tr(self) -> ManagerState {
        if self.handle != 0 {
            ManagerState {
                phase: Phase::Destroyed,
                handle: 0,
                destroys: self.destroys.push(self.handle),
                ..self
            }
        } else {
            ManagerState { phase: Phase::Destroyed, ..self }
        }
    }
}

/// Owns one opaque native resource handle across its whole life. The value
/// `0` is the sentinel for "no live resource"; any nonzero handle denotes a
/// live, exclusively owned native resource.
pub struct StrayPhotons {
    handle: u64,
    phase: Phase,
    args: Vec<Vec<u8>>,
    destroys: Ghost<Seq<u64>>,
}

impl View for StrayPhotons {
    type V = ManagerState;

    closed spec fn view(&self) -> ManagerState {
        ManagerState {
            phase: self.phase,
            handle: self.handle,
            args: args_view(self.args@),
            destroys: self.destroys@,
        }
    }
}

/// The program identifier as bytes, NUL-free: the default first argument.
pub fn program_identifier() -> (r: Vec<u8>)
    ensures
        r@ == program_name(),
        arg_wf(r@),
{
    let mut name: Vec<u8> = Vec::new();
    name.push(115); // 's'
    name.push(112); // 'p'
    name.push(45); // '-'
    name.push(114); // 'r'
    name.push(115); // 's'
    proof {
        assert(name@ =~= program_name());
    }
    name
}

impl StrayPhotons {
    /// A fresh manager: uninitialized, sentinel handle, the program
    /// identifier as its single configured argument. Nothing has touched the
    /// native boundary.
    pub fn new() -> (r: Self)
        ensures
            r@ == ManagerState::init_state(),
            r@.wf(),
    {
        let mut args: Vec<Vec<u8>> = Vec::new();
        args.push(program_identifier());
        let r = StrayPhotons {
            handle: 0,
            phase: Phase::Uninitialized,
            args,
            destroys: Ghost(Seq::empty()),
        };
        proof {
            assert(r@.args =~~= ManagerState::init_state().args);
            assert(r@ =~~= ManagerState::init_state());
        }
        r
    }

    /// The stored handle: the sentinel when no native resource is live.
    pub fn handle(&self) -> (r: u64)
        ensures
            r == self@.handle,
    {
        self.handle
    }

    /// The current lifecycle phase.
    pub fn phase(&self) -> (r: Phase)
        ensures
            r == self@.phase,
    {
        self.phase
    }

    /// The number of configured arguments.
    pub fn arg_count(&self) -> (r: usize)
        ensures
            r == self@.args.len(),
    {
        self.args.len()
    }

    /// Appends one configured argument, before initialization, so the list
    /// handed to the initializer keeps exactly the configured order.
    pub fn with_arg(&mut self, arg: Vec<u8>)
        requires
            old(self)@.wf(),
            old(self)@.phase == Phase::Uninitialized,
            arg_wf(arg@),
        ensures
            final(self)@ == old(self)@.with_arg_tr(arg@),
            final(self)@.wf(),
    {
        let ghost pre = self@;
        self.args.push(arg);
        proof {
            assert(self@.args =~~= pre.with_arg_tr(arg@).args);
            assert(self@ =~~= pre.with_arg_tr(arg@));
        }
    }

    /// The argument vector for the native initializer: every configured
    /// argument, in configured order, each with exactly one terminating NUL
    /// byte appended. The caller keeps this vector alive for the whole
    /// initializer call; the native side copies what it needs and retains no
    /// pointer into it.
    pub fn marshaled_args(&self) -> (r: Vec<Vec<u8>>)
        requires
            self@.wf(),
        ensures
            r@.len() == self@.args.len(),
            forall|i: int| 0 <= i < r@.len() ==> (#[trigger] r@[i])@ == self@.args[i].push(0u8),
    {
        let mut out: Vec<Vec<u8>> = Vec::new();
        let mut i: usize = 0;
        while i < self.args.len()
            invariant
                0 <= i <= self.args.len(),
                out@.len() == i,
                forall|k: int| 0 <= k < i ==> (#[trigger] out@[k])@ == self@.args[k].push(0u8),
            decreases self.args.len() - i,
        {
            let mut a: Vec<u8> = Vec::new();
            let src: &Vec<u8> = &self.args[i];
            let mut j: usize = 0;
            while j < src.len()
                invariant
                    0 <= j <= src.len(),
                    a@ == src@.subrange(0, j as int),
                decreases src.len() - j,
            {
                a.push(src[j]);
                proof {
                    assert(a@ =~= src@.subrange(0, j + 1 as int));
                }
                j += 1;
            }
            proof {
                assert(a@ =~= src@);
            }
            a.push(0);
            out.push(a);
            i += 1;
        }
        out
    }

    /// Records the handle returned by the native initializer and reports
    /// whether a live handle was obtained. A sentinel handle means the
    /// initializer failed: the manager treats that as "nothing to destroy"
    /// and short-circuits to its terminal state, so the session must not be
    /// run.
    pub fn begin_session(&mut self, handle: u64) -> (r: bool)
        requires
            old(self)@.wf(),
            old(self)@.phase == Phase::Uninitialized,
        ensures
            final(self)@ == old(self)@.begin_tr(handle),
            final(self)@.wf(),
            r == (handle != 0),
    {
        if handle == 0 {
            self.phase = Phase::Destroyed;
            false
        } else {
            self.handle = handle;
            self.phase = Phase::Running;
            true
        }
    }

    /// Consumes the exit status of the native run entry point.
    ///
    /// A zero status completes the session; the handle stays stored for the
    /// automatic release. A nonzero status demands explicit cleanup before
    /// the process is torn down: the manager records the destruction, clears
    /// its handle to the sentinel (so the automatic release afterwards is a
    /// no-op), and returns the directive carrying the one handle to destroy
    /// and the status the host process must exit with.
    pub fn finish_session(&mut self, status: i32) -> (r: SessionEnd)
        requires
            old(self)@.wf(),
            old(self)@.phase == Phase::Running,
        ensures
            final(self)@ == old(self)@.finish_tr(status),
            final(self)@.wf(),
            r == (if status == 0 {
                SessionEnd::Completed
            } else {
                SessionEnd::Failed { handle: old(self)@.handle, code: status }
            }),
    {
        if status == 0 {
            self.phase = Phase::Completed;
            SessionEnd::Completed
        } else {
            let h = self.handle;
            self.destroys = Ghost(self.destroys@.push(h));
            self.handle = 0;
            self.phase = Phase::Destroyed;
            SessionEnd::Failed { handle: h, code: status }
        }
    }

    /// Release-and-clear: the single cleanup path, callable from any phase
    /// and safe to call twice. A live handle is offered for destruction
    /// exactly once and the stored handle cleared to the sentinel; a sentinel
    /// handle releases nothing. Returns the handle the caller must now pass
    /// to the native destroy entry point, if any.
    pub fn release(&mut self) -> (r: Option<u64>)
        requires
            old(self)@.wf(),
        ensures
            final(self)@ == old(self)@.release_tr(),
            final(self)@.wf(),
            r == (if old(self)@.handle != 0 {
                Some(old(self)@.handle)
            } else {
                None::<u64>
            }),
    {
        if self.handle != 0 {
            let h = self.handle;
            self.destroys = Ghost(self.destroys@.push(h));
            self.handle = 0;
            self.phase = Phase::Destroyed;
            Some(h)
        } else {
            self.phase = Phase::Destroyed;
            None
        }
    }
}

/// A manager that never reaches the session destroys nothing: in any
/// well-formed uninitialized state nothing has been destroyed, and releasing
/// such a manager destroys nothing either.
pub proof fn lemma_never_run_never_destroys(s: ManagerState)
    requires
        s.wf(),
        s.phase == Phase::Uninitialized,
    ensures
        s.destroys.len() == 0,
        s.release_tr().destroys.len() == 0,
{
}

/// A sentinel handle from the initializer means nothing is ever destroyed:
/// neither recording the failed initialization nor the release afterwards
/// adds to the destroy history.
pub proof fn lemma_failed_init_never_destroys(s: ManagerState)
    requires
        s.wf(),
        s.phase == Phase::Uninitialized,
    ensures
        s.begin_tr(0).destroys.len() == 0,
        s.begin_tr(0).release_tr().destroys.len() == 0,
{
}

/// A session that completes normally destroys its handle exactly once, during
/// cleanup: after initialization with a live handle `h`, a zero exit status
/// and the automatic release, the destroy history is exactly `[h]`, and a
/// second release leaves it at exactly `[h]`.
pub proof fn lemma_success_destroys_once(s: ManagerState, h: u64)
    requires
        s.wf(),
        s.phase == Phase::Uninitialized,
        h != 0,
    ensures
        s.begin_tr(h).finish_tr(0).release_tr().destroys =~= seq![h],
        s.begin_tr(h).finish_tr(0).release_tr().release_tr().destroys =~= seq![h],
{
    assert(s.destroys =~= Seq::<u64>::empty());
}

/// A session that fails destroys its handle exactly once, before the process
/// terminates: consuming a nonzero exit status itself records the one
/// destruction and clears the handle, so the automatic release afterwards
/// adds nothing.
pub proof fn lemma_failure_destroys_once_before_exit(s: ManagerState, h: u64, status: i32)
    requires
        s.wf(),
        s.phase == Phase::Uninitialized,
        h != 0,
        status != 0,
    ensures
        s.begin_tr(h).finish_tr(status).destroys =~= seq![h],
        s.begin_tr(h).finish_tr(status).handle == 0,
        s.begin_tr(h).finish_tr(status).release_tr().destroys =~= seq![h],
{
    assert(s.destroys =~= Seq::<u64>::empty());
}

} // verus!
