//! Duplicating the current process, and watching over the duplicate.
//!
//! The crate holds the decisions of a `fork` library and none of its system
//! calls. A [`Child`] caches the exit status of a duplicated process and keeps
//! the operating system from being asked about a process that was already
//! reaped. The two backends, [`unix`] and [`win`], say which system call is to
//! be made next and what its reply means; the embedding program makes the
//! calls.
//!
//! To run an operation of a backend, take its first state (`unix::wait` for
//! one), make the call that the state names, and resume the state with what
//! the call left behind, until it answers [`Turn::Done`]. Such a run is what
//! the methods of [`Child`] take as their `backend`.

use vstd::prelude::*;

pub mod unix;
pub mod win;

verus! {

/// An error of the operating system, by its raw code (`errno`, or the code
/// that the Windows API reported).
#[derive(Debug, Clone, Copy, PartialEq, Eq, Structural)]
pub struct OsError {
    pub code: i32,
}

/// What a backend answers when it is resumed with the reply to a system call.
#[derive(Debug, PartialEq, Eq)]
pub enum Turn<S, T> {
    /// The operation is not over: make the call of this state, and resume it
    /// with the reply.
    Next(S),
    /// The operation is over, with this result.
    Done(T),
}

/// A duplicated process, as its originator sees it.
///
/// Dropping a `Child` neither terminates nor reaps the process.
#[derive(Debug)]
pub struct Child<D> {
    pid: u32,
    descriptor: D,
    status: Option<i32>,
}

/// The mathematical content of a [`Child`].
pub struct ChildView<D> {
    /// The identifier that the operating system gave the process.
    pub pid: u32,
    /// The resource bound to this very process: a process descriptor, if one
    /// could be had, or a process handle.
    pub descriptor: D,
    /// The exit status, once it is known.
    pub status: Option<i32>,
}

/// Result of a [`fork`]: [`Fork::Parent`] in the parent process,
/// [`Fork::Child`] in the new one.
#[derive(Debug)]
pub enum Fork<D> {
    Parent(Child<D>),
    Child,
}

impl<D> View for Child<D> {
    type V = ChildView<D>;

    closed spec fn view(&self) -> ChildView<D> {
        ChildView { pid: self.pid, descriptor: self.descriptor, status: self.status }
    }
}

impl<D> ChildView<D> {
    /// The handle after a `wait` whose backend, if it is asked, answers
    /// `backend`, and what that `wait` returns.
    pub open spec fn wait(self, backend: Result<i32, OsError>) -> (Self, Result<i32, OsError>) {
        match self.status {
            Some(status) => (self, Ok(status)),
            None => match backend {
                Ok(status) => (ChildView { status: Some(status), ..self }, Ok(status)),
                Err(err) => (self, Err(err)),
            },
        }
    }

    /// The handle after a `try_wait` whose backend, if it is asked, answers
    /// `backend`, and what that `try_wait` returns.
    pub open spec fn try_wait(self, backend: Result<Option<i32>, OsError>) -> (
        Self,
        Result<Option<i32>, OsError>,
    ) {
        match self.status {
            Some(status) => (self, Ok(Some(status))),
            None => match backend {
                Ok(polled) => (ChildView { status: polled, ..self }, Ok(polled)),
                Err(err) => (self, Err(err)),
            },
        }
    }

    /// What a `kill` returns whose backend, if it is asked, answers `backend`.
    pub open spec fn kill(self, backend: Result<(), OsError>) -> Result<(), OsError> {
        match self.status {
            Some(_) => Ok(()),
            None => backend,
        }
    }
}

impl<D> Child<D> {
    /// A handle to the process `pid` whose fate is not known yet.
    pub(crate) fn new(pid: u32, descriptor: D) -> (child: Self)
        ensures
            child@ == (ChildView { pid, descriptor, status: None }),
    {
        Child { pid, descriptor, status: None }
    }

    /// Returns the OS-assigned process identifier associated with this child.
    pub fn id(&self) -> (pid: u32)
        ensures
            pid == self@.pid,
    {
        self.pid
    }

    /// The resource bound to this process.
    pub fn descriptor(&self) -> (descriptor: &D)
        ensures
            *descriptor == self@.descriptor,
    {
        &self.descriptor
    }

    /// Waits for the child to exit, and returns the status that it exited
    /// with.
    ///
    /// `backend` is the blocking wait of the platform. It is run only while
    /// the status is unknown; once a status was seen, it is returned again
    /// from the handle alone.
    pub fn wait<F: FnOnce(&Child<D>) -> Result<i32, OsError>>(&mut self, backend: F) -> (r: Result<
        i32,
        OsError,
    >)
        requires
            old(self)@.status is None ==> call_requires(backend, (old(self),)),
        ensures
            old(self)@.status is None ==> call_ensures(backend, (old(self),), r),
            (final(self)@, r) == old(self)@.wait(r),
    {
        match self.status {
            Some(status) => Ok(status),
            None => {
                let status = backend(&*self)?;
                self.status = Some(status);
                Ok(status)
            },
        }
    }

    /// Collects the exit status of the child if it has already exited, and
    /// returns `Ok(None)` if it has not.
    ///
    /// `backend` is the non-blocking wait of the platform. It is run only
    /// while the status is unknown.
    pub fn try_wait<F: FnOnce(&Child<D>) -> Result<Option<i32>, OsError>>(
        &mut self,
        backend: F,
    ) -> (r: Result<Option<i32>, OsError>)
        requires
            old(self)@.status is None ==> call_requires(backend, (old(self),)),
        ensures
            old(self)@.status is None ==> call_ensures(backend, (old(self),), r),
            (final(self)@, r) == old(self)@.try_wait(r),
    {
        match self.status {
            Some(status) => Ok(Some(status)),
            None => {
                let polled = backend(&*self)?;
                self.status = polled;
                Ok(polled)
            },
        }
    }

    /// Forces the child to exit. Where the status of the child is known, the
    /// process is gone and its identifier may name another process by now:
    /// nothing is asked of the operating system then.
    ///
    /// `backend` is the forced termination of the platform.
    pub fn kill<F: FnOnce(&Child<D>) -> Result<(), OsError>>(&mut self, backend: F) -> (r: Result<
        (),
        OsError,
    >)
        requires
            old(self)@.status is None ==> call_requires(backend, (old(self),)),
        ensures
            old(self)@.status is None ==> call_ensures(backend, (old(self),), r),
            r == old(self)@.kill(r),
            final(self)@ == old(self)@,
    {
        match self.status {
            Some(_) => Ok(()),
            None => backend(&*self),
        }
    }
}

/// Duplicates the current process by the duplication of the platform,
/// `backend`, and hands on what it reports: which of the two processes this
/// is, or the error for which there is no new process.
///
/// Only the calling thread lives on in the new process. What another thread
/// held at the time, a lock for one, is never released there.
pub fn fork<D, F: FnOnce() -> Result<Fork<D>, OsError>>(backend: F) -> (r: Result<Fork<D>, OsError>)
    requires
        call_requires(backend, ()),
    ensures
        call_ensures(backend, (), r),
{
    backend()
}

/// A duplication yields one of two outcomes and never both.
pub proof fn fork_yields_one_branch<D>(outcome: Fork<D>)
    ensures
        (outcome is Parent) != (outcome is Child),
{
}

/// A `wait` that succeeded is repeated by every later `wait`, whatever the
/// backend would answer by then, and the handle no longer changes.
pub proof fn wait_is_repeatable<D>(
    child: ChildView<D>,
    first: Result<i32, OsError>,
    later: Result<i32, OsError>,
)
    requires
        child.wait(first).1 is Ok,
    ensures
        child.wait(first).0.wait(later) == child.wait(first),
{
}

/// While the backend reports that the process is running, `try_wait` returns
/// `Ok(None)` and leaves the handle as it was, so that it can be polled again.
/// Once the backend has reported a status, that status is what every later
/// `try_wait` and `wait` returns, whatever the backend would answer by then.
pub proof fn try_wait_polls_then_settles<D>(
    child: ChildView<D>,
    status: i32,
    later_poll: Result<Option<i32>, OsError>,
    later_wait: Result<i32, OsError>,
)
    requires
        child.status is None,
    ensures
        child.try_wait(Ok(None)) == (child, Ok::<Option<i32>, OsError>(None)),
        child.try_wait(Ok(Some(status))).1 == Ok::<Option<i32>, OsError>(Some(status)),
        ({
            let settled = child.try_wait(Ok(Some(status))).0;
            &&& settled.try_wait(later_poll) == (settled, Ok::<Option<i32>, OsError>(Some(status)))
            &&& settled.wait(later_wait) == (settled, Ok::<i32, OsError>(status))
        }),
{
}

/// After a `wait` or a `try_wait` that returned a status, `kill` succeeds
/// whatever the backend would answer: it does not ask.
pub proof fn kill_after_exit_succeeds<D>(
    child: ChildView<D>,
    waited: Result<i32, OsError>,
    polled: Result<Option<i32>, OsError>,
    backend: Result<(), OsError>,
)
    ensures
        child.wait(waited).1 is Ok ==> child.wait(waited).0.kill(backend) == Ok::<(), OsError>(()),
        child.try_wait(polled).1 matches Ok(Some(_)) ==> child.try_wait(polled).0.kill(backend)
            == Ok::<(), OsError>(()),
{
}

} // verus!
