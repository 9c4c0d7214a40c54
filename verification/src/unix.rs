//! The backend for systems that have `fork`.
//!
//! Every operation is a small state: [`Forking`], [`Waiting`], [`Polling`] or
//! [`Killing`]. A state names the system call to make next ([`Call`]) and is
//! resumed with what the call left behind ([`Reply`]). The embedding program
//! makes the calls; which call follows which, and what a reply means, is
//! decided here.

use crate::{Child, ChildView, Fork, OsError, Turn};
use vstd::prelude::*;

verus! {

/// The resource that a [`Child`] of this backend holds: a process descriptor
/// (pidfd), where one could be opened.
pub type Descriptor = Option<i32>;

/// A system call for the embedding program to make.
#[derive(Debug, Clone, Copy, PartialEq, Eq)]
pub enum Call {
    /// `fork()`.
    Fork,
    /// `pidfd_open(pid, 0)`. Where the system has no such call, the reply is a
    /// failure.
    PidfdOpen { pid: u32 },
    /// `waitid(P_PIDFD, pidfd, &mut info, options)`, on an `info` of zeroes.
    WaitPidfd { pidfd: i32, options: i32 },
    /// `waitpid(pid, &mut status, options)`.
    WaitPid { pid: u32, options: i32 },
    /// `pidfd_send_signal(pidfd, signal, NULL, 0)`.
    PidfdSendSignal { pidfd: i32, signal: i32 },
    /// `kill(pid, signal)`.
    Kill { pid: u32, signal: i32 },
}

/// What a system call left behind.
#[derive(Debug, Clone, Copy, PartialEq, Eq)]
pub struct Reply {
    /// The value that the call returned.
    pub ret: i64,
    /// `errno` as it stood right after the call. It means something only
    /// where `ret` reports a failure.
    pub errno: i32,
    /// The status word that `waitpid` stored.
    pub status: i32,
    /// `si_code` of the `siginfo_t` that `waitid` filled.
    pub si_code: i32,
    /// `si_status` of the `siginfo_t` that `waitid` filled.
    pub si_status: i32,
}

/// The `errno` of a call that a signal interrupted.
pub open spec fn eintr() -> i32 {
    4
}

/// The `errno` of a call that names a process which does not exist.
pub open spec fn esrch() -> i32 {
    3
}

/// The signal that cannot be caught.
pub open spec fn sigkill() -> i32 {
    9
}

/// The option of a wait that returns at once.
pub open spec fn wnohang() -> i32 {
    1
}

/// The option by which `waitid` waits for processes that have exited.
pub open spec fn wexited() -> i32 {
    4
}

/// `libc::EINTR`. Claimed: its value, as `libc` has it for Linux.
#[verifier::external_body]
fn libc_eintr() -> (code: i32)
    ensures
        code == eintr(),
{
    libc::EINTR
}

/// `libc::ESRCH`. Claimed: its value, as `libc` has it for Linux.
#[verifier::external_body]
fn libc_esrch() -> (code: i32)
    ensures
        code == esrch(),
{
    libc::ESRCH
}

/// `libc::SIGKILL`. Claimed: its value, as `libc` has it for Linux.
#[verifier::external_body]
fn libc_sigkill() -> (signal: i32)
    ensures
        signal == sigkill(),
{
    libc::SIGKILL
}

/// `libc::WNOHANG`. Claimed: its value, as `libc` has it for Linux.
#[verifier::external_body]
fn libc_wnohang() -> (option: i32)
    ensures
        option == wnohang(),
{
    libc::WNOHANG
}

/// `libc::WEXITED`. Claimed: its value, as `libc` has it for Linux.
#[verifier::external_body]
fn libc_wexited() -> (option: i32)
    ensures
        option == wexited(),
{
    libc::WEXITED
}

/// `libc::WIFEXITED`. Claimed: it tells whether the low seven bits of the
/// status word are all zero.
#[verifier::external_body]
fn libc_wifexited(status: i32) -> (exited: bool)
    ensures
        exited == (status & 0x7f == 0),
{
    libc::WIFEXITED(status)
}

/// `libc::WEXITSTATUS`. Claimed: it returns the second byte of the status
/// word.
#[verifier::external_body]
fn libc_wexitstatus(status: i32) -> (code: i32)
    ensures
        code == (status >> 8) & 0xff,
{
    libc::WEXITSTATUS(status)
}

/// `libc::WIFSIGNALED`. Claimed: it adds one to the low seven bits of the
/// status word, reads the sum as a signed byte, and tells whether that is two
/// or more.
#[verifier::external_body]
fn libc_wifsignaled(status: i32) -> (signaled: bool)
    ensures
        signaled == ((((status & 0x7f) + 1) as i8) >= 2),
{
    libc::WIFSIGNALED(status)
}

/// `libc::WTERMSIG`. Claimed: it returns the low seven bits of the status
/// word.
#[verifier::external_body]
fn libc_wtermsig(status: i32) -> (signal: i32)
    ensures
        signal == status & 0x7f,
{
    libc::WTERMSIG(status)
}

/// The status of a process by the status word that `waitpid` stored for it:
/// the exit code of a process that exited, the number of the signal that
/// terminated it otherwise, and -1 for a word that tells of neither.
///
/// An exit code and a signal number come out as the same kind of value.
pub open spec fn exit_status(status: i32) -> i32 {
    let signal = status & 0x7f;
    if signal == 0 {
        (status >> 8) & 0xff
    } else if signal != 0x7f {
        signal
    } else {
        -1i32
    }
}

/// By the convention that -1 reports a failure whose code is in `errno`: the
/// error of the reply, or the value that the call returned.
pub open spec fn cvt_result(reply: Reply) -> Result<i64, OsError> {
    if reply.ret == -1 {
        Err(OsError { code: reply.errno })
    } else {
        Ok(reply.ret)
    }
}

/// Whether a signal interrupted the call before it did its work.
pub open spec fn interrupted(reply: Reply) -> bool {
    reply.ret == -1 && reply.errno == eintr()
}

/// What `pidfd_open` reports: the error, or the descriptor.
pub open spec fn open_pidfd_result(reply: Reply) -> Result<i32, OsError> {
    if reply.ret < 0 {
        Err(OsError { code: reply.errno })
    } else {
        Ok(reply.ret as i32)
    }
}

/// The wait call for a process: by its descriptor where it has one, by its
/// identifier otherwise.
pub open spec fn wait_call(pid: u32, descriptor: Descriptor, flags: i32) -> Call {
    match descriptor {
        Some(pidfd) => Call::WaitPidfd { pidfd, options: wexited() | flags },
        None => Call::WaitPid { pid, options: flags },
    }
}

/// What a wait call that was not interrupted reports: the error; nothing, if
/// the process has not exited yet; or its status.
pub open spec fn wait_impl_result(descriptor: Descriptor, reply: Reply) -> Result<
    Option<i32>,
    OsError,
> {
    if reply.ret == -1 {
        Err(OsError { code: reply.errno })
    } else if descriptor is Some {
        if reply.si_code == 0 {
            Ok(None)
        } else {
            Ok(Some(reply.si_status))
        }
    } else if reply.ret == 0 {
        Ok(None)
    } else {
        Ok(Some(exit_status(reply.status)))
    }
}

/// What a blocking wait that was not interrupted reports. A reply without a
/// status counts as the status -1.
pub open spec fn wait_result(descriptor: Descriptor, reply: Reply) -> Result<i32, OsError> {
    match wait_impl_result(descriptor, reply) {
        Ok(Some(status)) => Ok(status),
        Ok(None) => Ok(-1i32),
        Err(err) => Err(err),
    }
}

/// The call that sends the kill signal to a process: through its descriptor
/// where it has one, to its identifier otherwise.
pub open spec fn kill_call(pid: u32, descriptor: Descriptor) -> Call {
    match descriptor {
        Some(pidfd) => Call::PidfdSendSignal { pidfd, signal: sigkill() },
        None => Call::Kill { pid, signal: sigkill() },
    }
}

/// What sending the signal reports.
pub open spec fn kill_impl_result(reply: Reply) -> Result<(), OsError> {
    if reply.ret == -1 {
        Err(OsError { code: reply.errno })
    } else {
        Ok(())
    }
}

/// What a kill reports. That there is no such process is no failure: the
/// process has exited already.
pub open spec fn kill_result(reply: Reply) -> Result<(), OsError> {
    if reply.ret == -1 && reply.errno != esrch() {
        Err(OsError { code: reply.errno })
    } else {
        Ok(())
    }
}

/// Turns the value that a system call returned into a `Result`, by the
/// convention that -1 reports a failure whose code is in `errno`.
pub fn cvt(reply: &Reply) -> (r: Result<i64, OsError>)
    ensures
        r == cvt_result(*reply),
{
    if reply.ret == -1 {
        Err(OsError { code: reply.errno })
    } else {
        Ok(reply.ret)
    }
}

/// Whether the error is that of a call that a signal interrupted.
pub fn is_interrupted(err: &OsError) -> (r: bool)
    ensures
        r == (err.code == eintr()),
{
    err.code == libc_eintr()
}

/// As [`cvt`], for a call that a signal may interrupt: where that happened,
/// `task` comes back, for the call to be made again.
pub fn cvt_r<S>(task: S, reply: &Reply) -> (turn: Turn<S, Result<i64, OsError>>)
    ensures
        turn == if interrupted(*reply) {
            Turn::<S, Result<i64, OsError>>::Next(task)
        } else {
            Turn::Done(cvt_result(*reply))
        },
{
    match cvt(reply) {
        Err(err) => {
            if is_interrupted(&err) {
                Turn::Next(task)
            } else {
                Turn::Done(Err(err))
            }
        },
        Ok(ret) => Turn::Done(Ok(ret)),
    }
}

/// Reads the reply of `pidfd_open`: any negative value reports a failure.
pub fn open_pidfd(reply: &Reply) -> (r: Result<i32, OsError>)
    ensures
        r == open_pidfd_result(*reply),
{
    if reply.ret < 0 {
        Err(OsError { code: reply.errno })
    } else {
        Ok(#[verifier::truncate] (reply.ret as i32))
    }
}

/// A duplication under way.
#[derive(Debug, Clone, Copy, PartialEq, Eq)]
pub enum Forking {
    /// `fork` is to be called.
    Fork,
    /// This is the parent process, and `pid` is the new one: a descriptor
    /// for it is to be opened.
    OpenPidfd { pid: u32 },
}

/// Begins a duplication of the current process.
pub fn fork() -> (task: Forking)
    ensures
        task == Forking::Fork,
{
    Forking::Fork
}

impl Forking {
    /// The call to make in this state.
    pub open spec fn spec_call(&self) -> Call {
        match *self {
            Forking::Fork => Call::Fork,
            Forking::OpenPidfd { pid } => Call::PidfdOpen { pid },
        }
    }

    /// The call to make in this state.
    #[verifier::when_used_as_spec(spec_call)]
    pub fn call(&self) -> (call: Call)
        ensures
            call == self.spec_call(),
    {
        match self {
            Forking::Fork => Call::Fork,
            Forking::OpenPidfd { pid } => Call::PidfdOpen { pid: *pid },
        }
    }

    /// Goes on with the reply to [`Forking::call`].
    ///
    /// `fork` returns -1 where no process was made, 0 in the new process, and
    /// the identifier of the new process in the parent. In the parent a
    /// descriptor is asked for next. A failure to open one is not an error:
    /// the handle then works by the identifier alone.
    pub fn resume(self, reply: &Reply) -> (turn: Turn<Forking, Result<Fork<Descriptor>, OsError>>)
        ensures
            match self {
                Forking::Fork => match cvt_result(*reply) {
                    Err(err) => turn == Turn::<Forking, Result<Fork<Descriptor>, OsError>>::Done(
                        Err(err),
                    ),
                    Ok(ret) => if ret == 0 {
                        turn matches Turn::Done(Ok(Fork::Child))
                    } else {
                        turn == Turn::<Forking, Result<Fork<Descriptor>, OsError>>::Next(
                            Forking::OpenPidfd { pid: ret as u32 },
                        )
                    },
                },
                Forking::OpenPidfd { pid } => {
                    &&& turn matches Turn::Done(Ok(Fork::Parent(child)))
                    &&& child@ == (ChildView {
                        pid,
                        descriptor: match open_pidfd_result(*reply) {
                            Ok(pidfd) => Some(pidfd),
                            Err(_) => None,
                        },
                        status: None,
                    })
                },
            },
    {
        match self {
            Forking::Fork => match cvt(reply) {
                Err(err) => Turn::Done(Err(err)),
                Ok(ret) => {
                    if ret == 0 {
                        Turn::Done(Ok(Fork::Child))
                    } else {
                        Turn::Next(Forking::OpenPidfd { pid: #[verifier::truncate] (ret as u32) })
                    }
                },
            },
            Forking::OpenPidfd { pid } => {
                let descriptor = match open_pidfd(reply) {
                    Ok(pidfd) => Some(pidfd),
                    Err(_) => None,
                };
                Turn::Done(Ok(Fork::Parent(Child::new(pid, descriptor))))
            },
        }
    }
}

/// Makes the wait call for a process, with `flags` among its options.
fn wait_call_for(pid: u32, descriptor: &Descriptor, flags: i32) -> (call: Call)
    ensures
        call == wait_call(pid, *descriptor, flags),
{
    match descriptor {
        Some(pidfd) => Call::WaitPidfd { pidfd: *pidfd, options: libc_wexited() | flags },
        None => Call::WaitPid { pid, options: flags },
    }
}

/// Reads the reply to a wait call that went through the descriptor, if there
/// is one, and by the identifier otherwise.
///
/// Where a signal interrupted the call, `task` comes back, for the call to be
/// made again. A wait through the descriptor stored a `si_code` other than
/// zero if the process has exited. A wait by the identifier returned zero if
/// it has not, and has stored a status word if it has.
pub fn wait_impl<S>(task: S, descriptor: &Descriptor, reply: &Reply) -> (turn: Turn<
    S,
    Result<Option<i32>, OsError>,
>)
    ensures
        turn == if interrupted(*reply) {
            Turn::<S, Result<Option<i32>, OsError>>::Next(task)
        } else {
            Turn::Done(wait_impl_result(*descriptor, *reply))
        },
{
    let ret = match cvt_r(task, reply) {
        Turn::Next(task) => {
            return Turn::Next(task);
        },
        Turn::Done(Err(err)) => {
            return Turn::Done(Err(err));
        },
        Turn::Done(Ok(ret)) => ret,
    };
    if descriptor.is_some() {
        if reply.si_code == 0 {
            return Turn::Done(Ok(None));
        }
        return Turn::Done(Ok(Some(reply.si_status)));
    }
    if ret == 0 {
        return Turn::Done(Ok(None));
    }
    let status = reply.status;
    proof {
        assert(((((status & 0x7f) + 1) as i8) >= 2) == (status & 0x7f != 0 && status & 0x7f
            != 0x7f)) by (bit_vector);
    }
    if libc_wifexited(status) {
        Turn::Done(Ok(Some(libc_wexitstatus(status))))
    } else if libc_wifsignaled(status) {
        Turn::Done(Ok(Some(libc_wtermsig(status))))
    } else {
        Turn::Done(Ok(Some(-1)))
    }
}

/// A blocking wait under way.
#[derive(Debug, Clone, Copy, PartialEq, Eq)]
pub struct Waiting {
    pub pid: u32,
    pub descriptor: Descriptor,
}

/// Begins a blocking wait for `child`.
pub fn wait(child: &Child<Descriptor>) -> (task: Waiting)
    ensures
        task == (Waiting { pid: child@.pid, descriptor: child@.descriptor }),
{
    Waiting { pid: child.id(), descriptor: *child.descriptor() }
}

impl Waiting {
    /// The call to make in this state.
    pub open spec fn spec_call(&self) -> Call {
        wait_call(self.pid, self.descriptor, 0)
    }

    /// What the wait does with the reply to the call of this state.
    pub open spec fn spec_resume(self, reply: Reply) -> Turn<Waiting, Result<i32, OsError>> {
        if interrupted(reply) {
            Turn::Next(self)
        } else {
            Turn::Done(wait_result(self.descriptor, reply))
        }
    }

    /// The call to make in this state.
    #[verifier::when_used_as_spec(spec_call)]
    pub fn call(&self) -> (call: Call)
        ensures
            call == self.spec_call(),
    {
        wait_call_for(self.pid, &self.descriptor, 0)
    }

    /// Goes on with the reply to [`Waiting::call`]: the call is made again
    /// where a signal interrupted it, and the wait is over otherwise.
    pub fn resume(self, reply: &Reply) -> (turn: Turn<Waiting, Result<i32, OsError>>)
        ensures
            turn == self.spec_resume(*reply),
    {
        let descriptor = self.descriptor;
        match wait_impl(self, &descriptor, reply) {
            Turn::Next(task) => Turn::Next(task),
            Turn::Done(Ok(Some(status))) => Turn::Done(Ok(status)),
            Turn::Done(Ok(None)) => Turn::Done(Ok(-1)),
            Turn::Done(Err(err)) => Turn::Done(Err(err)),
        }
    }
}

/// A wait that does not block, under way.
#[derive(Debug, Clone, Copy, PartialEq, Eq)]
pub struct Polling {
    pub pid: u32,
    pub descriptor: Descriptor,
}

/// Begins a wait for `child` that does not block.
pub fn try_wait(child: &Child<Descriptor>) -> (task: Polling)
    ensures
        task == (Polling { pid: child@.pid, descriptor: child@.descriptor }),
{
    Polling { pid: child.id(), descriptor: *child.descriptor() }
}

impl Polling {
    /// The call to make in this state.
    pub open spec fn spec_call(&self) -> Call {
        wait_call(self.pid, self.descriptor, wnohang())
    }

    /// What the wait does with the reply to the call of this state.
    pub open spec fn spec_resume(self, reply: Reply) -> Turn<Polling, Result<Option<i32>, OsError>> {
        if interrupted(reply) {
            Turn::Next(self)
        } else {
            Turn::Done(wait_impl_result(self.descriptor, reply))
        }
    }

    /// The call to make in this state.
    #[verifier::when_used_as_spec(spec_call)]
    pub fn call(&self) -> (call: Call)
        ensures
            call == self.spec_call(),
    {
        wait_call_for(self.pid, &self.descriptor, libc_wnohang())
    }

    /// Goes on with the reply to [`Polling::call`]: the call is made again
    /// where a signal interrupted it, and the wait is over otherwise, with
    /// `Ok(None)` where the process has not exited yet.
    pub fn resume(self, reply: &Reply) -> (turn: Turn<Polling, Result<Option<i32>, OsError>>)
        ensures
            turn == self.spec_resume(*reply),
    {
        let descriptor = self.descriptor;
        wait_impl(self, &descriptor, reply)
    }
}

/// Reads the reply to the call that sent the signal.
pub fn kill_impl(reply: &Reply) -> (r: Result<(), OsError>)
    ensures
        r == kill_impl_result(*reply),
{
    match cvt(reply) {
        Ok(_) => Ok(()),
        Err(err) => Err(err),
    }
}

/// A forced termination under way.
#[derive(Debug, Clone, Copy, PartialEq, Eq)]
pub struct Killing {
    pub pid: u32,
    pub descriptor: Descriptor,
}

/// Begins the forced termination of `child`.
pub fn kill(child: &Child<Descriptor>) -> (task: Killing)
    ensures
        task == (Killing { pid: child@.pid, descriptor: child@.descriptor }),
{
    Killing { pid: child.id(), descriptor: *child.descriptor() }
}

impl Killing {
    /// The call to make in this state.
    pub open spec fn spec_call(&self) -> Call {
        kill_call(self.pid, self.descriptor)
    }

    /// The call to make in this state.
    #[verifier::when_used_as_spec(spec_call)]
    pub fn call(&self) -> (call: Call)
        ensures
            call == self.spec_call(),
    {
        match self.descriptor {
            Some(pidfd) => Call::PidfdSendSignal { pidfd, signal: libc_sigkill() },
            None => Call::Kill { pid: self.pid, signal: libc_sigkill() },
        }
    }

    /// Ends the termination with the reply to [`Killing::call`]. The call is
    /// never made again.
    pub fn resume(self, reply: &Reply) -> (turn: Turn<Killing, Result<(), OsError>>)
        ensures
            turn == Turn::<Killing, Result<(), OsError>>::Done(kill_result(*reply)),
    {
        match kill_impl(reply) {
            Ok(()) => Turn::Done(Ok(())),
            Err(err) => {
                if err.code == libc_esrch() {
                    Turn::Done(Ok(()))
                } else {
                    Turn::Done(Err(err))
                }
            },
        }
    }
}

/// The status of a process that exited is its exit code.
pub proof fn exit_status_of_exit(code: u8)
    ensures
        exit_status((code as i32) << 8) == code,
{
    assert(((code as i32) << 8) & 0x7f == 0 && ((((code as i32) << 8) >> 8) & 0xff) == code as i32)
        by (bit_vector);
}

/// The status of a process that a signal terminated is the number of the
/// signal, whether or not it left a core dump.
pub proof fn exit_status_of_signal(signal: i32, core_dumped: bool)
    requires
        1 <= signal <= 126,
    ensures
        exit_status(signal | if core_dumped { 0x80i32 } else { 0i32 }) == signal,
{
    assert((signal | 0x80i32) & 0x7f == signal && (signal | 0i32) & 0x7f == signal) by (bit_vector)
        requires
            1 <= signal <= 126,
    ;
}

impl Waiting {
    /// Where the wait stands after the replies to its calls, one after
    /// another.
    pub open spec fn after(self, replies: Seq<Reply>) -> Turn<Waiting, Result<i32, OsError>>
        decreases replies.len(),
    {
        if replies.len() == 0 {
            Turn::Next(self)
        } else {
            match self.after(replies.drop_last()) {
                Turn::Next(task) => task.spec_resume(replies.last()),
                ended => ended,
            }
        }
    }
}

impl Polling {
    /// Where the wait stands after the replies to its calls, one after
    /// another.
    pub open spec fn after(self, replies: Seq<Reply>) -> Turn<Polling, Result<Option<i32>, OsError>>
        decreases replies.len(),
    {
        if replies.len() == 0 {
            Turn::Next(self)
        } else {
            match self.after(replies.drop_last()) {
                Turn::Next(task) => task.spec_resume(replies.last()),
                ended => ended,
            }
        }
    }
}

/// However often a signal interrupts a blocking wait, the same call is made
/// again, and the wait ends with the first reply that is no interruption: no
/// interruption is ever reported.
pub proof fn wait_outlasts_interruptions(task: Waiting, replies: Seq<Reply>)
    requires
        forall|i: int| 0 <= i < replies.len() - 1 ==> interrupted(#[trigger] replies[i]),
    ensures
        replies.len() == 0 || interrupted(replies.last()) ==> task.after(replies) == Turn::<
            Waiting,
            Result<i32, OsError>,
        >::Next(task),
        replies.len() > 0 && !interrupted(replies.last()) ==> task.after(replies) == Turn::<
            Waiting,
            Result<i32, OsError>,
        >::Done(wait_result(task.descriptor, replies.last())),
    decreases replies.len(),
{
    if replies.len() > 0 {
        let earlier = replies.drop_last();
        assert forall|i: int| 0 <= i < earlier.len() - 1 implies interrupted(
            #[trigger] earlier[i],
        ) by {
            assert(earlier[i] == replies[i]);
        }
        wait_outlasts_interruptions(task, earlier);
        if earlier.len() > 0 {
            assert(earlier.last() == replies[replies.len() - 2]);
        }
    }
}

/// However often a signal interrupts a wait that does not block, the same
/// call is made again, and the wait ends with the first reply that is no
/// interruption.
pub proof fn try_wait_outlasts_interruptions(task: Polling, replies: Seq<Reply>)
    requires
        forall|i: int| 0 <= i < replies.len() - 1 ==> interrupted(#[trigger] replies[i]),
    ensures
        replies.len() == 0 || interrupted(replies.last()) ==> task.after(replies) == Turn::<
            Polling,
            Result<Option<i32>, OsError>,
        >::Next(task),
        replies.len() > 0 && !interrupted(replies.last()) ==> task.after(replies) == Turn::<
            Polling,
            Result<Option<i32>, OsError>,
        >::Done(wait_impl_result(task.descriptor, replies.last())),
    decreases replies.len(),
{
    if replies.len() > 0 {
        let earlier = replies.drop_last();
        assert forall|i: int| 0 <= i < earlier.len() - 1 implies interrupted(
            #[trigger] earlier[i],
        ) by {
            assert(earlier[i] == replies[i]);
        }
        try_wait_outlasts_interruptions(task, earlier);
        if earlier.len() > 0 {
            assert(earlier.last() == replies[replies.len() - 2]);
        }
    }
}

} // verus!
