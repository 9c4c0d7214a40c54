//! The backend for systems without `fork`, where a process is duplicated by
//! the native call that creates a user process as a clone of its caller.
//!
//! The clone gets those handles of the parent that are marked inheritable.
//! So a duplication takes a snapshot of the handle table, marks every handle
//! inheritable, creates the process, and gives every handle its own mark back,
//! whether or not the creation succeeded. Only then does it look at what the
//! creation reported.
//!
//! Every operation is a small state: [`Forking`], [`Waiting`], [`Polling`] or
//! [`Killing`]. A state names the system call to make next ([`Call`]) and is
//! resumed with what the call left behind ([`Reply`]). The embedding program
//! makes the calls.

use crate::{Child, ChildView, Fork, OsError, Turn};
use vstd::prelude::*;

verus! {

/// The resource that a [`Child`] of this backend holds: the handle of the
/// process.
pub type Descriptor = isize;

/// The native status of a call that did all its work.
pub const STATUS_SUCCESS: i32 = 0;

/// The native status by which the creation tells the clone that it is the
/// clone (0x00000129).
pub const STATUS_PROCESS_CLONED: i32 = 0x129;

/// A native status of a query whose buffer was too short (0xC0000004).
pub const STATUS_INFO_LENGTH_MISMATCH: i32 = -0x3FFF_FFFC;

/// A native status of a query whose buffer was too short (0xC0000023).
pub const STATUS_BUFFER_TOO_SMALL: i32 = -0x3FFF_FFDD;

/// A native status of a query whose buffer was too short (0x80000005).
pub const STATUS_BUFFER_OVERFLOW: i32 = -0x7FFF_FFFB;

/// What a wait returns once the object is signaled.
pub const WAIT_OBJECT_0: u32 = 0;

/// What a wait returns when the time ran out first.
pub const WAIT_TIMEOUT: u32 = 258;

/// The timeout of a wait that never gives up.
pub const INFINITE: u32 = 0xFFFF_FFFF;

/// The code of an error of the Windows API that reports a denied access
/// (0x80070005).
pub const ACCESS_DENIED: i32 = -0x7FF8_FFFB;

/// The attribute of a handle that cannot be closed.
pub const OBJ_PROTECT_CLOSE: u32 = 1;

/// The attribute of a handle that a new process inherits.
pub const OBJ_INHERIT: u32 = 2;

/// Every access right to a process.
pub const PROCESS_ALL_ACCESS: u32 = 0x1F_FFFF;

/// Every access right to a thread.
pub const THREAD_ALL_ACCESS: u32 = 0x1F_FFFF;

/// The creation flag by which the new process inherits handles.
pub const PROCESS_CREATE_FLAGS_INHERIT_HANDLES: u32 = 4;

/// Stands for the parent of the calling process where a console is attached.
pub const ATTACH_PARENT_PROCESS: u32 = 0xFFFF_FFFF;

/// The length in bytes of the first buffer that a snapshot of the handle
/// table is asked into.
pub const SNAPSHOT_BUFFER: u32 = 0x800;

/// The exit code that a forced termination gives the process.
pub const KILLED: u32 = 1;

/// A handle of the current process, as the snapshot of the handle table
/// lists it.
#[derive(Debug, Clone, Copy, PartialEq, Eq)]
pub struct HandleEntry {
    /// The handle.
    pub value: isize,
    /// Its attributes, [`OBJ_INHERIT`] and [`OBJ_PROTECT_CLOSE`] among them.
    pub attributes: u32,
}

/// A system call for the embedding program to make.
#[derive(Debug, Clone, Copy, PartialEq, Eq)]
pub enum Call {
    /// `NtQueryInformationProcess`, for the handle information of the current
    /// process, into a buffer of `size` bytes.
    QueryHandles { size: u32 },
    /// `NtSetInformationObject`, which sets the two handle flags of `handle`.
    SetHandleFlags { handle: isize, inherit: u8, protect_from_close: u8 },
    /// `NtCreateUserProcess`, with no attributes, parameters or thread flags.
    CreateUserProcess { process_access: u32, thread_access: u32, flags: u32 },
    /// `FreeConsole`.
    FreeConsole,
    /// `AttachConsole`.
    AttachConsole { process: u32 },
    /// `CloseHandle`.
    CloseHandle { handle: isize },
    /// `GetProcessId`.
    GetProcessId { handle: isize },
    /// `WaitForSingleObject`, with a timeout in milliseconds.
    WaitForSingleObject { handle: isize, timeout: u32 },
    /// `GetExitCodeProcess`.
    GetExitCodeProcess { handle: isize },
    /// `TerminateProcess`.
    TerminateProcess { handle: isize, exit_code: u32 },
}

/// What a system call left behind. A call fills the fields that it has
/// something to say in; nothing is read from the others.
#[derive(Debug, PartialEq, Eq)]
pub struct Reply {
    /// The status that a native call returned.
    pub status: i32,
    /// The length that the query of the handle table stored: how long a
    /// buffer it needs.
    pub size: u32,
    /// The handles that the query of the handle table listed.
    pub handles: Vec<HandleEntry>,
    /// The handle of the process that the creation made.
    pub process: isize,
    /// The handle of the first thread of that process.
    pub thread: isize,
    /// What `GetProcessId` returned.
    pub pid: u32,
    /// What `WaitForSingleObject` returned.
    pub event: u32,
    /// Whether a call of the Windows API that can fail succeeded.
    pub ok: bool,
    /// The code of the error, where a call of the Windows API failed.
    pub error: i32,
    /// The exit code that `GetExitCodeProcess` stored.
    pub code: u32,
}

/// Why a duplication made no process.
#[derive(Debug, Clone, Copy, PartialEq, Eq)]
pub enum ForkError {
    /// The handle table could not be read. Nothing was changed.
    Snapshot(OsError),
    /// The creation failed. Every handle has its own mark again.
    Create(OsError),
}

/// What a native status stands for: success, if it is not negative, and else
/// the error whose code is the status with the bit 0x10000000 set.
pub open spec fn ntstatus_result(status: i32) -> Result<(), OsError> {
    if status >= 0 {
        Ok(())
    } else {
        Err(OsError { code: status | 0x1000_0000 })
    }
}

/// Whether the native status says that the buffer of a query was too short.
pub open spec fn buffer_too_short(status: i32) -> bool {
    status == STATUS_INFO_LENGTH_MISMATCH || status == STATUS_BUFFER_TOO_SMALL || status
        == STATUS_BUFFER_OVERFLOW
}

/// The call that sets the flags of a handle: it is inheritable if it was, or
/// if `force_inherit` says so, and it stays protected from being closed if it
/// was.
pub open spec fn inheritable_call(handle: HandleEntry, force_inherit: bool) -> Call {
    Call::SetHandleFlags {
        handle: handle.value,
        inherit: if force_inherit || handle.attributes & OBJ_INHERIT != 0 {
            2u8
        } else {
            0u8
        },
        protect_from_close: if handle.attributes & OBJ_PROTECT_CLOSE != 0 {
            1u8
        } else {
            0u8
        },
    }
}

/// What `GetExitCodeProcess` reports: the error, or the exit code, read as a
/// signed number.
pub open spec fn exit_code_result(reply: Reply) -> Result<i32, OsError> {
    if reply.ok {
        Ok(reply.code as i32)
    } else {
        Err(OsError { code: reply.error })
    }
}

/// Turns a native status into a `Result`.
pub fn ntstatus_ok(status: i32) -> (r: Result<(), OsError>)
    ensures
        r == ntstatus_result(status),
{
    if status >= 0 {
        Ok(())
    } else {
        Err(OsError { code: status | 0x1000_0000 })
    }
}

/// What the query of the handle table, asked into a buffer of `size` bytes,
/// leads to: the query is made again, into a buffer of the length that it
/// stored if it found its buffer too short, and of the same length after any
/// other status that is neither success nor an error; or the snapshot is
/// taken; or it has failed.
pub open spec fn snapshot_result(size: u32, reply: Reply) -> Turn<
    u32,
    Result<Seq<HandleEntry>, OsError>,
> {
    if buffer_too_short(reply.status) {
        Turn::Next(reply.size)
    } else if reply.status == STATUS_SUCCESS {
        Turn::Done(Ok(reply.handles@))
    } else {
        match ntstatus_result(reply.status) {
            Err(err) => Turn::Done(Err(err)),
            Ok(_) => Turn::Next(size),
        }
    }
}

/// Reads the reply to the query of the handle table that was asked into a
/// buffer of `size` bytes. `Turn::Next` holds the length of the buffer to ask
/// into next.
pub fn snapshot_all_handles(size: u32, reply: Reply) -> (turn: Turn<
    u32,
    Result<Vec<HandleEntry>, OsError>,
>)
    ensures
        match snapshot_result(size, reply) {
            Turn::Next(longer) => turn matches Turn::Next(next) && next == longer,
            Turn::Done(Ok(listed)) => turn matches Turn::Done(Ok(handles)) && handles@ == listed,
            Turn::Done(Err(err)) => turn matches Turn::Done(Err(failure)) && failure == err,
        },
{
    let status = reply.status;
    if status == STATUS_INFO_LENGTH_MISMATCH || status == STATUS_BUFFER_TOO_SMALL || status
        == STATUS_BUFFER_OVERFLOW {
        Turn::Next(reply.size)
    } else if status == STATUS_SUCCESS {
        Turn::Done(Ok(reply.handles))
    } else {
        match ntstatus_ok(status) {
            Err(err) => Turn::Done(Err(err)),
            Ok(()) => Turn::Next(size),
        }
    }
}

/// Makes the call that sets the flags of `handle`, inheritable if
/// `force_inherit` says so and as the snapshot found it otherwise.
pub fn make_inheritable(handle: &HandleEntry, force_inherit: bool) -> (call: Call)
    ensures
        call == inheritable_call(*handle, force_inherit),
{
    let forced: u32 = if force_inherit {
        OBJ_INHERIT
    } else {
        0
    };
    let attrs: u32 = handle.attributes | forced;
    let inherit: u32 = attrs & OBJ_INHERIT;
    let protect: u32 = attrs & OBJ_PROTECT_CLOSE;
    proof {
        let given = handle.attributes;
        assert((given | 2u32) & 2u32 == 2u32) by (bit_vector);
        assert((given | 2u32) & 1u32 == given & 1u32) by (bit_vector);
        assert(given | 0u32 == given) by (bit_vector);
        assert(given & 2u32 == 0u32 || given & 2u32 == 2u32) by (bit_vector);
        assert(given & 1u32 == 0u32 || given & 1u32 == 1u32) by (bit_vector);
    }
    Call::SetHandleFlags {
        handle: handle.value,
        inherit: inherit as u8,
        protect_from_close: protect as u8,
    }
}

/// How far a duplication has come.
#[derive(Debug, Clone, Copy, PartialEq, Eq)]
pub enum Stage {
    /// The handle table is asked for, into a buffer of `size` bytes.
    Snapshot { size: u32 },
    /// The handle at `next` is marked inheritable.
    Mark { next: usize },
    /// The process is created.
    Create,
    /// The handle at `next` gets its own mark back.
    Restore { next: usize },
    /// In the clone: the inherited console is let go.
    FreeConsole,
    /// In the clone: the console of the parent is attached.
    AttachConsole,
    /// In the parent: the handle of the first thread of the clone is
    /// closed.
    CloseThread,
    /// In the parent: the identifier of the clone is asked for.
    GetProcessId,
}

/// A duplication under way.
#[derive(Debug)]
pub struct Forking {
    stage: Stage,
    handles: Vec<HandleEntry>,
    status: i32,
    process: isize,
    thread: isize,
}

/// The mathematical content of a [`Forking`].
pub struct ForkingView {
    /// How far the duplication has come.
    pub stage: Stage,
    /// The handles of the snapshot, once it was taken.
    pub handles: Seq<HandleEntry>,
    /// What the creation returned, once it was made.
    pub status: i32,
    /// The handle of the clone, once it was made.
    pub process: isize,
    /// The handle of the first thread of the clone, once it was made.
    pub thread: isize,
}

/// What a duplication does with a reply.
pub enum Step {
    /// It goes on in this state.
    Next(ForkingView),
    /// It ends, and there is no new process.
    Failed(ForkError),
    /// It ends in the new process.
    Child,
    /// It ends in the parent process, with the identifier and the handle of
    /// the new one.
    Parent { pid: u32, process: isize },
}

impl ForkingView {
    /// A state that marks or restores a handle has that handle.
    pub open spec fn wf(self) -> bool {
        match self.stage {
            Stage::Mark { next } => next < self.handles.len(),
            Stage::Restore { next } => next < self.handles.len(),
            _ => true,
        }
    }

    /// The call to make in this state.
    pub open spec fn call(self) -> Call
        recommends
            self.wf(),
    {
        match self.stage {
            Stage::Snapshot { size } => Call::QueryHandles { size },
            Stage::Mark { next } => inheritable_call(self.handles[next as int], true),
            Stage::Create => Call::CreateUserProcess {
                process_access: PROCESS_ALL_ACCESS,
                thread_access: THREAD_ALL_ACCESS,
                flags: PROCESS_CREATE_FLAGS_INHERIT_HANDLES,
            },
            Stage::Restore { next } => inheritable_call(self.handles[next as int], false),
            Stage::FreeConsole => Call::FreeConsole,
            Stage::AttachConsole => Call::AttachConsole { process: ATTACH_PARENT_PROCESS },
            Stage::CloseThread => Call::CloseHandle { handle: self.thread },
            Stage::GetProcessId => Call::GetProcessId { handle: self.process },
        }
    }

    /// This state, at another stage.
    pub open spec fn at(self, stage: Stage) -> Self {
        ForkingView { stage, ..self }
    }

    /// What follows once the process was created and every handle has its own
    /// mark again: the status of the creation tells the clone from the
    /// parent, and a failure from both.
    pub open spec fn conclude(self) -> Step {
        if self.status == STATUS_PROCESS_CLONED {
            Step::Next(self.at(Stage::FreeConsole))
        } else {
            match ntstatus_result(self.status) {
                Err(err) => Step::Failed(ForkError::Create(err)),
                Ok(_) => Step::Next(self.at(Stage::CloseThread)),
            }
        }
    }

    /// What the duplication does with the reply to the call of this state.
    pub open spec fn resume(self, reply: Reply) -> Step {
        match self.stage {
            Stage::Snapshot { size } => match snapshot_result(size, reply) {
                Turn::Next(size) => Step::Next(self.at(Stage::Snapshot { size })),
                Turn::Done(Err(err)) => Step::Failed(ForkError::Snapshot(err)),
                Turn::Done(Ok(handles)) => {
                    let taken = ForkingView { handles, ..self };
                    if handles.len() == 0 {
                        Step::Next(taken.at(Stage::Create))
                    } else {
                        Step::Next(taken.at(Stage::Mark { next: 0 }))
                    }
                },
            },
            Stage::Mark { next } => {
                if next + 1 < self.handles.len() {
                    Step::Next(self.at(Stage::Mark { next: (next + 1) as usize }))
                } else {
                    Step::Next(self.at(Stage::Create))
                }
            },
            Stage::Create => {
                let made = ForkingView {
                    status: reply.status,
                    process: reply.process,
                    thread: reply.thread,
                    ..self
                };
                if self.handles.len() == 0 {
                    made.conclude()
                } else {
                    Step::Next(made.at(Stage::Restore { next: 0 }))
                }
            },
            Stage::Restore { next } => {
                if next + 1 < self.handles.len() {
                    Step::Next(self.at(Stage::Restore { next: (next + 1) as usize }))
                } else {
                    self.conclude()
                }
            },
            Stage::FreeConsole => Step::Next(self.at(Stage::AttachConsole)),
            Stage::AttachConsole => Step::Child,
            Stage::CloseThread => Step::Next(self.at(Stage::GetProcessId)),
            Stage::GetProcessId => Step::Parent { pid: reply.pid, process: self.process },
        }
    }
}

impl ForkingView {
    /// Where the duplication stands after the replies to its calls, from this
    /// state on, one after another.
    pub open spec fn after(self, replies: Seq<Reply>) -> Step
        decreases replies.len(),
    {
        if replies.len() == 0 {
            Step::Next(self)
        } else {
            match self.after(replies.drop_last()) {
                Step::Next(state) => state.resume(replies.last()),
                ended => ended,
            }
        }
    }

    /// This state, with what the creation left behind.
    pub open spec fn made(self, reply: Reply) -> Self {
        ForkingView { status: reply.status, process: reply.process, thread: reply.thread, ..self }
    }
}

impl View for Forking {
    type V = ForkingView;

    closed spec fn view(&self) -> ForkingView {
        ForkingView {
            stage: self.stage,
            handles: self.handles@,
            status: self.status,
            process: self.process,
            thread: self.thread,
        }
    }
}

/// Whether `turn` is what `step` says.
pub open spec fn follows(turn: Turn<Forking, Result<Fork<Descriptor>, ForkError>>, step: Step) -> bool {
    match step {
        Step::Next(state) => turn matches Turn::Next(task) && task@ == state,
        Step::Failed(err) => turn matches Turn::Done(Err(failure)) && failure == err,
        Step::Child => turn matches Turn::Done(Ok(Fork::Child)),
        Step::Parent { pid, process } => {
            &&& turn matches Turn::Done(Ok(Fork::Parent(child)))
            &&& child@ == (ChildView { pid, descriptor: process, status: None })
        },
    }
}

/// Begins a duplication of the current process: with the snapshot of the
/// handle table.
pub fn fork() -> (task: Forking)
    ensures
        task@ == (ForkingView {
            stage: Stage::Snapshot { size: SNAPSHOT_BUFFER },
            handles: Seq::empty(),
            status: STATUS_SUCCESS,
            process: 0,
            thread: 0,
        }),
{
    Forking {
        stage: Stage::Snapshot { size: SNAPSHOT_BUFFER },
        handles: Vec::new(),
        status: STATUS_SUCCESS,
        process: 0,
        thread: 0,
    }
}

impl Forking {
    #[verifier::type_invariant]
    spec fn inv(self) -> bool {
        self@.wf()
    }

    /// This state, at another stage.
    fn at(self, stage: Stage) -> (task: Self)
        requires
            self@.at(stage).wf(),
        ensures
            task@ == self@.at(stage),
    {
        Forking {
            stage,
            handles: self.handles,
            status: self.status,
            process: self.process,
            thread: self.thread,
        }
    }

    /// What follows once the process was created and every handle has its own
    /// mark again.
    fn conclude(self) -> (turn: Turn<Forking, Result<Fork<Descriptor>, ForkError>>)
        ensures
            follows(turn, self@.conclude()),
    {
        if self.status == STATUS_PROCESS_CLONED {
            Turn::Next(self.at(Stage::FreeConsole))
        } else {
            match ntstatus_ok(self.status) {
                Err(err) => Turn::Done(Err(ForkError::Create(err))),
                Ok(()) => Turn::Next(self.at(Stage::CloseThread)),
            }
        }
    }

    /// The call to make in this state.
    pub fn call(&self) -> (call: Call)
        ensures
            call == self@.call(),
    {
        proof {
            use_type_invariant(self);
        }
        match self.stage {
            Stage::Snapshot { size } => Call::QueryHandles { size },
            Stage::Mark { next } => make_inheritable(&self.handles[next], true),
            Stage::Create => Call::CreateUserProcess {
                process_access: PROCESS_ALL_ACCESS,
                thread_access: THREAD_ALL_ACCESS,
                flags: PROCESS_CREATE_FLAGS_INHERIT_HANDLES,
            },
            Stage::Restore { next } => make_inheritable(&self.handles[next], false),
            Stage::FreeConsole => Call::FreeConsole,
            Stage::AttachConsole => Call::AttachConsole { process: ATTACH_PARENT_PROCESS },
            Stage::CloseThread => Call::CloseHandle { handle: self.thread },
            Stage::GetProcessId => Call::GetProcessId { handle: self.process },
        }
    }

    /// Goes on with the reply to [`Forking::call`].
    ///
    /// A snapshot is asked for again, into a buffer of the length that the
    /// query stored, as long as the query finds its buffer too short. The
    /// replies to the calls that set handle flags, and to those that follow
    /// the creation in the clone and in the parent, are not looked at.
    pub fn resume(self, reply: Reply) -> (turn: Turn<Forking, Result<Fork<Descriptor>, ForkError>>)
        ensures
            follows(turn, self@.resume(reply)),
    {
        proof {
            use_type_invariant(&self);
        }
        match self.stage {
            Stage::Snapshot { size } => match snapshot_all_handles(size, reply) {
                Turn::Next(size) => Turn::Next(self.at(Stage::Snapshot { size })),
                Turn::Done(Err(err)) => Turn::Done(Err(ForkError::Snapshot(err))),
                Turn::Done(Ok(handles)) => {
                    let stage = if handles.len() == 0 {
                        Stage::Create
                    } else {
                        Stage::Mark { next: 0 }
                    };
                    Turn::Next(
                        Forking {
                            stage,
                            handles,
                            status: self.status,
                            process: self.process,
                            thread: self.thread,
                        },
                    )
                },
            },
            Stage::Mark { next } => {
                let len = self.handles.len();
                if next + 1 < len {
                    Turn::Next(self.at(Stage::Mark { next: next + 1 }))
                } else {
                    Turn::Next(self.at(Stage::Create))
                }
            },
            Stage::Create => {
                let stage = if self.handles.len() == 0 {
                    Stage::Create
                } else {
                    Stage::Restore { next: 0 }
                };
                let made = Forking {
                    stage,
                    handles: self.handles,
                    status: reply.status,
                    process: reply.process,
                    thread: reply.thread,
                };
                if made.handles.len() == 0 {
                    made.conclude()
                } else {
                    Turn::Next(made)
                }
            },
            Stage::Restore { next } => {
                let len = self.handles.len();
                if next + 1 < len {
                    Turn::Next(self.at(Stage::Restore { next: next + 1 }))
                } else {
                    self.conclude()
                }
            },
            Stage::FreeConsole => Turn::Next(self.at(Stage::AttachConsole)),
            Stage::AttachConsole => Turn::Done(Ok(Fork::Child)),
            Stage::CloseThread => Turn::Next(self.at(Stage::GetProcessId)),
            Stage::GetProcessId => Turn::Done(Ok(Fork::Parent(Child::new(reply.pid, self.process)))),
        }
    }
}

/// A blocking wait under way.
#[derive(Debug, Clone, Copy, PartialEq, Eq)]
pub enum Waiting {
    /// The process is waited for.
    Wait { handle: isize },
    /// The process has ended: its exit code is asked for.
    ExitCode { handle: isize },
}

/// Begins a blocking wait for `child`.
pub fn wait(child: &Child<Descriptor>) -> (task: Waiting)
    ensures
        task == (Waiting::Wait { handle: child@.descriptor }),
{
    Waiting::Wait { handle: *child.descriptor() }
}

impl Waiting {
    /// The call to make in this state.
    pub open spec fn spec_call(&self) -> Call {
        match *self {
            Waiting::Wait { handle } => Call::WaitForSingleObject { handle, timeout: INFINITE },
            Waiting::ExitCode { handle } => Call::GetExitCodeProcess { handle },
        }
    }

    /// What the wait does with the reply to the call of this state.
    pub open spec fn spec_resume(self, reply: Reply) -> Turn<Waiting, Result<i32, OsError>> {
        match self {
            Waiting::Wait { handle } => if reply.event == WAIT_OBJECT_0 {
                Turn::Next(Waiting::ExitCode { handle })
            } else {
                Turn::Done(Err(OsError { code: reply.error }))
            },
            Waiting::ExitCode { handle } => Turn::Done(exit_code_result(reply)),
        }
    }

    /// The call to make in this state.
    #[verifier::when_used_as_spec(spec_call)]
    pub fn call(&self) -> (call: Call)
        ensures
            call == self.spec_call(),
    {
        match self {
            Waiting::Wait { handle } => Call::WaitForSingleObject {
                handle: *handle,
                timeout: INFINITE,
            },
            Waiting::ExitCode { handle } => Call::GetExitCodeProcess { handle: *handle },
        }
    }

    /// Goes on with the reply to [`Waiting::call`]. A wait that returns
    /// anything but that the process is signaled has failed.
    pub fn resume(self, reply: &Reply) -> (turn: Turn<Waiting, Result<i32, OsError>>)
        ensures
            turn == self.spec_resume(*reply),
    {
        match self {
            Waiting::Wait { handle } => {
                if reply.event == WAIT_OBJECT_0 {
                    Turn::Next(Waiting::ExitCode { handle })
                } else {
                    Turn::Done(Err(OsError { code: reply.error }))
                }
            },
            Waiting::ExitCode { handle } => Turn::Done(exit_code(reply)),
        }
    }
}

/// Reads the reply of `GetExitCodeProcess`.
fn exit_code(reply: &Reply) -> (r: Result<i32, OsError>)
    ensures
        r == exit_code_result(*reply),
{
    if reply.ok {
        Ok(#[verifier::truncate] (reply.code as i32))
    } else {
        Err(OsError { code: reply.error })
    }
}

/// A wait that does not block, under way.
#[derive(Debug, Clone, Copy, PartialEq, Eq)]
pub enum Polling {
    /// The process is looked at, with no time to wait.
    Wait { handle: isize },
    /// The process has ended: its exit code is asked for.
    ExitCode { handle: isize },
}

/// Begins a wait for `child` that does not block.
pub fn try_wait(child: &Child<Descriptor>) -> (task: Polling)
    ensures
        task == (Polling::Wait { handle: child@.descriptor }),
{
    Polling::Wait { handle: *child.descriptor() }
}

impl Polling {
    /// The call to make in this state.
    pub open spec fn spec_call(&self) -> Call {
        match *self {
            Polling::Wait { handle } => Call::WaitForSingleObject { handle, timeout: 0 },
            Polling::ExitCode { handle } => Call::GetExitCodeProcess { handle },
        }
    }

    /// What the wait does with the reply to the call of this state.
    pub open spec fn spec_resume(self, reply: Reply) -> Turn<Polling, Result<Option<i32>, OsError>> {
        match self {
            Polling::Wait { handle } => if reply.event == WAIT_OBJECT_0 {
                Turn::Next(Polling::ExitCode { handle })
            } else if reply.event == WAIT_TIMEOUT {
                Turn::Done(Ok(None))
            } else {
                Turn::Done(Err(OsError { code: reply.error }))
            },
            Polling::ExitCode { handle } => Turn::Done(
                match exit_code_result(reply) {
                    Ok(code) => Ok(Some(code)),
                    Err(err) => Err(err),
                },
            ),
        }
    }

    /// The call to make in this state.
    #[verifier::when_used_as_spec(spec_call)]
    pub fn call(&self) -> (call: Call)
        ensures
            call == self.spec_call(),
    {
        match self {
            Polling::Wait { handle } => Call::WaitForSingleObject { handle: *handle, timeout: 0 },
            Polling::ExitCode { handle } => Call::GetExitCodeProcess { handle: *handle },
        }
    }

    /// Goes on with the reply to [`Polling::call`]. That the time ran out
    /// says that the process has not exited yet.
    pub fn resume(self, reply: &Reply) -> (turn: Turn<Polling, Result<Option<i32>, OsError>>)
        ensures
            turn == self.spec_resume(*reply),
    {
        match self {
            Polling::Wait { handle } => {
                if reply.event == WAIT_OBJECT_0 {
                    Turn::Next(Polling::ExitCode { handle })
                } else if reply.event == WAIT_TIMEOUT {
                    Turn::Done(Ok(None))
                } else {
                    Turn::Done(Err(OsError { code: reply.error }))
                }
            },
            Polling::ExitCode { handle } => match exit_code(reply) {
                Ok(code) => Turn::Done(Ok(Some(code))),
                Err(err) => Turn::Done(Err(err)),
            },
        }
    }
}

/// A forced termination under way.
#[derive(Debug, Clone, Copy, PartialEq, Eq)]
pub enum Killing {
    /// The process is terminated.
    Terminate { handle: isize },
    /// The termination was denied, as it is for a process that has ended
    /// already: whether it has ended is looked up.
    Confirm(Polling),
}

/// Begins the forced termination of `child`.
pub fn kill(child: &Child<Descriptor>) -> (task: Killing)
    ensures
        task == (Killing::Terminate { handle: child@.descriptor }),
{
    Killing::Terminate { handle: *child.descriptor() }
}

impl Killing {
    /// The call to make in this state.
    pub open spec fn spec_call(&self) -> Call {
        match *self {
            Killing::Terminate { handle } => Call::TerminateProcess { handle, exit_code: KILLED },
            Killing::Confirm(polling) => polling.spec_call(),
        }
    }

    /// What the termination does with the reply to the call of this state.
    pub open spec fn spec_resume(self, reply: Reply) -> Turn<Killing, Result<(), OsError>> {
        match self {
            Killing::Terminate { handle } => if reply.ok {
                Turn::Done(Ok(()))
            } else if reply.error != ACCESS_DENIED {
                Turn::Done(Err(OsError { code: reply.error }))
            } else {
                Turn::Next(Killing::Confirm(Polling::Wait { handle }))
            },
            Killing::Confirm(polling) => match polling.spec_resume(reply) {
                Turn::Next(polling) => Turn::Next(Killing::Confirm(polling)),
                Turn::Done(Ok(Some(_))) => Turn::Done(Ok(())),
                Turn::Done(_) => Turn::Done(Err(OsError { code: ACCESS_DENIED })),
            },
        }
    }

    /// The call to make in this state.
    #[verifier::when_used_as_spec(spec_call)]
    pub fn call(&self) -> (call: Call)
        ensures
            call == self.spec_call(),
    {
        match self {
            Killing::Terminate { handle } => Call::TerminateProcess {
                handle: *handle,
                exit_code: KILLED,
            },
            Killing::Confirm(polling) => polling.call(),
        }
    }

    /// Goes on with the reply to [`Killing::call`].
    ///
    /// A termination that was denied is no failure if the process is found to
    /// have ended. If it is found running, or cannot be looked at, the denial
    /// is the error.
    pub fn resume(self, reply: &Reply) -> (turn: Turn<Killing, Result<(), OsError>>)
        ensures
            turn == self.spec_resume(*reply),
    {
        match self {
            Killing::Terminate { handle } => {
                if reply.ok {
                    Turn::Done(Ok(()))
                } else if reply.error != ACCESS_DENIED {
                    Turn::Done(Err(OsError { code: reply.error }))
                } else {
                    Turn::Next(Killing::Confirm(Polling::Wait { handle }))
                }
            },
            Killing::Confirm(polling) => match polling.resume(reply) {
                Turn::Next(polling) => Turn::Next(Killing::Confirm(polling)),
                Turn::Done(Ok(Some(_))) => Turn::Done(Ok(())),
                Turn::Done(_) => Turn::Done(Err(OsError { code: ACCESS_DENIED })),
            },
        }
    }
}

/// A duplication never comes to mark or restore a handle that the snapshot
/// does not hold.
pub proof fn resume_keeps_wf(state: ForkingView, reply: Reply)
    requires
        state.wf(),
    ensures
        state.resume(reply) matches Step::Next(next) ==> next.wf(),
{
}

/// Before the process is created, every handle of the snapshot is marked
/// inheritable, one call for each in the order of the snapshot, whatever
/// those calls reply. The creation follows the last of them.
pub proof fn marks_every_handle(state: ForkingView, replies: Seq<Reply>)
    requires
        state.stage == (Stage::Mark { next: 0 }),
        state.wf(),
        replies.len() <= state.handles.len() <= usize::MAX,
    ensures
        state.after(replies) == Step::Next(
            state.at(
                if replies.len() < state.handles.len() {
                    Stage::Mark { next: replies.len() as usize }
                } else {
                    Stage::Create
                },
            ),
        ),
        replies.len() < state.handles.len() ==> state.at(
            Stage::Mark { next: replies.len() as usize },
        ).call() == inheritable_call(state.handles[replies.len() as int], true),
    decreases replies.len(),
{
    if replies.len() == 0 {
        assert(state.at(Stage::Mark { next: 0 }) == state);
    } else {
        let earlier = replies.drop_last();
        marks_every_handle(state, earlier);
        let reached = state.at(Stage::Mark { next: earlier.len() as usize });
        assert(state.after(earlier) == Step::Next(reached));
        assert(state.after(replies) == reached.resume(replies.last()));
    }
}

/// Once the process was created, or could not be, every handle of the
/// snapshot gets its own mark back, one call for each in the order of the
/// snapshot, whatever the creation returned and whatever those calls reply.
/// Only after the last of them is the status of the creation looked at.
pub proof fn restores_every_handle(state: ForkingView, replies: Seq<Reply>)
    requires
        state.stage == Stage::Create,
        1 <= replies.len() <= state.handles.len() + 1,
        state.handles.len() <= usize::MAX,
    ensures
        state.after(replies) == if replies.len() <= state.handles.len() {
            Step::Next(state.made(replies[0]).at(Stage::Restore { next: (replies.len() - 1) as usize }))
        } else {
            state.made(replies[0]).conclude()
        },
        replies.len() <= state.handles.len() ==> state.made(replies[0]).at(
            Stage::Restore { next: (replies.len() - 1) as usize },
        ).call() == inheritable_call(state.handles[replies.len() - 1], false),
    decreases replies.len(),
{
    if replies.len() == 1 {
        assert(replies.drop_last().len() == 0);
        assert(state.after(replies.drop_last()) == Step::Next(state));
    } else {
        restores_every_handle(state, replies.drop_last());
        assert(replies.drop_last()[0] == replies[0]);
    }
}

/// Marking a handle and then restoring it leaves it inheritable if and only
/// if the snapshot found it so, and neither call changes whether it is
/// protected from being closed.
pub proof fn restore_undoes_mark(handle: HandleEntry)
    ensures
        inheritable_call(handle, true)->inherit != 0,
        inheritable_call(handle, false)->inherit != 0 <==> handle.attributes & OBJ_INHERIT != 0,
        inheritable_call(handle, true)->protect_from_close == inheritable_call(
            handle,
            false,
        )->protect_from_close,
{
}

} // verus!
