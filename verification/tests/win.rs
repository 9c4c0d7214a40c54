use cutlery::win::{
    fork, kill, make_inheritable, ntstatus_ok, snapshot_all_handles, try_wait, wait, Call,
    Descriptor, ForkError,
    Forking, HandleEntry, Killing, Polling, Reply, Waiting, ACCESS_DENIED, INFINITE,
    STATUS_BUFFER_OVERFLOW, STATUS_BUFFER_TOO_SMALL, STATUS_INFO_LENGTH_MISMATCH,
    STATUS_PROCESS_CLONED, STATUS_SUCCESS, WAIT_OBJECT_0, WAIT_TIMEOUT,
};
use cutlery::{Child, Fork, OsError, Turn};

const STATUS_ACCESS_DENIED: i32 = 0xC000_0022_u32 as i32;
const STATUS_NO_MEMORY: i32 = 0xC000_0017_u32 as i32;
const WAIT_FAILED: u32 = 0xFFFF_FFFF;
const INVALID_HANDLE: i32 = 6;

const CREATE: Call = Call::CreateUserProcess {
    process_access: 0x1F_FFFF,
    thread_access: 0x1F_FFFF,
    flags: 4,
};

fn nothing() -> Reply {
    Reply {
        status: 0,
        size: 0,
        handles: Vec::new(),
        process: 0,
        thread: 0,
        pid: 0,
        event: 0,
        ok: true,
        error: 0,
        code: 0,
    }
}

fn status(status: i32) -> Reply {
    Reply { status, ..nothing() }
}

fn too_short(status: i32, size: u32) -> Reply {
    Reply { status, size, ..nothing() }
}

fn snapshot(handles: &[HandleEntry]) -> Reply {
    Reply { handles: handles.to_vec(), size: 0x123, ..nothing() }
}

fn created(status: i32) -> Reply {
    Reply { status, process: 0x500, thread: 0x504, ..nothing() }
}

fn event(event: u32) -> Reply {
    Reply { event, error: INVALID_HANDLE, ..nothing() }
}

fn exited(code: u32) -> Reply {
    Reply { code, ..nothing() }
}

fn refused(error: i32) -> Reply {
    Reply { ok: false, error, ..nothing() }
}

fn entry(value: isize, attributes: u32) -> HandleEntry {
    HandleEntry { value, attributes }
}

fn flags(handle: isize, inherit: u8, protect_from_close: u8) -> Call {
    Call::SetHandleFlags { handle, inherit, protect_from_close }
}

/// Answers the calls of a duplication with `replies`, one after another.
/// Returns the calls that were made and how the duplication ended.
fn run(replies: Vec<Reply>) -> (Vec<Call>, Result<Fork<Descriptor>, ForkError>) {
    let mut task = fork();
    let mut calls = Vec::new();
    for reply in replies {
        calls.push(task.call());
        match task.resume(reply) {
            Turn::Next(next) => task = next,
            Turn::Done(done) => return (calls, done),
        }
    }
    panic!("the duplication is not over: it asks for {:?}", task.call())
}

fn handle_of(process: isize) -> Child<Descriptor> {
    let replies = vec![
        snapshot(&[]),
        Reply { process, ..created(STATUS_SUCCESS) },
        nothing(),
        Reply { pid: 77, ..nothing() },
    ];
    match run(replies).1 {
        Ok(Fork::Parent(child)) => child,
        _ => panic!("the parent process gets a handle"),
    }
}

#[test]
fn a_status_that_is_not_negative_is_no_error() {
    assert_eq!(ntstatus_ok(STATUS_SUCCESS), Ok(()));
    assert_eq!(ntstatus_ok(STATUS_PROCESS_CLONED), Ok(()));
    assert_eq!(ntstatus_ok(i32::MAX), Ok(()));
}

#[test]
fn a_negative_status_is_an_error_with_its_bit_set() {
    assert_eq!(ntstatus_ok(STATUS_ACCESS_DENIED), Err(OsError { code: 0xD000_0022_u32 as i32 }));
    assert_eq!(ntstatus_ok(STATUS_BUFFER_OVERFLOW), Err(OsError { code: 0x9000_0005_u32 as i32 }));
    assert_eq!(ntstatus_ok(-1), Err(OsError { code: -1 }));
    assert_eq!(ntstatus_ok(i32::MIN), Err(OsError { code: 0x9000_0000_u32 as i32 }));
}

#[test]
fn the_status_codes_are_those_of_the_system() {
    assert_eq!(STATUS_PROCESS_CLONED as u32, 0x0000_0129);
    assert_eq!(STATUS_INFO_LENGTH_MISMATCH as u32, 0xC000_0004);
    assert_eq!(STATUS_BUFFER_TOO_SMALL as u32, 0xC000_0023);
    assert_eq!(STATUS_BUFFER_OVERFLOW as u32, 0x8000_0005);
    assert_eq!(ACCESS_DENIED as u32, 0x8007_0005);
    assert_eq!(WAIT_TIMEOUT, 258);
    assert_eq!(INFINITE, u32::MAX);
}

#[test]
fn marking_a_handle_makes_it_inheritable() {
    assert_eq!(make_inheritable(&entry(4, 0), true), flags(4, 2, 0));
    assert_eq!(make_inheritable(&entry(4, 1), true), flags(4, 2, 1));
    assert_eq!(make_inheritable(&entry(4, 2), true), flags(4, 2, 0));
    assert_eq!(make_inheritable(&entry(4, 3), true), flags(4, 2, 1));
}

#[test]
fn restoring_a_handle_leaves_it_as_it_was_found() {
    assert_eq!(make_inheritable(&entry(8, 0), false), flags(8, 0, 0));
    assert_eq!(make_inheritable(&entry(8, 1), false), flags(8, 0, 1));
    assert_eq!(make_inheritable(&entry(8, 2), false), flags(8, 2, 0));
    assert_eq!(make_inheritable(&entry(8, 3), false), flags(8, 2, 1));
}

#[test]
fn other_attributes_of_a_handle_are_not_flags() {
    assert_eq!(make_inheritable(&entry(8, 0xFFFF_FFFC), false), flags(8, 0, 0));
    assert_eq!(make_inheritable(&entry(8, 0xFFFF_FFFC), true), flags(8, 2, 0));
    assert_eq!(make_inheritable(&entry(-12, 0x10), true), flags(-12, 2, 0));
}

#[test]
fn fork_begins_with_a_snapshot_into_two_kilobytes() {
    assert_eq!(fork().call(), Call::QueryHandles { size: 0x800 });
}

#[test]
fn fork_in_the_parent_process() {
    let handles = [entry(4, 0), entry(8, 3), entry(12, 2)];
    let (calls, done) = run(vec![
        snapshot(&handles),
        status(STATUS_ACCESS_DENIED),
        nothing(),
        nothing(),
        created(STATUS_SUCCESS),
        nothing(),
        status(STATUS_ACCESS_DENIED),
        nothing(),
        refused(INVALID_HANDLE),
        Reply { pid: 4242, ..nothing() },
    ]);
    assert_eq!(
        calls,
        vec![
            Call::QueryHandles { size: 0x800 },
            flags(4, 2, 0),
            flags(8, 2, 1),
            flags(12, 2, 0),
            CREATE,
            flags(4, 0, 0),
            flags(8, 2, 1),
            flags(12, 2, 0),
            Call::CloseHandle { handle: 0x504 },
            Call::GetProcessId { handle: 0x500 },
        ]
    );
    match done {
        Ok(Fork::Parent(child)) => {
            assert_eq!(child.id(), 4242);
            assert_eq!(*child.descriptor(), 0x500);
        },
        _ => panic!("the parent process gets a handle"),
    }
}

#[test]
fn fork_in_the_new_process() {
    let handles = [entry(4, 0), entry(8, 2)];
    let (calls, done) = run(vec![
        snapshot(&handles),
        nothing(),
        nothing(),
        created(STATUS_PROCESS_CLONED),
        nothing(),
        nothing(),
        refused(INVALID_HANDLE),
        refused(ACCESS_DENIED),
    ]);
    assert_eq!(
        calls,
        vec![
            Call::QueryHandles { size: 0x800 },
            flags(4, 2, 0),
            flags(8, 2, 0),
            CREATE,
            flags(4, 0, 0),
            flags(8, 2, 0),
            Call::FreeConsole,
            Call::AttachConsole { process: u32::MAX },
        ]
    );
    assert!(matches!(done, Ok(Fork::Child)));
}

#[test]
fn fork_that_failed_restores_the_handles_first() {
    let handles = [entry(4, 0), entry(8, 1)];
    let (calls, done) = run(vec![
        snapshot(&handles),
        nothing(),
        nothing(),
        created(STATUS_NO_MEMORY),
        nothing(),
        nothing(),
    ]);
    assert_eq!(
        calls,
        vec![
            Call::QueryHandles { size: 0x800 },
            flags(4, 2, 0),
            flags(8, 2, 1),
            CREATE,
            flags(4, 0, 0),
            flags(8, 0, 1),
        ]
    );
    match done {
        Err(err) => assert_eq!(err, ForkError::Create(OsError { code: 0xD000_0017_u32 as i32 })),
        Ok(_) => panic!("a failed creation is an error"),
    }
}

#[test]
fn fork_without_handles_creates_at_once() {
    let (calls, done) = run(vec![snapshot(&[]), created(STATUS_PROCESS_CLONED), nothing(), nothing()]);
    assert_eq!(
        calls,
        vec![
            Call::QueryHandles { size: 0x800 },
            CREATE,
            Call::FreeConsole,
            Call::AttachConsole { process: u32::MAX },
        ]
    );
    assert!(matches!(done, Ok(Fork::Child)));
    let (calls, done) = run(vec![snapshot(&[]), created(STATUS_ACCESS_DENIED)]);
    assert_eq!(calls, vec![Call::QueryHandles { size: 0x800 }, CREATE]);
    assert!(matches!(done, Err(ForkError::Create(OsError { code })) if code == 0xD000_0022_u32 as i32));
}

#[test]
fn fork_with_one_handle() {
    let (calls, done) = run(vec![
        snapshot(&[entry(4, 2)]),
        nothing(),
        created(5),
        nothing(),
        nothing(),
        Reply { pid: 1, ..nothing() },
    ]);
    assert_eq!(
        calls,
        vec![
            Call::QueryHandles { size: 0x800 },
            flags(4, 2, 0),
            CREATE,
            flags(4, 2, 0),
            Call::CloseHandle { handle: 0x504 },
            Call::GetProcessId { handle: 0x500 },
        ]
    );
    assert!(matches!(done, Ok(Fork::Parent(_))));
}

#[test]
fn the_snapshot_is_asked_again_into_a_longer_buffer() {
    let (calls, done) = run(vec![
        too_short(STATUS_INFO_LENGTH_MISMATCH, 0x1000),
        too_short(STATUS_BUFFER_TOO_SMALL, 0x1800),
        too_short(STATUS_BUFFER_OVERFLOW, 0x4000),
        snapshot(&[]),
        created(STATUS_PROCESS_CLONED),
        nothing(),
        nothing(),
    ]);
    assert_eq!(
        calls[..5],
        [
            Call::QueryHandles { size: 0x800 },
            Call::QueryHandles { size: 0x1000 },
            Call::QueryHandles { size: 0x1800 },
            Call::QueryHandles { size: 0x4000 },
            CREATE,
        ]
    );
    assert!(matches!(done, Ok(Fork::Child)));
}

#[test]
fn the_snapshot_is_asked_again_after_a_status_that_is_no_error() {
    let (calls, _) = run(vec![
        too_short(STATUS_PROCESS_CLONED, 0x9000),
        too_short(1, 0x9000),
        snapshot(&[]),
        created(STATUS_ACCESS_DENIED),
    ]);
    assert_eq!(
        calls,
        vec![
            Call::QueryHandles { size: 0x800 },
            Call::QueryHandles { size: 0x800 },
            Call::QueryHandles { size: 0x800 },
            CREATE,
        ]
    );
}

#[test]
fn a_snapshot_that_failed_ends_the_duplication() {
    let (calls, done) = run(vec![too_short(STATUS_ACCESS_DENIED, 0x1000)]);
    assert_eq!(calls, vec![Call::QueryHandles { size: 0x800 }]);
    match done {
        Err(err) => assert_eq!(err, ForkError::Snapshot(OsError { code: 0xD000_0022_u32 as i32 })),
        Ok(_) => panic!("a failed snapshot is an error"),
    }
}

#[test]
fn the_handles_of_a_failed_query_are_not_used() {
    let listed = Reply { handles: vec![entry(4, 0)], ..too_short(STATUS_BUFFER_TOO_SMALL, 0x1000) };
    let (calls, _) = run(vec![listed, snapshot(&[]), created(STATUS_ACCESS_DENIED)]);
    assert_eq!(
        calls,
        vec![Call::QueryHandles { size: 0x800 }, Call::QueryHandles { size: 0x1000 }, CREATE]
    );
}

#[test]
fn wait_waits_without_a_timeout_and_reads_the_exit_code() {
    let child = handle_of(0x500);
    let task = wait(&child);
    assert_eq!(task, Waiting::Wait { handle: 0x500 });
    assert_eq!(task.call(), Call::WaitForSingleObject { handle: 0x500, timeout: u32::MAX });
    let task = match task.resume(&event(WAIT_OBJECT_0)) {
        Turn::Next(task) => task,
        Turn::Done(_) => panic!("the exit code is asked for"),
    };
    assert_eq!(task, Waiting::ExitCode { handle: 0x500 });
    assert_eq!(task.call(), Call::GetExitCodeProcess { handle: 0x500 });
    assert_eq!(task.resume(&exited(42)), Turn::Done(Ok(42)));
    assert_eq!(task.resume(&exited(0xC000_0005)), Turn::Done(Ok(0xC000_0005_u32 as i32)));
    assert_eq!(task.resume(&refused(INVALID_HANDLE)), Turn::Done(Err(OsError { code: 6 })));
}

#[test]
fn wait_that_is_not_signaled_has_failed() {
    let task = Waiting::Wait { handle: 0x500 };
    assert_eq!(task.resume(&event(WAIT_FAILED)), Turn::Done(Err(OsError { code: 6 })));
    assert_eq!(task.resume(&event(WAIT_TIMEOUT)), Turn::Done(Err(OsError { code: 6 })));
    assert_eq!(task.resume(&event(0x80)), Turn::Done(Err(OsError { code: 6 })));
}

#[test]
fn try_wait_does_not_wait() {
    let child = handle_of(0x500);
    let task = try_wait(&child);
    assert_eq!(task, Polling::Wait { handle: 0x500 });
    assert_eq!(task.call(), Call::WaitForSingleObject { handle: 0x500, timeout: 0 });
    assert_eq!(task.resume(&event(WAIT_TIMEOUT)), Turn::Done(Ok(None)));
    assert_eq!(task.resume(&event(WAIT_FAILED)), Turn::Done(Err(OsError { code: 6 })));
    assert_eq!(task.resume(&event(WAIT_OBJECT_0)), Turn::Next(Polling::ExitCode { handle: 0x500 }));
    let task = Polling::ExitCode { handle: 0x500 };
    assert_eq!(task.call(), Call::GetExitCodeProcess { handle: 0x500 });
    assert_eq!(task.resume(&exited(42)), Turn::Done(Ok(Some(42))));
    assert_eq!(task.resume(&exited(1)), Turn::Done(Ok(Some(1))));
    assert_eq!(task.resume(&refused(INVALID_HANDLE)), Turn::Done(Err(OsError { code: 6 })));
}

#[test]
fn kill_terminates_with_exit_code_one() {
    let child = handle_of(0x500);
    let task = kill(&child);
    assert_eq!(task, Killing::Terminate { handle: 0x500 });
    assert_eq!(task.call(), Call::TerminateProcess { handle: 0x500, exit_code: 1 });
    assert_eq!(task.resume(&nothing()), Turn::Done(Ok(())));
}

#[test]
fn kill_reports_a_failure_that_is_no_denial() {
    let task = Killing::Terminate { handle: 0x500 };
    assert_eq!(task.resume(&refused(INVALID_HANDLE)), Turn::Done(Err(OsError { code: 6 })));
    assert_eq!(task.resume(&refused(5)), Turn::Done(Err(OsError { code: 5 })));
}

#[test]
fn kill_that_was_denied_looks_whether_the_process_has_ended() {
    let task = Killing::Terminate { handle: 0x500 };
    let task = match task.resume(&refused(ACCESS_DENIED)) {
        Turn::Next(task) => task,
        Turn::Done(_) => panic!("a denial is looked into"),
    };
    assert_eq!(task, Killing::Confirm(Polling::Wait { handle: 0x500 }));
    assert_eq!(task.call(), Call::WaitForSingleObject { handle: 0x500, timeout: 0 });
    let task = match task.resume(&event(WAIT_OBJECT_0)) {
        Turn::Next(task) => task,
        Turn::Done(_) => panic!("the exit code is asked for"),
    };
    assert_eq!(task, Killing::Confirm(Polling::ExitCode { handle: 0x500 }));
    assert_eq!(task.call(), Call::GetExitCodeProcess { handle: 0x500 });
    assert_eq!(task.resume(&exited(1)), Turn::Done(Ok(())));
}

#[test]
fn kill_that_was_denied_fails_if_the_process_runs() {
    let task = Killing::Confirm(Polling::Wait { handle: 0x500 });
    assert_eq!(task.resume(&event(WAIT_TIMEOUT)), Turn::Done(Err(OsError { code: ACCESS_DENIED })));
}

#[test]
fn kill_that_was_denied_fails_if_the_process_cannot_be_looked_at() {
    let task = Killing::Confirm(Polling::Wait { handle: 0x500 });
    assert_eq!(task.resume(&event(WAIT_FAILED)), Turn::Done(Err(OsError { code: ACCESS_DENIED })));
    let task = Killing::Confirm(Polling::ExitCode { handle: 0x500 });
    assert_eq!(
        task.resume(&refused(INVALID_HANDLE)),
        Turn::Done(Err(OsError { code: ACCESS_DENIED }))
    );
}

#[test]
fn a_handle_made_here_is_waited_for_once() {
    let mut child = handle_of(0x500);
    assert_eq!(child.id(), 77);
    let waited = child.wait(|child| {
        let task = match wait(child).resume(&event(WAIT_OBJECT_0)) {
            Turn::Next(task) => task,
            Turn::Done(_) => panic!("the exit code is asked for"),
        };
        match task.resume(&exited(42)) {
            Turn::Done(status) => status,
            Turn::Next(_) => panic!("the wait is over"),
        }
    });
    assert_eq!(waited, Ok(42));
    assert_eq!(child.wait(|_| panic!("the status is known")), Ok(42));
    assert_eq!(child.kill(|_| panic!("the status is known")), Ok(()));
}

#[test]
fn a_snapshot_lists_the_handles_of_a_query_that_succeeded() {
    let handles = [entry(4, 0), entry(8, 3)];
    assert_eq!(snapshot_all_handles(0x800, snapshot(&handles)), Turn::Done(Ok(handles.to_vec())));
    assert_eq!(snapshot_all_handles(0x800, snapshot(&[])), Turn::Done(Ok(Vec::new())));
}

#[test]
fn a_snapshot_grows_its_buffer_to_the_length_asked_for() {
    assert_eq!(
        snapshot_all_handles(0x800, too_short(STATUS_INFO_LENGTH_MISMATCH, 0x2000)),
        Turn::Next(0x2000)
    );
    assert_eq!(
        snapshot_all_handles(0x800, too_short(STATUS_BUFFER_TOO_SMALL, 0x801)),
        Turn::Next(0x801)
    );
    assert_eq!(
        snapshot_all_handles(0x800, too_short(STATUS_BUFFER_OVERFLOW, 0x100)),
        Turn::Next(0x100)
    );
}

#[test]
fn a_snapshot_keeps_its_buffer_after_a_status_that_is_no_error() {
    assert_eq!(snapshot_all_handles(0x800, too_short(1, 0x2000)), Turn::Next(0x800));
    assert_eq!(snapshot_all_handles(0x4000, too_short(0x129, 0)), Turn::Next(0x4000));
}

#[test]
fn a_snapshot_fails_on_any_other_error() {
    assert_eq!(
        snapshot_all_handles(0x800, too_short(STATUS_ACCESS_DENIED, 0x2000)),
        Turn::Done(Err(OsError { code: 0xD000_0022_u32 as i32 }))
    );
    assert_eq!(
        snapshot_all_handles(0x800, too_short(STATUS_NO_MEMORY, 0)),
        Turn::Done(Err(OsError { code: 0xD000_0017_u32 as i32 }))
    );
}
