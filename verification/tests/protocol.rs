use disktui::engine::{Flow, Outcome};
use disktui::error::{ErrorKind, OpError};
use disktui::event::{Event, NotificationLevel};
use disktui::guard::{Admission, OperationGuard};
use disktui::operations::dispatch::Job;
use disktui::operations::entry::{get_luks_info, is_luks_device, luks_dump, luks_probe};
use disktui::operations::FilesystemType;
use disktui::protocol::{
    handle_request, invalid_request, respond, respond_all, terminal, Handling, Request, Response,
};
use disktui::engine::{Action, ToolResult};

#[test]
fn response_constructors() {
    assert_eq!(Response::ok(), Response::Success { data: None });
    assert_eq!(Response::error("boom"), Response::Error { message: "boom".to_string() });
    assert_eq!(
        Response::notification("info", "hello"),
        Response::Notification { level: "info".to_string(), message: "hello".to_string() }
    );
    assert_eq!(
        Response::progress_start("working"),
        Response::Progress { action: "start".to_string(), message: Some("working".to_string()) }
    );
    assert_eq!(
        Response::progress_end(),
        Response::Progress { action: "end".to_string(), message: None }
    );
}

#[test]
fn events_become_responses() {
    let events = vec![
        Event::StartProgress { message: "a".to_string() },
        Event::Notification { level: NotificationLevel::Info, message: "b".to_string() },
        Event::Refresh,
        Event::Notification { level: NotificationLevel::Warning, message: "c".to_string() },
        Event::EndProgress,
        Event::Notification { level: NotificationLevel::Error, message: "d".to_string() },
    ];
    assert_eq!(
        respond_all(&events),
        vec![
            Response::progress_start("a"),
            Response::notification("info", "b"),
            Response::notification("warning", "c"),
            Response::progress_end(),
        ]
    );
    assert_eq!(respond(&events[2]), None);
    assert_eq!(respond(&events[5]), None);
    assert_eq!(respond(&events[4]), Some(Response::progress_end()));
}

#[test]
fn results_become_terminal_responses() {
    assert_eq!(terminal(&Ok(())), Response::ok());
    let e = OpError { kind: ErrorKind::NotFound, message: "gone".to_string() };
    assert_eq!(terminal(&Err(e)), Response::error("gone"));
    assert_eq!(invalid_request("expected value"), Response::error("Invalid request: expected value"));
}

#[test]
fn requests_become_jobs() {
    let r = Request::Format { device: "sda1".to_string(), fs_type: "vfat".to_string() };
    assert_eq!(
        handle_request(&r),
        Handling::Accepted(Job::Format { device: "sda1".to_string(), fs: FilesystemType::Fat32 })
    );
    let r = Request::CreatePartition {
        disk: "sda".to_string(),
        size: "1G".to_string(),
        fs_type: None,
    };
    assert_eq!(
        handle_request(&r),
        Handling::Accepted(Job::CreatePartition {
            disk: "sda".to_string(),
            size: "1G".to_string(),
            fs: None
        })
    );
    let r = Request::CreatePartition {
        disk: "sda".to_string(),
        size: "1G".to_string(),
        fs_type: Some("btrfs".to_string()),
    };
    assert_eq!(
        handle_request(&r),
        Handling::Accepted(Job::CreatePartition {
            disk: "sda".to_string(),
            size: "1G".to_string(),
            fs: Some(FilesystemType::Btrfs)
        })
    );
    let r = Request::LockLuks { mapper_name: "m".to_string() };
    assert_eq!(handle_request(&r), Handling::Accepted(Job::LockLuks { mapper_name: "m".to_string() }));
    assert_eq!(handle_request(&Request::Shutdown), Handling::Shutdown);
}

#[test]
fn unknown_filesystem_is_refused() {
    let r = Request::EncryptAndFormat {
        partition: "sda1".to_string(),
        passphrase: "p".to_string(),
        fs_type: "zfs".to_string(),
    };
    assert_eq!(
        handle_request(&r),
        Handling::Refused(Response::error("Unsupported filesystem type: zfs"))
    );
    let r = Request::CreatePartition {
        disk: "sda".to_string(),
        size: "".to_string(),
        fs_type: Some("".to_string()),
    };
    assert_eq!(
        handle_request(&r),
        Handling::Refused(Response::error("Unsupported filesystem type: "))
    );
}

#[test]
fn guard_admits_one_operation_at_a_time() {
    let mut guard = OperationGuard::new();
    assert!(!guard.is_set());
    let a = Job::Mount { device: "sda1".to_string() };
    let b = Job::Unmount { device: "sdb1".to_string() };
    let first = match guard.try_start(&a) {
        Admission::Admitted(t) => t,
        Admission::Rejected(_) => panic!("rejected"),
    };
    assert!(guard.is_set());
    match guard.try_start(&b) {
        Admission::Rejected(e) => assert_eq!(
            e,
            Event::Notification {
                level: NotificationLevel::Warning,
                message: "Operation already in progress".to_string()
            }
        ),
        Admission::Admitted(_) => panic!("admitted"),
    }
    assert!(guard.is_set());
    guard.observe(&Event::Refresh);
    guard.observe(&Event::StartProgress { message: "x".to_string() });
    assert!(guard.is_set());
    guard.observe(&Event::EndProgress);
    assert!(!guard.is_set());
    match guard.try_start(&b) {
        Admission::Admitted(t) => assert!(matches!(t.flow, Flow::Wait(_, _))),
        Admission::Rejected(_) => panic!("rejected"),
    }
    assert!(guard.is_set());
    drop(first);
}

#[test]
fn guard_clears_when_the_operation_ends() {
    let mut guard = OperationGuard::new();
    let bad = Job::Mount { device: "".to_string() };
    match guard.try_start(&bad) {
        Admission::Admitted(t) => assert!(matches!(t.flow, Flow::Done(Err(_)))),
        Admission::Rejected(_) => panic!("rejected"),
    }
    assert!(!guard.is_set());
    let job = Job::CreatePartitionTable { disk: "sda".to_string(), table_type: "gpt".to_string() };
    let operation = match guard.try_start(&job) {
        Admission::Admitted(t) => match t.flow {
            Flow::Wait(op, _) => op,
            Flow::Done(_) => panic!("done"),
        },
        Admission::Rejected(_) => panic!("rejected"),
    };
    assert!(guard.is_set());
    let outcome = Outcome::Tool(ToolResult::Exited {
        success: true,
        stdout: String::new(),
        stderr: String::new(),
    });
    let t = guard.resume(operation, outcome);
    assert!(matches!(t.flow, Flow::Done(Ok(()))));
    assert!(!guard.is_set());
}

#[test]
fn luks_probe_and_verdict() {
    match luks_probe("sdb1") {
        Action::Run(c) => {
            assert_eq!(c.program, "cryptsetup");
            assert_eq!(c.args, vec!["isLuks", "/dev/sdb1"]);
        }
        other => panic!("not a tool: {:?}", other),
    }
    let yes = Outcome::Tool(ToolResult::Exited {
        success: true,
        stdout: String::new(),
        stderr: String::new(),
    });
    let no = Outcome::Tool(ToolResult::Exited {
        success: false,
        stdout: String::new(),
        stderr: String::new(),
    });
    assert!(is_luks_device(&yes));
    assert!(!is_luks_device(&no));
    assert!(!is_luks_device(&Outcome::Tool(ToolResult::NotRun { error: "x".to_string() })));
    assert!(!is_luks_device(&Outcome::Tool(ToolResult::TimedOut)));
}

#[test]
fn luks_info_from_the_dump() {
    match luks_dump("sdb1") {
        Action::Run(c) => assert_eq!(c.args, vec!["luksDump", "/dev/sdb1"]),
        other => panic!("not a tool: {:?}", other),
    }
    let dump = Outcome::Tool(ToolResult::Exited {
        success: true,
        stdout: "Version: 2\nUUID: abc\n".to_string(),
        stderr: String::new(),
    });
    let info = get_luks_info(&dump).unwrap();
    assert_eq!(info.version, "LUKS2");
    assert_eq!(info.uuid, "abc");
    let failed = Outcome::Tool(ToolResult::Exited {
        success: false,
        stdout: "Version: 2\n".to_string(),
        stderr: String::new(),
    });
    assert_eq!(get_luks_info(&failed).unwrap_err().message, "Failed to get LUKS info");
    let not_run = Outcome::Tool(ToolResult::NotRun { error: "x".to_string() });
    assert_eq!(
        get_luks_info(&not_run).unwrap_err().message,
        "Failed to execute cryptsetup luksDump"
    );
}
