use fast_scp::error::ScpError;
use fast_scp::options::{Mode, SshOpts};
use fast_scp::task::{RemotePathKind, TransferOutcome};
use fast_scp::transfer::{Action, Event, Phase, Transfer};

fn opts() -> SshOpts {
    SshOpts {
        host: "example.org:22".to_string(),
        username: "root".to_string(),
        private_key: "/home/alice/.ssh/id_rsa".to_string(),
    }
}

fn listed(remote: &str, local: Option<&str>) -> Event {
    Event::Listed { remote: remote.to_string(), local: local.map(|text| text.to_string()) }
}

/// A transfer of the directory `/data` into `./out` that waits for its listing.
fn listing_directory(mode: Mode) -> Transfer {
    let transfer = Transfer::new(opts(), mode, "/data", "./out");
    let (transfer, _) = transfer.step(Event::Start);
    let (transfer, _) = transfer.step(Event::Kind(RemotePathKind::Directory));
    transfer
}

fn transport_error() -> ScpError {
    ScpError::Ssh("Unable to connect".to_string())
}

#[test]
fn a_new_transfer_waits_for_its_start() {
    let transfer = Transfer::new(opts(), Mode::Ignore, "/data", "./out");
    assert_eq!(transfer.phase(), Phase::Init);
    assert_eq!(transfer.total(), 0);
    assert_eq!(transfer.completed(), 0);
    assert_eq!(transfer.failed(), 0);
    assert_eq!(transfer.skipped(), 0);
    assert!(transfer.set_aside().is_empty());
    assert!(transfer.rejected().is_empty());
    assert_eq!(transfer.kind(), None);
}

#[test]
fn the_source_is_queried_first() {
    let transfer = Transfer::new(opts(), Mode::Ignore, "/data/report.csv", "./out");
    let (transfer, action) = transfer.step(Event::Start);
    assert_eq!(action, Action::Stat("/data/report.csv".to_string()));
    assert_eq!(transfer.phase(), Phase::Stat);
}

#[test]
fn a_single_file_goes_into_the_destination() {
    let transfer = Transfer::new(opts(), Mode::Ignore, "/data/report.csv", "./out");
    let (transfer, _) = transfer.step(Event::Start);
    let (transfer, action) = transfer.step(Event::Kind(RemotePathKind::File));
    assert_eq!(transfer.phase(), Phase::SingleFile);
    assert_eq!(transfer.total(), 1);
    match action {
        Action::Retrieve(task) => {
            assert_eq!(task.remote_path, "/data/report.csv");
            assert_eq!(task.local_path, "./out/report.csv");
            assert_eq!(task.ssh_opts, opts());
            assert_eq!(task.mode, Mode::Ignore);
        }
        other => panic!("expected one task, got {:?}", other),
    }
    let (transfer, action) = transfer.step(Event::Completed(TransferOutcome::Success));
    assert_eq!(action, Action::Finish(Ok(())));
    assert_eq!(transfer.phase(), Phase::Done);
    assert_eq!(transfer.completed(), 1);
    assert_eq!(transfer.failed(), 0);
    assert_eq!(transfer.kind(), Some(RemotePathKind::File));
    assert_eq!(transfer.summary(), "✅ File received successfully");
}

#[test]
fn a_failed_single_file_ends_with_its_own_error() {
    let transfer = Transfer::new(opts(), Mode::Replace, "/data/report.csv", "./out");
    let (transfer, _) = transfer.step(Event::Start);
    let (transfer, _) = transfer.step(Event::Kind(RemotePathKind::File));
    let (transfer, action) =
        transfer.step(Event::Completed(TransferOutcome::Failed(transport_error())));
    assert_eq!(action, Action::Finish(Err(transport_error())));
    assert_eq!(transfer.phase(), Phase::Done);
    assert_eq!(transfer.failed(), 1);
    assert_eq!(transfer.summary(), "1 of 1 files failed to copy");
}

#[test]
fn a_skipped_single_file_ends_well() {
    let transfer = Transfer::new(opts(), Mode::Ignore, "/data/report.csv", "./out");
    let (transfer, _) = transfer.step(Event::Start);
    let (transfer, _) = transfer.step(Event::Kind(RemotePathKind::File));
    let (transfer, action) = transfer.step(Event::Completed(TransferOutcome::Skipped));
    assert_eq!(action, Action::Finish(Ok(())));
    assert_eq!(transfer.skipped(), 1);
    assert_eq!(transfer.failed(), 0);
}

#[test]
fn a_failed_query_ends_the_transfer() {
    let transfer = Transfer::new(opts(), Mode::Ignore, "/missing", "./out");
    let (transfer, _) = transfer.step(Event::Start);
    let error = ScpError::Ssh("no such file".to_string());
    let (transfer, action) = transfer.step(Event::Failed(error.clone()));
    assert_eq!(action, Action::Finish(Err(error)));
    assert_eq!(transfer.phase(), Phase::Done);
    assert_eq!(transfer.total(), 0);
}

#[test]
fn a_directory_is_listed_and_under_ignore_the_destination_too() {
    let transfer = Transfer::new(opts(), Mode::Ignore, "/data", "./out");
    let (transfer, _) = transfer.step(Event::Start);
    let (transfer, action) = transfer.step(Event::Kind(RemotePathKind::Directory));
    assert_eq!(
        action,
        Action::List {
            command: "find /data -type f".to_string(),
            local_root: Some("./out".to_string())
        }
    );
    assert_eq!(transfer.phase(), Phase::DirectoryFanOut);
}

#[test]
fn under_replace_the_destination_is_not_listed() {
    let transfer = Transfer::new(opts(), Mode::Replace, "/data", "./out");
    let (transfer, _) = transfer.step(Event::Start);
    let (_, action) = transfer.step(Event::Kind(RemotePathKind::Directory));
    assert_eq!(
        action,
        Action::List { command: "find /data -type f".to_string(), local_root: None }
    );
}

#[test]
fn a_directory_is_mirrored() {
    let transfer = listing_directory(Mode::Ignore);
    let (transfer, action) =
        transfer.step(listed("/data/a.txt\n/data/sub/b.txt\n", Some("")));
    assert_eq!(transfer.phase(), Phase::Aggregate);
    assert_eq!(transfer.total(), 2);
    assert!(transfer.set_aside().is_empty());
    assert_eq!(transfer.kind(), Some(RemotePathKind::Directory));
    match action {
        Action::FanOut(tasks) => {
            assert_eq!(tasks.len(), 2);
            assert_eq!(tasks[0].remote_path, "/data/a.txt");
            assert_eq!(tasks[0].local_path, "./out/a.txt");
            assert_eq!(tasks[1].remote_path, "/data/sub/b.txt");
            assert_eq!(tasks[1].local_path, "./out/sub/b.txt");
            for task in &tasks {
                assert_eq!(task.ssh_opts, opts());
                assert_eq!(task.mode, Mode::Ignore);
            }
        }
        other => panic!("expected tasks, got {:?}", other),
    }
    let (transfer, action) = transfer.step(Event::Completed(TransferOutcome::Success));
    assert_eq!(action, Action::Wait);
    assert_eq!(transfer.phase(), Phase::Aggregate);
    assert_eq!(transfer.completed(), 1);
    let (transfer, action) = transfer.step(Event::Completed(TransferOutcome::Success));
    assert_eq!(action, Action::Finish(Ok(())));
    assert_eq!(transfer.phase(), Phase::Done);
    assert_eq!(transfer.completed(), 2);
    assert_eq!(transfer.summary(), "✅ All files received successfully (2 files)");
}

#[test]
fn an_existing_file_is_left_alone_and_the_transfer_ends_well() {
    let transfer = listing_directory(Mode::Ignore);
    let (transfer, action) =
        transfer.step(listed("/data/a.txt\n/data/sub/b.txt\n", Some("./out/a.txt\n")));
    assert_eq!(transfer.total(), 1);
    assert_eq!(transfer.set_aside(), &vec!["/data/a.txt".to_string()]);
    match action {
        Action::FanOut(tasks) => {
            assert_eq!(tasks.len(), 1);
            assert_eq!(tasks[0].remote_path, "/data/sub/b.txt");
            assert_eq!(tasks[0].local_path, "./out/sub/b.txt");
        }
        other => panic!("expected tasks, got {:?}", other),
    }
    let (transfer, action) = transfer.step(Event::Completed(TransferOutcome::Skipped));
    assert_eq!(action, Action::Finish(Ok(())));
    assert_eq!(transfer.skipped(), 1);
    assert_eq!(transfer.failed(), 0);
}

#[test]
fn a_second_run_under_ignore_has_nothing_to_fetch() {
    let transfer = listing_directory(Mode::Ignore);
    let (transfer, action) = transfer.step(listed(
        "/data/a.txt\n/data/sub/b.txt\n",
        Some("./out/sub/b.txt\n./out/a.txt\n"),
    ));
    assert_eq!(action, Action::Finish(Ok(())));
    assert_eq!(transfer.phase(), Phase::Done);
    assert_eq!(transfer.total(), 0);
    assert_eq!(
        transfer.set_aside(),
        &vec!["/data/a.txt".to_string(), "/data/sub/b.txt".to_string()]
    );
    assert!(transfer.rejected().is_empty());
    assert_eq!(transfer.summary(), "✅ All files received successfully (0 files)");
}

#[test]
fn under_replace_every_file_is_fetched_whatever_exists() {
    let transfer = listing_directory(Mode::Replace);
    let (transfer, action) = transfer.step(listed(
        "/data/a.txt\n/data/sub/b.txt\n",
        Some("./out/sub/b.txt\n./out/a.txt\n"),
    ));
    assert_eq!(transfer.total(), 2);
    assert!(transfer.set_aside().is_empty());
    match action {
        Action::FanOut(tasks) => {
            assert_eq!(tasks.len(), 2);
            assert_eq!(tasks[0].mode, Mode::Replace);
            assert_eq!(tasks[1].local_path, "./out/sub/b.txt");
        }
        other => panic!("expected tasks, got {:?}", other),
    }
}

#[test]
fn an_empty_directory_ends_well_at_once() {
    let transfer = listing_directory(Mode::Replace);
    let (transfer, action) = transfer.step(listed("", None));
    assert_eq!(action, Action::Finish(Ok(())));
    assert_eq!(transfer.phase(), Phase::Done);
    assert_eq!(transfer.total(), 0);
}

#[test]
fn one_failure_fails_the_whole_and_cancels_nothing() {
    let transfer = listing_directory(Mode::Replace);
    let (transfer, action) = transfer.step(listed("/data/a\n/data/b\n/data/c\n", None));
    assert!(matches!(action, Action::FanOut(ref tasks) if tasks.len() == 3));
    let (transfer, action) = transfer.step(Event::Completed(TransferOutcome::Success));
    assert_eq!(action, Action::Wait);
    let (transfer, action) =
        transfer.step(Event::Completed(TransferOutcome::Failed(transport_error())));
    assert_eq!(action, Action::Wait);
    assert_eq!(transfer.phase(), Phase::Aggregate);
    assert_eq!(transfer.failed(), 1);
    let (transfer, action) = transfer.step(Event::Completed(TransferOutcome::Success));
    assert_eq!(
        action,
        Action::Finish(Err(ScpError::Io("One or more files failed to copy".to_string())))
    );
    assert_eq!(transfer.phase(), Phase::Done);
    assert_eq!(transfer.completed(), 3);
    assert_eq!(transfer.failed(), 1);
    assert_eq!(transfer.summary(), "1 of 3 files failed to copy");
}

#[test]
fn a_failure_at_the_end_fails_the_whole() {
    let transfer = listing_directory(Mode::Replace);
    let (transfer, _) = transfer.step(listed("/data/a\n/data/b\n", None));
    let (transfer, action) = transfer.step(Event::Completed(TransferOutcome::Skipped));
    assert_eq!(action, Action::Wait);
    let (transfer, action) =
        transfer.step(Event::Completed(TransferOutcome::Failed(transport_error())));
    assert_eq!(
        action,
        Action::Finish(Err(ScpError::Io("One or more files failed to copy".to_string())))
    );
    assert_eq!(transfer.skipped(), 1);
    assert_eq!(transfer.failed(), 1);
    assert_eq!(transfer.summary(), "1 of 2 files failed to copy");
}

#[test]
fn a_failed_listing_ends_the_transfer() {
    let transfer = listing_directory(Mode::Ignore);
    let (transfer, action) = transfer.step(Event::Failed(transport_error()));
    assert_eq!(action, Action::Finish(Err(transport_error())));
    assert_eq!(transfer.phase(), Phase::Done);
}

#[test]
fn a_listed_path_outside_the_source_fails_alone() {
    let failed = Action::Finish(Err(ScpError::Io("One or more files failed to copy".to_string())));
    let transfer = listing_directory(Mode::Replace);
    let (transfer, action) = transfer.step(listed("/data/a\nfind: oops\n/data/b\n", None));
    assert_eq!(transfer.phase(), Phase::Aggregate);
    assert_eq!(transfer.total(), 3);
    assert_eq!(transfer.completed(), 1);
    assert_eq!(transfer.failed(), 1);
    match action {
        Action::FanOut(tasks) => {
            assert_eq!(tasks.len(), 2);
            assert_eq!(tasks[0].remote_path, "/data/a");
            assert_eq!(tasks[0].local_path, "./out/a");
            assert_eq!(tasks[1].remote_path, "/data/b");
            assert_eq!(tasks[1].local_path, "./out/b");
        }
        other => panic!("expected tasks, got {:?}", other),
    }
    let (transfer, action) = transfer.step(Event::Completed(TransferOutcome::Success));
    assert_eq!(action, Action::Wait);
    assert_eq!(transfer.completed(), 2);
    let (transfer, action) = transfer.step(Event::Completed(TransferOutcome::Success));
    assert_eq!(action, failed);
    assert_eq!(transfer.phase(), Phase::Done);
    assert_eq!(transfer.completed(), 3);
    assert_eq!(transfer.failed(), 1);
    assert_eq!(transfer.rejected(), &vec!["find: oops".to_string()]);
    assert_eq!(transfer.summary(), "1 of 3 files failed to copy");
}

#[test]
fn a_listing_of_nothing_but_paths_outside_the_source_fails() {
    let transfer = listing_directory(Mode::Ignore);
    let (transfer, action) = transfer.step(listed("find: oops\n/etc/passwd\n", Some("")));
    assert_eq!(
        action,
        Action::Finish(Err(ScpError::Io("One or more files failed to copy".to_string())))
    );
    assert_eq!(transfer.phase(), Phase::Done);
    assert_eq!(transfer.total(), 2);
    assert_eq!(transfer.completed(), 2);
    assert_eq!(transfer.failed(), 2);
    assert_eq!(
        transfer.rejected(),
        &vec!["find: oops".to_string(), "/etc/passwd".to_string()]
    );
    assert_eq!(transfer.summary(), "2 of 2 files failed to copy");
}

#[test]
fn a_path_outside_the_source_fails_though_the_rest_exists() {
    let transfer = listing_directory(Mode::Ignore);
    let (transfer, action) =
        transfer.step(listed("/data/a\nfind: oops\n", Some("./out/a\n")));
    assert_eq!(
        action,
        Action::Finish(Err(ScpError::Io("One or more files failed to copy".to_string())))
    );
    assert_eq!(transfer.total(), 1);
    assert_eq!(transfer.failed(), 1);
    assert_eq!(transfer.set_aside(), &vec!["/data/a".to_string()]);
    assert_eq!(transfer.rejected(), &vec!["find: oops".to_string()]);
}

#[test]
fn an_event_out_of_turn_ends_the_transfer() {
    let unexpected = Action::Finish(Err(ScpError::Other("Unexpected event".to_string())));
    let transfer = Transfer::new(opts(), Mode::Ignore, "/data", "./out");
    let (transfer, action) = transfer.step(Event::Kind(RemotePathKind::File));
    assert_eq!(action, unexpected);
    assert_eq!(transfer.phase(), Phase::Done);
    let (transfer, action) = transfer.step(Event::Start);
    assert_eq!(action, unexpected);
    assert_eq!(transfer.phase(), Phase::Done);
    let transfer = listing_directory(Mode::Ignore);
    let (_, action) = transfer.step(Event::Completed(TransferOutcome::Success));
    assert_eq!(action, unexpected);
    let transfer = listing_directory(Mode::Replace);
    let (transfer, _) = transfer.step(listed("/data/a\n/data/b\n", None));
    let (transfer, action) = transfer.step(Event::Failed(transport_error()));
    assert_eq!(action, unexpected);
    assert_eq!(transfer.phase(), Phase::Done);
}

#[test]
fn the_summary_counts_in_decimal() {
    let transfer = listing_directory(Mode::Replace);
    let mut listing = String::new();
    for i in 0..120 {
        listing.push_str(&format!("/data/file{}\n", i));
    }
    let (mut transfer, action) = transfer.step(listed(&listing, None));
    assert!(matches!(action, Action::FanOut(ref tasks) if tasks.len() == 120));
    assert_eq!(transfer.summary(), "✅ All files received successfully (120 files)");
    for i in 0..120 {
        let outcome = if i % 10 == 3 {
            TransferOutcome::Failed(transport_error())
        } else {
            TransferOutcome::Success
        };
        let (next, action) = transfer.step(Event::Completed(outcome));
        transfer = next;
        if i < 119 {
            assert_eq!(action, Action::Wait);
            assert_eq!(transfer.completed(), i + 1);
        } else {
            assert!(matches!(action, Action::Finish(Err(_))));
        }
    }
    assert_eq!(transfer.failed(), 12);
    assert_eq!(transfer.summary(), "12 of 120 files failed to copy");
}
