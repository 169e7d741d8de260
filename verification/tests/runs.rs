use subvol_backup::{
    advance, conclude, pass, report, run, Backup, Command, Failure, Host, Mount, Phase, Progress,
    Reply, Request, Settings, State,
};

fn command(program: &str, args: &[&str]) -> Command {
    Command { program: program.to_string(), args: args.iter().map(|arg| arg.to_string()).collect() }
}

fn print(line: &str) -> Request {
    Request::Print { line: line.to_string() }
}

fn status(program: &str, args: &[&str]) -> Request {
    Request::Status { command: command(program, args) }
}

fn rename(from: &str, to: &str) -> Request {
    Request::Rename { from: from.to_string(), to: to.to_string() }
}

fn settings(names: &[&str]) -> Settings {
    Settings {
        source_disk: "/dev/sda1".to_string(),
        source_mount: "/mnt/src".to_string(),
        target_disk: "/dev/sdb1".to_string(),
        target_mount: "/mnt/dst".to_string(),
        subvolumes: names.iter().map(|name| name.to_string()).collect(),
    }
}

fn backup(name: &str) -> Backup {
    Backup::new(name.to_string(), &Mount("/mnt/src".to_string()), &Mount("/mnt/dst".to_string()))
}

/// Carries a run to its end as a caller does: each pending request gets
/// the reply that `answer` gives for it.
fn drive(
    dry_run: bool,
    settings: &Settings,
    answer: &dyn Fn(usize, &Request) -> Reply,
) -> (Vec<Request>, i32) {
    let mut script: Vec<Reply> = Vec::new();
    let mut performed: Vec<Request> = Vec::new();
    loop {
        match advance(dry_run, settings, script.clone()) {
            Progress::Finished { exit_code } => return (performed, exit_code),
            Progress::Pending(request) => {
                assert!(performed.len() < 1000);
                script.push(answer(performed.len(), &request));
                performed.push(request);
            },
        }
    }
}

fn lines(requests: &[Request]) -> Vec<String> {
    requests
        .iter()
        .filter_map(|request| match request {
            Request::Print { line } => Some(line.clone()),
            _ => None,
        })
        .collect()
}

fn always_done(_: usize, _: &Request) -> Reply {
    Reply::Done
}

#[test]
fn run_of_two_backups_where_the_first_fails_to_stage() {
    let settings = settings(&["home", "var"]);
    let (performed, exit_code) = drive(false, &settings, &|_, request| match request {
        Request::Status { command } if command.args.contains(&"/mnt/src/home".to_string()) => {
            Reply::Exited { code: 1 }
        },
        Request::Status { .. } | Request::Receive { .. } | Request::Wait => {
            Reply::Exited { code: 0 }
        },
        _ => Reply::Done,
    });
    assert_eq!(exit_code, 1);
    let var_send =
        command("btrfs", &["send", "-p", "/mnt/src/snapshots/var", "/mnt/src/snapshots/var-new"]);
    assert_eq!(
        performed,
        vec![
            print("mount -o subvol=/ /dev/sda1 /mnt/src"),
            status("mount", &["-o", "subvol=/", "/dev/sda1", "/mnt/src"]),
            print("mount -o subvol=/ /dev/sdb1 /mnt/dst"),
            status("mount", &["-o", "subvol=/", "/dev/sdb1", "/mnt/dst"]),
            print("btrfs subvolume snapshot -r /mnt/src/home /mnt/src/snapshots/home-new"),
            status(
                "btrfs",
                &["subvolume", "snapshot", "-r", "/mnt/src/home", "/mnt/src/snapshots/home-new"],
            ),
            print("btrfs subvolume snapshot -r /mnt/src/var /mnt/src/snapshots/var-new"),
            status(
                "btrfs",
                &["subvolume", "snapshot", "-r", "/mnt/src/var", "/mnt/src/snapshots/var-new"],
            ),
            print(
                "btrfs send -p /mnt/src/snapshots/var /mnt/src/snapshots/var-new \
                 | btrfs receive /mnt/dst",
            ),
            Request::Spawn { command: var_send },
            Request::Receive { command: command("btrfs", &["receive", "/mnt/dst"]) },
            Request::Wait,
            print("btrfs subvolume delete /mnt/dst/var"),
            status("btrfs", &["subvolume", "delete", "/mnt/dst/var"]),
            print("mv /mnt/dst/var-new /mnt/dst/var"),
            rename("/mnt/dst/var-new", "/mnt/dst/var"),
            print("btrfs subvolume delete /mnt/src/snapshots/var"),
            status("btrfs", &["subvolume", "delete", "/mnt/src/snapshots/var"]),
            print("mv /mnt/src/snapshots/var-new /mnt/src/snapshots/var"),
            rename("/mnt/src/snapshots/var-new", "/mnt/src/snapshots/var"),
            print("Backup home: Command failed with 1"),
            print("Backup var: Success"),
            print("umount /mnt/dst"),
            status("umount", &["/mnt/dst"]),
            print("umount /mnt/src"),
            status("umount", &["/mnt/src"]),
        ]
    );
}

#[test]
fn dry_run_of_one_backup_shows_every_step() {
    let (performed, exit_code) = drive(true, &settings(&["etc"]), &always_done);
    assert_eq!(exit_code, 0);
    assert_eq!(
        performed,
        vec![
            print("mount -o subvol=/ /dev/sda1 /mnt/src"),
            print("mount -o subvol=/ /dev/sdb1 /mnt/dst"),
            print("btrfs subvolume snapshot -r /mnt/src/etc /mnt/src/snapshots/etc-new"),
            print(
                "btrfs send -p /mnt/src/snapshots/etc /mnt/src/snapshots/etc-new \
                 | btrfs receive /mnt/dst",
            ),
            print("btrfs subvolume delete /mnt/dst/etc"),
            print("mv /mnt/dst/etc-new /mnt/dst/etc"),
            print("btrfs subvolume delete /mnt/src/snapshots/etc"),
            print("mv /mnt/src/snapshots/etc-new /mnt/src/snapshots/etc"),
            print("Backup etc: Success (DRY RUN)"),
            print("umount /mnt/dst"),
            print("umount /mnt/src"),
        ]
    );
}

#[test]
fn dry_run_asks_only_for_lines_whatever_the_replies() {
    let settings = settings(&["home", "var", "etc"]);
    let (performed, exit_code) = drive(true, &settings, &|at, _| match at % 2 {
        0 => Reply::Signaled,
        _ => Reply::Exited { code: 1 },
    });
    assert_eq!(exit_code, 0);
    assert_eq!(performed.len(), 2 + 3 * 7 + 2);
    assert!(performed.iter().all(|request| matches!(request, Request::Print { .. })));
    let told = lines(&performed);
    assert!(told.contains(&"Backup home: Success (DRY RUN)".to_string()));
    assert!(told.contains(&"Backup var: Success (DRY RUN)".to_string()));
    assert!(told.contains(&"Backup etc: Success (DRY RUN)".to_string()));
}

#[test]
fn run_without_failure_reports_what_the_dry_run_reports() {
    let settings = settings(&["home", "var"]);
    let (real, real_code) = drive(false, &settings, &always_done);
    let (dry, dry_code) = drive(true, &settings, &always_done);
    assert_eq!(real_code, 0);
    assert_eq!(dry_code, 0);
    let shown: Vec<String> =
        lines(&dry).iter().map(|line| line.replace(" (DRY RUN)", "")).collect();
    assert_eq!(lines(&real), shown);
}

#[test]
fn exit_code_is_zero_when_every_backup_succeeds() {
    let (performed, exit_code) = drive(false, &settings(&["home", "var"]), &always_done);
    assert_eq!(exit_code, 0);
    assert_eq!(performed.len(), 4 + 2 * 2 + 2 * 4 + 2 * 8 + 2 + 4);
}

#[test]
fn exit_code_is_one_when_any_backup_fails() {
    for failing in ["home", "var", "etc"] {
        let (performed, exit_code) =
            drive(false, &settings(&["home", "var", "etc"]), &|_, request| match request {
                Request::Rename { to, .. } if to.ends_with(failing) => {
                    Reply::Failed { reason: "Read-only file system".to_string() }
                },
                _ => Reply::Done,
            });
        assert_eq!(exit_code, 1);
        let told = lines(&performed);
        for name in ["home", "var", "etc"] {
            let expected = if name == failing {
                format!("Backup {name}: Read-only file system")
            } else {
                format!("Backup {name}: Success")
            };
            assert!(told.contains(&expected));
        }
    }
}

#[test]
fn exit_code_is_one_when_every_backup_fails() {
    let (performed, exit_code) =
        drive(false, &settings(&["home", "var"]), &|_, request| match request {
            Request::Status { command } if command.program == "btrfs" => Reply::Signaled,
            _ => Reply::Done,
        });
    assert_eq!(exit_code, 1);
    assert_eq!(
        lines(&performed)[4..6],
        [
            "Backup home: Command failed with signal".to_string(),
            "Backup var: Command failed with signal".to_string(),
        ]
    );
}

#[test]
fn exit_code_is_two_when_the_source_cannot_be_mounted() {
    let (performed, exit_code) = drive(false, &settings(&["home"]), &|at, _| match at {
        1 => Reply::Exited { code: 32 },
        _ => Reply::Done,
    });
    assert_eq!(exit_code, 2);
    assert_eq!(
        performed,
        vec![
            print("mount -o subvol=/ /dev/sda1 /mnt/src"),
            status("mount", &["-o", "subvol=/", "/dev/sda1", "/mnt/src"]),
            Request::Complain { line: "Error: Command failed with 32".to_string() },
        ]
    );
}

#[test]
fn exit_code_is_two_when_the_target_cannot_be_mounted() {
    let (performed, exit_code) = drive(false, &settings(&["home"]), &|at, _| match at {
        3 => Reply::Signaled,
        _ => Reply::Done,
    });
    assert_eq!(exit_code, 2);
    assert_eq!(
        performed,
        vec![
            print("mount -o subvol=/ /dev/sda1 /mnt/src"),
            status("mount", &["-o", "subvol=/", "/dev/sda1", "/mnt/src"]),
            print("mount -o subvol=/ /dev/sdb1 /mnt/dst"),
            status("mount", &["-o", "subvol=/", "/dev/sdb1", "/mnt/dst"]),
            print("umount /mnt/src"),
            status("umount", &["/mnt/src"]),
            Request::Complain { line: "Error: Command failed with signal".to_string() },
        ]
    );
}

#[test]
fn run_without_subvolumes_mounts_and_unmounts() {
    let (performed, exit_code) = drive(false, &settings(&[]), &always_done);
    assert_eq!(exit_code, 0);
    assert_eq!(
        lines(&performed),
        vec![
            "mount -o subvol=/ /dev/sda1 /mnt/src".to_string(),
            "mount -o subvol=/ /dev/sdb1 /mnt/dst".to_string(),
            "umount /mnt/dst".to_string(),
            "umount /mnt/src".to_string(),
        ]
    );
}

#[test]
fn failed_unmount_changes_nothing() {
    let (_, exit_code) = drive(false, &settings(&["home"]), &|_, request| match request {
        Request::Status { command } if command.program == "umount" => Reply::Exited { code: 1 },
        _ => Reply::Done,
    });
    assert_eq!(exit_code, 0);
}

#[test]
fn failed_transfer_leaves_both_sides_uncommitted() {
    let (performed, exit_code) = drive(false, &settings(&["home", "var"]), &|_, request| {
        match request {
            Request::Receive { .. } => Reply::Exited { code: 1 },
            _ => Reply::Done,
        }
    });
    assert_eq!(exit_code, 1);
    assert!(!performed.iter().any(|request| matches!(request, Request::Rename { .. })));
    assert_eq!(
        performed.iter().filter(|request| matches!(request, Request::Wait)).count(),
        2
    );
    let told = lines(&performed);
    assert!(told.contains(&"Backup home: Receive command failed".to_string()));
    assert!(told.contains(&"Backup var: Receive command failed".to_string()));
}

#[test]
fn every_started_sender_is_waited_for_before_the_next() {
    let refused = |reason: &str| Reply::Failed { reason: reason.to_string() };
    let (performed, exit_code) = drive(false, &settings(&["a", "b", "c", "d"]), &|_, request| {
        match request {
            Request::Spawn { command } if command.args.iter().any(|arg| arg.ends_with("/d")) => {
                refused("no sender")
            },
            Request::Receive { .. } => refused("no receiver"),
            _ => Reply::Done,
        }
    });
    assert_eq!(exit_code, 1);
    let mut started = 0;
    for (at, request) in performed.iter().enumerate() {
        if let Request::Spawn { command } = request {
            if command.args.iter().any(|arg| arg.ends_with("/d")) {
                assert!(!matches!(performed[at + 1], Request::Receive { .. }));
            } else {
                started += 1;
                assert!(matches!(performed[at + 1], Request::Receive { .. }));
                assert_eq!(performed[at + 2], Request::Wait);
            }
        }
    }
    assert_eq!(started, 3);
    assert_eq!(performed.iter().filter(|request| **request == Request::Wait).count(), 3);
    let told = lines(&performed);
    assert!(told.contains(&"Backup a: no receiver".to_string()));
    assert!(told.contains(&"Backup d: no sender".to_string()));
}

#[test]
fn phases_go_over_the_whole_batch_one_after_another() {
    let (performed, _) = drive(false, &settings(&["a", "b"]), &always_done);
    let told = lines(&performed);
    let at = |start: &str| told.iter().position(|line| line.starts_with(start)).unwrap();
    assert!(
        at("btrfs subvolume snapshot -r /mnt/src/b") < at("btrfs send -p /mnt/src/snapshots/a")
    );
    assert!(at("btrfs send -p /mnt/src/snapshots/b") < at("btrfs subvolume delete /mnt/dst/a"));
    assert!(at("mv /mnt/src/snapshots/b-new") < at("Backup a"));
    assert!(at("Backup b") < at("umount /mnt/dst"));
}

#[test]
fn advance_asks_for_the_first_line_first() {
    let progress = advance(false, &settings(&["home"]), Vec::new());
    assert_eq!(progress, Progress::Pending(print("mount -o subvol=/ /dev/sda1 /mnt/src")));
}

#[test]
fn advance_with_more_replies_repeats_no_request() {
    let settings = settings(&["home", "var"]);
    let answer = |at: usize| -> Reply {
        match at % 5 {
            3 => Reply::Exited { code: 0 },
            4 => Reply::Done,
            _ => Reply::Exited { code: (at % 3) as i32 },
        }
    };
    let mut script: Vec<Reply> = Vec::new();
    let mut seen: Vec<Request> = Vec::new();
    loop {
        let mut host = Host::new(false, script.clone());
        let result = run(&settings, &mut host);
        conclude(&result, &mut host);
        assert!(host.journal.len() <= script.len() + 1);
        assert_eq!(host.journal[..seen.len()], seen[..]);
        match host.pending() {
            None => break,
            Some(request) => {
                assert_eq!(host.journal.len(), script.len() + 1);
                seen.push(request);
                script.push(answer(script.len()));
            },
        }
    }
    assert!(!seen.is_empty());
}

#[test]
fn advance_ignores_replies_beyond_the_end() {
    let settings = settings(&[]);
    let mut script = vec![Reply::Done; 8];
    script.push(Reply::Signaled);
    script.push(Reply::Failed { reason: "late".to_string() });
    assert_eq!(advance(false, &settings, script), Progress::Finished { exit_code: 0 });
}

#[test]
fn run_returns_the_failure_to_mount() {
    let refused = Reply::Failed { reason: "no mount".to_string() };
    let mut host = Host::new(false, vec![Reply::Done, refused]);
    let result = run(&settings(&["home"]), &mut host);
    assert_eq!(result, Err(Failure::SpawnFailed { reason: "no mount".to_string() }));
    assert_eq!(host.journal.len(), 2);
}

#[test]
fn run_tells_whether_all_succeeded() {
    let mut host = Host::new(false, vec![Reply::Done; 64]);
    assert_eq!(run(&settings(&["home", "var"]), &mut host), Ok(true));
    let mut replies = vec![Reply::Done; 64];
    replies[5] = Reply::Exited { code: 1 };
    let mut host = Host::new(false, replies);
    assert_eq!(run(&settings(&["home", "var"]), &mut host), Ok(false));
    assert_eq!(host.pending(), None);
}

#[test]
fn conclude_gives_the_exit_status() {
    let mut host = Host::new(false, vec![Reply::Done]);
    assert_eq!(conclude(&Ok(true), &mut host), 0);
    assert_eq!(conclude(&Ok(false), &mut host), 1);
    assert!(host.journal.is_empty());
    assert_eq!(conclude(&Err(Failure::CommandFailed { exit_code: 32 }), &mut host), 2);
    assert_eq!(
        host.journal,
        vec![Request::Complain { line: "Error: Command failed with 32".to_string() }]
    );
}

#[test]
fn pass_runs_one_phase_on_every_backup() {
    let mut backups = vec![backup("a"), backup("b"), backup("c")];
    let mut replies = vec![Reply::Done; 6];
    replies[3] = Reply::Exited { code: 7 };
    let mut host = Host::new(false, replies);
    pass(&mut backups, Phase::Stage, &mut host);
    assert_eq!(host.journal.len(), 6);
    assert_eq!(backups[0], backup("a"));
    assert_eq!(*backups[1].state(), State::Failed(Failure::CommandFailed { exit_code: 7 }));
    assert_eq!(backups[2], backup("c"));
    let mut host = Host::new(false, vec![Reply::Done; 8]);
    pass(&mut backups, Phase::Transfer, &mut host);
    assert_eq!(host.journal.len(), 8);
    assert_eq!(*backups[1].state(), State::Failed(Failure::CommandFailed { exit_code: 7 }));
}

#[test]
fn pass_over_no_backups_asks_nothing() {
    let mut backups: Vec<Backup> = Vec::new();
    let mut host = Host::new(false, vec![Reply::Done]);
    pass(&mut backups, Phase::Commit, &mut host);
    assert!(host.journal.is_empty());
}

#[test]
fn report_tells_of_every_backup_in_order() {
    let mut failed = backup("b");
    let mut host =
        Host::new(false, vec![Reply::Done, Reply::Done, Reply::Done, Reply::Exited { code: 1 }]);
    failed.replicate(&mut host);
    assert_eq!(*failed.state(), State::Failed(Failure::SendFailed));
    let mut host = Host::new(false, vec![Reply::Done; 3]);
    assert!(!report(vec![backup("a"), failed, backup("c")], &mut host));
    assert_eq!(
        host.journal,
        vec![
            print("Backup a: Success"),
            print("Backup b: Send command failed"),
            print("Backup c: Success"),
        ]
    );
    let mut host = Host::new(false, vec![Reply::Done; 3]);
    assert!(report(vec![backup("a"), backup("c")], &mut host));
    let mut host = Host::new(false, Vec::new());
    assert!(report(Vec::new(), &mut host));
}
