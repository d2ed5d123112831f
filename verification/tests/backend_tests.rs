use apt_console::backend::{
    capture_events, initial_events, launch_failure_events, parse_apt_signal, plan_for,
    refresh_phase_events, stream_exit_events, stream_line_event, AptInvocation, BackendCommand,
    BackendEvent, ExitOutcome,
};

#[test]
fn test_parse_apt_signal() {
    assert_eq!(
        parse_apt_signal("Unpacking vim (2:9.1)..."),
        Some("Unpacking vim (2:9.1)...".to_string())
    );
    assert_eq!(parse_apt_signal("Setting up vim..."), Some("Setting up vim...".to_string()));
    assert_eq!(
        parse_apt_signal("Hit:1 http://archive.ubuntu.com/ubuntu noble InRelease"),
        Some("Hit:1 http://archive.ubuntu.com/ubuntu noble InRelease".to_string())
    );
    assert_eq!(parse_apt_signal("Not interesting output"), None);
}

#[test]
fn test_initial_events_name_the_operation() {
    let evs = initial_events(&BackendCommand::ListInstalled);
    assert_eq!(evs.len(), 1);
    assert!(matches!(&evs[0], BackendEvent::TaskStarted(m) if m == "Listing installed packages..."));

    let evs = initial_events(&BackendCommand::Search("vim".to_string()));
    assert_eq!(evs.len(), 1);
    assert!(matches!(&evs[0], BackendEvent::TaskStarted(m) if m == "Searching 'vim'..."));

    assert!(initial_events(&BackendCommand::Install("vim;1;a;apt".to_string())).is_empty());

    let evs = initial_events(&BackendCommand::GetDetails("vim;1;a;apt".to_string()));
    assert_eq!(evs.len(), 1);
    assert!(matches!(&evs[0], BackendEvent::TaskStarted(m) if m == "Fetching details for 'vim'..."));
}

#[test]
fn test_plan_extracts_target_name() {
    let plan = plan_for(&BackendCommand::GetDetails(
        "adduser;3.137ubuntu1;all;installed:ubuntu-noble-main".to_string(),
    ));
    assert!(!plan.streamed);
    assert!(matches!(plan.invocation, AptInvocation::ShowDetails(n) if n == "adduser"));

    let plan = plan_for(&BackendCommand::Remove("vim;9.1;amd64;apt".to_string()));
    assert!(plan.streamed);
    assert!(matches!(plan.invocation, AptInvocation::RemovePkg(n) if n == "vim"));

    let plan = plan_for(&BackendCommand::UpgradeSystem);
    assert!(plan.upgrade_after);
    assert!(matches!(plan.invocation, AptInvocation::UpdateRepos));
}

#[test]
fn test_capture_events_list_installed() {
    let cmd = BackendCommand::ListInstalled;
    let output = "adduser/noble,now 3.137ubuntu1 all [installed,automatic]\n".to_string();
    let evs = capture_events(cmd.clone(), Ok(output));
    assert_eq!(evs.len(), 2);
    match &evs[0] {
        BackendEvent::InstalledPackagesFound(pkgs) => {
            assert_eq!(pkgs.len(), 1);
            assert_eq!(pkgs[0].name, "adduser");
            assert_eq!(pkgs[0].status, "Installed");
        }
        other => panic!("unexpected event {:?}", other),
    }
    assert_eq!(evs[1], BackendEvent::TaskFinished(cmd));
}

#[test]
fn test_capture_events_get_details() {
    let id = "adduser;3.137ubuntu1;all;installed:ubuntu-noble-main";
    let cmd = BackendCommand::GetDetails(id.to_string());
    let output = "Installed-Size: 20 kB\nHomepage: https://example.org/\n".to_string();
    let evs = capture_events(cmd.clone(), Ok(output));
    assert_eq!(evs.len(), 2);
    match &evs[0] {
        BackendEvent::PackageDetailsFound(p) => {
            assert_eq!(p.id, id);
            assert_eq!(p.name, "adduser");
            assert_eq!(p.size, 20 * 1024);
            assert_eq!(p.url, "https://example.org/");
            assert_eq!(p.license, "Unknown");
        }
        other => panic!("unexpected event {:?}", other),
    }
    assert_eq!(evs[1], BackendEvent::TaskFinished(cmd));
}

#[test]
fn test_capture_events_errors_name_the_operation() {
    let evs = capture_events(BackendCommand::ListInstalled, Err("boom".to_string()));
    assert_eq!(evs[0], BackendEvent::Error("Failed to list installed: boom".to_string()));

    let evs = capture_events(BackendCommand::ListUpgradable, Err("boom".to_string()));
    assert_eq!(evs[0], BackendEvent::Error("Failed to list upgradable: boom".to_string()));

    let evs = capture_events(BackendCommand::Search("q".to_string()), Err("boom".to_string()));
    assert_eq!(evs[0], BackendEvent::Error("Search failed: boom".to_string()));

    let evs = capture_events(
        BackendCommand::GetDetails("vim;1;a;apt".to_string()),
        Err("boom".to_string()),
    );
    assert_eq!(
        evs[0],
        BackendEvent::Error("Failed to fetch details for 'vim': boom".to_string())
    );
}

#[test]
fn test_task_lifecycle_single_finish() {
    // One command's whole trace: progress first, exactly one TaskFinished, last.
    let cmd = BackendCommand::Search("vim".to_string());
    let mut trace = initial_events(&cmd);
    trace.extend(capture_events(cmd.clone(), Ok("".to_string())));
    let finishes: Vec<usize> = trace
        .iter()
        .enumerate()
        .filter(|(_, e)| matches!(e, BackendEvent::TaskFinished(_)))
        .map(|(i, _)| i)
        .collect();
    assert_eq!(finishes, vec![trace.len() - 1]);
    assert_eq!(*trace.last().unwrap(), BackendEvent::TaskFinished(cmd));
}

#[test]
fn test_stream_line_event_classification() {
    let ev = stream_line_event("Unpacking vim (2:9.1)...", false);
    assert!(matches!(ev, Some(BackendEvent::TaskStarted(m)) if m == "Unpacking vim (2:9.1)..."));

    let ev = stream_line_event("Err:1 http://archive.ubuntu.com noble", true);
    assert!(
        matches!(ev, Some(BackendEvent::TaskStarted(m)) if m == "Error: Err:1 http://archive.ubuntu.com noble")
    );

    assert!(stream_line_event("Reading package lists...", false).is_none());
    assert!(stream_line_event("   ", false).is_none());
}

#[test]
fn test_stream_exit_events() {
    let cmd = BackendCommand::Remove("vim;1;a;apt".to_string());
    let evs = stream_exit_events(
        cmd.clone(),
        &ExitOutcome::Exited { success: true, status: "exit status: 0".to_string() },
    );
    assert_eq!(evs, vec![BackendEvent::TaskFinished(cmd.clone())]);

    let evs = stream_exit_events(
        cmd.clone(),
        &ExitOutcome::Exited { success: false, status: "exit status: 100".to_string() },
    );
    assert_eq!(evs.len(), 2);
    assert_eq!(
        evs[0],
        BackendEvent::Error("Command failed with status: exit status: 100".to_string())
    );
    assert_eq!(evs[1], BackendEvent::TaskFinished(cmd.clone()));

    let evs = stream_exit_events(cmd.clone(), &ExitOutcome::WaitFailed("gone".to_string()));
    assert_eq!(evs[0], BackendEvent::Error("Wait failed: gone".to_string()));
    assert_eq!(evs[1], BackendEvent::TaskFinished(cmd));
}

#[test]
fn test_launch_failure_events() {
    let evs = launch_failure_events(BackendCommand::RefreshRepos, "no binary");
    assert_eq!(evs[0], BackendEvent::Error("Refresh failed: no binary".to_string()));
    assert_eq!(evs[1], BackendEvent::TaskFinished(BackendCommand::RefreshRepos));

    let evs = launch_failure_events(BackendCommand::UpgradeSystem, "no binary");
    assert_eq!(evs[0], BackendEvent::Error("Upgrade failed: no binary".to_string()));

    let evs = launch_failure_events(BackendCommand::Install("x;1;a;apt".to_string()), "denied");
    assert_eq!(evs[0], BackendEvent::Error("Failed to launch: denied".to_string()));
}

#[test]
fn test_refresh_phase_events() {
    let (evs, proceed) = refresh_phase_events(BackendCommand::UpgradeSystem, true, "");
    assert!(proceed);
    assert_eq!(evs, vec![BackendEvent::TaskStarted("Upgrading system...".to_string())]);

    let (evs, proceed) = refresh_phase_events(BackendCommand::UpgradeSystem, false, "mirror down");
    assert!(!proceed);
    assert_eq!(evs[0], BackendEvent::Error("Update failed: mirror down".to_string()));
    assert_eq!(evs[1], BackendEvent::TaskFinished(BackendCommand::UpgradeSystem));
}
