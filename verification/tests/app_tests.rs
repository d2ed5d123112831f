use apt_console::app::{Action, App, Notification, NotificationKind, Panel, SelectedTab};
use apt_console::backend::{BackendCommand, BackendEvent};
use apt_console::pkg::Package;

#[test]
fn test_tab_expansion() {
    let app = App::new();

    // Verify default tab
    assert_eq!(app.selected_tab, SelectedTab::Installed);

    // Verify next tab (Installed -> Upgradable)
    let tab = SelectedTab::Installed.next();
    assert_eq!(tab, SelectedTab::Upgradable);

    // Verify next tab (Upgradable -> Online)
    let tab = SelectedTab::Upgradable.next();
    assert_eq!(tab, SelectedTab::Online);

    // Verify next tab wrap around (Online -> Installed)
    let tab = tab.next();
    assert_eq!(tab, SelectedTab::Installed);

    // Verify previous tab (Online -> Upgradable)
    assert_eq!(SelectedTab::Online.previous(), SelectedTab::Upgradable);
}

#[test]
fn test_online_packages_persistence() {
    let mut app = App::new();

    assert!(app.online_packages.is_empty());

    let pkgs = vec![Package::from_packagekit("pkg;1.0;all;apt", "Available", "Summary")];
    app.update(Action::BackendResponse(BackendEvent::SearchResultsFound(pkgs.clone())));

    assert_eq!(app.online_packages.len(), 1);
    assert_eq!(app.online_packages[0].name, "pkg");

    // Verify it persists after a "tick" or tab switch (simulated)
    app.selected_tab = SelectedTab::Installed;
    app.update(Action::Tick);
    assert_eq!(app.online_packages.len(), 1);
}

#[test]
fn test_trigger_online_search_dispatch() {
    let mut app = App::new();
    app.selected_tab = SelectedTab::Online;
    app.search_query = "vim".to_string();

    // Drain initial commands (ListInstalled, ListUpgradable)
    let _ = app.take_commands();

    app.update(Action::TriggerOnlineSearch);

    // Check if Search command was sent
    let cmds = app.take_commands();
    assert_eq!(cmds.len(), 1);
    if let BackendCommand::Search(q) = &cmds[0] {
        assert_eq!(q, "vim");
    } else {
        panic!("Expected Search command, got {:?}", cmds[0]);
    }
}

#[test]
fn test_notification_queue() {
    let mut app = App::new();

    assert!(app.notification_queue.is_empty());

    let notif1 = Notification::error("Error 1".to_string());
    app.push_notification(notif1.clone());

    assert_eq!(app.notification_queue.len(), 1);
    assert_eq!(app.notification_queue[0], notif1);

    let notif2 = Notification::info("Info 1".to_string());
    app.push_notification(notif2.clone());

    assert_eq!(app.notification_queue.len(), 2);
    assert_eq!(app.notification_queue[1], notif2);

    app.dismiss_notification();
    assert_eq!(app.notification_queue.len(), 1);
    assert_eq!(app.notification_queue[0], notif2);
}

#[test]
fn test_handle_backend_error_event() {
    let mut app = App::new();

    app.update(Action::BackendResponse(BackendEvent::Error("Test Error".to_string())));

    assert_eq!(app.notification_queue.len(), 1);
    assert_eq!(app.notification_queue[0].message, "Test Error");
    assert_eq!(app.notification_queue[0].kind, NotificationKind::Error);
}

#[test]
fn test_action_dismiss_notification() {
    let mut app = App::new();

    app.push_notification(Notification::info("Test".to_string()));
    assert_eq!(app.notification_queue.len(), 1);

    app.update(Action::DismissNotification);
    assert_eq!(app.notification_queue.len(), 0);
}

#[test]
fn test_error_event_opens_popup_and_ends_loading() {
    let mut app = App::new();
    app.update(Action::BackendResponse(BackendEvent::Error("broken".to_string())));
    assert!(!app.is_loading);
    assert!(app.popup.visible);
    assert_eq!(app.popup.title, "Error");
    assert_eq!(app.popup.message, "broken");
    assert!(app.popup.command_to_confirm.is_none());
}

#[test]
fn test_details_enrichment_is_replicated_and_atomic() {
    let mut app = App::new();
    let listing = vec![
        Package::from_packagekit("vim;9.1;amd64;apt", "Installed", ""),
        Package::from_packagekit("zsh;5.9;amd64;apt", "Installed", ""),
    ];
    app.update(Action::BackendResponse(BackendEvent::InstalledPackagesFound(listing)));
    assert_eq!(app.installed_packages.len(), 2);
    assert_eq!(app.filtered_packages.len(), 2);

    let mut details = Package::from_packagekit("vim;9.1;amd64;apt", "", "");
    details.update_details("A text editor", "Vim", 4331520, "https://www.vim.org/");
    app.update(Action::BackendResponse(BackendEvent::PackageDetailsFound(details)));

    for list in [&app.installed_packages, &app.filtered_packages] {
        let vim = list.iter().find(|p| p.name == "vim").unwrap();
        assert_eq!(vim.description, "A text editor");
        assert_eq!(vim.license, "Vim");
        assert_eq!(vim.size, 4331520);
        assert_eq!(vim.url, "https://www.vim.org/");
        let zsh = list.iter().find(|p| p.name == "zsh").unwrap();
        assert_eq!(zsh.description, "");
        assert_eq!(zsh.license, "");
        assert_eq!(zsh.size, 0);
        assert_eq!(zsh.url, "");
    }
}

#[test]
fn test_selection_wraps_and_requests_details() {
    let mut app = App::new();
    let listing = vec![
        Package::from_packagekit("a;1;all;apt", "Installed", ""),
        Package::from_packagekit("b;1;all;apt", "Installed", ""),
    ];
    app.update(Action::BackendResponse(BackendEvent::InstalledPackagesFound(listing)));
    assert_eq!(app.list_selected, Some(0));

    let _ = app.take_commands();
    app.update(Action::SelectNext);
    assert_eq!(app.list_selected, Some(1));
    app.update(Action::SelectNext);
    assert_eq!(app.list_selected, Some(0));
    app.update(Action::SelectPrev);
    assert_eq!(app.list_selected, Some(1));

    let cmds = app.take_commands();
    assert_eq!(cmds.len(), 3);
    assert!(matches!(&cmds[0], BackendCommand::GetDetails(id) if id == "b;1;all;apt"));
    assert!(matches!(&cmds[1], BackendCommand::GetDetails(id) if id == "a;1;all;apt"));
    assert!(matches!(&cmds[2], BackendCommand::GetDetails(id) if id == "b;1;all;apt"));
}

#[test]
fn test_confirmation_gate() {
    let mut app = App::new();
    let listing = vec![Package::from_packagekit("vim;9.1;amd64;apt", "Installed", "")];
    app.update(Action::BackendResponse(BackendEvent::InstalledPackagesFound(listing)));
    let _ = app.take_commands();

    // Staging opens the popup without dispatching.
    app.update(Action::RequestUninstall);
    assert!(app.popup.visible);
    assert_eq!(app.popup.title, "Confirm Uninstall");
    assert_eq!(app.popup.message, "Remove vim?");
    assert!(app.take_commands().is_empty());

    // Cancelling discards the staged command.
    app.update(Action::CancelAction);
    assert!(!app.popup.visible);
    assert!(app.popup.command_to_confirm.is_none());
    assert!(app.take_commands().is_empty());

    // Confirming after staging dispatches it.
    app.update(Action::RequestUninstall);
    app.update(Action::ConfirmAction);
    assert!(!app.popup.visible);
    let cmds = app.take_commands();
    assert_eq!(cmds.len(), 1);
    assert!(matches!(&cmds[0], BackendCommand::Remove(id) if id == "vim;9.1;amd64;apt"));
}

#[test]
fn test_task_finished_refreshes_after_mutation() {
    let mut app = App::new();
    let _ = app.take_commands();

    app.update(Action::BackendResponse(BackendEvent::TaskFinished(BackendCommand::Remove(
        "vim;9.1;amd64;apt".to_string(),
    ))));
    let cmds = app.take_commands();
    assert_eq!(cmds, vec![BackendCommand::ListInstalled, BackendCommand::ListUpgradable]);
    assert!(app.is_loading);

    app.update(Action::BackendResponse(BackendEvent::TaskFinished(
        BackendCommand::ListInstalled,
    )));
    assert!(!app.is_loading);
    assert!(app.take_commands().is_empty());
}

#[test]
fn test_task_started_sets_loading_message() {
    let mut app = App::new();
    app.update(Action::BackendResponse(BackendEvent::TaskStarted("Unpacking vim...".to_string())));
    assert!(app.is_loading);
    assert_eq!(app.loading_msg, "Unpacking vim...");
}

#[test]
fn test_toggle_focus_and_quit() {
    let mut app = App::new();
    assert_eq!(app.active_panel, Panel::PackageList);
    app.update(Action::ToggleFocus);
    assert_eq!(app.active_panel, Panel::Details);
    app.update(Action::ToggleFocus);
    assert_eq!(app.active_panel, Panel::PackageList);

    assert!(!app.should_quit);
    app.update(Action::Quit);
    assert!(app.should_quit);
}

#[test]
fn test_search_mode_query_editing() {
    let mut app = App::new();
    let listing = vec![
        Package::from_packagekit("vim;9.1;amd64;apt", "Installed", ""),
        Package::from_packagekit("emacs;29;amd64;apt", "Installed", ""),
    ];
    app.update(Action::BackendResponse(BackendEvent::InstalledPackagesFound(listing)));

    app.update(Action::EnterSearchMode);
    assert!(app.is_searching);
    assert_eq!(app.search_query, "");
    assert_eq!(app.filtered_packages.len(), 2);

    app.update(Action::UpdateSearchQuery('v'));
    app.update(Action::UpdateSearchQuery('i'));
    assert_eq!(app.search_query, "vi");
    assert_eq!(app.filtered_packages.len(), 1);
    assert_eq!(app.filtered_packages[0].name, "vim");

    app.update(Action::DeleteSearchChar);
    assert_eq!(app.search_query, "v");

    app.update(Action::ExitSearchMode);
    assert!(!app.is_searching);
}
