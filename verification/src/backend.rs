//! The backend worker's vocabulary and decision logic.
//!
//! A command names one package-manager operation; executing it yields a
//! stream of events framed by the task-lifecycle protocol: progress events
//! first, then one terminal result or error, then exactly one
//! `TaskFinished` carrying the originating command.  The functions here
//! decide, from plain values, which subprocess to run and which events each
//! outcome yields; the application shell performs the subprocess work.

use vstd::prelude::*;

use crate::apt::{list_models, parse_apt_list, parse_apt_search, parse_apt_show, search_models,
    show_model, DetailsView};
use crate::pkg::{from_ident_view, pkg_views, Package, PkgView};
use crate::text::{has_prefix, lemma_split_by_nonempty, sep_pred, split_char, split_str,
    str_starts_with, trim_str, trimmed};

verus! {

/// One request to the backend worker.
#[derive(Debug, Clone, PartialEq)]
pub enum BackendCommand {
    ListInstalled,
    ListUpgradable,
    Search(String),
    GetDetails(String),
    Install(String),
    Remove(String),
    Reinstall(String),
    RefreshRepos,
    UpgradeSystem,
}

/// One result or progress notification from the backend worker.
#[derive(Debug, Clone, PartialEq)]
pub enum BackendEvent {
    InstalledPackagesFound(Vec<Package>),
    UpgradablePackagesFound(Vec<Package>),
    SearchResultsFound(Vec<Package>),
    PackageDetailsFound(Package),
    TaskStarted(String),
    TaskFinished(BackendCommand),
    Error(String),
}

/// Every event in `evs` is a progress notification.
pub open spec fn all_progress(evs: Seq<BackendEvent>) -> bool {
    forall|k: int| 0 <= k < evs.len() ==> evs[k] is TaskStarted
}

/// `evs` closes the task of `cmd`: its last event is `TaskFinished(cmd)`,
/// and no other event in it finishes a task.
pub open spec fn finishes_task(evs: Seq<BackendEvent>, cmd: BackendCommand) -> bool {
    &&& evs.len() >= 1
    &&& evs.last() == BackendEvent::TaskFinished(cmd)
    &&& forall|k: int| 0 <= k < evs.len() - 1 ==> !(evs[k] is TaskFinished)
}

/// Law: over a whole task — any progress events followed by its closing
/// events — exactly one `TaskFinished` is observed, it carries the
/// originating command, and it comes last.
pub proof fn lemma_task_lifecycle(
    pre: Seq<BackendEvent>,
    term: Seq<BackendEvent>,
    cmd: BackendCommand,
)
    requires
        all_progress(pre),
        finishes_task(term, cmd),
    ensures
        (pre + term).len() >= 1,
        (pre + term).last() == BackendEvent::TaskFinished(cmd),
        forall|k: int|
            0 <= k < (pre + term).len() ==> (((pre + term)[k] is TaskFinished) <==> k == (pre
                + term).len() - 1),
{
    let t = pre + term;
    assert(t.last() == term.last());
    assert forall|k: int| 0 <= k < t.len() implies ((t[k] is TaskFinished) <==> k == t.len()
        - 1) by {
        if k < pre.len() {
            assert(t[k] == pre[k]);
        } else {
            assert(t[k] == term[k - pre.len()]);
        }
    }
}

/// The subprocess invocations the worker can ask for.
#[derive(Debug, Clone, PartialEq)]
pub enum AptInvocation {
    ListInstalled,
    ListUpgradable,
    Search(String),
    ShowDetails(String),
    InstallPkg(String),
    RemovePkg(String),
    ReinstallPkg(String),
    UpdateRepos,
    UpgradeAll,
}

/// What executing one command takes: the invocation to run, whether its
/// output is streamed line by line, and whether the system upgrade follows
/// as a second phase.
#[derive(Debug, PartialEq)]
pub struct TaskPlan {
    pub invocation: AptInvocation,
    pub streamed: bool,
    pub upgrade_after: bool,
}

/// The package name inside a composite identifier: its first field.
pub open spec fn target_of(id: Seq<char>) -> Seq<char> {
    split_char(id, ';')[0]
}

/// Extracts the package name from a composite identifier.
pub fn target_name(id: &str) -> (r: String)
    ensures
        r@ == target_of(id@),
{
    let parts = split_str(id, ';');
    proof {
        lemma_split_by_nonempty(id@, sep_pred(';'));
    }
    parts[0].clone()
}

/// The plan of one command: queries run captured, mutations run streamed,
/// and the system upgrade refreshes the repositories first.
pub fn plan_for(cmd: &BackendCommand) -> (p: TaskPlan)
    ensures
        match cmd {
            BackendCommand::ListInstalled => p == (TaskPlan {
                invocation: AptInvocation::ListInstalled,
                streamed: false,
                upgrade_after: false,
            }),
            BackendCommand::ListUpgradable => p == (TaskPlan {
                invocation: AptInvocation::ListUpgradable,
                streamed: false,
                upgrade_after: false,
            }),
            BackendCommand::Search(q) => !p.streamed && !p.upgrade_after && (p.invocation
                matches AptInvocation::Search(s) && s@ == q@),
            BackendCommand::GetDetails(id) => !p.streamed && !p.upgrade_after && (p.invocation
                matches AptInvocation::ShowDetails(s) && s@ == target_of(id@)),
            BackendCommand::Install(id) => p.streamed && !p.upgrade_after && (p.invocation
                matches AptInvocation::InstallPkg(s) && s@ == target_of(id@)),
            BackendCommand::Remove(id) => p.streamed && !p.upgrade_after && (p.invocation
                matches AptInvocation::RemovePkg(s) && s@ == target_of(id@)),
            BackendCommand::Reinstall(id) => p.streamed && !p.upgrade_after && (p.invocation
                matches AptInvocation::ReinstallPkg(s) && s@ == target_of(id@)),
            BackendCommand::RefreshRepos => p == (TaskPlan {
                invocation: AptInvocation::UpdateRepos,
                streamed: true,
                upgrade_after: false,
            }),
            BackendCommand::UpgradeSystem => p == (TaskPlan {
                invocation: AptInvocation::UpdateRepos,
                streamed: false,
                upgrade_after: true,
            }),
        },
{
    match cmd {
        BackendCommand::ListInstalled => TaskPlan {
            invocation: AptInvocation::ListInstalled,
            streamed: false,
            upgrade_after: false,
        },
        BackendCommand::ListUpgradable => TaskPlan {
            invocation: AptInvocation::ListUpgradable,
            streamed: false,
            upgrade_after: false,
        },
        BackendCommand::Search(q) => TaskPlan {
            invocation: AptInvocation::Search(q.clone()),
            streamed: false,
            upgrade_after: false,
        },
        BackendCommand::GetDetails(id) => TaskPlan {
            invocation: AptInvocation::ShowDetails(target_name(id.as_str())),
            streamed: false,
            upgrade_after: false,
        },
        BackendCommand::Install(id) => TaskPlan {
            invocation: AptInvocation::InstallPkg(target_name(id.as_str())),
            streamed: true,
            upgrade_after: false,
        },
        BackendCommand::Remove(id) => TaskPlan {
            invocation: AptInvocation::RemovePkg(target_name(id.as_str())),
            streamed: true,
            upgrade_after: false,
        },
        BackendCommand::Reinstall(id) => TaskPlan {
            invocation: AptInvocation::ReinstallPkg(target_name(id.as_str())),
            streamed: true,
            upgrade_after: false,
        },
        BackendCommand::RefreshRepos => TaskPlan {
            invocation: AptInvocation::UpdateRepos,
            streamed: true,
            upgrade_after: false,
        },
        BackendCommand::UpgradeSystem => TaskPlan {
            invocation: AptInvocation::UpdateRepos,
            streamed: false,
            upgrade_after: true,
        },
    }
}

/// Concatenation of two strings.
fn msg2(a: &str, b: &str) -> (r: String)
    ensures
        r@ == a@ + b@,
{
    let mut r = a.to_owned();
    r.append(b);
    r
}

/// Concatenation of three strings.
fn msg3(a: &str, b: &str, c: &str) -> (r: String)
    ensures
        r@ == a@ + b@ + c@,
{
    let mut r = a.to_owned();
    r.append(b);
    r.append(c);
    r
}

/// The progress events to emit on receiving a command, before any
/// subprocess work: one `TaskStarted` naming the operation for queries and
/// the repository phases, none for the streamed per-package mutations,
/// whose progress comes from their own output.
pub fn initial_events(cmd: &BackendCommand) -> (evs: Vec<BackendEvent>)
    ensures
        all_progress(evs@),
        match cmd {
            BackendCommand::ListInstalled => evs@.len() == 1 && (evs@[0]
                matches BackendEvent::TaskStarted(m) && m@ == "Listing installed packages..."@),
            BackendCommand::ListUpgradable => evs@.len() == 1 && (evs@[0]
                matches BackendEvent::TaskStarted(m) && m@ == "Checking for updates..."@),
            BackendCommand::Search(q) => evs@.len() == 1 && (evs@[0]
                matches BackendEvent::TaskStarted(m) && m@ == "Searching '"@ + q@ + "'..."@),
            BackendCommand::GetDetails(id) => evs@.len() == 1 && (evs@[0]
                matches BackendEvent::TaskStarted(m) && m@ == "Fetching details for '"@ + target_of(
                id@,
            ) + "'..."@),
            BackendCommand::Install(_) => evs@.len() == 0,
            BackendCommand::Remove(_) => evs@.len() == 0,
            BackendCommand::Reinstall(_) => evs@.len() == 0,
            BackendCommand::RefreshRepos => evs@.len() == 1 && (evs@[0]
                matches BackendEvent::TaskStarted(m) && m@ == "Refreshing repositories..."@),
            BackendCommand::UpgradeSystem => evs@.len() == 1 && (evs@[0]
                matches BackendEvent::TaskStarted(m) && m@ == "Updating repositories..."@),
        },
{
    let mut evs: Vec<BackendEvent> = Vec::new();
    match cmd {
        BackendCommand::ListInstalled => {
            evs.push(BackendEvent::TaskStarted("Listing installed packages...".to_owned()));
        },
        BackendCommand::ListUpgradable => {
            evs.push(BackendEvent::TaskStarted("Checking for updates...".to_owned()));
        },
        BackendCommand::Search(q) => {
            evs.push(BackendEvent::TaskStarted(msg3("Searching '", q.as_str(), "'...")));
        },
        BackendCommand::GetDetails(id) => {
            let name = target_name(id.as_str());
            evs.push(BackendEvent::TaskStarted(msg3("Fetching details for '", name.as_str(), "'...")));
        },
        BackendCommand::Install(_) => {},
        BackendCommand::Remove(_) => {},
        BackendCommand::Reinstall(_) => {},
        BackendCommand::RefreshRepos => {
            evs.push(BackendEvent::TaskStarted("Refreshing repositories...".to_owned()));
        },
        BackendCommand::UpgradeSystem => {
            evs.push(BackendEvent::TaskStarted("Updating repositories...".to_owned()));
        },
    }
    evs
}

/// A command whose subprocess output is captured whole and parsed.
pub open spec fn is_query(cmd: BackendCommand) -> bool {
    cmd is ListInstalled || cmd is ListUpgradable || cmd is Search || cmd is GetDetails
}

/// The record a details fetch for identifier `id` reports: the decomposed
/// identifier with the four enrichment fields of `d` set together.
pub open spec fn details_package(id: Seq<char>, d: DetailsView) -> PkgView {
    PkgView {
        description: d.description,
        license: d.license,
        size: d.size,
        url: d.url,
        ..from_ident_view(id, Seq::empty(), Seq::empty())
    }
}

/// The closing events of a capture-mode command: on success the parsed
/// result, on failure an error naming the operation; then `TaskFinished`.
pub fn capture_events(cmd: BackendCommand, output: Result<String, String>) -> (evs: Vec<
    BackendEvent,
>)
    requires
        is_query(cmd),
    ensures
        finishes_task(evs@, cmd),
        evs@.len() == 2,
        match cmd {
            BackendCommand::ListInstalled => match output {
                Ok(text) => evs@[0] matches BackendEvent::InstalledPackagesFound(pkgs)
                    && pkg_views(pkgs@) == list_models(split_char(text@, '\n'), "Installed"@),
                Err(e) => evs@[0] matches BackendEvent::Error(m) && m@
                    == "Failed to list installed: "@ + e@,
            },
            BackendCommand::ListUpgradable => match output {
                Ok(text) => evs@[0] matches BackendEvent::UpgradablePackagesFound(pkgs)
                    && pkg_views(pkgs@) == list_models(split_char(text@, '\n'), "Update"@),
                Err(e) => evs@[0] matches BackendEvent::Error(m) && m@
                    == "Failed to list upgradable: "@ + e@,
            },
            BackendCommand::Search(_) => match output {
                Ok(text) => evs@[0] matches BackendEvent::SearchResultsFound(pkgs) && pkg_views(
                    pkgs@,
                ) == search_models(split_char(text@, '\n')),
                Err(e) => evs@[0] matches BackendEvent::Error(m) && m@ == "Search failed: "@ + e@,
            },
            BackendCommand::GetDetails(id) => match output {
                Ok(text) => evs@[0] matches BackendEvent::PackageDetailsFound(p) && p@
                    == details_package(id@, show_model(text@)),
                Err(e) => evs@[0] matches BackendEvent::Error(m) && m@
                    == "Failed to fetch details for '"@ + target_of(id@) + "': "@ + e@,
            },
            _ => false,
        },
{
    let mut evs: Vec<BackendEvent> = Vec::new();
    let finished = BackendEvent::TaskFinished(cmd.clone_cmd());
    match &cmd {
        BackendCommand::ListInstalled => match &output {
            Ok(text) => {
                evs.push(BackendEvent::InstalledPackagesFound(parse_apt_list(
                    text.as_str(),
                    "Installed",
                )));
            },
            Err(e) => {
                evs.push(BackendEvent::Error(msg2("Failed to list installed: ", e.as_str())));
            },
        },
        BackendCommand::ListUpgradable => match &output {
            Ok(text) => {
                evs.push(BackendEvent::UpgradablePackagesFound(parse_apt_list(
                    text.as_str(),
                    "Update",
                )));
            },
            Err(e) => {
                evs.push(BackendEvent::Error(msg2("Failed to list upgradable: ", e.as_str())));
            },
        },
        BackendCommand::Search(_) => match &output {
            Ok(text) => {
                evs.push(BackendEvent::SearchResultsFound(parse_apt_search(text.as_str())));
            },
            Err(e) => {
                evs.push(BackendEvent::Error(msg2("Search failed: ", e.as_str())));
            },
        },
        BackendCommand::GetDetails(id) => match &output {
            Ok(text) => {
                let details = parse_apt_show(text.as_str());
                let mut p = Package::from_packagekit(id.as_str(), "", "");
                p.update_details(
                    details.description.as_str(),
                    details.license.as_str(),
                    details.size,
                    details.url.as_str(),
                );
                proof {
                    reveal_strlit("");
                    assert(""@ =~= Seq::<char>::empty());
                    assert(p@ =~= details_package(id@, show_model(output->Ok_0@)));
                }
                evs.push(BackendEvent::PackageDetailsFound(p));
            },
            Err(e) => {
                let name = target_name(id.as_str());
                evs.push(BackendEvent::Error(msg3(
                    "Failed to fetch details for '",
                    name.as_str(),
                    msg2("': ", e.as_str()).as_str(),
                )));
            },
        },
        _ => {
            proof {
                assert(false);
            }
        },
    }
    evs.push(finished);
    evs
}

impl BackendCommand {
    /// A copy equal to `self`, field by field.
    pub fn clone_cmd(&self) -> (r: BackendCommand)
        ensures
            r == *self,
    {
        match self {
            BackendCommand::ListInstalled => BackendCommand::ListInstalled,
            BackendCommand::ListUpgradable => BackendCommand::ListUpgradable,
            BackendCommand::Search(q) => BackendCommand::Search(q.clone()),
            BackendCommand::GetDetails(id) => BackendCommand::GetDetails(id.clone()),
            BackendCommand::Install(id) => BackendCommand::Install(id.clone()),
            BackendCommand::Remove(id) => BackendCommand::Remove(id.clone()),
            BackendCommand::Reinstall(id) => BackendCommand::Reinstall(id.clone()),
            BackendCommand::RefreshRepos => BackendCommand::RefreshRepos,
            BackendCommand::UpgradeSystem => BackendCommand::UpgradeSystem,
        }
    }
}

/// A line the streamed output classifier keeps as a progress marker.
pub open spec fn is_signal_line(t: Seq<char>) -> bool {
    ||| has_prefix(t, "Unpacking"@)
    ||| has_prefix(t, "Preparing to unpack"@)
    ||| has_prefix(t, "Setting up"@)
    ||| has_prefix(t, "Removing"@)
    ||| has_prefix(t, "Processing triggers"@)
    ||| has_prefix(t, "Get:"@)
    ||| has_prefix(t, "Hit:"@)
    ||| has_prefix(t, "Err:"@)
}

/// The progress message a streamed output line yields: the trimmed line
/// itself where it starts with a known marker, nothing otherwise.
pub open spec fn signal_of(line: Seq<char>) -> Option<Seq<char>> {
    let t = trimmed(line);
    if t.len() != 0 && is_signal_line(t) {
        Some(t)
    } else {
        None
    }
}

/// Classifies one line of streamed subprocess output.
pub fn parse_apt_signal(line: &str) -> (r: Option<String>)
    ensures
        match r {
            Some(m) => signal_of(line@) == Some(m@),
            None => signal_of(line@) is None,
        },
{
    let t = trim_str(line);
    if t.as_str().unicode_len() == 0 {
        return None;
    }
    let s = t.as_str();
    if str_starts_with(s, "Unpacking") || str_starts_with(s, "Preparing to unpack")
        || str_starts_with(s, "Setting up") || str_starts_with(s, "Removing") || str_starts_with(
        s,
        "Processing triggers",
    ) || str_starts_with(s, "Get:") || str_starts_with(s, "Hit:") || str_starts_with(s, "Err:") {
        Some(t)
    } else {
        None
    }
}

/// The event one streamed output line yields: interesting lines become
/// progress messages, error-stream lines marked as such; never a terminal
/// event.
pub fn stream_line_event(line: &str, from_stderr: bool) -> (r: Option<BackendEvent>)
    ensures
        match signal_of(line@) {
            Some(msg) => r matches Some(e) && (e matches BackendEvent::TaskStarted(m) && m@ == (
            if from_stderr {
                "Error: "@ + msg
            } else {
                msg
            })),
            None => r is None,
        },
{
    match parse_apt_signal(line) {
        Some(msg) => {
            if from_stderr {
                Some(BackendEvent::TaskStarted(msg2("Error: ", msg.as_str())))
            } else {
                Some(BackendEvent::TaskStarted(msg))
            }
        },
        None => None,
    }
}

/// How a streamed subprocess ended.
#[derive(Debug, PartialEq)]
pub enum ExitOutcome {
    /// The process exited; `status` is its reported status text.
    Exited { success: bool, status: String },
    /// Waiting for the process failed.
    WaitFailed(String),
}

/// The closing events of a streamed command: an error when the process did
/// not succeed, then `TaskFinished` in every case.
pub fn stream_exit_events(cmd: BackendCommand, outcome: &ExitOutcome) -> (evs: Vec<BackendEvent>)
    ensures
        finishes_task(evs@, cmd),
        match outcome {
            ExitOutcome::Exited { success, status } => {
                if *success {
                    evs@.len() == 1
                } else {
                    evs@.len() == 2 && (evs@[0] matches BackendEvent::Error(m) && m@
                        == "Command failed with status: "@ + status@)
                }
            },
            ExitOutcome::WaitFailed(e) => evs@.len() == 2 && (evs@[0]
                matches BackendEvent::Error(m) && m@ == "Wait failed: "@ + e@),
        },
{
    let mut evs: Vec<BackendEvent> = Vec::new();
    match outcome {
        ExitOutcome::Exited { success, status } => {
            if !*success {
                evs.push(BackendEvent::Error(msg2(
                    "Command failed with status: ",
                    status.as_str(),
                )));
            }
        },
        ExitOutcome::WaitFailed(e) => {
            evs.push(BackendEvent::Error(msg2("Wait failed: ", e.as_str())));
        },
    }
    evs.push(BackendEvent::TaskFinished(cmd));
    evs
}

/// The closing events of a command whose subprocess could not be launched:
/// an error naming the phase, then `TaskFinished`.
pub fn launch_failure_events(cmd: BackendCommand, err: &str) -> (evs: Vec<BackendEvent>)
    ensures
        finishes_task(evs@, cmd),
        evs@.len() == 2,
        evs@[0] matches BackendEvent::Error(m) && m@ == (match cmd {
            BackendCommand::RefreshRepos => "Refresh failed: "@ + err@,
            BackendCommand::UpgradeSystem => "Upgrade failed: "@ + err@,
            _ => "Failed to launch: "@ + err@,
        }),
{
    let mut evs: Vec<BackendEvent> = Vec::new();
    let m = match &cmd {
        BackendCommand::RefreshRepos => msg2("Refresh failed: ", err),
        BackendCommand::UpgradeSystem => msg2("Upgrade failed: ", err),
        _ => msg2("Failed to launch: ", err),
    };
    evs.push(BackendEvent::Error(m));
    evs.push(BackendEvent::TaskFinished(cmd));
    evs
}

/// The decision after the repository-refresh phase of a system upgrade: on
/// success, announce the upgrade phase and proceed; on failure, close the
/// task with an error and stop.
pub fn refresh_phase_events(cmd: BackendCommand, success: bool, err: &str) -> (r: (
    Vec<BackendEvent>,
    bool,
))
    requires
        cmd is UpgradeSystem,
    ensures
        r.1 == success,
        success ==> all_progress(r.0@) && r.0@.len() == 1 && (r.0@[0]
            matches BackendEvent::TaskStarted(m) && m@ == "Upgrading system..."@),
        !success ==> finishes_task(r.0@, cmd) && r.0@.len() == 2 && (r.0@[0]
            matches BackendEvent::Error(m) && m@ == "Update failed: "@ + err@),
{
    let mut evs: Vec<BackendEvent> = Vec::new();
    if success {
        evs.push(BackendEvent::TaskStarted("Upgrading system...".to_owned()));
        (evs, true)
    } else {
        evs.push(BackendEvent::Error(msg2("Update failed: ", err)));
        evs.push(BackendEvent::TaskFinished(cmd));
        (evs, false)
    }
}

} // verus!
