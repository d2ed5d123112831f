//! The state reducer: the sole owner of the interface state.
//!
//! Every user intent and every backend event becomes one `Action`; the
//! reducer consumes one action at a time, synchronously, and never fails.
//! Commands it decides to dispatch are queued in an outbox that the
//! application shell drains and forwards to the backend worker.

use vstd::prelude::*;

use crate::backend::{BackendCommand, BackendEvent};
use crate::pkg::{pkg_views, Package, PkgView};
use crate::search::{filter_and_rank, ranked_ok};
use crate::text::str_eq;

verus! {

/// The three views of the package set.
#[derive(Debug, Clone, Copy, PartialEq, Eq, Structural)]
pub enum SelectedTab {
    Installed,
    Upgradable,
    Online,
}

impl SelectedTab {
    /// The tab to the right, wrapping at the end.
    pub open spec fn next_spec(self) -> SelectedTab {
        match self {
            SelectedTab::Installed => SelectedTab::Upgradable,
            SelectedTab::Upgradable => SelectedTab::Online,
            SelectedTab::Online => SelectedTab::Installed,
        }
    }

    /// The tab to the left, wrapping at the start.
    pub open spec fn previous_spec(self) -> SelectedTab {
        match self {
            SelectedTab::Installed => SelectedTab::Online,
            SelectedTab::Upgradable => SelectedTab::Installed,
            SelectedTab::Online => SelectedTab::Upgradable,
        }
    }

    pub fn next(self) -> (r: Self)
        ensures
            r == self.next_spec(),
    {
        match self {
            SelectedTab::Installed => SelectedTab::Upgradable,
            SelectedTab::Upgradable => SelectedTab::Online,
            SelectedTab::Online => SelectedTab::Installed,
        }
    }

    pub fn previous(self) -> (r: Self)
        ensures
            r == self.previous_spec(),
    {
        match self {
            SelectedTab::Installed => SelectedTab::Online,
            SelectedTab::Upgradable => SelectedTab::Installed,
            SelectedTab::Online => SelectedTab::Upgradable,
        }
    }
}

/// Which pane has focus.
#[derive(Debug, Clone, Copy, PartialEq, Eq, Structural)]
pub enum Panel {
    PackageList,
    Details,
}

/// The other pane.
pub open spec fn other_panel(p: Panel) -> Panel {
    match p {
        Panel::PackageList => Panel::Details,
        Panel::Details => Panel::PackageList,
    }
}

/// The confirmation popup: a staged command awaiting the user's answer,
/// reused without a command to surface errors.
#[verifier::ext_equal]
#[derive(Debug)]
pub struct Popup {
    pub visible: bool,
    pub title: String,
    pub message: String,
    pub command_to_confirm: Option<BackendCommand>,
}

/// How a notification is shown.
#[derive(Debug, Clone, PartialEq, Eq, Structural)]
pub enum NotificationKind {
    Info,
    Error,
}

/// One queued notification; the interface shows the head of the queue.
#[derive(Debug, Clone, PartialEq)]
pub struct Notification {
    pub message: String,
    pub kind: NotificationKind,
}

impl Notification {
    pub fn info(message: String) -> (r: Self)
        ensures
            r == (Notification { message: message, kind: NotificationKind::Info }),
    {
        Notification { message, kind: NotificationKind::Info }
    }

    pub fn error(message: String) -> (r: Self)
        ensures
            r == (Notification { message: message, kind: NotificationKind::Error }),
    {
        Notification { message, kind: NotificationKind::Error }
    }
}

/// One state transition's input: a user intent or a wrapped backend event.
#[derive(Debug, Clone)]
pub enum Action {
    Tick,
    Quit,
    SelectNext,
    SelectPrev,
    SwitchTabNext,
    SwitchTabPrev,
    ToggleFocus,
    EnterSearchMode,
    ExitSearchMode,
    UpdateSearchQuery(char),
    DeleteSearchChar,
    ConfirmAction,
    CancelAction,
    RequestInstall,
    RequestUninstall,
    RequestReinstall,
    RequestUpgradeSystem,
    RefreshRepos,
    DismissNotification,
    TriggerOnlineSearch,
    BackendResponse(BackendEvent),
}

/// The whole interface state.  The four package collections are independent
/// copies; enrichment is replicated into each.
#[verifier::ext_equal]
#[derive(Debug)]
pub struct App {
    pub should_quit: bool,
    pub installed_packages: Vec<Package>,
    pub upgradable_packages: Vec<Package>,
    pub online_packages: Vec<Package>,
    pub filtered_packages: Vec<Package>,
    pub selected_tab: SelectedTab,
    pub active_panel: Panel,
    pub list_selected: Option<usize>,
    pub popup: Popup,
    pub notification_queue: Vec<Notification>,
    pub search_query: String,
    pub is_searching: bool,
    pub is_loading: bool,
    pub loading_msg: String,
    pub pending_commands: Vec<BackendCommand>,
}

/// The backing collection of a tab.
pub open spec fn tab_source_sel(app: App, t: SelectedTab) -> Seq<Package> {
    match t {
        SelectedTab::Installed => app.installed_packages@,
        SelectedTab::Upgradable => app.upgradable_packages@,
        SelectedTab::Online => app.online_packages@,
    }
}

/// The backing collection of the active tab.
pub open spec fn tab_source(app: App) -> Seq<Package> {
    tab_source_sel(app, app.selected_tab)
}

/// The package under the selection, if the selection points into the
/// filtered collection.
pub open spec fn selected_pkg(app: App) -> Option<Package> {
    match app.list_selected {
        Some(i) => if (i as int) < app.filtered_packages@.len() {
            Some(app.filtered_packages@[i as int])
        } else {
            None
        },
        None => None,
    }
}

/// The details request the current selection warrants.
pub open spec fn details_req(app: App) -> Seq<BackendCommand> {
    match selected_pkg(app) {
        Some(p) => seq![BackendCommand::GetDetails(p.id)],
        None => Seq::empty(),
    }
}

/// A dispatch of `cmds`: they enter the outbox and the loading state begins.
pub open spec fn dispatched(pre: App, post: App, cmds: Seq<BackendCommand>) -> bool {
    &&& post == (App {
        pending_commands: post.pending_commands,
        is_loading: true,
        loading_msg: post.loading_msg,
        ..pre
    })
    &&& post.pending_commands@ == pre.pending_commands@ + cmds
    &&& post.loading_msg@ == "Processing..."@
}

/// The fields a search recomputation sets: the filtered collection ranked
/// from `src` by `q`, the selection reset to the head, and a details
/// request for the new selection queued.
pub open spec fn search_fields(pre: App, post: App, src: Seq<Package>, q: Seq<char>) -> bool {
    &&& ranked_ok(src, q, post.filtered_packages@)
    &&& post.list_selected == Some(0usize)
    &&& post.pending_commands@ == pre.pending_commands@ + details_req(post)
}

/// A search recomputation that changes nothing else.
pub open spec fn search_applied(pre: App, post: App) -> bool {
    &&& post == (App {
        filtered_packages: post.filtered_packages,
        list_selected: post.list_selected,
        pending_commands: post.pending_commands,
        ..pre
    })
    &&& search_fields(pre, post, tab_source(pre), pre.search_query@)
}

/// The next selection index: one further, wrapping past the end.
pub open spec fn wrap_next(len: nat, sel: Option<usize>) -> nat {
    match sel {
        Some(i) => if i as nat >= (len - 1) as nat {
            0
        } else {
            i as nat + 1
        },
        None => 0,
    }
}

/// The previous selection index: one back, wrapping at the start.
pub open spec fn wrap_prev(len: nat, sel: Option<usize>) -> nat {
    match sel {
        Some(i) => if i == 0 {
            (len - 1) as nat
        } else {
            (i - 1) as nat
        },
        None => 0,
    }
}

/// Moving the selection: a no-op on an empty filtered collection, else the
/// new index plus a details request for the newly selected package.
pub open spec fn select_step(pre: App, post: App, target: nat) -> bool {
    if pre.filtered_packages@.len() == 0 {
        post == pre
    } else {
        &&& post == (App {
            list_selected: post.list_selected,
            pending_commands: post.pending_commands,
            ..pre
        })
        &&& post.list_selected matches Some(i) && i as nat == target
        &&& post.pending_commands@ == pre.pending_commands@ + details_req(post)
    }
}

/// Opening the confirmation popup over a staged command.
pub open spec fn popup_opened(
    pre: App,
    post: App,
    title: Seq<char>,
    message: Seq<char>,
    cmd: Option<BackendCommand>,
) -> bool {
    &&& post == (App { popup: post.popup, ..pre })
    &&& post.popup.visible == true
    &&& post.popup.title@ == title
    &&& post.popup.message@ == message
    &&& post.popup.command_to_confirm == cmd
}

/// Staging a command for one selected package, with a confirmation message
/// built around its name; without a selection nothing happens.
pub open spec fn request_step(
    pre: App,
    post: App,
    title: Seq<char>,
    verb: Seq<char>,
    cmd: Option<BackendCommand>,
) -> bool {
    match selected_pkg(pre) {
        Some(p) => popup_opened(pre, post, title, verb + p.name@ + "?"@, cmd),
        None => post == pre,
    }
}

/// One backend event's effect on the state.
pub open spec fn event_step(pre: App, post: App, event: BackendEvent) -> bool {
    match event {
        BackendEvent::TaskStarted(msg) => post == (App {
            is_loading: true,
            loading_msg: msg,
            ..pre
        }),
        BackendEvent::InstalledPackagesFound(pkgs) => {
            if pre.selected_tab is Installed {
                &&& post == (App {
                    installed_packages: post.installed_packages,
                    filtered_packages: post.filtered_packages,
                    list_selected: post.list_selected,
                    pending_commands: post.pending_commands,
                    ..pre
                })
                &&& post.installed_packages == pkgs
                &&& search_fields(pre, post, pkgs@, pre.search_query@)
            } else {
                post == (App { installed_packages: pkgs, ..pre })
            }
        },
        BackendEvent::UpgradablePackagesFound(pkgs) => {
            if pre.selected_tab is Upgradable {
                &&& post == (App {
                    upgradable_packages: post.upgradable_packages,
                    filtered_packages: post.filtered_packages,
                    list_selected: post.list_selected,
                    pending_commands: post.pending_commands,
                    ..pre
                })
                &&& post.upgradable_packages == pkgs
                &&& search_fields(pre, post, pkgs@, pre.search_query@)
            } else {
                post == (App { upgradable_packages: pkgs, ..pre })
            }
        },
        BackendEvent::SearchResultsFound(pkgs) => {
            if pre.selected_tab is Online {
                &&& post == (App {
                    online_packages: post.online_packages,
                    filtered_packages: post.filtered_packages,
                    list_selected: post.list_selected,
                    pending_commands: post.pending_commands,
                    ..pre
                })
                &&& post.online_packages == pkgs
                &&& search_fields(pre, post, pkgs@, pre.search_query@)
            } else {
                post == (App { online_packages: pkgs, ..pre })
            }
        },
        BackendEvent::PackageDetailsFound(d) => {
            &&& post == (App {
                installed_packages: post.installed_packages,
                upgradable_packages: post.upgradable_packages,
                online_packages: post.online_packages,
                filtered_packages: post.filtered_packages,
                ..pre
            })
            &&& pkg_views(post.installed_packages@) == enriched_views(
                pkg_views(pre.installed_packages@),
                d@,
            )
            &&& pkg_views(post.upgradable_packages@) == enriched_views(
                pkg_views(pre.upgradable_packages@),
                d@,
            )
            &&& pkg_views(post.online_packages@) == enriched_views(
                pkg_views(pre.online_packages@),
                d@,
            )
            &&& pkg_views(post.filtered_packages@) == enriched_views(
                pkg_views(pre.filtered_packages@),
                d@,
            )
        },
        BackendEvent::TaskFinished(cmd) => {
            let mid = App { is_loading: false, ..pre };
            if cmd is Remove || cmd is Reinstall || cmd is UpgradeSystem || cmd is RefreshRepos {
                dispatched(
                    mid,
                    post,
                    seq![BackendCommand::ListInstalled, BackendCommand::ListUpgradable],
                )
            } else {
                post == mid
            }
        },
        BackendEvent::Error(msg) => {
            &&& post == (App {
                is_loading: false,
                popup: post.popup,
                notification_queue: post.notification_queue,
                ..pre
            })
            &&& post.popup.visible == true
            &&& post.popup.title@ == "Error"@
            &&& post.popup.message@ == msg@
            &&& post.popup.command_to_confirm is None
            &&& post.notification_queue@ == pre.notification_queue@.push(
                Notification { message: msg, kind: NotificationKind::Error },
            )
        },
    }
}

/// One action's effect on the state: the transition function is total, and
/// this is all an action may do.
pub open spec fn update_step(pre: App, post: App, action: Action) -> bool {
    match action {
        Action::Tick => post == pre,
        Action::Quit => post == (App { should_quit: true, ..pre }),
        Action::SelectNext => select_step(
            pre,
            post,
            wrap_next(pre.filtered_packages@.len(), pre.list_selected),
        ),
        Action::SelectPrev => select_step(
            pre,
            post,
            wrap_prev(pre.filtered_packages@.len(), pre.list_selected),
        ),
        Action::SwitchTabNext => tab_step(pre, post, pre.selected_tab.next_spec()),
        Action::SwitchTabPrev => tab_step(pre, post, pre.selected_tab.previous_spec()),
        Action::ToggleFocus => post == (App { active_panel: other_panel(pre.active_panel), ..pre }),
        Action::EnterSearchMode => enter_search_step(pre, post),
        Action::ExitSearchMode => post == (App { is_searching: false, ..pre }),
        Action::UpdateSearchQuery(c) => query_step(pre, post, pre.search_query@.push(c)),
        Action::DeleteSearchChar => query_step(
            pre,
            post,
            if pre.search_query@.len() > 0 {
                pre.search_query@.drop_last()
            } else {
                pre.search_query@
            },
        ),
        Action::ConfirmAction => confirm_step(pre, post),
        Action::CancelAction => {
            &&& post == (App { popup: post.popup, ..pre })
            &&& post.popup == (Popup { visible: false, command_to_confirm: None, ..pre.popup })
        },
        Action::RequestInstall => request_step(
            pre,
            post,
            "Confirm Install"@,
            "Install "@,
            match selected_pkg(pre) {
                Some(p) => Some(BackendCommand::Install(p.id)),
                None => None,
            },
        ),
        Action::RequestUninstall => request_step(
            pre,
            post,
            "Confirm Uninstall"@,
            "Remove "@,
            match selected_pkg(pre) {
                Some(p) => Some(BackendCommand::Remove(p.id)),
                None => None,
            },
        ),
        Action::RequestReinstall => request_step(
            pre,
            post,
            "Confirm Reinstall"@,
            "Reinstall "@,
            match selected_pkg(pre) {
                Some(p) => Some(BackendCommand::Reinstall(p.id)),
                None => None,
            },
        ),
        Action::RequestUpgradeSystem => popup_opened(
            pre,
            post,
            "System Upgrade"@,
            "Update full system?"@,
            Some(BackendCommand::UpgradeSystem),
        ),
        Action::RefreshRepos => dispatched(pre, post, seq![BackendCommand::RefreshRepos]),
        Action::DismissNotification => {
            &&& post == (App { notification_queue: post.notification_queue, ..pre })
            &&& post.notification_queue@ == (if pre.notification_queue@.len() > 0 {
                pre.notification_queue@.drop_first()
            } else {
                pre.notification_queue@
            })
        },
        Action::TriggerOnlineSearch => dispatched(
            pre,
            post,
            seq![BackendCommand::Search(pre.search_query)],
        ),
        Action::BackendResponse(event) => event_step(pre, post, event),
    }
}

/// Switching to tab `t` re-runs the search over that tab's collection.
pub open spec fn tab_step(pre: App, post: App, t: SelectedTab) -> bool {
    &&& post == (App {
        selected_tab: t,
        filtered_packages: post.filtered_packages,
        list_selected: post.list_selected,
        pending_commands: post.pending_commands,
        ..pre
    })
    &&& search_fields(pre, post, tab_source_sel(pre, t), pre.search_query@)
}

/// Entering search mode clears the query, re-runs the search (now over the
/// whole collection) and focuses the list.
pub open spec fn enter_search_step(pre: App, post: App) -> bool {
    &&& post == (App {
        is_searching: true,
        search_query: post.search_query,
        active_panel: Panel::PackageList,
        filtered_packages: post.filtered_packages,
        list_selected: post.list_selected,
        pending_commands: post.pending_commands,
        ..pre
    })
    &&& post.search_query@ == Seq::<char>::empty()
    &&& search_fields(pre, post, tab_source(pre), Seq::<char>::empty())
}

/// A changed query re-runs the search over the active tab's collection.
pub open spec fn query_step(pre: App, post: App, q: Seq<char>) -> bool {
    &&& post == (App {
        search_query: post.search_query,
        filtered_packages: post.filtered_packages,
        list_selected: post.list_selected,
        pending_commands: post.pending_commands,
        ..pre
    })
    &&& post.search_query@ == q
    &&& search_fields(pre, post, tab_source(pre), q)
}

/// Confirming dispatches the staged command, if any; the popup closes and
/// empties either way.
pub open spec fn confirm_step(pre: App, post: App) -> bool {
    let mid = App { popup: post.popup, ..pre };
    &&& post.popup == (Popup { visible: false, command_to_confirm: None, ..pre.popup })
    &&& match pre.popup.command_to_confirm {
        Some(cmd) => dispatched(mid, post, seq![cmd]),
        None => post == mid,
    }
}

/// The enrichment of one record from a details record with the same
/// identifier: the four enrichment fields are set together.
pub open spec fn enriched_view(p: PkgView, d: PkgView) -> PkgView {
    PkgView { description: d.description, license: d.license, size: d.size, url: d.url, ..p }
}

/// The collection after a details record arrives: every record whose
/// identifier matches is enriched, every other record stays as it was.
pub open spec fn enriched_views(src: Seq<PkgView>, d: PkgView) -> Seq<PkgView> {
    src.map_values(
        |p: PkgView|
            if p.id == d.id {
                enriched_view(p, d)
            } else {
                p
            },
    )
}

/// Law: enrichment is atomic and local — after a details event for an
/// identifier, a record with that identifier carries all four enrichment
/// fields of the event together, and a record with another identifier is
/// untouched.
pub proof fn lemma_enrichment_atomic(src: Seq<PkgView>, d: PkgView, k: int)
    requires
        0 <= k < src.len(),
    ensures
        enriched_views(src, d).len() == src.len(),
        src[k].id == d.id ==> enriched_views(src, d)[k] == enriched_view(src[k], d),
        src[k].id == d.id ==> enriched_views(src, d)[k].description == d.description
            && enriched_views(src, d)[k].license == d.license && enriched_views(src, d)[k].size
            == d.size && enriched_views(src, d)[k].url == d.url,
        src[k].id != d.id ==> enriched_views(src, d)[k] == src[k],
{
}

/// Law: notifications leave in arrival order — pushing two onto an empty
/// queue and dismissing once leaves exactly the second.  The premises are
/// what `push_notification` and `dismiss_notification` ensure.
pub proof fn lemma_notification_fifo(
    s0: App,
    s1: App,
    s2: App,
    s3: App,
    a: Notification,
    b: Notification,
)
    requires
        s0.notification_queue@.len() == 0,
        s1.notification_queue@ == s0.notification_queue@.push(a),
        s2.notification_queue@ == s1.notification_queue@.push(b),
        s3.notification_queue@ == s2.notification_queue@.drop_first(),
    ensures
        s3.notification_queue@ =~= seq![b],
{
}

impl App {
    /// The initial state: everything empty, the installed tab active, and
    /// the two initial listing commands already dispatched.
    pub fn new() -> (app: App)
        ensures
            app.should_quit == false,
            app.installed_packages@ == Seq::<Package>::empty(),
            app.upgradable_packages@ == Seq::<Package>::empty(),
            app.online_packages@ == Seq::<Package>::empty(),
            app.filtered_packages@ == Seq::<Package>::empty(),
            app.selected_tab is Installed,
            app.active_panel is PackageList,
            app.list_selected is None,
            app.popup.visible == false,
            app.popup.command_to_confirm is None,
            app.notification_queue@ == Seq::<Notification>::empty(),
            app.search_query@ == Seq::<char>::empty(),
            app.is_searching == false,
            app.is_loading == true,
            app.loading_msg@ == "Processing..."@,
            app.pending_commands@ == seq![
                BackendCommand::ListInstalled,
                BackendCommand::ListUpgradable,
            ],
    {
        let mut app = App {
            should_quit: false,
            installed_packages: Vec::new(),
            upgradable_packages: Vec::new(),
            online_packages: Vec::new(),
            filtered_packages: Vec::new(),
            selected_tab: SelectedTab::Installed,
            active_panel: Panel::PackageList,
            list_selected: None,
            popup: Popup {
                visible: false,
                title: String::new(),
                message: String::new(),
                command_to_confirm: None,
            },
            notification_queue: Vec::new(),
            search_query: String::new(),
            is_searching: false,
            is_loading: false,
            loading_msg: String::new(),
            pending_commands: Vec::new(),
        };
        app.dispatch(BackendCommand::ListInstalled);
        app.dispatch(BackendCommand::ListUpgradable);
        proof {
            assert(app.pending_commands@ =~= seq![
                BackendCommand::ListInstalled,
                BackendCommand::ListUpgradable,
            ]);
        }
        app
    }

    /// Queues a command for the backend and enters the loading state.
    fn dispatch(&mut self, cmd: BackendCommand)
        ensures
            dispatched(*old(self), *final(self), seq![cmd]),
    {
        let ghost pre = *old(self);
        self.pending_commands.push(cmd);
        self.is_loading = true;
        self.loading_msg = "Processing...".to_owned();
        proof {
            assert(self.pending_commands@ =~= pre.pending_commands@ + seq![cmd]);
        }
    }

    /// Hands the queued commands to the caller and empties the outbox.
    pub fn take_commands(&mut self) -> (cmds: Vec<BackendCommand>)
        ensures
            cmds@ == old(self).pending_commands@,
            *final(self) == (App { pending_commands: final(self).pending_commands, ..*old(self) }),
            final(self).pending_commands@ == Seq::<BackendCommand>::empty(),
    {
        let mut out: Vec<BackendCommand> = Vec::new();
        core::mem::swap(&mut out, &mut self.pending_commands);
        out
    }

    /// Appends a notification to the queue.
    pub fn push_notification(&mut self, notification: Notification)
        ensures
            *final(self) == (App {
                notification_queue: final(self).notification_queue,
                ..*old(self)
            }),
            final(self).notification_queue@ == old(self).notification_queue@.push(notification),
    {
        self.notification_queue.push(notification);
    }

    /// Removes the head of the queue, if there is one.
    pub fn dismiss_notification(&mut self)
        ensures
            *final(self) == (App {
                notification_queue: final(self).notification_queue,
                ..*old(self)
            }),
            final(self).notification_queue@ == (if old(self).notification_queue@.len() > 0 {
                old(self).notification_queue@.drop_first()
            } else {
                old(self).notification_queue@
            }),
    {
        if !self.notification_queue.is_empty() {
            self.notification_queue.remove(0);
            proof {
                assert(self.notification_queue@ =~= old(
                    self,
                ).notification_queue@.drop_first());
            }
        }
    }

    /// The package the selection points at, if any.
    pub fn get_selected_pkg(&self) -> (r: Option<&Package>)
        ensures
            match r {
                Some(p) => selected_pkg(*self) == Some(*p),
                None => selected_pkg(*self) is None,
            },
    {
        match self.list_selected {
            Some(i) => {
                if i < self.filtered_packages.len() {
                    Some(&self.filtered_packages[i])
                } else {
                    None
                }
            },
            None => None,
        }
    }

    /// Queues a details request for the selected package, if any.
    fn request_details_for_selected(&mut self)
        ensures
            *final(self) == (App { pending_commands: final(self).pending_commands, ..*old(self) }),
            final(self).pending_commands@ == old(self).pending_commands@ + details_req(*old(self)),
    {
        let ghost pre = *old(self);
        let cmd = match self.get_selected_pkg() {
            Some(pkg) => Some(BackendCommand::GetDetails(pkg.id.clone())),
            None => None,
        };
        match cmd {
            Some(c) => {
                self.pending_commands.push(c);
                proof {
                    assert(self.pending_commands@ =~= pre.pending_commands@ + details_req(pre));
                }
            },
            None => {
                proof {
                    assert(self.pending_commands@ =~= pre.pending_commands@ + details_req(pre));
                }
            },
        }
    }

    /// Recomputes the filtered collection from the active tab and the
    /// query, resets the selection, and requests details for the new head.
    fn perform_search(&mut self)
        ensures
            search_applied(*old(self), *final(self)),
    {
        let ghost pre = *old(self);
        let filtered = match self.selected_tab {
            SelectedTab::Installed => filter_and_rank(
                &self.installed_packages,
                self.search_query.as_str(),
            ),
            SelectedTab::Upgradable => filter_and_rank(
                &self.upgradable_packages,
                self.search_query.as_str(),
            ),
            SelectedTab::Online => filter_and_rank(
                &self.online_packages,
                self.search_query.as_str(),
            ),
        };
        self.filtered_packages = filtered;
        self.list_selected = Some(0);
        self.request_details_for_selected();
    }

    /// Moves the selection forward, wrapping past the last item.
    fn next_item(&mut self)
        ensures
            select_step(
                *old(self),
                *final(self),
                wrap_next(old(self).filtered_packages@.len(), old(self).list_selected),
            ),
    {
        if self.filtered_packages.len() == 0 {
            return ;
        }
        let len = self.filtered_packages.len();
        let i: usize = match self.list_selected {
            Some(i) => if i >= len - 1 {
                0
            } else {
                i + 1
            },
            None => 0,
        };
        self.list_selected = Some(i);
        self.request_details_for_selected();
    }

    /// Moves the selection back, wrapping at the first item.
    fn prev_item(&mut self)
        ensures
            select_step(
                *old(self),
                *final(self),
                wrap_prev(old(self).filtered_packages@.len(), old(self).list_selected),
            ),
    {
        if self.filtered_packages.len() == 0 {
            return ;
        }
        let len = self.filtered_packages.len();
        let i: usize = match self.list_selected {
            Some(i) => if i == 0 {
                len - 1
            } else {
                i - 1
            },
            None => 0,
        };
        self.list_selected = Some(i);
        self.request_details_for_selected();
    }

    /// Opens the popup over a message and an optional staged command.
    fn open_popup(&mut self, title: &str, msg: &str, cmd: Option<BackendCommand>)
        ensures
            popup_opened(*old(self), *final(self), title@, msg@, cmd),
    {
        self.popup.visible = true;
        self.popup.title = title.to_owned();
        self.popup.message = msg.to_owned();
        self.popup.command_to_confirm = cmd;
    }

    /// Builds the confirmation message `<verb><name>?`.
    fn confirm_msg(verb: &str, name: &str) -> (r: String)
        ensures
            r@ == verb@ + name@ + "?"@,
    {
        let mut r = verb.to_owned();
        r.append(name);
        r.append("?");
        r
    }

    /// Replicates a details record into one collection.
    fn enrich_all(list: &Vec<Package>, d: &Package) -> (out: Vec<Package>)
        ensures
            pkg_views(out@) == enriched_views(pkg_views(list@), d@),
    {
        let mut out: Vec<Package> = Vec::new();
        let mut i: usize = 0;
        proof {
            assert(pkg_views(out@) =~= enriched_views(
                pkg_views(list@.subrange(0, 0)),
                d@,
            ));
        }
        while i < list.len()
            invariant
                i <= list@.len(),
                pkg_views(out@) == enriched_views(pkg_views(list@.subrange(0, i as int)), d@),
            decreases list@.len() - i,
        {
            let ghost old_out = out@;
            let ghost cur = list@[i as int]@;
            if str_eq(list[i].id.as_str(), d.id.as_str()) {
                let mut np = list[i].clone();
                np.update_details(
                    d.description.as_str(),
                    d.license.as_str(),
                    d.size,
                    d.url.as_str(),
                );
                out.push(np);
                proof {
                    assert(np@ =~= enriched_view(cur, d@));
                    assert(pkg_views(out@) =~= pkg_views(old_out).push(enriched_view(cur, d@)));
                }
            } else {
                out.push(list[i].clone());
                proof {
                    assert(pkg_views(out@) =~= pkg_views(old_out).push(cur));
                }
            }
            proof {
                assert(list@.subrange(0, i + 1) =~= list@.subrange(0, i as int).push(
                    list@[i as int],
                ));
                assert(pkg_views(list@.subrange(0, i + 1)) =~= pkg_views(
                    list@.subrange(0, i as int),
                ).push(cur));
                assert(enriched_views(pkg_views(list@.subrange(0, i as int)).push(cur), d@)
                    =~= enriched_views(pkg_views(list@.subrange(0, i as int)), d@).push(
                    if cur.id == d@.id {
                        enriched_view(cur, d@)
                    } else {
                        cur
                    },
                ));
                assert(pkg_views(out@) =~= enriched_views(
                    pkg_views(list@.subrange(0, i + 1)),
                    d@,
                ));
            }
            i = i + 1;
        }
        proof {
            assert(list@.subrange(0, list@.len() as int) =~= list@);
        }
        out
    }

    /// Applies one backend event.
    fn handle_backend_event(&mut self, event: BackendEvent)
        ensures
            event_step(*old(self), *final(self), event),
    {
        let ghost pre = *old(self);
        match event {
            BackendEvent::TaskStarted(msg) => {
                self.is_loading = true;
                self.loading_msg = msg;
            },
            BackendEvent::InstalledPackagesFound(pkgs) => {
                self.installed_packages = pkgs;
                if matches!(self.selected_tab, SelectedTab::Installed) {
                    self.perform_search();
                }
            },
            BackendEvent::UpgradablePackagesFound(pkgs) => {
                self.upgradable_packages = pkgs;
                if matches!(self.selected_tab, SelectedTab::Upgradable) {
                    self.perform_search();
                }
            },
            BackendEvent::SearchResultsFound(pkgs) => {
                self.online_packages = pkgs;
                if matches!(self.selected_tab, SelectedTab::Online) {
                    self.perform_search();
                }
            },
            BackendEvent::PackageDetailsFound(d) => {
                self.installed_packages = Self::enrich_all(&self.installed_packages, &d);
                self.upgradable_packages = Self::enrich_all(&self.upgradable_packages, &d);
                self.online_packages = Self::enrich_all(&self.online_packages, &d);
                self.filtered_packages = Self::enrich_all(&self.filtered_packages, &d);
            },
            BackendEvent::TaskFinished(cmd) => {
                self.is_loading = false;
                match cmd {
                    BackendCommand::Remove(_)
                    | BackendCommand::Reinstall(_)
                    | BackendCommand::UpgradeSystem
                    | BackendCommand::RefreshRepos => {
                        let ghost mid = *self;
                        self.dispatch(BackendCommand::ListInstalled);
                        self.dispatch(BackendCommand::ListUpgradable);
                        proof {
                            assert(self.pending_commands@ =~= mid.pending_commands@ + seq![
                                BackendCommand::ListInstalled,
                                BackendCommand::ListUpgradable,
                            ]);
                        }
                    },
                    _ => {},
                }
            },
            BackendEvent::Error(msg) => {
                self.is_loading = false;
                self.open_popup("Error", msg.as_str(), None);
                self.push_notification(Notification::error(msg));
            },
        }
    }

    /// The reducer: applies one action to the state.  Total — every action
    /// has a defined effect, possibly none.
    pub fn update(&mut self, action: Action)
        ensures
            update_step(*old(self), *final(self), action),
    {
        match action {
            Action::Tick => {},
            Action::Quit => {
                self.should_quit = true;
            },
            Action::SelectNext => {
                self.next_item();
            },
            Action::SelectPrev => {
                self.prev_item();
            },
            Action::SwitchTabNext => {
                self.selected_tab = self.selected_tab.next();
                self.perform_search();
            },
            Action::SwitchTabPrev => {
                self.selected_tab = self.selected_tab.previous();
                self.perform_search();
            },
            Action::ToggleFocus => {
                self.active_panel = match self.active_panel {
                    Panel::PackageList => Panel::Details,
                    Panel::Details => Panel::PackageList,
                };
            },
            Action::EnterSearchMode => {
                self.is_searching = true;
                self.search_query = String::new();
                self.perform_search();
                self.active_panel = Panel::PackageList;
            },
            Action::ExitSearchMode => {
                self.is_searching = false;
            },
            Action::UpdateSearchQuery(c) => {
                crate::text::push_char(&mut self.search_query, c);
                self.perform_search();
            },
            Action::DeleteSearchChar => {
                let n = self.search_query.as_str().unicode_len();
                if n > 0 {
                    let shorter = self.search_query.as_str().substring_char(0, n - 1).to_owned();
                    proof {
                        assert(shorter@ =~= old(self).search_query@.drop_last());
                    }
                    self.search_query = shorter;
                }
                self.perform_search();
            },
            Action::ConfirmAction => {
                let staged = self.popup.command_to_confirm.take();
                match staged {
                    Some(cmd) => {
                        self.dispatch(cmd);
                    },
                    None => {},
                }
                self.popup.visible = false;
            },
            Action::CancelAction => {
                self.popup.visible = false;
                self.popup.command_to_confirm = None;
            },
            Action::RequestInstall => {
                let staged = match self.get_selected_pkg() {
                    Some(pkg) => Some((pkg.name.clone(), pkg.id.clone())),
                    None => None,
                };
                match staged {
                    Some((name, id)) => {
                        let m = Self::confirm_msg("Install ", name.as_str());
                        self.open_popup(
                            "Confirm Install",
                            m.as_str(),
                            Some(BackendCommand::Install(id)),
                        );
                    },
                    None => {},
                }
            },
            Action::RequestUninstall => {
                let staged = match self.get_selected_pkg() {
                    Some(pkg) => Some((pkg.name.clone(), pkg.id.clone())),
                    None => None,
                };
                match staged {
                    Some((name, id)) => {
                        let m = Self::confirm_msg("Remove ", name.as_str());
                        self.open_popup(
                            "Confirm Uninstall",
                            m.as_str(),
                            Some(BackendCommand::Remove(id)),
                        );
                    },
                    None => {},
                }
            },
            Action::RequestReinstall => {
                let staged = match self.get_selected_pkg() {
                    Some(pkg) => Some((pkg.name.clone(), pkg.id.clone())),
                    None => None,
                };
                match staged {
                    Some((name, id)) => {
                        let m = Self::confirm_msg("Reinstall ", name.as_str());
                        self.open_popup(
                            "Confirm Reinstall",
                            m.as_str(),
                            Some(BackendCommand::Reinstall(id)),
                        );
                    },
                    None => {},
                }
            },
            Action::RequestUpgradeSystem => {
                self.open_popup(
                    "System Upgrade",
                    "Update full system?",
                    Some(BackendCommand::UpgradeSystem),
                );
            },
            Action::RefreshRepos => {
                self.dispatch(BackendCommand::RefreshRepos);
            },
            Action::DismissNotification => {
                self.dismiss_notification();
            },
            Action::TriggerOnlineSearch => {
                let q = self.search_query.clone();
                self.dispatch(BackendCommand::Search(q));
            },
            Action::BackendResponse(event) => {
                self.handle_backend_event(event);
            },
        }
    }
}

} // verus!
