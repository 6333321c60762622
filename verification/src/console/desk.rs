//! The console as a whole: its pages, and what each message from the
//! background changes on them.
use crate::console::controller;
use crate::console::controller::{
    retry_notice, submit_notice, Command, CommandView, Reaction, ReactionView,
};
use crate::console::hosts::{HostsViewState, HostsViewStateView};
use crate::console::model::{
    DashboardSnapshot, DashboardSnapshotView, HostCardView, RunDetailView,
};
use crate::console::notifications::{Notice, NoticeView};
use crate::console::runs::{RunsViewState, RunsViewStateView};
use crate::console::settings;
use crate::console::settings::{
    Choice, GuiSettingsState, GuiSettingsStateView, LoadedGuiSettings,
};
use crate::text;
use crate::text::decimal_text;
use vstd::prelude::*;
use vstd::string::*;

verus! {

/// What the background tells the console.
pub enum UiEvent {
    Snapshot { snapshot: DashboardSnapshot, notices: Vec<Notice> },
    DaemonUnavailable(String),
    Detail { request_id: u64, detail: RunDetailView },
    Hosts(Result<Vec<HostCardView>, String>),
    ManualSubmitResult { run_id: String, error: Option<String> },
    RetryResult { run_id: String, error: Option<String> },
    AutostartState { daemon_enabled: bool, gui_enabled: bool, notice: Notice },
    Notice(Notice),
}

/// The pages of the console.
#[derive(Debug)]
pub struct Desk {
    pub paused: bool,
    pub service: String,
    pub package: String,
    pub daemon_autostart: bool,
    pub gui_autostart: bool,
    pub disable_dialog: bool,
    pub runs: RunsViewState,
    pub hosts: HostsViewState,
    pub settings: GuiSettingsState,
}

/// What a `Desk` says.
pub struct DeskView {
    pub paused: bool,
    pub service: Seq<char>,
    pub package: Seq<char>,
    pub daemon_autostart: bool,
    pub gui_autostart: bool,
    pub disable_dialog: bool,
    pub runs: RunsViewStateView,
    pub hosts: HostsViewStateView,
    pub settings: GuiSettingsStateView,
}

impl View for Desk {
    type V = DeskView;

    open spec fn view(&self) -> DeskView {
        DeskView {
            paused: self.paused,
            service: self.service@,
            package: self.package@,
            daemon_autostart: self.daemon_autostart,
            gui_autostart: self.gui_autostart,
            disable_dialog: self.disable_dialog,
            runs: self.runs@,
            hosts: self.hosts@,
            settings: self.settings@,
        }
    }
}

impl DeepView for Desk {
    type V = DeskView;

    open spec fn deep_view(&self) -> DeskView {
        self.view()
    }
}

pub open spec fn on_off(enabled: bool) -> Seq<char> {
    if enabled {
        "enabled"@
    } else {
        "disabled"@
    }
}

fn show_on_off(enabled: bool) -> (word: &'static str)
    ensures
        word@ == on_off(enabled),
{
    if enabled {
        "enabled"
    } else {
        "disabled"
    }
}

/// How the daemon stands.
pub open spec fn service_text(
    snapshot: DashboardSnapshotView,
    daemon_autostart: bool,
    gui_autostart: bool,
    package: Seq<char>,
) -> Seq<char> {
    "runwatchd "@ + snapshot.daemon_version + "\nprotocol: "@ + text::decimal(
        snapshot.daemon_protocol as nat,
    ) + " · capabilities: "@ + text::decimal(snapshot.daemon_capabilities as nat) + "\npid: "@
        + text::decimal(snapshot.daemon_pid as nat) + "\npolling: "@ + (if snapshot.paused {
        "paused"@
    } else {
        "active"@
    }) + "\nresident service: "@ + on_off(daemon_autostart) + "\nGUI autostart: "@ + on_off(
        gui_autostart,
    ) + "\n"@ + package
}

fn show_service(
    snapshot: &DashboardSnapshot,
    daemon_autostart: bool,
    gui_autostart: bool,
    package: &str,
) -> (service: String)
    ensures
        service@ == service_text(snapshot@, daemon_autostart, gui_autostart, package@),
{
    let mut service = "runwatchd ".to_owned();
    service.append(snapshot.daemon_version.as_str());
    service.append("\nprotocol: ");
    service.append(decimal_text(snapshot.daemon_protocol).as_str());
    service.append(" · capabilities: ");
    service.append(decimal_text(snapshot.daemon_capabilities as u64).as_str());
    service.append("\npid: ");
    service.append(decimal_text(snapshot.daemon_pid).as_str());
    service.append("\npolling: ");
    service.append(if snapshot.paused { "paused" } else { "active" });
    service.append("\nresident service: ");
    service.append(show_on_off(daemon_autostart));
    service.append("\nGUI autostart: ");
    service.append(show_on_off(gui_autostart));
    service.append("\n");
    service.append(package);
    service
}

pub open spec fn offline_text(error: Seq<char>) -> Seq<char> {
    "runwatchd unavailable\n"@ + error + "\n\nThe GUI will not take over scheduler polling."@
}

impl DeskView {
    pub open spec fn with_snapshot(self, snapshot: DashboardSnapshotView) -> Self {
        DeskView {
            paused: snapshot.paused,
            service: service_text(
                snapshot,
                self.daemon_autostart,
                self.gui_autostart,
                self.package,
            ),
            hosts: self.hosts.with_rows(snapshot.rows),
            runs: self.runs.with_snapshot(snapshot),
            ..self
        }
    }

    pub open spec fn without_daemon(self, error: Seq<char>) -> Self {
        DeskView {
            service: offline_text(error),
            runs: self.runs.without_daemon(error),
            ..self
        }
    }

    pub open spec fn with_submission(self, error: Option<Seq<char>>) -> Self {
        DeskView {
            runs: match error {
                None => self.runs.created(),
                Some(error) => self.runs.not_created(error),
            },
            ..self
        }
    }

    pub open spec fn with_retry(self, error: Option<Seq<char>>) -> Self {
        DeskView {
            runs: match error {
                None => self.runs.retried(),
                Some(error) => self.runs.not_retried(error),
            },
            ..self
        }
    }

    /// The pages after a message, and what is told of it.
    pub open spec fn after(self, event: UiEvent) -> (Self, Seq<NoticeView>) {
        match event {
            UiEvent::Snapshot { snapshot, notices } => (
                self.with_snapshot(snapshot@),
                notices.deep_view(),
            ),
            UiEvent::DaemonUnavailable(error) => (self.without_daemon(error@), Seq::empty()),
            UiEvent::Detail { request_id, detail } => (
                DeskView { runs: self.runs.with_detail(request_id, detail@), ..self },
                Seq::empty(),
            ),
            UiEvent::Hosts(result) => (
                DeskView {
                    hosts: self.hosts.with_hosts(
                        match result {
                            Ok(hosts) => Ok(hosts.deep_view()),
                            Err(error) => Err(error@),
                        },
                    ),
                    ..self
                },
                Seq::empty(),
            ),
            UiEvent::ManualSubmitResult { run_id, error } => (
                self.with_submission(text::text_opt(error)),
                seq![controller::submitted_notice(run_id@, text::text_opt(error))],
            ),
            UiEvent::RetryResult { run_id, error } => (
                self.with_retry(text::text_opt(error)),
                seq![controller::retried_notice(run_id@, text::text_opt(error))],
            ),
            UiEvent::AutostartState { daemon_enabled, gui_enabled, notice } => (
                DeskView {
                    daemon_autostart: daemon_enabled,
                    gui_autostart: gui_enabled,
                    ..self
                },
                seq![notice@],
            ),
            UiEvent::Notice(notice) => (self, seq![notice@]),
        }
    }
}

fn none_told() -> (notices: Vec<Notice>)
    ensures
        notices.deep_view() == Seq::<NoticeView>::empty(),
{
    let notices: Vec<Notice> = Vec::new();
    assert(notices.deep_view() =~= Seq::<NoticeView>::empty());
    notices
}

fn one_told(notice: Notice) -> (notices: Vec<Notice>)
    ensures
        notices.deep_view() == seq![notice@],
{
    let mut notices: Vec<Notice> = Vec::new();
    notices.push(notice);
    assert(notices.deep_view() =~= seq![notice@]);
    notices
}

impl Desk {
    pub fn new(
        package: String,
        daemon_autostart: bool,
        gui_autostart: bool,
        loaded: LoadedGuiSettings,
    ) -> (desk: Self)
        ensures
            !desk@.paused,
            desk@.service == "Connecting to runwatchd..."@,
            desk@.package == package@,
            desk@.daemon_autostart == daemon_autostart,
            desk@.gui_autostart == gui_autostart,
            !desk@.disable_dialog,
            desk@.settings.chosen() == settings::written(loaded@.settings),
            desk@.settings.warning == match loaded@.warning {
                Some(warning) => warning,
                None => Seq::empty(),
            },
            desk@.hosts.coherent(),
            desk@.hosts.hosts.len() == 0,
            desk@.runs.all_rows.len() == 0,
            desk@.runs.selected_id.len() == 0,
    {
        Desk {
            paused: false,
            service: "Connecting to runwatchd...".to_owned(),
            package,
            daemon_autostart,
            gui_autostart,
            disable_dialog: false,
            runs: RunsViewState::new(),
            hosts: HostsViewState::new(),
            settings: GuiSettingsState::new(loaded),
        }
    }

    fn take_snapshot(&mut self, snapshot: DashboardSnapshot)
        ensures
            final(self)@ == old(self)@.with_snapshot(snapshot@),
    {
        self.paused = snapshot.paused;
        self.service = show_service(
            &snapshot,
            self.daemon_autostart,
            self.gui_autostart,
            self.package.as_str(),
        );
        self.hosts.apply_run_usage(&snapshot.rows);
        self.runs.apply_snapshot(snapshot);
    }

    fn lose_daemon(&mut self, error: &str)
        ensures
            final(self)@ == old(self)@.without_daemon(error@),
    {
        let mut service = "runwatchd unavailable\n".to_owned();
        service.append(error);
        service.append("\n\nThe GUI will not take over scheduler polling.");
        self.service = service;
        self.runs.daemon_unavailable(error);
    }

    fn take_submission(&mut self, error: &Option<String>)
        ensures
            final(self)@ == old(self)@.with_submission(text::text_opt(*error)),
    {
        match error {
            None => self.runs.manual_submit_succeeded(),
            Some(error) => self.runs.manual_submit_failed(error.as_str()),
        }
    }

    fn take_retry(&mut self, error: &Option<String>)
        ensures
            final(self)@ == old(self)@.with_retry(text::text_opt(*error)),
    {
        match error {
            None => self.runs.retry_succeeded(),
            Some(error) => self.runs.retry_failed(error.as_str()),
        }
    }

    /// Takes a message from the background.
    pub fn handle(&mut self, event: UiEvent) -> (notices: Vec<Notice>)
        ensures
            (final(self)@, notices.deep_view()) == old(self)@.after(event),
            old(self)@.hosts.coherent() ==> final(self)@.hosts.coherent(),
    {
        match event {
            UiEvent::Snapshot { snapshot, notices } => {
                self.take_snapshot(snapshot);
                notices
            },
            UiEvent::DaemonUnavailable(error) => {
                self.lose_daemon(error.as_str());
                none_told()
            },
            UiEvent::Detail { request_id, detail } => {
                self.runs.apply_detail(request_id, detail);
                none_told()
            },
            UiEvent::Hosts(result) => {
                self.hosts.apply_hosts(result);
                none_told()
            },
            UiEvent::ManualSubmitResult { run_id, error } => {
                self.take_submission(&error);
                one_told(submit_notice(run_id.as_str(), &error))
            },
            UiEvent::RetryResult { run_id, error } => {
                self.take_retry(&error);
                one_told(retry_notice(run_id.as_str(), &error))
            },
            UiEvent::AutostartState { daemon_enabled, gui_enabled, notice } => {
                self.daemon_autostart = daemon_enabled;
                self.gui_autostart = gui_enabled;
                one_told(notice)
            },
            UiEvent::Notice(notice) => one_told(notice),
        }
    }

    /// The window has a width; only the page of hosts is laid out by it.
    pub fn resize(&mut self, hosts_shown: bool, width: i32)
        ensures
            final(self)@ == (DeskView {
                hosts: if hosts_shown {
                    old(self)@.hosts.with_width(width)
                } else {
                    old(self)@.hosts
                },
                ..old(self)@
            }),
    {
        if hosts_shown {
            self.hosts.set_viewport_width(width);
        }
    }

    /// Turns the polling off or on.
    pub fn toggle_pause(&mut self) -> (command: Command)
        ensures
            final(self)@ == (DeskView { paused: !old(self)@.paused, ..old(self)@ }),
            command@ == CommandView::SetPaused(!old(self)@.paused),
    {
        self.paused = !self.paused;
        Command::SetPaused(self.paused)
    }

    /// Keeps the daemon running; turning that off is asked about first.
    pub fn press_daemon_autostart(&mut self) -> (reaction: Reaction)
        ensures
            (final(self)@, reaction@) == if old(self)@.daemon_autostart {
                (DeskView { disable_dialog: true, ..old(self)@ }, ReactionView::Nothing)
            } else {
                (old(self)@, ReactionView::Send(CommandView::SetDaemonAutostart(true)))
            },
    {
        if self.daemon_autostart {
            self.disable_dialog = true;
            Reaction::Nothing
        } else {
            Reaction::Send(Command::SetDaemonAutostart(true))
        }
    }

    /// The same from the tray, where nothing can be asked.
    pub fn press_daemon_autostart_in_tray(&self) -> (reaction: Reaction)
        ensures
            reaction@ == if self@.daemon_autostart {
                ReactionView::Toast(
                    "Open Run Console > Service to disable the resident runtime safely"@,
                )
            } else {
                ReactionView::Send(CommandView::SetDaemonAutostart(true))
            },
    {
        if self.daemon_autostart {
            Reaction::Toast("Open Run Console > Service to disable the resident runtime safely")
        } else {
            Reaction::Send(Command::SetDaemonAutostart(true))
        }
    }

    pub fn keep_daemon(&mut self)
        ensures
            final(self)@ == (DeskView { disable_dialog: false, ..old(self)@ }),
    {
        self.disable_dialog = false;
    }

    pub fn disable_daemon(&mut self) -> (command: Command)
        ensures
            final(self)@ == (DeskView { disable_dialog: false, ..old(self)@ }),
            command@ == CommandView::SetDaemonAutostart(false),
    {
        self.disable_dialog = false;
        Command::SetDaemonAutostart(false)
    }

    pub fn press_gui_autostart(&self) -> (command: Command)
        ensures
            command@ == CommandView::SetGuiAutostart(!self@.gui_autostart),
    {
        Command::SetGuiAutostart(!self.gui_autostart)
    }

    pub fn press_choice(&mut self, choice: Choice) -> (command: Command)
        ensures
            final(self)@ == (DeskView {
                settings: old(self)@.settings.with_choice(choice),
                ..old(self)@
            }),
            command@ == CommandView::SaveGuiSettings(final(self)@.settings.chosen()),
    {
        Command::SaveGuiSettings(self.settings.toggle(choice))
    }
}

// ---------------------------------------------------------------------------
// Laws
// ---------------------------------------------------------------------------

/// Losing the daemon takes nothing off the list and stops no dialog: only what
/// needs the daemon is no longer offered.
pub proof fn lost_daemon_keeps_the_list(desk: DeskView, error: String)
    ensures
        ({
            let (after, told) = desk.after(UiEvent::DaemonUnavailable(error));
            &&& told.len() == 0
            &&& after.runs.all_rows == desk.runs.all_rows
            &&& after.runs.table_rows == desk.runs.table_rows
            &&& after.runs.selected_id == desk.runs.selected_id
            &&& after.runs.retry == desk.runs.retry
            &&& after.runs.create == desk.runs.create
            &&& after.hosts == desk.hosts
            &&& !after.runs.manual_submit_supported
            &&& !after.runs.retry_supported
        }),
{
}

} // verus!
