//! What a user has chosen for the console.
use crate::paths;
use crate::paths::{join_path, PathStyle};
use crate::text;
use crate::text::decimal_text;
use crate::types::clone_text;
use vstd::prelude::*;
use vstd::string::*;

verus! {

pub const GUI_SETTINGS_VERSION: u32 = 1;

/// Whether the desktop can be asked to show a notice.
pub const NATIVE_NOTIFICATION_AVAILABLE: bool = false;

#[derive(Debug, Clone, Copy, PartialEq, Eq, Structural)]
pub struct GuiSettings {
    pub version: u32,
    pub native_notifications: bool,
    pub notify_success: bool,
    pub notify_attention: bool,
    pub include_run_name: bool,
}

pub open spec fn default_settings() -> GuiSettings {
    GuiSettings {
        version: GUI_SETTINGS_VERSION,
        native_notifications: NATIVE_NOTIFICATION_AVAILABLE,
        notify_success: true,
        notify_attention: true,
        include_run_name: true,
    }
}

impl Default for GuiSettings {
    fn default() -> (settings: Self)
        ensures
            settings == default_settings(),
    {
        GuiSettings {
            version: GUI_SETTINGS_VERSION,
            native_notifications: NATIVE_NOTIFICATION_AVAILABLE,
            notify_success: true,
            notify_attention: true,
            include_run_name: true,
        }
    }
}

/// The settings in use, and what was wrong with those in the file.
#[derive(Debug)]
pub struct LoadedGuiSettings {
    pub settings: GuiSettings,
    pub warning: Option<String>,
}

/// What a `LoadedGuiSettings` says.
pub struct LoadedGuiSettingsView {
    pub settings: GuiSettings,
    pub warning: Option<Seq<char>>,
}

impl View for LoadedGuiSettings {
    type V = LoadedGuiSettingsView;

    open spec fn view(&self) -> LoadedGuiSettingsView {
        LoadedGuiSettingsView {
            settings: self.settings,
            warning: text::text_opt(self.warning),
        }
    }
}

impl DeepView for LoadedGuiSettings {
    type V = LoadedGuiSettingsView;

    open spec fn deep_view(&self) -> LoadedGuiSettingsView {
        self.view()
    }
}

impl Clone for LoadedGuiSettings {
    fn clone(&self) -> (copy: Self)
        ensures
            copy@ == self@,
    {
        LoadedGuiSettings {
            settings: self.settings,
            warning: clone_text(&self.warning),
        }
    }
}

/// What came of reading the settings.
pub enum SettingsFile {
    /// It is not known where they lie.
    NoPath { error: String },
    /// There are none.
    Missing,
    Unreadable { path: String, error: String },
    Malformed { path: String, error: String },
    Read { path: String, settings: GuiSettings },
}

/// The settings in use: those in the file where they can be read and are of
/// this version, and else the usual ones.
pub open spec fn loaded(file: SettingsFile) -> LoadedGuiSettingsView {
    match file {
        SettingsFile::NoPath { error } => usual_settings(
            Some("Could not resolve GUI settings path: "@ + error@),
        ),
        SettingsFile::Missing => usual_settings(None),
        SettingsFile::Unreadable { path, error } => usual_settings(
            Some("Could not read "@ + path@ + ": "@ + error@ + "; using defaults"@),
        ),
        SettingsFile::Malformed { path, error } => usual_settings(
            Some("Could not parse "@ + path@ + ": "@ + error@ + "; using defaults"@),
        ),
        SettingsFile::Read { path, settings } => if settings.version == GUI_SETTINGS_VERSION {
            LoadedGuiSettingsView { settings, warning: None }
        } else {
            usual_settings(
                Some(
                    "Unsupported GUI settings version "@ + text::decimal(settings.version as nat)
                        + " in "@ + path@ + "; using defaults"@,
                ),
            )
        },
    }
}

pub open spec fn usual_settings(warning: Option<Seq<char>>) -> LoadedGuiSettingsView {
    LoadedGuiSettingsView { settings: default_settings(), warning }
}

fn fall_back(warning: Option<String>) -> (loaded: LoadedGuiSettings)
    ensures
        loaded@ == usual_settings(text::text_opt(warning)),
{
    LoadedGuiSettings { settings: GuiSettings::default(), warning }
}

pub fn load(file: &SettingsFile) -> (settings: LoadedGuiSettings)
    ensures
        settings@ == loaded(*file),
{
    match file {
        SettingsFile::NoPath { error } => {
            let mut warning = "Could not resolve GUI settings path: ".to_owned();
            warning.append(error.as_str());
            fall_back(Some(warning))
        },
        SettingsFile::Missing => fall_back(None),
        SettingsFile::Unreadable { path, error } => {
            let mut warning = "Could not read ".to_owned();
            warning.append(path.as_str());
            warning.append(": ");
            warning.append(error.as_str());
            warning.append("; using defaults");
            fall_back(Some(warning))
        },
        SettingsFile::Malformed { path, error } => {
            let mut warning = "Could not parse ".to_owned();
            warning.append(path.as_str());
            warning.append(": ");
            warning.append(error.as_str());
            warning.append("; using defaults");
            fall_back(Some(warning))
        },
        SettingsFile::Read { path, settings } => {
            if settings.version == GUI_SETTINGS_VERSION {
                return LoadedGuiSettings { settings: *settings, warning: None };
            }
            let mut warning = "Unsupported GUI settings version ".to_owned();
            warning.append(decimal_text(settings.version as u64).as_str());
            warning.append(" in ");
            warning.append(path.as_str());
            warning.append("; using defaults");
            fall_back(Some(warning))
        },
    }
}

/// The settings as they are written: always of this version.
pub open spec fn written(settings: GuiSettings) -> GuiSettings {
    GuiSettings { version: GUI_SETTINGS_VERSION, ..settings }
}

pub fn save(settings: GuiSettings) -> (file: GuiSettings)
    ensures
        file == written(settings),
{
    GuiSettings {
        version: GUI_SETTINGS_VERSION,
        native_notifications: settings.native_notifications,
        notify_success: settings.notify_success,
        notify_attention: settings.notify_attention,
        include_run_name: settings.include_run_name,
    }
}

pub fn settings_path(data_dir: &str, style: PathStyle) -> (path: String)
    ensures
        path@ == paths::joined_path(data_dir@, "gui-settings.json"@, style),
{
    join_path(data_dir, "gui-settings.json", style)
}

// ---------------------------------------------------------------------------
// The page
// ---------------------------------------------------------------------------

/// The choices as the page of settings shows them.
#[derive(Debug)]
pub struct GuiSettingsState {
    pub native_notifications: bool,
    pub notify_success: bool,
    pub notify_attention: bool,
    pub include_run_name: bool,
    pub warning: String,
}

/// What a `GuiSettingsState` says.
pub struct GuiSettingsStateView {
    pub native_notifications: bool,
    pub notify_success: bool,
    pub notify_attention: bool,
    pub include_run_name: bool,
    pub warning: Seq<char>,
}

impl View for GuiSettingsState {
    type V = GuiSettingsStateView;

    open spec fn view(&self) -> GuiSettingsStateView {
        GuiSettingsStateView {
            native_notifications: self.native_notifications,
            notify_success: self.notify_success,
            notify_attention: self.notify_attention,
            include_run_name: self.include_run_name,
            warning: self.warning@,
        }
    }
}

impl DeepView for GuiSettingsState {
    type V = GuiSettingsStateView;

    open spec fn deep_view(&self) -> GuiSettingsStateView {
        self.view()
    }
}

impl Clone for GuiSettingsState {
    fn clone(&self) -> (copy: Self)
        ensures
            copy@ == self@,
    {
        GuiSettingsState {
            native_notifications: self.native_notifications,
            notify_success: self.notify_success,
            notify_attention: self.notify_attention,
            include_run_name: self.include_run_name,
            warning: self.warning.clone(),
        }
    }
}

impl GuiSettingsStateView {
    /// The settings that the page stands for.
    pub open spec fn chosen(self) -> GuiSettings {
        GuiSettings {
            version: GUI_SETTINGS_VERSION,
            native_notifications: self.native_notifications,
            notify_success: self.notify_success,
            notify_attention: self.notify_attention,
            include_run_name: self.include_run_name,
        }
    }

    pub open spec fn with_choice(self, choice: Choice) -> Self {
        match choice {
            Choice::NativeNotifications => GuiSettingsStateView {
                native_notifications: !self.native_notifications,
                ..self
            },
            Choice::Success => GuiSettingsStateView {
                notify_success: !self.notify_success,
                ..self
            },
            Choice::Attention => GuiSettingsStateView {
                notify_attention: !self.notify_attention,
                ..self
            },
            Choice::RunName => GuiSettingsStateView {
                include_run_name: !self.include_run_name,
                ..self
            },
        }
    }
}

/// A box on the page of settings.
#[derive(Debug, Clone, Copy, PartialEq, Eq, Structural)]
pub enum Choice {
    NativeNotifications,
    Success,
    Attention,
    RunName,
}

impl GuiSettingsState {
    pub fn new(loaded: LoadedGuiSettings) -> (page: Self)
        ensures
            page@.chosen() == written(loaded@.settings),
            page@.warning == match loaded@.warning {
                Some(warning) => warning,
                None => Seq::empty(),
            },
    {
        GuiSettingsState {
            native_notifications: loaded.settings.native_notifications,
            notify_success: loaded.settings.notify_success,
            notify_attention: loaded.settings.notify_attention,
            include_run_name: loaded.settings.include_run_name,
            warning: match loaded.warning {
                Some(warning) => warning,
                None => String::new(),
            },
        }
    }

    /// The settings that the page stands for.
    pub fn snapshot(&self) -> (settings: GuiSettings)
        ensures
            settings == self@.chosen(),
    {
        GuiSettings {
            version: GUI_SETTINGS_VERSION,
            native_notifications: self.native_notifications,
            notify_success: self.notify_success,
            notify_attention: self.notify_attention,
            include_run_name: self.include_run_name,
        }
    }

    /// Turns a choice over; the settings are then to be written.
    pub fn toggle(&mut self, choice: Choice) -> (settings: GuiSettings)
        ensures
            final(self)@ == old(self)@.with_choice(choice),
            settings == final(self)@.chosen(),
    {
        match choice {
            Choice::NativeNotifications => {
                self.native_notifications = !self.native_notifications;
            },
            Choice::Success => {
                self.notify_success = !self.notify_success;
            },
            Choice::Attention => {
                self.notify_attention = !self.notify_attention;
            },
            Choice::RunName => {
                self.include_run_name = !self.include_run_name;
            },
        }
        self.snapshot()
    }
}

// ---------------------------------------------------------------------------
// Laws
// ---------------------------------------------------------------------------

/// What was written is in use when it is read again, without a warning.
pub proof fn saved_settings_are_read_back(settings: GuiSettings, path: String)
    ensures
        loaded(SettingsFile::Read { path, settings: written(settings) })
            == (LoadedGuiSettingsView { settings: written(settings), warning: None }),
        written(settings).native_notifications == settings.native_notifications,
        written(settings).notify_success == settings.notify_success,
        written(settings).notify_attention == settings.notify_attention,
        written(settings).include_run_name == settings.include_run_name,
{
}

/// Whatever the file holds, the settings in use are of this version; they are
/// the usual ones wherever there is a warning.
pub proof fn settings_in_use_are_current(file: SettingsFile)
    ensures
        loaded(file).settings.version == GUI_SETTINGS_VERSION,
        loaded(file).warning is Some ==> loaded(file).settings == default_settings(),
{
}

} // verus!
