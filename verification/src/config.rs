//! The settings of the daemon and where its files lie.
use crate::paths;
use crate::paths::{join_path, PathStyle};
use crate::seqs::copy_rows;
use crate::text;
use crate::types::RunnerKind;
use vstd::prelude::*;
use vstd::string::*;

verus! {

/// How hosts are reached, in seconds.
#[derive(Debug, Clone, Copy, PartialEq, Eq, Structural)]
pub struct SshSettings {
    pub alive_interval: u64,
    pub cmd_timeout_sec: u64,
}

pub fn default_alive() -> (seconds: u64)
    ensures
        seconds == 30,
{
    30
}

pub fn default_timeout() -> (seconds: u64)
    ensures
        seconds == 20,
{
    20
}

pub fn default_poll() -> (seconds: u64)
    ensures
        seconds == 20,
{
    20
}

pub fn default_enabled() -> (enabled: bool)
    ensures
        enabled,
{
    true
}

pub open spec fn default_ssh() -> SshSettings {
    SshSettings { alive_interval: 30, cmd_timeout_sec: 20 }
}

impl Default for SshSettings {
    fn default() -> (settings: Self)
        ensures
            settings == default_ssh(),
            settings.alive_interval == 30,
            settings.cmd_timeout_sec == 20,
    {
        SshSettings { alive_interval: default_alive(), cmd_timeout_sec: default_timeout() }
    }
}

/// At least one second.
pub open spec fn at_least_one(seconds: u64) -> u64 {
    if seconds < 1 {
        1
    } else {
        seconds
    }
}

impl SshSettings {
    /// The seconds between two signs of life on a connection.
    pub fn keep_alive(&self) -> (seconds: u64)
        ensures
            seconds == at_least_one(self.alive_interval),
    {
        if self.alive_interval < 1 {
            1
        } else {
            self.alive_interval
        }
    }

    /// The seconds after which a command is given up.
    pub fn command_timeout(&self) -> (seconds: u64)
        ensures
            seconds == at_least_one(self.cmd_timeout_sec),
    {
        if self.cmd_timeout_sec < 1 {
            1
        } else {
            self.cmd_timeout_sec
        }
    }
}

impl Default for RunnerKind {
    fn default() -> (runner: Self)
        ensures
            runner == RunnerKind::Slurm,
    {
        RunnerKind::Slurm
    }
}

/// A host that is watched.
#[derive(Debug)]
pub struct HostWatch {
    pub alias: String,
    pub poll_sec: u64,
    pub query: RunnerKind,
    pub enabled: bool,
}

/// What a `HostWatch` says.
pub struct HostWatchView {
    pub alias: Seq<char>,
    pub poll_sec: u64,
    pub query: RunnerKind,
    pub enabled: bool,
}

impl View for HostWatch {
    type V = HostWatchView;

    open spec fn view(&self) -> HostWatchView {
        HostWatchView {
            alias: self.alias@,
            poll_sec: self.poll_sec,
            query: self.query,
            enabled: self.enabled,
        }
    }
}

impl DeepView for HostWatch {
    type V = HostWatchView;

    open spec fn deep_view(&self) -> HostWatchView {
        self.view()
    }
}

impl Clone for HostWatch {
    fn clone(&self) -> (copy: Self)
        ensures
            copy@ == self@,
    {
        HostWatch {
            alias: self.alias.clone(),
            poll_sec: self.poll_sec,
            query: self.query,
            enabled: self.enabled,
        }
    }
}

/// All settings.
#[derive(Debug)]
pub struct AppConfig {
    pub ssh: SshSettings,
    pub hosts: Vec<HostWatch>,
}

/// What a `AppConfig` says.
pub struct AppConfigView {
    pub ssh: SshSettings,
    pub hosts: Seq<HostWatchView>,
}

impl View for AppConfig {
    type V = AppConfigView;

    open spec fn view(&self) -> AppConfigView {
        AppConfigView {
            ssh: self.ssh,
            hosts: self.hosts.deep_view(),
        }
    }
}

impl DeepView for AppConfig {
    type V = AppConfigView;

    open spec fn deep_view(&self) -> AppConfigView {
        self.view()
    }
}

impl Clone for AppConfig {
    fn clone(&self) -> (copy: Self)
        ensures
            copy@ == self@,
    {
        AppConfig {
            ssh: self.ssh,
            hosts: copy_rows(&self.hosts),
        }
    }
}

pub open spec fn default_config() -> AppConfigView {
    AppConfigView { ssh: default_ssh(), hosts: Seq::empty() }
}

impl Default for AppConfig {
    fn default() -> (config: Self)
        ensures
            config@ == default_config(),
    {
        let hosts: Vec<HostWatch> = Vec::new();
        assert(hosts.deep_view() =~= Seq::<HostWatchView>::empty());
        AppConfig { ssh: SshSettings::default(), hosts }
    }
}

/// The directory of the daemon's files: the one that the environment names, or
/// one in the home directory.
pub open spec fn data_dir_of(
    configured: Option<Seq<char>>,
    home: Option<Seq<char>>,
    style: PathStyle,
) -> Result<Seq<char>, Seq<char>> {
    match (configured, home) {
        (Some(dir), _) if dir.len() > 0 => Ok(dir),
        (_, Some(home)) => Ok(paths::joined_path(home, ".runwatch"@, style)),
        (_, None) => Err("cannot resolve home directory"@),
    }
}

pub fn data_dir(configured: Option<String>, home: Option<String>, style: PathStyle) -> (result:
    Result<String, String>)
    ensures
        match (data_dir_of(text::text_opt(configured), text::text_opt(home), style), result) {
            (Ok(path), Ok(dir)) => dir@ == path,
            (Err(why), Err(reason)) => reason@ == why,
            _ => false,
        },
{
    if let Some(dir) = configured {
        if !dir.as_str().is_empty() {
            return Ok(dir);
        }
    }
    match home {
        Some(home) => Ok(join_path(home.as_str(), ".runwatch", style)),
        None => Err("cannot resolve home directory".to_owned()),
    }
}

impl AppConfig {
    pub fn path(data_dir: &str, style: PathStyle) -> (path: String)
        ensures
            path@ == paths::joined_path(data_dir@, "config.yaml"@, style),
    {
        join_path(data_dir, "config.yaml", style)
    }

    /// The settings in the file, where there is one.
    pub fn load_or_default(file: Option<Result<AppConfig, String>>) -> (result: Result<
        AppConfig,
        String,
    >)
        ensures
            match file {
                None => result matches Ok(config) && config@ == default_config(),
                Some(read) => result == read,
            },
    {
        match file {
            None => Ok(AppConfig::default()),
            Some(read) => read,
        }
    }
}

/// The data lie where the settings say, and otherwise in a directory of their own
/// in the home directory.
pub proof fn data_lie_where_they_are_said_to(
    configured: Option<Seq<char>>,
    home: Option<Seq<char>>,
    style: PathStyle,
)
    ensures
        configured is Some && configured->0.len() > 0 ==> data_dir_of(configured, home, style)
            == Ok::<Seq<char>, Seq<char>>(configured->0),
        (configured is None || configured->0.len() == 0) && home is Some ==> data_dir_of(
            configured,
            home,
            style,
        ) == Ok::<Seq<char>, Seq<char>>(paths::joined_path(home->0, ".runwatch"@, style)),
        (configured is None || configured->0.len() == 0) && home is None ==> data_dir_of(
            configured,
            home,
            style,
        ) is Err,
{
}

/// No interval is shorter than a second.
pub proof fn intervals_are_at_least_a_second(seconds: u64)
    ensures
        at_least_one(seconds) >= 1,
        seconds >= 1 ==> at_least_one(seconds) == seconds,
{
}

} // verus!
