//! Whether an agent's own settings name this project's server, and what may be
//! changed about that.
use crate::paths::PathStyle;
use crate::text;
use crate::text::{
    contains_text, lines, replace, same, split_once, strip_prefix, to_ascii_lowercase, trim,
};
use crate::types::clone_text;
use vstd::prelude::*;
use vstd::string::*;

verus! {

/// The name under which the server is entered.
pub const MCP_NAME: &'static str = "runwatch";

/// A server in the settings of an agent.
#[derive(Debug, PartialEq, Eq)]
pub struct McpEntry {
    pub enabled: bool,
    pub transport: String,
    pub command: Option<String>,
    pub args: Option<String>,
}

/// What a `McpEntry` says.
pub struct McpEntryView {
    pub enabled: bool,
    pub transport: Seq<char>,
    pub command: Option<Seq<char>>,
    pub args: Option<Seq<char>>,
}

impl View for McpEntry {
    type V = McpEntryView;

    open spec fn view(&self) -> McpEntryView {
        McpEntryView {
            enabled: self.enabled,
            transport: self.transport@,
            command: text::text_opt(self.command),
            args: text::text_opt(self.args),
        }
    }
}

impl DeepView for McpEntry {
    type V = McpEntryView;

    open spec fn deep_view(&self) -> McpEntryView {
        self.view()
    }
}

impl Clone for McpEntry {
    fn clone(&self) -> (copy: Self)
        ensures
            copy@ == self@,
    {
        McpEntry {
            enabled: self.enabled,
            transport: self.transport.clone(),
            command: clone_text(&self.command),
            args: clone_text(&self.args),
        }
    }
}

#[derive(Debug, PartialEq, Eq)]
pub enum RegistrationState {
    Missing,
    Owned(McpEntry),
    /// The name is taken by something else.
    Conflict(McpEntry),
}

/// What a `RegistrationState` says.
pub enum RegistrationStateView {
    Missing,
    Owned(McpEntryView),
    Conflict(McpEntryView),
}

impl View for RegistrationState {
    type V = RegistrationStateView;

    open spec fn view(&self) -> RegistrationStateView {
        match *self {
            RegistrationState::Missing => RegistrationStateView::Missing,
            RegistrationState::Owned(entry) => RegistrationStateView::Owned(entry@),
            RegistrationState::Conflict(entry) => RegistrationStateView::Conflict(entry@),
        }
    }
}

pub open spec fn file_name(style: PathStyle) -> Seq<char> {
    match style {
        PathStyle::Windows => "runwatch-mcp.exe"@,
        PathStyle::Posix => "runwatch-mcp"@,
    }
}

pub fn mcp_file_name(style: PathStyle) -> (name: &'static str)
    ensures
        name@ == file_name(style),
{
    match style {
        PathStyle::Windows => "runwatch-mcp.exe",
        PathStyle::Posix => "runwatch-mcp",
    }
}

/// The agent's program: the one that the environment names, where it names one.
pub fn codex_program(configured: Option<String>, style: PathStyle) -> (program: String)
    ensures
        program@ == (match text::text_opt(configured) {
            Some(value) if value.len() > 0 => value,
            _ => match style {
                PathStyle::Windows => "codex.exe"@,
                PathStyle::Posix => "codex"@,
            },
        }),
{
    if let Some(value) = configured {
        if !value.as_str().is_empty() {
            return value;
        }
    }
    match style {
        PathStyle::Windows => "codex.exe".to_owned(),
        PathStyle::Posix => "codex".to_owned(),
    }
}

/// A path without the prefix that only Windows itself understands.
pub open spec fn plain_path(path: Seq<char>) -> Seq<char> {
    match (
        text::without_prefix(path, "\\\\?\\UNC\\"@),
        text::without_prefix(path, "\\\\?\\"@),
    ) {
        (Some(rest), _) => "\\\\"@ + rest,
        (None, Some(rest)) => rest,
        (None, None) => path,
    }
}

pub fn strip_verbatim(path: &str) -> (plain: String)
    ensures
        plain@ == plain_path(path@),
{
    if let Some(rest) = strip_prefix(path, "\\\\?\\UNC\\") {
        let mut plain = "\\\\".to_owned();
        plain.append(rest.as_str());
        return plain;
    }
    match strip_prefix(path, "\\\\?\\") {
        Some(rest) => rest,
        None => path.to_owned(),
    }
}

/// A path as other programs take it.
pub open spec fn safe_path(path: Seq<char>, style: PathStyle) -> Seq<char> {
    match style {
        PathStyle::Windows => plain_path(path),
        PathStyle::Posix => path,
    }
}

pub fn consumer_safe_path(path: &str, style: PathStyle) -> (safe: String)
    ensures
        safe@ == safe_path(path@, style),
{
    match style {
        PathStyle::Windows => strip_verbatim(path),
        PathStyle::Posix => path.to_owned(),
    }
}

/// The path of the server that is entered, where it is installed.
pub fn sibling_mcp_for_install(
    candidate: &str,
    canonical: Option<String>,
    style: PathStyle,
) -> (result: Result<String, String>)
    ensures
        match (text::text_opt(canonical), result) {
            (Some(path), Ok(safe)) => safe@ == safe_path(path, style),
            (None, Err(reason)) => reason@ == "runwatch-mcp is not installed beside runwatch: "@
                + candidate@,
            _ => false,
        },
{
    match canonical {
        Some(path) => Ok(consumer_safe_path(path.as_str(), style)),
        None => {
            let mut reason = "runwatch-mcp is not installed beside runwatch: ".to_owned();
            reason.append(candidate);
            Err(reason)
        },
    }
}

// ---------------------------------------------------------------------------
// What the agent prints
// ---------------------------------------------------------------------------

/// What has been read of an entry.
pub struct McpFields {
    pub enabled: Option<bool>,
    pub transport: Option<Seq<char>>,
    pub command: Option<Seq<char>>,
    pub args: Option<Seq<char>>,
}

/// One line of an entry: a name, a colon and a value. A dash is no value.
pub open spec fn mcp_line(fields: McpFields, line: Seq<char>) -> McpFields {
    match text::split_pair(text::trimmed(line), ':') {
        None => fields,
        Some((key, value)) => {
            let key = text::trimmed(key);
            let value = text::trimmed(value);
            if key == "enabled"@ {
                McpFields { enabled: Some(value == "true"@), ..fields }
            } else if key == "transport"@ {
                McpFields { transport: Some(value), ..fields }
            } else if key == "command"@ && value != "-"@ {
                McpFields { command: Some(value), ..fields }
            } else if key == "args"@ && value != "-"@ {
                McpFields { args: Some(value), ..fields }
            } else {
                fields
            }
        },
    }
}

pub open spec fn mcp_fields(lines: Seq<Seq<char>>) -> McpFields
    decreases lines.len(),
{
    if lines.len() == 0 {
        McpFields { enabled: None, transport: None, command: None, args: None }
    } else {
        mcp_line(mcp_fields(lines.drop_last()), lines.last())
    }
}

/// The lines behind the first, which is the entry's name.
pub open spec fn entry_lines(stdout: Seq<char>) -> Seq<Seq<char>> {
    let all = text::lines_of(stdout);
    if all.len() == 0 {
        all
    } else {
        all.skip(1)
    }
}

pub open spec fn entry_of(stdout: Seq<char>) -> Result<McpEntryView, Seq<char>> {
    let fields = mcp_fields(entry_lines(stdout));
    match (fields.enabled, fields.transport) {
        (None, _) => Err("Codex MCP entry omitted enabled"@),
        (_, None) => Err("Codex MCP entry omitted transport"@),
        (Some(enabled), Some(transport)) => Ok(
            McpEntryView { enabled, transport, command: fields.command, args: fields.args },
        ),
    }
}

struct EntryReader {
    enabled: Option<bool>,
    transport: Option<String>,
    command: Option<String>,
    args: Option<String>,
}

impl EntryReader {
    spec fn fields(self) -> McpFields {
        McpFields {
            enabled: self.enabled,
            transport: text::text_opt(self.transport),
            command: text::text_opt(self.command),
            args: text::text_opt(self.args),
        }
    }

    fn read_line(&mut self, line: &str)
        ensures
            final(self).fields() == mcp_line(old(self).fields(), line@),
    {
        let inner = trim(line);
        let pair = split_once(inner.as_str(), ':');
        if let Some((key, value)) = pair {
            let key = trim(key.as_str());
            let value = trim(value.as_str());
            let name = key.as_str();
            if same(name, "enabled") {
                self.enabled = Some(same(value.as_str(), "true"));
            } else if same(name, "transport") {
                self.transport = Some(value);
            } else if same(name, "command") && !same(value.as_str(), "-") {
                self.command = Some(value);
            } else if same(name, "args") && !same(value.as_str(), "-") {
                self.args = Some(value);
            }
        }
    }
}

pub fn parse_mcp_get(stdout: &str) -> (result: Result<McpEntry, String>)
    ensures
        match (entry_of(stdout@), result) {
            (Ok(view), Ok(entry)) => entry@ == view,
            (Err(why), Err(reason)) => reason@ == why,
            _ => false,
        },
{
    let all = lines(stdout);
    let ghost read = entry_lines(stdout@);
    let mut reader = EntryReader { enabled: None, transport: None, command: None, args: None };
    let mut i: usize = if all.len() == 0 {
        0
    } else {
        1
    };
    let ghost skipped: int = i as int;
    assert(text::texts(all@).len() == all@.len());
    assert(read.take(0) =~= Seq::<Seq<char>>::empty());
    while i < all.len()
        invariant
            0 <= skipped <= i <= all@.len(),
            read == text::texts(all@).skip(skipped),
            text::texts(all@).len() == all@.len(),
            reader.fields() == mcp_fields(read.take(i - skipped)),
        decreases all@.len() - i,
    {
        proof {
            let now = read.take(i + 1 - skipped);
            assert(now.drop_last() =~= read.take(i - skipped));
            assert(now.last() == text::texts(all@)[i as int]);
            assert(text::texts(all@)[i as int] == all@[i as int]@);
        }
        reader.read_line(all[i].as_str());
        i += 1;
    }
    assert(read.take(i - skipped) =~= read);
    let enabled = match reader.enabled {
        Some(enabled) => enabled,
        None => return Err("Codex MCP entry omitted enabled".to_owned()),
    };
    match reader.transport {
        Some(transport) => Ok(
            McpEntry { enabled, transport, command: reader.command, args: reader.args },
        ),
        None => Err("Codex MCP entry omitted transport".to_owned()),
    }
}

pub fn missing_mcp(stderr: &str) -> (missing: bool)
    ensures
        missing == text::has_part(stderr@, "No MCP server named 'runwatch' found"@),
{
    contains_text(stderr, "No MCP server named 'runwatch' found")
}

/// A path as two paths are compared.
pub open spec fn compared_path(path: Seq<char>, style: PathStyle) -> Seq<char> {
    let slashed = text::replaced(path, '\\', "/"@);
    match style {
        PathStyle::Windows => text::ascii_lower(slashed),
        PathStyle::Posix => slashed,
    }
}

pub fn normalized_path_text(path: &str, style: PathStyle) -> (normal: String)
    ensures
        normal@ == compared_path(path@, style),
{
    let slashed = replace(path, '\\', "/");
    match style {
        PathStyle::Windows => to_ascii_lowercase(slashed.as_str()),
        PathStyle::Posix => slashed,
    }
}

/// The path that a path leads to, or the path itself where it leads nowhere.
pub open spec fn resolved(path: Seq<char>, canonical: Option<Seq<char>>) -> Seq<char> {
    match canonical {
        Some(path) => path,
        None => path,
    }
}

/// Whether two paths, resolved, are the same.
pub open spec fn same_program(
    command: Seq<char>,
    canonical_command: Option<Seq<char>>,
    expected: Seq<char>,
    canonical_expected: Option<Seq<char>>,
    style: PathStyle,
) -> bool {
    compared_path(safe_path(resolved(command, canonical_command), style), style)
        == compared_path(safe_path(resolved(expected, canonical_expected), style), style)
}

pub fn configured_command_is_owned(
    command: &str,
    canonical_command: &Option<String>,
    expected: &str,
    canonical_expected: &Option<String>,
    style: PathStyle,
) -> (owned: bool)
    ensures
        owned == same_program(
            command@,
            text::text_opt(*canonical_command),
            expected@,
            text::text_opt(*canonical_expected),
            style,
        ),
{
    let left = match canonical_command {
        Some(path) => consumer_safe_path(path.as_str(), style),
        None => consumer_safe_path(command, style),
    };
    let right = match canonical_expected {
        Some(path) => consumer_safe_path(path.as_str(), style),
        None => consumer_safe_path(expected, style),
    };
    let left = normalized_path_text(left.as_str(), style);
    let right = normalized_path_text(right.as_str(), style);
    same(left.as_str(), right.as_str())
}

/// Whether an entry is this project's own.
pub open spec fn entry_is_owned(
    entry: McpEntryView,
    expected: Seq<char>,
    canonical_command: Option<Seq<char>>,
    canonical_expected: Option<Seq<char>>,
    style: PathStyle,
) -> bool {
    &&& entry.transport == "stdio"@
    &&& entry.args is None
    &&& entry.command matches Some(command) && same_program(
        command,
        canonical_command,
        expected,
        canonical_expected,
        style,
    )
}

/// What an agent's answer says of the entry. Only its own word for it makes an
/// entry missing.
pub open spec fn registration(
    success: bool,
    stdout: Seq<char>,
    stderr: Seq<char>,
    expected: Seq<char>,
    canonical_command: Option<Seq<char>>,
    canonical_expected: Option<Seq<char>>,
    style: PathStyle,
) -> Result<RegistrationStateView, Seq<char>> {
    if !success {
        if text::has_part(stderr, "No MCP server named 'runwatch' found"@) {
            Ok(RegistrationStateView::Missing)
        } else {
            Err("codex mcp get runwatch failed: "@ + text::trimmed(stderr))
        }
    } else {
        match entry_of(stdout) {
            Err(why) => Err(why),
            Ok(entry) => if entry_is_owned(
                entry,
                expected,
                canonical_command,
                canonical_expected,
                style,
            ) {
                Ok(RegistrationStateView::Owned(entry))
            } else {
                Ok(RegistrationStateView::Conflict(entry))
            },
        }
    }
}

pub fn classify_registration(
    success: bool,
    stdout: &str,
    stderr: &str,
    expected: &str,
    canonical_command: &Option<String>,
    canonical_expected: &Option<String>,
    style: PathStyle,
) -> (result: Result<RegistrationState, String>)
    ensures
        match (
            registration(
                success,
                stdout@,
                stderr@,
                expected@,
                text::text_opt(*canonical_command),
                text::text_opt(*canonical_expected),
                style,
            ),
            result,
        ) {
            (Ok(view), Ok(state)) => state@ == view,
            (Err(why), Err(reason)) => reason@ == why,
            _ => false,
        },
{
    if !success {
        if missing_mcp(stderr) {
            return Ok(RegistrationState::Missing);
        }
        let mut reason = "codex mcp get runwatch failed: ".to_owned();
        reason.append(trim(stderr).as_str());
        return Err(reason);
    }
    let entry = match parse_mcp_get(stdout) {
        Ok(entry) => entry,
        Err(reason) => return Err(reason),
    };
    let named = match &entry.command {
        Some(command) => configured_command_is_owned(
            command.as_str(),
            canonical_command,
            expected,
            canonical_expected,
            style,
        ),
        None => false,
    };
    let owned = same(entry.transport.as_str(), "stdio") && entry.args.is_none() && named;
    if owned {
        Ok(RegistrationState::Owned(entry))
    } else {
        Ok(RegistrationState::Conflict(entry))
    }
}

/// The version that the agent prints.
pub fn codex_version(success: bool, stdout: &str, stderr: &str) -> (result: Result<String, String>)
    ensures
        match result {
            Ok(version) => success && version@ == text::trimmed(stdout@),
            Err(reason) => !success && reason@ == "codex --version failed: "@ + text::trimmed(
                stderr@,
            ),
        },
{
    if success {
        Ok(trim(stdout))
    } else {
        let mut reason = "codex --version failed: ".to_owned();
        reason.append(trim(stderr).as_str());
        Err(reason)
    }
}

pub fn require_success(success: bool, stdout: &str, stderr: &str, action: &str) -> (result: Result<
    (),
    String,
>)
    ensures
        match result {
            Ok(_) => success,
            Err(reason) => !success && reason@ == action@ + " failed: "@ + stdout@ + stderr@,
        },
{
    if success {
        return Ok(());
    }
    let mut reason = action.to_owned();
    reason.append(" failed: ");
    reason.append(stdout);
    reason.append(stderr);
    Err(reason)
}

// ---------------------------------------------------------------------------
// What is done about it
// ---------------------------------------------------------------------------

pub open spec fn or_dash(value: Option<Seq<char>>) -> Seq<char> {
    match value {
        Some(value) => value,
        None => "-"@,
    }
}

fn show_or_dash(value: &Option<String>) -> (shown: String)
    ensures
        shown@ == or_dash(text::text_opt(*value)),
{
    match value {
        Some(value) => value.clone(),
        None => "-".to_owned(),
    }
}

/// That the name is taken.
pub open spec fn conflict_text(entry: McpEntryView, expected: Seq<char>) -> Seq<char> {
    "Codex MCP name 'runwatch' is already owned by another configuration (transport="@
        + entry.transport + ", command="@ + or_dash(entry.command) + ", args="@ + or_dash(
        entry.args,
    ) + "); refusing to overwrite or remove it. Expected command: "@ + expected
}

pub fn conflict_message(entry: &McpEntry, expected: &str) -> (message: String)
    ensures
        message@ == conflict_text(entry@, expected@),
{
    let mut message =
        "Codex MCP name 'runwatch' is already owned by another configuration (transport=".to_owned();
    message.append(entry.transport.as_str());
    message.append(", command=");
    message.append(show_or_dash(&entry.command).as_str());
    message.append(", args=");
    message.append(show_or_dash(&entry.args).as_str());
    message.append("); refusing to overwrite or remove it. Expected command: ");
    message.append(expected);
    message
}

/// The entry in one line.
pub open spec fn status_text(state: RegistrationStateView) -> Seq<char> {
    match state {
        RegistrationStateView::Missing => "registration=missing name=runwatch"@,
        RegistrationStateView::Owned(entry) => "registration=installed name=runwatch enabled="@ + (
        if entry.enabled {
            "true"@
        } else {
            "false"@
        }) + " command="@ + or_dash(entry.command),
        RegistrationStateView::Conflict(entry) => "registration=conflict name=runwatch transport="@
            + entry.transport + " command="@ + or_dash(entry.command) + " args="@ + or_dash(
            entry.args,
        ),
    }
}

pub fn status_line(state: &RegistrationState) -> (line: String)
    ensures
        line@ == status_text(state@),
{
    match state {
        RegistrationState::Missing => "registration=missing name=runwatch".to_owned(),
        RegistrationState::Owned(entry) => {
            let mut line = "registration=installed name=runwatch enabled=".to_owned();
            if entry.enabled {
                line.append("true");
            } else {
                line.append("false");
            }
            line.append(" command=");
            line.append(show_or_dash(&entry.command).as_str());
            line
        },
        RegistrationState::Conflict(entry) => {
            let mut line = "registration=conflict name=runwatch transport=".to_owned();
            line.append(entry.transport.as_str());
            line.append(" command=");
            line.append(show_or_dash(&entry.command).as_str());
            line.append(" args=");
            line.append(show_or_dash(&entry.args).as_str());
            line
        },
    }
}

/// What an installation does about the entry: nothing more where the line says
/// so, and never anything about somebody else's.
pub fn install(state: &RegistrationState, expected: &str, version: &str) -> (result: Result<
    Option<String>,
    String,
>)
    ensures
        match (state@, result) {
            (RegistrationStateView::Missing, Ok(done)) => done is None,
            (RegistrationStateView::Owned(_), Ok(Some(line))) => line@
                == "already installed Codex MCP runwatch -> "@ + expected@ + " ("@ + version@
                + ")"@,
            (RegistrationStateView::Conflict(entry), Err(reason)) => reason@ == conflict_text(
                entry,
                expected@,
            ),
            _ => false,
        },
{
    match state {
        RegistrationState::Missing => Ok(None),
        RegistrationState::Owned(_) => {
            let mut line = "already installed Codex MCP runwatch -> ".to_owned();
            line.append(expected);
            line.append(" (");
            line.append(version);
            line.append(")");
            Ok(Some(line))
        },
        RegistrationState::Conflict(entry) => Err(conflict_message(entry, expected)),
    }
}

/// Whether the entry is there after an installation.
pub fn confirm_install(state: &RegistrationState, expected: &str) -> (result: Result<String, String>)
    ensures
        match (state@, result) {
            (RegistrationStateView::Owned(_), Ok(line)) => line@
                == "installed Codex MCP runwatch -> "@ + expected@,
            (RegistrationStateView::Missing, Err(reason)) => reason@
                == "Codex MCP registration disappeared after install"@,
            (RegistrationStateView::Conflict(entry), Err(reason)) => reason@
                == "Codex MCP registration did not round-trip to the expected path: "@
                + conflict_text(entry, expected@),
            _ => false,
        },
{
    match state {
        RegistrationState::Owned(_) => {
            let mut line = "installed Codex MCP runwatch -> ".to_owned();
            line.append(expected);
            Ok(line)
        },
        RegistrationState::Missing => Err(
            "Codex MCP registration disappeared after install".to_owned(),
        ),
        RegistrationState::Conflict(entry) => {
            let mut reason =
                "Codex MCP registration did not round-trip to the expected path: ".to_owned();
            reason.append(conflict_message(entry, expected).as_str());
            Err(reason)
        },
    }
}

/// What a removal does about the entry: nothing where the line says so, and
/// never anything about somebody else's.
pub fn remove(state: &RegistrationState, expected: &str) -> (result: Result<
    Option<String>,
    String,
>)
    ensures
        match (state@, result) {
            (RegistrationStateView::Owned(_), Ok(done)) => done is None,
            (RegistrationStateView::Missing, Ok(Some(line))) => line@
                == "not installed Codex MCP runwatch"@,
            (RegistrationStateView::Conflict(entry), Err(reason)) => reason@ == conflict_text(
                entry,
                expected@,
            ),
            _ => false,
        },
{
    match state {
        RegistrationState::Owned(_) => Ok(None),
        RegistrationState::Missing => Ok(Some("not installed Codex MCP runwatch".to_owned())),
        RegistrationState::Conflict(entry) => Err(conflict_message(entry, expected)),
    }
}

/// Whether the entry is gone after a removal.
pub fn confirm_remove(state: &RegistrationState) -> (result: Result<String, String>)
    ensures
        match result {
            Ok(line) => state@ is Missing && line@ == "removed Codex MCP runwatch"@,
            Err(reason) => !(state@ is Missing) && reason@
                == "Codex MCP runwatch still exists after remove"@,
        },
{
    match state {
        RegistrationState::Missing => Ok("removed Codex MCP runwatch".to_owned()),
        _ => Err("Codex MCP runwatch still exists after remove".to_owned()),
    }
}

// ---------------------------------------------------------------------------
// Laws
// ---------------------------------------------------------------------------

/// An entry that runs something else, by its command, its arguments or the way
/// it is reached, is never taken for this project's own.
pub proof fn foreign_entry_is_a_conflict(
    stdout: Seq<char>,
    stderr: Seq<char>,
    expected: Seq<char>,
    canonical_command: Option<Seq<char>>,
    canonical_expected: Option<Seq<char>>,
    style: PathStyle,
    entry: McpEntryView,
)
    requires
        entry_of(stdout) == Ok::<McpEntryView, Seq<char>>(entry),
        entry.transport != "stdio"@ || entry.args is Some || entry.command is None,
    ensures
        registration(
            true,
            stdout,
            stderr,
            expected,
            canonical_command,
            canonical_expected,
            style,
        ) == Ok::<RegistrationStateView, Seq<char>>(RegistrationStateView::Conflict(entry)),
{
}

/// An answer that cannot be read is never taken for a missing entry.
pub proof fn unreadable_answer_is_not_missing(
    stdout: Seq<char>,
    stderr: Seq<char>,
    expected: Seq<char>,
    canonical_command: Option<Seq<char>>,
    canonical_expected: Option<Seq<char>>,
    style: PathStyle,
)
    ensures
        registration(
            true,
            stdout,
            stderr,
            expected,
            canonical_command,
            canonical_expected,
            style,
        ) != Ok::<RegistrationStateView, Seq<char>>(RegistrationStateView::Missing),
{
}

/// Whether a program stands under the name is told by how it is reached: over
/// its standard streams, without arguments, and as the very program that is
/// expected.
pub proof fn own_entry_is_told_by_its_program(
    entry: McpEntryView,
    expected: Seq<char>,
    canonical_command: Option<Seq<char>>,
    canonical_expected: Option<Seq<char>>,
    style: PathStyle,
)
    ensures
        entry_is_owned(entry, expected, canonical_command, canonical_expected, style) <==> ({
            &&& entry.transport == "stdio"@
            &&& entry.args is None
            &&& entry.command is Some
            &&& same_program(
                entry.command->0,
                canonical_command,
                expected,
                canonical_expected,
                style,
            )
        }),
        entry.transport == "stdio"@ && entry.args is None && entry.command == Some(expected)
            && canonical_command == canonical_expected ==> entry_is_owned(
            entry,
            expected,
            canonical_command,
            canonical_expected,
            style,
        ),
{
}

/// Nothing stands under the name only where Codex says so; an entry is ours or
/// another's; and any other failure is an error.
pub proof fn registration_is_told(
    success: bool,
    stdout: Seq<char>,
    stderr: Seq<char>,
    expected: Seq<char>,
    canonical_command: Option<Seq<char>>,
    canonical_expected: Option<Seq<char>>,
    style: PathStyle,
)
    ensures
        ({
            let state = registration(
                success,
                stdout,
                stderr,
                expected,
                canonical_command,
                canonical_expected,
                style,
            );
            let missing = text::has_part(stderr, "No MCP server named 'runwatch' found"@);
            &&& state == Ok::<RegistrationStateView, Seq<char>>(RegistrationStateView::Missing)
                <==> !success && missing
            &&& !success && !missing ==> state is Err
            &&& success && entry_of(stdout) is Err ==> state is Err
            &&& state matches Ok(RegistrationStateView::Owned(entry)) ==> success && entry_of(
                stdout,
            ) == Ok::<McpEntryView, Seq<char>>(entry) && entry_is_owned(
                entry,
                expected,
                canonical_command,
                canonical_expected,
                style,
            )
            &&& state matches Ok(RegistrationStateView::Conflict(entry)) ==> success && entry_of(
                stdout,
            ) == Ok::<McpEntryView, Seq<char>>(entry) && !entry_is_owned(
                entry,
                expected,
                canonical_command,
                canonical_expected,
                style,
            )
        }),
{
}

/// A path loses the prefix that turns off its normal reading, and nothing else.
pub proof fn verbatim_prefix_is_taken_off(rest: Seq<char>, style: PathStyle)
    ensures
        plain_path("\\\\?\\UNC\\"@ + rest) == "\\\\"@ + rest,
        !text::has_prefix("\\\\?\\"@ + rest, "\\\\?\\UNC\\"@) ==> plain_path("\\\\?\\"@ + rest)
            == rest,
        !text::has_prefix(rest, "\\\\?\\"@) && !text::has_prefix(rest, "\\\\?\\UNC\\"@)
            ==> plain_path(rest) == rest,
        safe_path(rest, PathStyle::Posix) == rest,
        safe_path(rest, PathStyle::Windows) == plain_path(rest),
{
    text::lemma_without_prefix("\\\\?\\UNC\\"@, rest);
    text::lemma_without_prefix("\\\\?\\"@, rest);
}

/// A line of an entry sets the member that it names, and no other.
#[verifier::rlimit(40)]
pub proof fn entry_line_sets_its_member(fields: McpFields, key: Seq<char>, value: Seq<char>)
    requires
        key == "enabled"@ || key == "transport"@ || key == "command"@ || key == "args"@,
        text::trimmed(value) == value,
        value.len() > 0,
    ensures
        ({
            let after = mcp_line(fields, key + ": "@ + value);
            &&& key == "enabled"@ ==> after == (McpFields {
                enabled: Some(value == "true"@),
                ..fields
            })
            &&& key == "transport"@ ==> after == (McpFields { transport: Some(value), ..fields })
            &&& key == "command"@ && value != "-"@ ==> after == (McpFields {
                command: Some(value),
                ..fields
            })
            &&& key == "args"@ && value != "-"@ ==> after == (McpFields {
                args: Some(value),
                ..fields
            })
            &&& (key == "command"@ || key == "args"@) && value == "-"@ ==> after == fields
        }),
{
    reveal_strlit("enabled");
    reveal_strlit("transport");
    reveal_strlit("command");
    reveal_strlit("args");
    reveal_strlit(": ");
    reveal_strlit(":");
    reveal_strlit(" ");
    let line = key + ": "@ + value;
    assert("enabled"@[0] == 'e' && "transport"@[0] == 't' && "command"@[0] == 'c' && "args"@[0]
        == 'a');
    assert("enabled"@.len() == 7 && "transport"@.len() == 9 && "command"@.len() == 7
        && "args"@.len() == 4);
    assert forall|i: int| 0 <= i < key.len() implies !text::is_white_char(#[trigger] key[i])
        && key[i] != ':' && key[i] != '|' by {
        if key == "enabled"@ {
            assert(key[i] == "enabled"@[i]);
        } else if key == "transport"@ {
            assert(key[i] == "transport"@[i]);
        } else if key == "command"@ {
            assert(key[i] == "command"@[i]);
        } else {
            assert(key[i] == "args"@[i]);
        }
    }
    text::trimming_takes_only_white(value);
    lemma_bare(line, key, value);
    assert(!text::has_char(key, ':')) by {
        if key.contains(':') {
            let k = choose|k: int| 0 <= k < key.len() && key[k] == ':';
            assert(key[k] != ':');
        }
    }
    assert(line =~= key + seq![':'] + (" "@ + value));
    text::split_pair_is_put_together(key, " "@ + value, ':');
    text::trimming_ignores_outer_white(" "@, value, Seq::empty());
    assert(" "@ + value + Seq::<char>::empty() =~= " "@ + value);
    lemma_bare(key, key, key);
}

/// A text whose two ends are no white is its own trimmed form.
proof fn lemma_bare(line: Seq<char>, key: Seq<char>, value: Seq<char>)
    requires
        key.len() > 0,
        value.len() > 0,
        line.len() > 0,
        line[0] == key[0],
        line.last() == value.last(),
        !text::is_white_char(key[0]),
        !text::is_white_char(value.last()),
    ensures
        text::trimmed(line) == line,
{
    text::trimming_takes_only_white(line);
    let (before, after) = choose|before: Seq<char>, after: Seq<char>|
        line == #[trigger] (before + text::trimmed(line) + after) && text::all_white(before)
            && text::all_white(after);
    if before.len() > 0 {
        assert(line[0] == before[0]);
    }
    if after.len() > 0 {
        assert(line.last() == after[after.len() - 1]);
    }
    assert(before + text::trimmed(line) + after =~= text::trimmed(line));
}

/// The line on the entry tells the three states apart and names the program that
/// stands there.
pub proof fn status_line_tells_the_state(entry: McpEntryView)
    ensures
        status_text(RegistrationStateView::Missing) == "registration=missing name=runwatch"@,
        text::has_prefix(
            status_text(RegistrationStateView::Owned(entry)),
            "registration=installed name=runwatch enabled="@ + (if entry.enabled {
                "true"@
            } else {
                "false"@
            }) + " command="@,
        ),
        text::has_prefix(
            status_text(RegistrationStateView::Conflict(entry)),
            "registration=conflict name=runwatch transport="@ + entry.transport + " command="@,
        ),
        entry.command matches Some(command) ==> text::has_part(
            status_text(RegistrationStateView::Owned(entry)),
            command,
        ) && text::has_part(status_text(RegistrationStateView::Conflict(entry)), command),
{
    let owned = status_text(RegistrationStateView::Owned(entry));
    let taken = status_text(RegistrationStateView::Conflict(entry));
    let owned_head = "registration=installed name=runwatch enabled="@ + (if entry.enabled {
        "true"@
    } else {
        "false"@
    }) + " command="@;
    let taken_head = "registration=conflict name=runwatch transport="@ + entry.transport
        + " command="@;
    assert(owned.take(owned_head.len() as int) =~= owned_head);
    assert(taken.take(taken_head.len() as int) =~= taken_head);
    if let Some(command) = entry.command {
        text::lemma_part_within(owned_head, command, Seq::empty());
        assert(owned =~= owned_head + command + Seq::<char>::empty());
        let rest = " args="@ + or_dash(entry.args);
        text::lemma_part_within(taken_head, command, rest);
        assert(taken =~= taken_head + command + rest);
    }
}

} // verus!
