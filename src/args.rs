use vstd::prelude::*;

use crate::cosmic::Needs;

verus! {

/// The parsed command line.
#[derive(Debug)]
pub struct Arguments {
    pub command: Command,
    pub format: OutputFormat,
}

#[derive(Clone, Copy, Debug, PartialEq, Eq, Structural)]
pub enum OutputFormat {
    Human,
    Json,
    JsonPretty,
}

pub open spec fn format_name(f: OutputFormat) -> Seq<char> {
    match f {
        OutputFormat::Human => "human"@,
        OutputFormat::Json => "json"@,
        OutputFormat::JsonPretty => "json-pretty"@,
    }
}

impl OutputFormat {
    /// The name of the format on the command line.
    pub fn name(&self) -> (r: &'static str)
        ensures
            r@ == format_name(*self),
    {
        match self {
            OutputFormat::Human => "human",
            OutputFormat::Json => "json",
            OutputFormat::JsonPretty => "json-pretty",
        }
    }
}

impl Default for OutputFormat {
    fn default() -> (r: OutputFormat)
        ensures
            r == OutputFormat::Human,
    {
        OutputFormat::Human
    }
}

#[derive(Debug)]
pub enum Command {
    /// List or change windows.
    Toplevels { subcommand: Option<ToplevelSubcommand> },
    /// List monitors.
    Outputs,
    /// List workspace groups.
    WorkspaceGroups,
    /// List or change workspaces.
    Workspaces { subcommand: Option<WorkspaceSubcommand> },
}

impl Command {
    /// The entity classes that must be complete before the command runs.
    pub fn needs(&self) -> (r: Needs)
        ensures
            r == (match *self {
                Command::Outputs => Needs { outputs: true, toplevels: false, workspaces: false },
                Command::WorkspaceGroups => Needs { outputs: true, toplevels: false, workspaces: true },
                _ => Needs { outputs: true, toplevels: true, workspaces: true },
            }),
    {
        match self {
            Command::Outputs => Needs { outputs: true, toplevels: false, workspaces: false },
            Command::WorkspaceGroups => Needs { outputs: true, toplevels: false, workspaces: true },
            _ => Needs { outputs: true, toplevels: true, workspaces: true },
        }
    }
}

#[derive(Debug)]
pub enum ToplevelSubcommand {
    /// List toplevels, optionally only those of a workspace or a display.
    List { workspace: Option<String>, display: Option<String>, geometry: bool },
    /// Maximize, unmaximize or toggle.
    Max { id: String, unset: bool, toggle: bool },
    /// Minimize, unminimize or toggle.
    Min { id: String, unset: bool, toggle: bool },
    /// Fullscreen, leave fullscreen or toggle.
    Fullscreen { id: String, minimize: bool, toggle: bool },
    /// Make sticky, unsticky or toggle.
    Sticky { id: String, minimize: bool, toggle: bool },
}

impl Default for ToplevelSubcommand {
    fn default() -> (r: ToplevelSubcommand)
        ensures
            r matches ToplevelSubcommand::List { workspace: None, display: None, geometry: false },
    {
        ToplevelSubcommand::List { display: None, workspace: None, geometry: false }
    }
}

#[derive(Debug)]
pub enum WorkspaceSubcommand {
    /// Move the workspace to the n-th position (from 1) within its group.
    MoveToPos { workspace: WorkspaceIdent, position: u8 },
    /// Move the workspace to another display, at a position or last.
    MoveToDisplay { workspace: WorkspaceIdent, target_display: String, position: Option<u8> },
    Pin { workspace: WorkspaceIdent },
    Unpin { workspace: WorkspaceIdent },
    Activate { workspace: WorkspaceIdent },
    /// List workspaces, with their capabilities if asked.
    List { capabilities: bool },
}

impl Default for WorkspaceSubcommand {
    fn default() -> (r: WorkspaceSubcommand)
        ensures
            r matches WorkspaceSubcommand::List { capabilities: false },
    {
        WorkspaceSubcommand::List { capabilities: false }
    }
}

/// A workspace addressed by name, and by display where the name is not
/// unique.
#[derive(Debug)]
pub struct WorkspaceIdent {
    pub name: String,
    pub display: Option<String>,
}

} // verus!
