use vstd::prelude::*;

verus! {

/// Why a command could not be carried out.
#[derive(Clone, Copy, Debug, PartialEq, Eq, Structural)]
pub enum CommandError {
    /// No toplevel identifier starts with the given prefix.
    ToplevelNotFound,
    /// Two or more toplevel identifiers start with the given prefix.
    ToplevelAmbiguous,
    /// No output has the given display name.
    UnknownDisplay,
    /// The display exists but its group has no workspace of that name.
    WorkspaceNotOnDisplay,
    /// No workspace has the given name.
    WorkspaceNotFound,
    /// Several workspaces have the name; a display must narrow it down.
    WorkspaceAmbiguous,
    /// The workspace is in no group.
    WorkspaceWithoutGroup,
    /// The workspace's group is not on exactly one output.
    GroupOutputNotUnique,
    /// The toplevel or workspace lacks the second handle that mutations go
    /// through.
    MissingHandle,
    /// Activation needs exactly one seat.
    SeatNotUnique,
    /// The management global is gone or was never bound.
    ManagerUnavailable,
    /// Unset and toggle were asked for together.
    ConflictingFlags,
    /// The destination group has no member to place the workspace against.
    NoReferenceWorkspace,
}

} // verus!
