use vstd::prelude::*;

use crate::args::WorkspaceIdent;
use crate::cosmic::{
    as_ints, first_hit, hit_indices, lemma_first_hit_none, lemma_first_hit_some, lemma_only_hit_unique, only_hit,
    output_pos, pos_of, position_of, workspace_pos, AppData, Tiling, ToplevelInfo, Workspace, WorkspaceCapabilities,
    WorkspaceFlags, WorkspaceGroup,
};
use crate::error::CommandError;
use crate::output::{display_name, display_name_of};

verus! {

// ---------------------------------------------------------------------------
// Resolution
// ---------------------------------------------------------------------------

/// The output `id` is known and its display name is `display`.
pub open spec fn output_named(s: AppData, id: u64, display: Seq<char>) -> bool {
    match output_pos(s, id) {
        Some(p) => display_name_of(s.outputs@[p]) == display,
        None => false,
    }
}

/// The group is shown on an output named `display`.
pub open spec fn shows_display(s: AppData, g: WorkspaceGroup, display: Seq<char>) -> bool {
    exists|k: int| 0 <= k < g.outputs@.len() && output_named(s, #[trigger] g.outputs@[k], display)
}

pub open spec fn display_group_hits(s: AppData, display: Seq<char>) -> Seq<bool> {
    s.groups@.map_values(|g: WorkspaceGroup| shows_display(s, g, display))
}

/// Position of the first group shown on `display`.
pub open spec fn group_for_display(s: AppData, display: Seq<char>) -> Option<int> {
    first_hit(display_group_hits(s, display))
}

/// The workspace `id` is known and is named `name`.
pub open spec fn member_named(s: AppData, id: u64, name: Seq<char>) -> bool {
    match workspace_pos(s, id) {
        Some(p) => s.workspaces@[p].name@ == name,
        None => false,
    }
}

pub open spec fn member_hits(s: AppData, g: WorkspaceGroup, name: Seq<char>) -> Seq<bool> {
    g.workspaces@.map_values(|w: u64| member_named(s, w, name))
}

pub open spec fn name_hits(s: AppData, name: Seq<char>) -> Seq<bool> {
    s.workspaces@.map_values(|w: Workspace| w.name@ == name)
}

pub open spec fn owner_hits(s: AppData, id: u64) -> Seq<bool> {
    s.groups@.map_values(|g: WorkspaceGroup| g.workspaces@.contains(id))
}

pub open spec fn opt_view(o: Option<String>) -> Option<Seq<char>> {
    match o {
        Some(x) => Some(x@),
        None => None,
    }
}

/// Resolution of a workspace by name and optional display, as
/// (group position, position within the group's members, workspace position).
pub open spec fn resolve_workspace(s: AppData, name: Seq<char>, display: Option<Seq<char>>) -> Result<(int, int, int), CommandError> {
    match display {
        Some(d) => match group_for_display(s, d) {
            None => Err(CommandError::UnknownDisplay),
            Some(g) => match first_hit(member_hits(s, s.groups@[g], name)) {
                None => Err(CommandError::WorkspaceNotOnDisplay),
                Some(k) => match workspace_pos(s, s.groups@[g].workspaces@[k]) {
                    Some(w) => Ok((g, k, w)),
                    None => Err(CommandError::WorkspaceNotOnDisplay),
                },
            },
        },
        None => {
            let hits = name_hits(s, name);
            if exists|w: int| only_hit(hits, w) {
                let w = choose|w: int| only_hit(hits, w);
                let id = s.workspaces@[w].id;
                match first_hit(owner_hits(s, id)) {
                    None => Err(CommandError::WorkspaceWithoutGroup),
                    Some(g) => match pos_of(s.groups@[g].workspaces@, id) {
                        Some(k) => Ok((g, k, w)),
                        None => Err(CommandError::WorkspaceWithoutGroup),
                    },
                }
            } else if exists|w: int| 0 <= w < hits.len() && hits[w] {
                Err(CommandError::WorkspaceAmbiguous)
            } else {
                Err(CommandError::WorkspaceNotFound)
            }
        },
    }
}

pub open spec fn resolved(r: Result<(usize, usize, usize), CommandError>) -> Result<(int, int, int), CommandError> {
    match r {
        Ok((g, k, w)) => Ok((g as int, k as int, w as int)),
        Err(e) => Err(e),
    }
}

/// Whether the group at `g` is shown on an output named `display`.
fn group_shows(app_data: &AppData, g: usize, display: &String) -> (r: bool)
    requires
        g < app_data.groups@.len(),
    ensures
        r == shows_display(*app_data, app_data.groups@[g as int], display@),
{
    let group = &app_data.groups[g];
    let mut k: usize = 0;
    while k < group.outputs.len()
        invariant
            group == app_data.groups@[g as int],
            k <= group.outputs@.len(),
            forall|j: int| 0 <= j < k ==> !output_named(*app_data, #[trigger] group.outputs@[j], display@),
        decreases group.outputs@.len() - k,
    {
        if let Some(p) = app_data.find_output(group.outputs[k]) {
            if display_name(&app_data.outputs[p]) == *display {
                assert(output_named(*app_data, group.outputs@[k as int], display@));
                return true;
            }
        }
        k = k + 1;
    }
    false
}

/// Finds the first group shown on `display`.
pub fn find_group_for_display(app_data: &AppData, display: &str) -> (r: Option<usize>)
    ensures
        r matches Some(g) ==> group_for_display(*app_data, display@) == Some(g as int),
        r is None ==> group_for_display(*app_data, display@) is None,
{
    let ghost hits = display_group_hits(*app_data, display@);
    let wanted = display.to_owned();
    let mut g: usize = 0;
    while g < app_data.groups.len()
        invariant
            g <= app_data.groups@.len(),
            wanted@ == display@,
            hits == display_group_hits(*app_data, display@),
            forall|j: int| 0 <= j < g ==> !hits[j],
        decreases app_data.groups@.len() - g,
    {
        if group_shows(app_data, g, &wanted) {
            proof {
                lemma_first_hit_some(hits, g as int);
            }
            return Some(g);
        }
        g = g + 1;
    }
    proof {
        lemma_first_hit_none(hits);
    }
    None
}

/// Finds the first member of group `g` that is a known workspace named `name`.
fn find_member_named(app_data: &AppData, g: usize, name: &String) -> (r: Option<(usize, usize)>)
    requires
        g < app_data.groups@.len(),
    ensures
        match r {
            Some((k, w)) => first_hit(member_hits(*app_data, app_data.groups@[g as int], name@)) == Some(k as int)
                && workspace_pos(*app_data, app_data.groups@[g as int].workspaces@[k as int]) == Some(w as int),
            None => first_hit(member_hits(*app_data, app_data.groups@[g as int], name@)) is None,
        },
{
    let group = &app_data.groups[g];
    let ghost hits = member_hits(*app_data, *group, name@);
    let mut k: usize = 0;
    while k < group.workspaces.len()
        invariant
            group == app_data.groups@[g as int],
            k <= group.workspaces@.len(),
            hits == member_hits(*app_data, *group, name@),
            forall|j: int| 0 <= j < k ==> !hits[j],
        decreases group.workspaces@.len() - k,
    {
        if let Some(w) = app_data.find_workspace(group.workspaces[k]) {
            if app_data.workspaces[w].name == *name {
                proof {
                    lemma_first_hit_some(hits, k as int);
                }
                return Some((k, w));
            }
        }
        k = k + 1;
    }
    proof {
        lemma_first_hit_none(hits);
    }
    None
}

/// Finds the first group whose members include the workspace `id`.
pub fn find_owner(app_data: &AppData, id: u64) -> (r: Option<usize>)
    ensures
        r matches Some(g) ==> first_hit(owner_hits(*app_data, id)) == Some(g as int),
        r is None ==> first_hit(owner_hits(*app_data, id)) is None,
{
    let ghost hits = owner_hits(*app_data, id);
    let mut g: usize = 0;
    while g < app_data.groups.len()
        invariant
            g <= app_data.groups@.len(),
            hits == owner_hits(*app_data, id),
            forall|j: int| 0 <= j < g ==> !hits[j],
        decreases app_data.groups@.len() - g,
    {
        if position_of(&app_data.groups[g].workspaces, id).is_some() {
            proof {
                lemma_first_hit_some(hits, g as int);
            }
            return Some(g);
        }
        g = g + 1;
    }
    proof {
        lemma_first_hit_none(hits);
    }
    None
}

/// Resolves a workspace by name, narrowed by display when one is given.
/// Returns the position of its group, its position among the group's
/// members, and its own position in `app_data.workspaces`.
pub fn get_workspace(app_data: &AppData, workspace: &WorkspaceIdent) -> (r: Result<(usize, usize, usize), CommandError>)
    ensures
        resolved(r) == resolve_workspace(*app_data, workspace.name@, opt_view(workspace.display)),
{
    match &workspace.display {
        Some(display) => {
            let g = match find_group_for_display(app_data, display.as_str()) {
                Some(g) => g,
                None => return Err(CommandError::UnknownDisplay),
            };
            match find_member_named(app_data, g, &workspace.name) {
                Some((k, w)) => Ok((g, k, w)),
                None => Err(CommandError::WorkspaceNotOnDisplay),
            }
        },
        None => {
            let ghost hits = name_hits(*app_data, workspace.name@);
            let mut found: Option<usize> = None;
            let mut i: usize = 0;
            while i < app_data.workspaces.len()
                invariant
                    i <= app_data.workspaces@.len(),
                    hits == name_hits(*app_data, workspace.name@),
                    workspace.display is None,
                    match found {
                        Some(f) => f < i && hits[f as int] && forall|j: int| 0 <= j < i && j != f ==> !hits[j],
                        None => forall|j: int| 0 <= j < i ==> !hits[j],
                    },
                decreases app_data.workspaces@.len() - i,
            {
                if app_data.workspaces[i].name == workspace.name {
                    match found {
                        Some(f) => {
                            assert(hits[i as int]);
                            assert(hits[f as int]);
                            assert(!exists|k: int| only_hit(hits, k)) by {
                                if exists|k: int| only_hit(hits, k) {
                                    let k = choose|k: int| only_hit(hits, k);
                                    if k == f as int {
                                        assert(!hits[i as int]);
                                    } else {
                                        assert(!hits[f as int]);
                                    }
                                }
                            }
                            assert(0 <= i < hits.len() && hits[i as int]);
                            return Err(CommandError::WorkspaceAmbiguous);
                        },
                        None => {
                            found = Some(i);
                        },
                    }
                }
                i = i + 1;
            }
            let w = match found {
                Some(f) => f,
                None => return Err(CommandError::WorkspaceNotFound),
            };
            proof {
                assert(only_hit(hits, w as int));
                lemma_only_hit_unique(hits, w as int);
            }
            let id = app_data.workspaces[w].id;
            let g = match find_owner(app_data, id) {
                Some(g) => g,
                None => return Err(CommandError::WorkspaceWithoutGroup),
            };
            match position_of(&app_data.groups[g].workspaces, id) {
                Some(k) => Ok((g, k, w)),
                None => Err(CommandError::WorkspaceWithoutGroup),
            }
        },
    }
}


// ---------------------------------------------------------------------------
// Mutations
// ---------------------------------------------------------------------------

/// The axis argument of the relative move requests; the compositor ignores
/// requests with any other value.
pub const AXIS: u32 = 0;

/// A workspace-manager request. These are staged: nothing happens until a
/// `Commit` follows.
#[derive(Clone, Copy, Debug, PartialEq, Eq, Structural)]
pub enum WorkspaceRequest {
    /// Place `workspace` immediately before `other`.
    MoveBefore { workspace: u64, other: u64, axis: u32 },
    /// Place `workspace` immediately after `other`.
    MoveAfter { workspace: u64, other: u64, axis: u32 },
    Pin { workspace: u64 },
    Unpin { workspace: u64 },
    Activate { workspace: u64 },
    Commit,
}

/// Soft conditions of a move, reported and then carried on past.
#[derive(Clone, Copy, Debug, PartialEq, Eq, Structural)]
pub enum MoveWarning {
    /// Position 0 was asked for; positions count from 1, so 1 is used.
    PositionZero,
    /// The 0-based `requested` position is past the end; `last` is used.
    PositionTooLarge { requested: usize, last: usize },
    /// The workspace already stands at `position` of its group.
    AlreadyInPlace { position: usize },
}

/// The requests to send for a move, and the warnings to show.
#[derive(Debug)]
pub struct MovePlan {
    pub requests: Vec<WorkspaceRequest>,
    pub warnings: Vec<MoveWarning>,
}

pub open spec fn zero_based(p: int) -> int {
    if p == 0 {
        0
    } else {
        p - 1
    }
}

/// The 0-based target for the 1-based `p` among `len` members.
pub open spec fn clamped(p: int, len: int) -> int {
    if zero_based(p) >= len {
        len - 1
    } else {
        zero_based(p)
    }
}

pub open spec fn move_warnings(p: int, len: int, in_place: bool) -> Seq<MoveWarning> {
    (if p == 0 { seq![MoveWarning::PositionZero] } else { Seq::empty() }) + (if zero_based(p) >= len && p
        != usize::MAX {
        seq![MoveWarning::PositionTooLarge { requested: zero_based(p) as usize, last: (len - 1) as usize }]
    } else {
        Seq::empty()
    }) + (if in_place {
        seq![MoveWarning::AlreadyInPlace { position: clamped(p, len) as usize }]
    } else {
        Seq::empty()
    })
}

/// The outcome of moving the workspace `name` (on `display`) to the 1-based
/// `p`, on the display `target` or within its own group.
pub open spec fn move_outcome(
    s: AppData,
    name: Seq<char>,
    display: Option<Seq<char>>,
    p: int,
    target: Option<Seq<char>>,
) -> Result<(Seq<WorkspaceRequest>, Seq<MoveWarning>), CommandError> {
    if !s.workspace_manager {
        Err(CommandError::ManagerUnavailable)
    } else {
        match resolve_workspace(s, name, display) {
            Err(e) => Err(e),
            Ok((og, cur, w)) => {
                let dest = match target {
                    Some(d) => group_for_display(s, d),
                    None => Some(og),
                };
                match dest {
                    None => Err(CommandError::UnknownDisplay),
                    Some(g) => {
                        let members = s.groups@[g].workspaces@;
                        let len = members.len() as int;
                        if len == 0 {
                            Err(CommandError::NoReferenceWorkspace)
                        } else {
                            let pos = clamped(p, len);
                            let id = s.workspaces@[w].id;
                            let in_place = pos == cur && s.groups@[g].id == s.groups@[og].id;
                            let warnings = move_warnings(p, len, in_place);
                            if in_place {
                                Ok((Seq::empty(), warnings))
                            } else if s.workspaces@[w].cosmic_handle is None {
                                Err(CommandError::MissingHandle)
                            } else if pos == 0 {
                                Ok((seq![WorkspaceRequest::MoveBefore { workspace: id, other: members[0], axis: AXIS }, WorkspaceRequest::Commit], warnings))
                            } else {
                                Ok((seq![WorkspaceRequest::MoveAfter { workspace: id, other: members[pos - 1], axis: AXIS }, WorkspaceRequest::Commit], warnings))
                            }
                        }
                    },
                }
            },
        }
    }
}

pub open spec fn opt_str_view(o: Option<&str>) -> Option<Seq<char>> {
    match o {
        Some(x) => Some(x@),
        None => None,
    }
}

/// Plans moving a workspace to the 1-based `target_position`, within its
/// group or, with `target_display`, into the group on that display. A
/// position past the end means the last one; `usize::MAX` asks for the end
/// without a warning.
pub fn move_to(
    app_data: &AppData,
    workspace: WorkspaceIdent,
    target_position: usize,
    target_display: Option<&str>,
) -> (r: Result<MovePlan, CommandError>)
    ensures
        match r {
            Ok(plan) => move_outcome(*app_data, workspace.name@, opt_view(workspace.display), target_position as int, opt_str_view(target_display))
                == Ok::<(Seq<WorkspaceRequest>, Seq<MoveWarning>), CommandError>((plan.requests@, plan.warnings@)),
            Err(e) => move_outcome(*app_data, workspace.name@, opt_view(workspace.display), target_position as int, opt_str_view(target_display))
                == Err::<(Seq<WorkspaceRequest>, Seq<MoveWarning>), CommandError>(e),
        },
        // Moving a workspace to where it already stands, in the group it is
        // in, sends nothing.
        match (r, resolve_workspace(*app_data, workspace.name@, opt_view(workspace.display))) {
            (Ok(plan), Ok((g, k, _))) => {
                let dest = match target_display {
                    Some(d) => group_for_display(*app_data, d@),
                    None => Some(g),
                };
                dest matches Some(dg) && app_data.groups@[dg].id == app_data.groups@[g].id
                    && clamped(target_position as int, app_data.groups@[dg].workspaces@.len() as int) == k
                    ==> plan.requests@.len() == 0
            },
            _ => true,
        },
{
    if !app_data.workspace_manager {
        return Err(CommandError::ManagerUnavailable);
    }
    let (orig_group, current_pos, w) = get_workspace(app_data, &workspace)?;
    let group = match target_display {
        Some(display) => match find_group_for_display(app_data, display) {
            Some(g) => g,
            None => return Err(CommandError::UnknownDisplay),
        },
        None => orig_group,
    };
    let members = &app_data.groups[group].workspaces;
    let len = members.len();
    if len == 0 {
        return Err(CommandError::NoReferenceWorkspace);
    }
    let mut warnings: Vec<MoveWarning> = Vec::new();
    let position = if target_position == 0 {
        warnings.push(MoveWarning::PositionZero);
        0
    } else {
        target_position - 1
    };
    let position = if position >= len {
        if target_position != usize::MAX {
            warnings.push(MoveWarning::PositionTooLarge { requested: position, last: len - 1 });
        }
        len - 1
    } else {
        position
    };
    let id = app_data.workspaces[w].id;
    let in_place = current_pos == position && app_data.groups[group].id == app_data.groups[orig_group].id;
    if in_place {
        warnings.push(MoveWarning::AlreadyInPlace { position });
    }
    assert(warnings@ =~= move_warnings(target_position as int, len as int, in_place));
    if in_place {
        return Ok(MovePlan { requests: Vec::new(), warnings });
    }
    if app_data.workspaces[w].cosmic_handle.is_none() {
        return Err(CommandError::MissingHandle);
    }
    let request = if position == 0 {
        WorkspaceRequest::MoveBefore { workspace: id, other: members[0], axis: AXIS }
    } else {
        WorkspaceRequest::MoveAfter { workspace: id, other: members[position - 1], axis: AXIS }
    };
    let requests = vec![request, WorkspaceRequest::Commit];
    assert(requests@ =~= seq![request, WorkspaceRequest::Commit]);
    Ok(MovePlan { requests, warnings })
}

/// The outcome of pinning (or unpinning) the workspace `name` on `display`.
pub open spec fn pin_outcome(s: AppData, name: Seq<char>, display: Option<Seq<char>>, pinned: bool) -> Result<
    Seq<WorkspaceRequest>,
    CommandError,
> {
    if !s.workspace_manager {
        Err(CommandError::ManagerUnavailable)
    } else {
        match resolve_workspace(s, name, display) {
            Err(e) => Err(e),
            Ok((_, _, w)) => {
                let id = s.workspaces@[w].id;
                if s.workspaces@[w].cosmic_handle is None {
                    Err(CommandError::MissingHandle)
                } else if pinned {
                    Ok(seq![WorkspaceRequest::Pin { workspace: id }, WorkspaceRequest::Commit])
                } else {
                    Ok(seq![WorkspaceRequest::Unpin { workspace: id }, WorkspaceRequest::Commit])
                }
            },
        }
    }
}

/// The staged requests that pin or unpin the workspace, then commit.
pub fn pin(app_data: &AppData, workspace: WorkspaceIdent, pinned: bool) -> (r: Result<Vec<WorkspaceRequest>, CommandError>)
    ensures
        match r {
            Ok(v) => pin_outcome(*app_data, workspace.name@, opt_view(workspace.display), pinned)
                == Ok::<Seq<WorkspaceRequest>, CommandError>(v@),
            Err(e) => pin_outcome(*app_data, workspace.name@, opt_view(workspace.display), pinned)
                == Err::<Seq<WorkspaceRequest>, CommandError>(e),
        },
{
    if !app_data.workspace_manager {
        return Err(CommandError::ManagerUnavailable);
    }
    let (_, _, w) = get_workspace(app_data, &workspace)?;
    if app_data.workspaces[w].cosmic_handle.is_none() {
        return Err(CommandError::MissingHandle);
    }
    let id = app_data.workspaces[w].id;
    let request = if pinned {
        WorkspaceRequest::Pin { workspace: id }
    } else {
        WorkspaceRequest::Unpin { workspace: id }
    };
    let v = vec![request, WorkspaceRequest::Commit];
    assert(v@ =~= seq![request, WorkspaceRequest::Commit]);
    Ok(v)
}

/// The staged requests that activate the workspace, then commit.
pub fn activate(app_data: &AppData, workspace: WorkspaceIdent) -> (r: Result<Vec<WorkspaceRequest>, CommandError>)
    ensures
        match r {
            Ok(v) => app_data.workspace_manager && exists|g: int, k: int, w: int|
                resolve_workspace(*app_data, workspace.name@, opt_view(workspace.display)) == Ok::<(int, int, int), CommandError>((g, k, w))
                && v@ == seq![WorkspaceRequest::Activate { workspace: app_data.workspaces@[w].id }, WorkspaceRequest::Commit],
            Err(e) => if !app_data.workspace_manager {
                e == CommandError::ManagerUnavailable
            } else {
                resolve_workspace(*app_data, workspace.name@, opt_view(workspace.display)) == Err::<(int, int, int), CommandError>(e)
            },
        },
{
    if !app_data.workspace_manager {
        return Err(CommandError::ManagerUnavailable);
    }
    let (g, k, w) = get_workspace(app_data, &workspace)?;
    let request = WorkspaceRequest::Activate { workspace: app_data.workspaces[w].id };
    let v = vec![request, WorkspaceRequest::Commit];
    assert(v@ =~= seq![request, WorkspaceRequest::Commit]);
    assert(resolve_workspace(*app_data, workspace.name@, opt_view(workspace.display)) == Ok::<(int, int, int), CommandError>((g as int, k as int, w as int)));
    Ok(v)
}

// ---------------------------------------------------------------------------
// Queries
// ---------------------------------------------------------------------------

pub fn is_workspace_tiling(workspace: &Workspace) -> (r: bool)
    ensures
        r == (workspace.tiling == Tiling::Enabled),
{
    match workspace.tiling {
        Tiling::Enabled => true,
        _ => false,
    }
}

/// Positions of the groups whose members include the workspace `id`.
pub fn get_groups_for_workspace(id: u64, app_data: &AppData) -> (r: Vec<usize>)
    ensures
        as_ints(r@) == hit_indices(owner_hits(*app_data, id)),
{
    let ghost hits = owner_hits(*app_data, id);
    let mut r: Vec<usize> = Vec::new();
    let mut g: usize = 0;
    while g < app_data.groups.len()
        invariant
            g <= app_data.groups@.len(),
            hits == owner_hits(*app_data, id),
            as_ints(r@) == hit_indices(hits.take(g as int)),
        decreases app_data.groups@.len() - g,
    {
        assert(hits.take(g + 1).drop_last() =~= hits.take(g as int));
        if position_of(&app_data.groups[g].workspaces, id).is_some() {
            r.push(g);
            assert(as_ints(r@) =~= as_ints(r@.drop_last()).push(g as int));
        }
        g = g + 1;
    }
    assert(hits.take(g as int) =~= hits);
    r
}

pub open spec fn on_workspace_hits(s: AppData, id: u64) -> Seq<bool> {
    s.toplevels@.map_values(|t: ToplevelInfo| t.workspaces@.contains(id))
}

/// Positions of the toplevels shown on the workspace `id`.
pub fn workspace_toplevels(id: u64, app_data: &AppData) -> (r: Vec<usize>)
    ensures
        as_ints(r@) == hit_indices(on_workspace_hits(*app_data, id)),
{
    let ghost hits = on_workspace_hits(*app_data, id);
    let mut r: Vec<usize> = Vec::new();
    let mut i: usize = 0;
    while i < app_data.toplevels.len()
        invariant
            i <= app_data.toplevels@.len(),
            hits == on_workspace_hits(*app_data, id),
            as_ints(r@) == hit_indices(hits.take(i as int)),
        decreases app_data.toplevels@.len() - i,
    {
        assert(hits.take(i + 1).drop_last() =~= hits.take(i as int));
        if position_of(&app_data.toplevels[i].workspaces, id).is_some() {
            r.push(i);
            assert(as_ints(r@) =~= as_ints(r@.drop_last()).push(i as int));
        }
        i = i + 1;
    }
    assert(hits.take(i as int) =~= hits);
    r
}


pub open spec fn label_views(v: Seq<&str>) -> Seq<Seq<char>> {
    v.map_values(|x: &str| x@)
}

pub open spec fn flag_label(on: bool, label: Seq<char>) -> Seq<Seq<char>> {
    if on {
        seq![label]
    } else {
        Seq::empty()
    }
}

/// The labels of the set state bits, in a fixed order; `-` when none is set.
pub open spec fn state_label_seq(f: WorkspaceFlags) -> Seq<Seq<char>> {
    flag_label(f.active, "active"@) + flag_label(f.hidden, "hidden"@) + flag_label(f.urgent, "urgent"@)
        + flag_label(!f.active && !f.hidden && !f.urgent, "-"@)
}

/// The labels of the capabilities, in a fixed order; `-` when there is none.
pub open spec fn capability_label_seq(c: WorkspaceCapabilities) -> Seq<Seq<char>> {
    flag_label(c.move_workspace, "move"@) + flag_label(c.pin, "pin"@) + flag_label(c.rename, "rename"@)
        + flag_label(c.set_tiling, "set tiling"@) + flag_label(c.activate, "activate"@) + flag_label(c.assign, "assign"@)
        + flag_label(c.deactivate, "deactivate"@) + flag_label(c.remove, "remove"@) + flag_label(
        !c.move_workspace && !c.pin && !c.rename && !c.set_tiling && !c.activate && !c.assign && !c.deactivate
            && !c.remove,
        "-"@,
    )
}

pub(crate) fn push_label(v: &mut Vec<&'static str>, on: bool, label: &'static str)
    ensures
        label_views(final(v)@) == label_views(old(v)@) + flag_label(on, label@),
{
    if on {
        v.push(label);
    }
    assert(label_views(final(v)@) =~= label_views(old(v)@) + flag_label(on, label@));
}

pub fn state_labels(workspace: &Workspace) -> (r: Vec<&'static str>)
    ensures
        label_views(r@) == state_label_seq(workspace.state),
{
    let f = workspace.state;
    let mut r: Vec<&'static str> = Vec::new();
    assert(label_views(r@) =~= Seq::empty());
    push_label(&mut r, f.active, "active");
    push_label(&mut r, f.hidden, "hidden");
    push_label(&mut r, f.urgent, "urgent");
    push_label(&mut r, !f.active && !f.hidden && !f.urgent, "-");
    assert(label_views(r@) =~= state_label_seq(workspace.state));
    r
}

pub fn capability_labels(workspace: &Workspace) -> (r: Vec<&'static str>)
    ensures
        label_views(r@) == capability_label_seq(workspace.capabilities),
{
    let c = workspace.capabilities;
    let mut r: Vec<&'static str> = Vec::new();
    assert(label_views(r@) =~= Seq::empty());
    push_label(&mut r, c.move_workspace, "move");
    push_label(&mut r, c.pin, "pin");
    push_label(&mut r, c.rename, "rename");
    push_label(&mut r, c.set_tiling, "set tiling");
    push_label(&mut r, c.activate, "activate");
    push_label(&mut r, c.assign, "assign");
    push_label(&mut r, c.deactivate, "deactivate");
    push_label(&mut r, c.remove, "remove");
    push_label(
        &mut r,
        !c.move_workspace && !c.pin && !c.rename && !c.set_tiling && !c.activate && !c.assign && !c.deactivate
            && !c.remove,
        "-",
    );
    assert(label_views(r@) =~= capability_label_seq(workspace.capabilities));
    r
}

} // verus!
