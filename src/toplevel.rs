use itertools::Itertools;
use vstd::prelude::*;

use crate::args::WorkspaceIdent;
use crate::cosmic::{
    as_ints, hit_indices, lemma_only_hit_unique, only_hit, unchanged, workspace_pos, AppData, Geometry, ToplevelFlags,
    ToplevelInfo,
};
use crate::error::CommandError;
use crate::output::{find, output_for_display};
use crate::workspace::{get_workspace, on_workspace_hits, opt_view, resolve_workspace, workspace_toplevels};

verus! {

/// `true` iff `prefix` is a prefix of `s`.
pub fn starts_with(s: &str, prefix: &str) -> (r: bool)
    ensures
        r == prefix@.is_prefix_of(s@),
{
    let n = prefix.unicode_len();
    let m = s.unicode_len();
    if n > m {
        return false;
    }
    let mut i: usize = 0;
    while i < n
        invariant
            n == prefix@.len(),
            m == s@.len(),
            n <= m,
            i <= n,
            forall|j: int| 0 <= j < i ==> prefix@[j] == s@[j],
        decreases n - i,
    {
        if prefix.get_char(i) != s.get_char(i) {
            return false;
        }
        i = i + 1;
    }
    assert(prefix@ =~= s@.subrange(0, prefix@.len() as int));
    true
}

/// Which toplevels have an identifier starting with `query`.
pub open spec fn prefix_hits(s: AppData, query: Seq<char>) -> Seq<bool> {
    s.toplevels@.map_values(|t: ToplevelInfo| query.is_prefix_of(t.identifier@))
}

/// Resolution of a toplevel identifier prefix: exactly one match succeeds,
/// none is "not found", two or more is "ambiguous".
pub open spec fn prefix_lookup(s: AppData, query: Seq<char>) -> Result<int, CommandError> {
    let hits = prefix_hits(s, query);
    if exists|i: int| only_hit(hits, i) {
        Ok(choose|i: int| only_hit(hits, i))
    } else if exists|i: int| 0 <= i < hits.len() && hits[i] {
        Err(CommandError::ToplevelAmbiguous)
    } else {
        Err(CommandError::ToplevelNotFound)
    }
}

/// Finds the toplevel whose identifier starts with `id`; returns its
/// position in `app_data.toplevels`.
pub fn find_from_id(app_data: &AppData, id: &str) -> (r: Result<usize, CommandError>)
    ensures
        match r {
            Ok(i) => prefix_lookup(*app_data, id@) == Ok::<int, CommandError>(i as int),
            Err(e) => prefix_lookup(*app_data, id@) == Err::<int, CommandError>(e),
        },
        r is Ok ==> only_hit(prefix_hits(*app_data, id@), r->Ok_0 as int),
{
    let ghost hits = prefix_hits(*app_data, id@);
    let mut found: Option<usize> = None;
    let mut i: usize = 0;
    while i < app_data.toplevels.len()
        invariant
            i <= app_data.toplevels@.len(),
            hits == prefix_hits(*app_data, id@),
            match found {
                Some(f) => f < i && hits[f as int] && forall|j: int| 0 <= j < i && j != f ==> !hits[j],
                None => forall|j: int| 0 <= j < i ==> !hits[j],
            },
        decreases app_data.toplevels@.len() - i,
    {
        if starts_with(app_data.toplevels[i].identifier.as_str(), id) {
            match found {
                Some(f) => {
                    assert(!exists|k: int| only_hit(hits, k)) by {
                        if exists|k: int| only_hit(hits, k) {
                            let k = choose|k: int| only_hit(hits, k);
                            if k == f as int {
                                assert(!hits[i as int]);
                            } else {
                                assert(!hits[f as int]);
                            }
                        }
                    }
                    return Err(CommandError::ToplevelAmbiguous);
                },
                None => {
                    found = Some(i);
                },
            }
        }
        i = i + 1;
    }
    match found {
        Some(f) => {
            proof {
                lemma_only_hit_unique(hits, f as int);
            }
            Ok(f)
        },
        None => Err(CommandError::ToplevelNotFound),
    }
}

/// How a boolean window state is to be changed.
#[derive(Clone, Copy, Debug, PartialEq, Eq, Structural)]
pub enum SetStateAction {
    Enable,
    Disable,
    Toggle,
}

impl SetStateAction {
    /// Reads the pair of command-line switches; both together are refused
    /// before anything is sent.
    pub fn from(unset: bool, toggle: bool) -> (r: Result<SetStateAction, CommandError>)
        ensures
            r == (if unset && toggle {
                Err(CommandError::ConflictingFlags)
            } else if unset {
                Ok(SetStateAction::Disable)
            } else if toggle {
                Ok(SetStateAction::Toggle)
            } else {
                Ok(SetStateAction::Enable)
            }),
    {
        match (unset, toggle) {
            (true, true) => Err(CommandError::ConflictingFlags),
            (true, false) => Ok(SetStateAction::Disable),
            (false, true) => Ok(SetStateAction::Toggle),
            (false, false) => Ok(SetStateAction::Enable),
        }
    }
}

/// The window states that a client can set and unset.
#[derive(Clone, Copy, Debug, PartialEq, Eq, Structural)]
pub enum WindowState {
    Maximized,
    Minimized,
    Fullscreen,
    Sticky,
}

/// A toplevel-management request; these take effect at once, without a
/// commit.
#[derive(Clone, Copy, Debug, PartialEq, Eq, Structural)]
pub enum ToplevelRequest {
    /// Set (`on`) or unset a window state of the toplevel behind `handle`.
    SetState { handle: u64, state: WindowState, on: bool },
    /// Move the toplevel to `workspace`, shown on `output`.
    MoveToWorkspace { handle: u64, workspace: u64, output: u64 },
    /// Activate the toplevel on `seat`.
    Activate { handle: u64, seat: u64 },
}

pub open spec fn flag_of(f: ToplevelFlags, w: WindowState) -> bool {
    match w {
        WindowState::Maximized => f.maximized,
        WindowState::Minimized => f.minimized,
        WindowState::Fullscreen => f.fullscreen,
        WindowState::Sticky => f.sticky,
    }
}

/// Whether the state is to be on after `action`, given whether it is on now.
pub open spec fn wants_on(action: SetStateAction, current: bool) -> bool {
    match action {
        SetStateAction::Enable => true,
        SetStateAction::Disable => false,
        SetStateAction::Toggle => !current,
    }
}

/// What a state change addressed to the toplevel `id` resolves to.
pub open spec fn state_change(s: AppData, id: Seq<char>, state: WindowState, action: SetStateAction) -> Result<ToplevelRequest, CommandError> {
    if !s.toplevel_manager {
        Err(CommandError::ManagerUnavailable)
    } else {
        match prefix_lookup(s, id) {
            Err(e) => Err(e),
            Ok(i) => {
                let t = s.toplevels@[i];
                match t.foreign_id {
                    None => Err(CommandError::MissingHandle),
                    Some(h) => Ok(ToplevelRequest::SetState { handle: h, state, on: wants_on(action, flag_of(t.state, state)) }),
                }
            },
        }
    }
}

/// The request that sets, unsets or toggles `state` on the toplevel `id`.
pub fn set_state(app_data: &AppData, id: &str, state: WindowState, action: SetStateAction) -> (r: Result<ToplevelRequest, CommandError>)
    ensures
        r == state_change(*app_data, id@, state, action),
{
    if !app_data.toplevel_manager {
        return Err(CommandError::ManagerUnavailable);
    }
    let i = find_from_id(app_data, id)?;
    let t = &app_data.toplevels[i];
    match t.foreign_id {
        None => Err(CommandError::MissingHandle),
        Some(handle) => {
            let current = match state {
                WindowState::Maximized => t.state.maximized,
                WindowState::Minimized => t.state.minimized,
                WindowState::Fullscreen => t.state.fullscreen,
                WindowState::Sticky => t.state.sticky,
            };
            let on = match action {
                SetStateAction::Enable => true,
                SetStateAction::Disable => false,
                SetStateAction::Toggle => !current,
            };
            Ok(ToplevelRequest::SetState { handle, state, on })
        },
    }
}

pub fn maximize(app_data: &AppData, id: &str, action: SetStateAction) -> (r: Result<ToplevelRequest, CommandError>)
    ensures
        r == state_change(*app_data, id@, WindowState::Maximized, action),
{
    set_state(app_data, id, WindowState::Maximized, action)
}

pub fn minimize(app_data: &AppData, id: &str, action: SetStateAction) -> (r: Result<ToplevelRequest, CommandError>)
    ensures
        r == state_change(*app_data, id@, WindowState::Minimized, action),
{
    set_state(app_data, id, WindowState::Minimized, action)
}

pub fn fullscreen(app_data: &AppData, id: &str, action: SetStateAction) -> (r: Result<ToplevelRequest, CommandError>)
    ensures
        r == state_change(*app_data, id@, WindowState::Fullscreen, action),
{
    set_state(app_data, id, WindowState::Fullscreen, action)
}

pub fn sticky(app_data: &AppData, id: &str, action: SetStateAction) -> (r: Result<ToplevelRequest, CommandError>)
    ensures
        r == state_change(*app_data, id@, WindowState::Sticky, action),
{
    set_state(app_data, id, WindowState::Sticky, action)
}

/// What activating the toplevel `id` on one of `seats` resolves to.
pub open spec fn activation(s: AppData, id: Seq<char>, seats: Seq<u64>) -> Result<ToplevelRequest, CommandError> {
    if !s.toplevel_manager {
        Err(CommandError::ManagerUnavailable)
    } else {
        match prefix_lookup(s, id) {
            Err(e) => Err(e),
            Ok(i) => if seats.len() != 1 {
                Err(CommandError::SeatNotUnique)
            } else {
                match s.toplevels@[i].foreign_id {
                    None => Err(CommandError::MissingHandle),
                    Some(h) => Ok(ToplevelRequest::Activate { handle: h, seat: seats[0] }),
                }
            },
        }
    }
}

/// Activation of the toplevel `id`; `seats` are the seats the client knows,
/// and there must be exactly one.
pub fn activate(app_data: &AppData, id: &str, seats: &Vec<u64>) -> (r: Result<ToplevelRequest, CommandError>)
    ensures
        r == activation(*app_data, id@, seats@),
{
    if !app_data.toplevel_manager {
        return Err(CommandError::ManagerUnavailable);
    }
    let i = find_from_id(app_data, id)?;
    let seat = match exactly_one(seats) {
        Some(seat) => seat,
        None => return Err(CommandError::SeatNotUnique),
    };
    match app_data.toplevels[i].foreign_id {
        None => Err(CommandError::MissingHandle),
        Some(handle) => Ok(ToplevelRequest::Activate { handle, seat }),
    }
}

/// Relies on itertools' `Itertools::exactly_one`: the one item of an
/// iterator that yields exactly one item, an error otherwise.
#[verifier::external_body]
fn exactly_one(v: &Vec<u64>) -> (r: Option<u64>)
    ensures
        r == (if v@.len() == 1 { Some(v@[0]) } else { None::<u64> }),
{
    v.iter().copied().exactly_one().ok()
}

/// Moving the toplevel `id` to a workspace, as the group of that workspace
/// is shown on one output.
pub open spec fn move_change(s: AppData, id: Seq<char>, name: Seq<char>, display: Option<Seq<char>>) -> Result<ToplevelRequest, CommandError> {
    if !s.toplevel_manager {
        Err(CommandError::ManagerUnavailable)
    } else {
        match prefix_lookup(s, id) {
            Err(e) => Err(e),
            Ok(i) => match resolve_workspace(s, name, display) {
                Err(e) => Err(e),
                Ok((g, _, w)) => {
                    let outputs = s.groups@[g].outputs@;
                    if outputs.len() != 1 {
                        Err(CommandError::GroupOutputNotUnique)
                    } else {
                        match s.toplevels@[i].foreign_id {
                            None => Err(CommandError::MissingHandle),
                            Some(h) => Ok(ToplevelRequest::MoveToWorkspace { handle: h, workspace: s.workspaces@[w].id, output: outputs[0] }),
                        }
                    }
                },
            },
        }
    }
}

/// The request that moves the toplevel `id` to `workspace`.
pub fn move_to(app_data: &AppData, id: &str, workspace: WorkspaceIdent) -> (r: Result<ToplevelRequest, CommandError>)
    ensures
        r == move_change(*app_data, id@, workspace.name@, opt_view(workspace.display)),
{
    if !app_data.toplevel_manager {
        return Err(CommandError::ManagerUnavailable);
    }
    let i = find_from_id(app_data, id)?;
    let (g, _, w) = get_workspace(app_data, &workspace)?;
    let output = match exactly_one(&app_data.groups[g].outputs) {
        Some(o) => o,
        None => return Err(CommandError::GroupOutputNotUnique),
    };
    match app_data.toplevels[i].foreign_id {
        None => Err(CommandError::MissingHandle),
        Some(handle) => Ok(ToplevelRequest::MoveToWorkspace { handle, workspace: app_data.workspaces[w].id, output }),
    }
}

pub open spec fn on_output_hits(s: AppData, id: u64) -> Seq<bool> {
    s.toplevels@.map_values(|t: ToplevelInfo| t.outputs@.contains(id))
}

pub open spec fn all_hits(s: AppData) -> Seq<bool> {
    s.toplevels@.map_values(|t: ToplevelInfo| true)
}

/// The toplevels a listing shows, as positions in the store: those of a
/// workspace (narrowed by display), else those on a display, else all.
pub open spec fn listing(s: AppData, workspace: Option<Seq<char>>, display: Option<Seq<char>>) -> Result<Seq<int>, CommandError> {
    match workspace {
        Some(w) => match resolve_workspace(s, w, display) {
            Err(e) => Err(e),
            Ok((_, _, wi)) => Ok(hit_indices(on_workspace_hits(s, s.workspaces@[wi].id))),
        },
        None => match display {
            Some(d) => match output_for_display(s, d) {
                None => Err(CommandError::UnknownDisplay),
                Some(o) => Ok(hit_indices(on_output_hits(s, s.outputs@[o].id))),
            },
            None => Ok(hit_indices(all_hits(s))),
        },
    }
}

/// Positions of the toplevels on the output `id`.
fn toplevels_on_output(app_data: &AppData, id: u64) -> (r: Vec<usize>)
    ensures
        as_ints(r@) == hit_indices(on_output_hits(*app_data, id)),
{
    let ghost hits = on_output_hits(*app_data, id);
    let mut r: Vec<usize> = Vec::new();
    let mut i: usize = 0;
    while i < app_data.toplevels.len()
        invariant
            i <= app_data.toplevels@.len(),
            hits == on_output_hits(*app_data, id),
            as_ints(r@) == hit_indices(hits.take(i as int)),
        decreases app_data.toplevels@.len() - i,
    {
        assert(hits.take(i + 1).drop_last() =~= hits.take(i as int));
        if crate::cosmic::position_of(&app_data.toplevels[i].outputs, id).is_some() {
            r.push(i);
            assert(as_ints(r@) =~= as_ints(r@.drop_last()).push(i as int));
        }
        i = i + 1;
    }
    assert(hits.take(i as int) =~= hits);
    r
}

/// Positions of all toplevels.
fn all_toplevels(app_data: &AppData) -> (r: Vec<usize>)
    ensures
        as_ints(r@) == hit_indices(all_hits(*app_data)),
{
    let ghost hits = all_hits(*app_data);
    let mut r: Vec<usize> = Vec::new();
    let mut i: usize = 0;
    while i < app_data.toplevels.len()
        invariant
            i <= app_data.toplevels@.len(),
            hits == all_hits(*app_data),
            as_ints(r@) == hit_indices(hits.take(i as int)),
        decreases app_data.toplevels@.len() - i,
    {
        assert(hits.take(i + 1).drop_last() =~= hits.take(i as int));
        r.push(i);
        assert(as_ints(r@) =~= as_ints(r@.drop_last()).push(i as int));
        i = i + 1;
    }
    assert(hits.take(i as int) =~= hits);
    r
}

/// The toplevels to list, as positions in `app_data.toplevels`.
pub fn list(app_data: &AppData, workspace: Option<String>, display: Option<String>) -> (r: Result<Vec<usize>, CommandError>)
    ensures
        match r {
            Ok(v) => listing(*app_data, opt_view(workspace), opt_view(display)) == Ok::<Seq<int>, CommandError>(as_ints(v@)),
            Err(e) => listing(*app_data, opt_view(workspace), opt_view(display)) == Err::<Seq<int>, CommandError>(e),
        },
{
    match workspace {
        Some(name) => {
            let ident = WorkspaceIdent { name, display };
            let (_, _, w) = get_workspace(app_data, &ident)?;
            Ok(workspace_toplevels(app_data.workspaces[w].id, app_data))
        },
        None => match display {
            Some(d) => match find(app_data, d.as_str()) {
                None => Err(CommandError::UnknownDisplay),
                Some(o) => Ok(toplevels_on_output(app_data, app_data.outputs[o].id)),
            },
            None => Ok(all_toplevels(app_data)),
        },
    }
}

/// The ids among `ids` that the store knows as workspaces, in order.
pub open spec fn known_workspaces(s: AppData, ids: Seq<u64>) -> Seq<u64>
    decreases ids.len(),
{
    if ids.len() == 0 {
        Seq::empty()
    } else {
        let rest = known_workspaces(s, ids.drop_last());
        if workspace_pos(s, ids.last()) is Some {
            rest.push(ids.last())
        } else {
            rest
        }
    }
}

proof fn lemma_known_workspaces_known(s: AppData, ids: Seq<u64>)
    ensures
        forall|k: int| 0 <= k < known_workspaces(s, ids).len() ==> workspace_pos(s, #[trigger] known_workspaces(s, ids)[k]) is Some,
    decreases ids.len(),
{
    if ids.len() > 0 {
        lemma_known_workspaces_known(s, ids.drop_last());
    }
}

/// The workspace a toplevel is shown on, when it is on exactly one known
/// workspace; as a position in `app_data.workspaces`.
pub fn workspace_of(app_data: &AppData, t: usize) -> (r: Option<usize>)
    requires
        t < app_data.toplevels@.len(),
    ensures
        ({
            let known = known_workspaces(*app_data, app_data.toplevels@[t as int].workspaces@);
            match r {
                Some(w) => known.len() == 1 && workspace_pos(*app_data, known[0]) == Some(w as int),
                None => known.len() != 1,
            }
        }),
{
    let ids = &app_data.toplevels[t].workspaces;
    let mut known: Vec<u64> = Vec::new();
    let mut i: usize = 0;
    while i < ids.len()
        invariant
            ids == app_data.toplevels@[t as int].workspaces,
            i <= ids@.len(),
            known@ == known_workspaces(*app_data, ids@.take(i as int)),
        decreases ids@.len() - i,
    {
        assert(ids@.take(i + 1).drop_last() =~= ids@.take(i as int));
        if app_data.find_workspace(ids[i]).is_some() {
            known.push(ids[i]);
        }
        i = i + 1;
    }
    assert(ids@.take(i as int) =~= ids@);
    proof {
        lemma_known_workspaces_known(*app_data, ids@);
    }
    match exactly_one(&known) {
        Some(id) => app_data.find_workspace(id),
        None => None,
    }
}

/// The output a toplevel is shown on, when it is on exactly one.
pub fn output_of(toplevel: &ToplevelInfo) -> (r: Option<u64>)
    ensures
        r == (if toplevel.outputs@.len() == 1 { Some(toplevel.outputs@[0]) } else { None::<u64> }),
{
    exactly_one(&toplevel.outputs)
}

/// The latest geometry reported for `output`.
pub open spec fn latest_geometry(gs: Seq<Geometry>, output: u64) -> Option<Geometry>
    decreases gs.len(),
{
    if gs.len() == 0 {
        None
    } else if gs.last().output == output {
        Some(gs.last())
    } else {
        latest_geometry(gs.drop_last(), output)
    }
}

pub fn geometry_on(toplevel: &ToplevelInfo, output: u64) -> (r: Option<Geometry>)
    ensures
        r == latest_geometry(toplevel.geometry@, output),
{
    let gs = &toplevel.geometry;
    let mut i: usize = gs.len();
    assert(gs@.take(i as int) =~= gs@);
    while i > 0
        invariant
            gs@ == toplevel.geometry@,
            i <= gs@.len(),
            latest_geometry(gs@, output) == latest_geometry(gs@.take(i as int), output),
        decreases i,
    {
        assert(gs@.take(i as int).drop_last() =~= gs@.take(i - 1));
        assert(gs@.take(i as int).last() == gs@[i - 1]);
        if gs[i - 1].output == output {
            assert(gs@.take(i as int).len() == i);
            assert(latest_geometry(gs@.take(i as int), output) == Some(gs@[i - 1]));
            return Some(gs[i - 1]);
        }
        i = i - 1;
    }
    None
}


/// Queries read the mirror only: when no event has been applied between two
/// of them, the mirror is unchanged and the toplevel listing, the identifier
/// lookup and the workspace resolution come out the same.
pub proof fn lemma_queries_stable(
    s: AppData,
    t: AppData,
    workspace: Option<Seq<char>>,
    display: Option<Seq<char>>,
    id: Seq<char>,
)
    requires
        unchanged(s, t),
    ensures
        listing(t, workspace, display) == listing(s, workspace, display),
        prefix_lookup(t, id) == prefix_lookup(s, id),
        workspace matches Some(w) ==> resolve_workspace(t, w, display) == resolve_workspace(s, w, display),
{
    assert(prefix_hits(t, id) == prefix_hits(s, id));
    assert(all_hits(t) == all_hits(s));
    assert(forall|x: u64| #[trigger] on_output_hits(t, x) == on_output_hits(s, x));
    assert(forall|x: u64| #[trigger] on_workspace_hits(t, x) == on_workspace_hits(s, x));
    assert(forall|d: Seq<char>| #[trigger] output_for_display(t, d) == output_for_display(s, d));
    assert(forall|n: Seq<char>, d: Option<Seq<char>>| #[trigger] resolve_workspace(t, n, d) == resolve_workspace(s, n, d)) by {
        assert forall|n: Seq<char>, d: Option<Seq<char>>| #[trigger] resolve_workspace(t, n, d) == resolve_workspace(s, n, d) by {
            assert(forall|x: u64| #[trigger] crate::cosmic::workspace_pos(t, x) == crate::cosmic::workspace_pos(s, x));
            assert(forall|x: u64| #[trigger] crate::cosmic::output_pos(t, x) == crate::cosmic::output_pos(s, x));
            assert(forall|x: u64, dd: Seq<char>| #[trigger] crate::workspace::output_named(t, x, dd) == crate::workspace::output_named(s, x, dd));
            assert(forall|g: crate::cosmic::WorkspaceGroup, dd: Seq<char>| #[trigger] crate::workspace::shows_display(t, g, dd) == crate::workspace::shows_display(s, g, dd));
            assert(forall|dd: Seq<char>| #[trigger] crate::workspace::display_group_hits(t, dd) == crate::workspace::display_group_hits(s, dd));
            assert(forall|x: u64, nn: Seq<char>| #[trigger] crate::workspace::member_named(t, x, nn) == crate::workspace::member_named(s, x, nn));
            assert(forall|g: crate::cosmic::WorkspaceGroup, nn: Seq<char>| #[trigger] crate::workspace::member_hits(t, g, nn) == crate::workspace::member_hits(s, g, nn));
            assert(crate::workspace::name_hits(t, n) == crate::workspace::name_hits(s, n));
            assert(forall|x: u64| #[trigger] crate::workspace::owner_hits(t, x) == crate::workspace::owner_hits(s, x));
        }
    }
}


/// Toggling a state asks for its opposite: a window that has the state gets
/// an unset request, one that lacks it a set request, through the window's
/// second handle.
pub proof fn lemma_toggle_flips(s: AppData, id: Seq<char>, state: WindowState, i: int, handle: u64)
    requires
        s.toplevel_manager,
        prefix_lookup(s, id) == Ok::<int, CommandError>(i),
        s.toplevels@[i].foreign_id == Some(handle),
    ensures
        state_change(s, id, state, SetStateAction::Toggle) == Ok::<ToplevelRequest, CommandError>(
            ToplevelRequest::SetState { handle, state, on: !flag_of(s.toplevels@[i].state, state) },
        ),
        flag_of(s.toplevels@[i].state, state) ==> state_change(s, id, state, SetStateAction::Toggle)
            == Ok::<ToplevelRequest, CommandError>(ToplevelRequest::SetState { handle, state, on: false }),
        !flag_of(s.toplevels@[i].state, state) ==> state_change(s, id, state, SetStateAction::Toggle)
            == Ok::<ToplevelRequest, CommandError>(ToplevelRequest::SetState { handle, state, on: true }),
{
}


pub open spec fn toplevel_state_label_seq(f: ToplevelFlags) -> Seq<Seq<char>> {
    crate::workspace::flag_label(f.maximized, "Maximized"@) + crate::workspace::flag_label(f.minimized, "Minimized"@)
        + crate::workspace::flag_label(f.activated, "Activated"@) + crate::workspace::flag_label(
        f.fullscreen,
        "Fullscreen"@,
    ) + crate::workspace::flag_label(f.sticky, "Sticky"@)
}

/// The names of the window's set state bits, in a fixed order.
pub fn state_labels(state: ToplevelFlags) -> (r: Vec<&'static str>)
    ensures
        crate::workspace::label_views(r@) == toplevel_state_label_seq(state),
{
    let mut r: Vec<&'static str> = Vec::new();
    assert(crate::workspace::label_views(r@) =~= Seq::empty());
    crate::workspace::push_label(&mut r, state.maximized, "Maximized");
    crate::workspace::push_label(&mut r, state.minimized, "Minimized");
    crate::workspace::push_label(&mut r, state.activated, "Activated");
    crate::workspace::push_label(&mut r, state.fullscreen, "Fullscreen");
    crate::workspace::push_label(&mut r, state.sticky, "Sticky");
    assert(crate::workspace::label_views(r@) =~= toplevel_state_label_seq(state));
    r
}

} // verus!
