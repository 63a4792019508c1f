use vstd::prelude::*;

verus! {

// ---------------------------------------------------------------------------
// Records
// ---------------------------------------------------------------------------

/// One video mode advertised for an output.
#[derive(Clone, Copy, Debug, PartialEq, Eq, Structural)]
pub struct Mode {
    pub width: i32,
    pub height: i32,
    pub refresh_rate: i32,
    pub current: bool,
    pub preferred: bool,
}

/// Mirror of one monitor.
#[derive(Debug)]
pub struct OutputInfo {
    pub id: u64,
    pub name: Option<String>,
    pub description: Option<String>,
    pub x: i32,
    pub y: i32,
    pub physical_width: i32,
    pub physical_height: i32,
    pub make: String,
    pub model: String,
    pub modes: Vec<Mode>,
    /// The terminal "done" event for this output has been seen.
    pub settled: bool,
}

/// Window state bits; each state event replaces all of them at once.
#[derive(Clone, Copy, Debug, PartialEq, Eq, Structural)]
pub struct ToplevelFlags {
    pub maximized: bool,
    pub minimized: bool,
    pub activated: bool,
    pub fullscreen: bool,
    pub sticky: bool,
}

/// Placement of a window on one output.
#[derive(Clone, Copy, Debug, PartialEq, Eq, Structural)]
pub struct Geometry {
    pub output: u64,
    pub x: i32,
    pub y: i32,
    pub width: i32,
    pub height: i32,
}

/// Mirror of one window. `id` is the primary handle; `foreign_id` is the
/// second handle that names the same window in the other protocol.
#[derive(Debug)]
pub struct ToplevelInfo {
    pub id: u64,
    pub foreign_id: Option<u64>,
    pub title: String,
    pub app_id: String,
    pub identifier: String,
    pub state: ToplevelFlags,
    pub outputs: Vec<u64>,
    pub workspaces: Vec<u64>,
    pub geometry: Vec<Geometry>,
}

/// Mirror of one workspace group; the order of `workspaces` is the order
/// that reordering requests refer to.
#[derive(Debug)]
pub struct WorkspaceGroup {
    pub id: u64,
    pub workspaces: Vec<u64>,
    pub outputs: Vec<u64>,
    pub can_create_workspace: bool,
}

#[derive(Clone, Copy, Debug, PartialEq, Eq, Structural)]
pub enum Tiling {
    Enabled,
    Disabled,
    Unknown,
}

#[derive(Clone, Copy, Debug, PartialEq, Eq, Structural)]
pub struct WorkspaceFlags {
    pub active: bool,
    pub hidden: bool,
    pub urgent: bool,
}

#[derive(Clone, Copy, Debug, PartialEq, Eq, Structural)]
pub struct WorkspaceCapabilities {
    pub move_workspace: bool,
    pub pin: bool,
    pub rename: bool,
    pub set_tiling: bool,
    pub activate: bool,
    pub assign: bool,
    pub deactivate: bool,
    pub remove: bool,
}

/// Mirror of one workspace. Its group is found by scanning the groups'
/// member lists.
#[derive(Debug)]
pub struct Workspace {
    pub id: u64,
    pub name: String,
    pub wayland_id: Option<String>,
    /// The second handle, through which moves and pins are requested.
    pub cosmic_handle: Option<u64>,
    pub tiling: Tiling,
    pub state: WorkspaceFlags,
    pub capabilities: WorkspaceCapabilities,
}

/// In-memory mirror of the compositor state, together with the signals that
/// say how far each entity class has converged.
#[derive(Debug)]
pub struct AppData {
    pub outputs: Vec<OutputInfo>,
    pub toplevels: Vec<ToplevelInfo>,
    pub groups: Vec<WorkspaceGroup>,
    pub workspaces: Vec<Workspace>,
    pub toplevels_done: bool,
    pub workspaces_done: bool,
    /// The workspace manager global is bound.
    pub workspace_manager: bool,
    /// The toplevel manager global is bound.
    pub toplevel_manager: bool,
}

// ---------------------------------------------------------------------------
// Events
// ---------------------------------------------------------------------------

#[derive(Debug)]
pub enum OutputEvent {
    New { id: u64 },
    Name { id: u64, name: String },
    Description { id: u64, description: String },
    Geometry { id: u64, x: i32, y: i32, physical_width: i32, physical_height: i32, make: String, model: String },
    Mode { id: u64, mode: Mode },
    Done { id: u64 },
    Removed { id: u64 },
}

#[derive(Debug)]
pub enum ToplevelEvent {
    New { id: u64 },
    /// The second handle `foreign_id` names the window `id`.
    Correlate { id: u64, foreign_id: u64 },
    Title { id: u64, title: String },
    AppId { id: u64, app_id: String },
    Identifier { id: u64, identifier: String },
    State { id: u64, state: ToplevelFlags },
    OutputEnter { id: u64, output: u64 },
    OutputLeave { id: u64, output: u64 },
    WorkspaceEnter { id: u64, workspace: u64 },
    WorkspaceLeave { id: u64, workspace: u64 },
    Geometry { id: u64, geometry: Geometry },
    Closed { id: u64 },
    Done,
}

#[derive(Debug)]
pub enum WorkspaceEvent {
    NewGroup { id: u64 },
    GroupCapabilities { id: u64, can_create_workspace: bool },
    GroupOutputEnter { id: u64, output: u64 },
    GroupOutputLeave { id: u64, output: u64 },
    GroupWorkspaceEnter { id: u64, workspace: u64 },
    GroupWorkspaceLeave { id: u64, workspace: u64 },
    GroupRemoved { id: u64 },
    New { id: u64 },
    Name { id: u64, name: String },
    Id { id: u64, wayland_id: String },
    /// The second handle `handle` names the workspace `id`.
    CosmicHandle { id: u64, handle: u64 },
    Tiling { id: u64, tiling: Tiling },
    State { id: u64, state: WorkspaceFlags },
    Capabilities { id: u64, capabilities: WorkspaceCapabilities },
    Removed { id: u64 },
    Done,
}

/// One server event, tagged by the interface that sent it.
#[derive(Debug)]
pub enum Event {
    Output(OutputEvent),
    Toplevel(ToplevelEvent),
    Workspace(WorkspaceEvent),
    /// An event this library does not know; it changes nothing.
    Unknown,
}

// ---------------------------------------------------------------------------
// Lookup by identity
// ---------------------------------------------------------------------------

/// `i` is the first position at which `hits` is true.
pub open spec fn is_first_hit(hits: Seq<bool>, i: int) -> bool {
    0 <= i < hits.len() && hits[i] && forall|j: int| 0 <= j < i ==> !hits[j]
}

/// The first position at which `hits` is true, if any.
pub open spec fn first_hit(hits: Seq<bool>) -> Option<int> {
    if exists|i: int| is_first_hit(hits, i) {
        Some(choose|i: int| is_first_hit(hits, i))
    } else {
        None
    }
}

pub proof fn lemma_first_hit_some(hits: Seq<bool>, i: int)
    requires
        is_first_hit(hits, i),
    ensures
        first_hit(hits) == Some(i),
{
    let k = choose|k: int| is_first_hit(hits, k);
    if k < i {
        assert(!hits[k]);
    } else if i < k {
        assert(!hits[i]);
    }
}

pub proof fn lemma_first_hit_none(hits: Seq<bool>)
    requires
        forall|j: int| 0 <= j < hits.len() ==> !hits[j],
    ensures
        first_hit(hits) == None::<int>,
{
}

/// `i` is the one position at which `hits` is true.
pub open spec fn only_hit(hits: Seq<bool>, i: int) -> bool {
    0 <= i < hits.len() && hits[i] && forall|j: int| 0 <= j < hits.len() && j != i ==> !hits[j]
}

pub proof fn lemma_only_hit_unique(hits: Seq<bool>, i: int)
    requires
        only_hit(hits, i),
    ensures
        (choose|k: int| only_hit(hits, k)) == i,
{
    let k = choose|k: int| only_hit(hits, k);
    if k != i {
        assert(!hits[k]);
    }
}

/// The positions at which `hits` is true, in increasing order.
pub open spec fn hit_indices(hits: Seq<bool>) -> Seq<int>
    decreases hits.len(),
{
    if hits.len() == 0 {
        Seq::empty()
    } else {
        let r = hit_indices(hits.drop_last());
        if hits.last() {
            r.push(hits.len() - 1)
        } else {
            r
        }
    }
}

pub open spec fn as_ints(v: Seq<usize>) -> Seq<int> {
    v.map_values(|i: usize| i as int)
}

pub open spec fn id_hits(ids: Seq<u64>, id: u64) -> Seq<bool> {
    ids.map_values(|x: u64| x == id)
}

/// First position of `id` in `ids`.
pub open spec fn pos_of(ids: Seq<u64>, id: u64) -> Option<int> {
    first_hit(id_hits(ids, id))
}

pub open spec fn output_hits(outputs: Seq<OutputInfo>, id: u64) -> Seq<bool> {
    outputs.map_values(|o: OutputInfo| o.id == id)
}

/// A toplevel answers to its primary handle and to its correlated second one.
pub open spec fn toplevel_answers(t: ToplevelInfo, id: u64) -> bool {
    t.id == id || t.foreign_id == Some(id)
}

pub open spec fn toplevel_hits(toplevels: Seq<ToplevelInfo>, id: u64) -> Seq<bool> {
    toplevels.map_values(|t: ToplevelInfo| toplevel_answers(t, id))
}

pub open spec fn group_hits(groups: Seq<WorkspaceGroup>, id: u64) -> Seq<bool> {
    groups.map_values(|g: WorkspaceGroup| g.id == id)
}

pub open spec fn workspace_hits(workspaces: Seq<Workspace>, id: u64) -> Seq<bool> {
    workspaces.map_values(|w: Workspace| w.id == id)
}

pub open spec fn output_pos(s: AppData, id: u64) -> Option<int> {
    first_hit(output_hits(s.outputs@, id))
}

pub open spec fn toplevel_pos(s: AppData, id: u64) -> Option<int> {
    first_hit(toplevel_hits(s.toplevels@, id))
}

pub open spec fn group_pos(s: AppData, id: u64) -> Option<int> {
    first_hit(group_hits(s.groups@, id))
}

pub open spec fn workspace_pos(s: AppData, id: u64) -> Option<int> {
    first_hit(workspace_hits(s.workspaces@, id))
}

/// First position of `x` in `v`.
pub fn position_of(v: &Vec<u64>, x: u64) -> (r: Option<usize>)
    ensures
        r matches Some(i) ==> pos_of(v@, x) == Some(i as int),
        r is None ==> pos_of(v@, x) is None,
        r is None <==> !v@.contains(x),
{
    let mut i: usize = 0;
    while i < v.len()
        invariant
            i <= v@.len(),
            forall|j: int| 0 <= j < i ==> v@[j] != x,
        decreases v@.len() - i,
    {
        if v[i] == x {
            proof {
                lemma_first_hit_some(id_hits(v@, x), i as int);
            }
            return Some(i);
        }
        i = i + 1;
    }
    proof {
        lemma_first_hit_none(id_hits(v@, x));
    }
    None
}

/// Removes the first occurrence of `x` from `v`, if there is one.
fn remove_first(v: &mut Vec<u64>, x: u64)
    ensures
        match pos_of(old(v)@, x) {
            Some(i) => final(v)@ == old(v)@.remove(i),
            None => final(v)@ == old(v)@,
        },
{
    if let Some(i) = position_of(v, x) {
        v.remove(i);
    }
}

impl AppData {
    /// Each collection holds at most one record per primary identity.
    pub open spec fn wf(&self) -> bool {
        &&& forall|i: int, j: int| 0 <= i < j < self.outputs@.len() ==> self.outputs@[i].id != self.outputs@[j].id
        &&& forall|i: int, j: int| 0 <= i < j < self.toplevels@.len() ==> self.toplevels@[i].id != self.toplevels@[j].id
        &&& forall|i: int, j: int| 0 <= i < j < self.groups@.len() ==> self.groups@[i].id != self.groups@[j].id
        &&& forall|i: int, j: int| 0 <= i < j < self.workspaces@.len() ==> self.workspaces@[i].id != self.workspaces@[j].id
    }
}

impl AppData {
    /// An empty mirror, before any event.
    pub fn new(workspace_manager: bool, toplevel_manager: bool) -> (r: AppData)
        ensures
            r.outputs@.len() == 0,
            r.toplevels@.len() == 0,
            r.groups@.len() == 0,
            r.workspaces@.len() == 0,
            !r.toplevels_done,
            !r.workspaces_done,
            r.workspace_manager == workspace_manager,
            r.toplevel_manager == toplevel_manager,
            r.wf(),
    {
        AppData {
            outputs: Vec::new(),
            toplevels: Vec::new(),
            groups: Vec::new(),
            workspaces: Vec::new(),
            toplevels_done: false,
            workspaces_done: false,
            workspace_manager,
            toplevel_manager,
        }
    }

    pub fn find_output(&self, id: u64) -> (r: Option<usize>)
        ensures
            r matches Some(i) ==> output_pos(*self, id) == Some(i as int),
            r is None ==> output_pos(*self, id) is None,
            r is None ==> forall|j: int| 0 <= j < self.outputs@.len() ==> #[trigger] self.outputs@[j].id != id,
    {
        let ghost hits = output_hits(self.outputs@, id);
        let mut i: usize = 0;
        while i < self.outputs.len()
            invariant
                i <= self.outputs@.len(),
                hits == output_hits(self.outputs@, id),
                forall|j: int| 0 <= j < i ==> !hits[j],
            decreases self.outputs@.len() - i,
        {
            if self.outputs[i].id == id {
                proof {
                    lemma_first_hit_some(hits, i as int);
                }
                return Some(i);
            }
            i = i + 1;
        }
        proof {
            lemma_first_hit_none(hits);
            assert forall|j: int| 0 <= j < self.outputs@.len() implies #[trigger] self.outputs@[j].id != id by {
                assert(!hits[j]);
            }
        }
        None
    }

    pub fn find_toplevel(&self, id: u64) -> (r: Option<usize>)
        ensures
            r matches Some(i) ==> toplevel_pos(*self, id) == Some(i as int),
            r is None ==> toplevel_pos(*self, id) is None,
            r is None ==> forall|j: int| 0 <= j < self.toplevels@.len() ==> !toplevel_answers(#[trigger] self.toplevels@[j], id),
    {
        let ghost hits = toplevel_hits(self.toplevels@, id);
        let mut i: usize = 0;
        while i < self.toplevels.len()
            invariant
                i <= self.toplevels@.len(),
                hits == toplevel_hits(self.toplevels@, id),
                forall|j: int| 0 <= j < i ==> !hits[j],
            decreases self.toplevels@.len() - i,
        {
            let t = &self.toplevels[i];
            let hit = t.id == id || match t.foreign_id {
                Some(f) => f == id,
                None => false,
            };
            if hit {
                proof {
                    lemma_first_hit_some(hits, i as int);
                }
                return Some(i);
            }
            i = i + 1;
        }
        proof {
            lemma_first_hit_none(hits);
            assert forall|j: int| 0 <= j < self.toplevels@.len() implies !toplevel_answers(#[trigger] self.toplevels@[j], id) by {
                assert(!hits[j]);
            }
        }
        None
    }

    pub fn find_group(&self, id: u64) -> (r: Option<usize>)
        ensures
            r matches Some(i) ==> group_pos(*self, id) == Some(i as int),
            r is None ==> group_pos(*self, id) is None,
            r is None ==> forall|j: int| 0 <= j < self.groups@.len() ==> #[trigger] self.groups@[j].id != id,
    {
        let ghost hits = group_hits(self.groups@, id);
        let mut i: usize = 0;
        while i < self.groups.len()
            invariant
                i <= self.groups@.len(),
                hits == group_hits(self.groups@, id),
                forall|j: int| 0 <= j < i ==> !hits[j],
            decreases self.groups@.len() - i,
        {
            if self.groups[i].id == id {
                proof {
                    lemma_first_hit_some(hits, i as int);
                }
                return Some(i);
            }
            i = i + 1;
        }
        proof {
            lemma_first_hit_none(hits);
            assert forall|j: int| 0 <= j < self.groups@.len() implies #[trigger] self.groups@[j].id != id by {
                assert(!hits[j]);
            }
        }
        None
    }

    pub fn find_workspace(&self, id: u64) -> (r: Option<usize>)
        ensures
            r matches Some(i) ==> workspace_pos(*self, id) == Some(i as int),
            r is None ==> workspace_pos(*self, id) is None,
            r is None ==> forall|j: int| 0 <= j < self.workspaces@.len() ==> #[trigger] self.workspaces@[j].id != id,
    {
        let ghost hits = workspace_hits(self.workspaces@, id);
        let mut i: usize = 0;
        while i < self.workspaces.len()
            invariant
                i <= self.workspaces@.len(),
                hits == workspace_hits(self.workspaces@, id),
                forall|j: int| 0 <= j < i ==> !hits[j],
            decreases self.workspaces@.len() - i,
        {
            if self.workspaces[i].id == id {
                proof {
                    lemma_first_hit_some(hits, i as int);
                }
                return Some(i);
            }
            i = i + 1;
        }
        proof {
            lemma_first_hit_none(hits);
            assert forall|j: int| 0 <= j < self.workspaces@.len() implies #[trigger] self.workspaces@[j].id != id by {
                assert(!hits[j]);
            }
        }
        None
    }
}


// ---------------------------------------------------------------------------
// What each event does to the mirror
// ---------------------------------------------------------------------------

/// The four mirrored collections and the flags are all unchanged.
pub open spec fn unchanged(s: AppData, t: AppData) -> bool {
    &&& t.outputs@ == s.outputs@
    &&& t.toplevels@ == s.toplevels@
    &&& t.groups@ == s.groups@
    &&& t.workspaces@ == s.workspaces@
    &&& t.toplevels_done == s.toplevels_done
    &&& t.workspaces_done == s.workspaces_done
    &&& t.workspace_manager == s.workspace_manager
    &&& t.toplevel_manager == s.toplevel_manager
}

pub open spec fn flags_same(s: AppData, t: AppData) -> bool {
    &&& t.toplevels_done == s.toplevels_done
    &&& t.workspaces_done == s.workspaces_done
    &&& t.workspace_manager == s.workspace_manager
    &&& t.toplevel_manager == s.toplevel_manager
}

/// `t` is `s` with element `i` of `a` related to element `i` of `b` by
/// `rel`, and every other element equal.
pub open spec fn edited_at<T>(a: Seq<T>, b: Seq<T>, i: int, rel: spec_fn(T, T) -> bool) -> bool {
    &&& b.len() == a.len()
    &&& forall|j: int| 0 <= j < a.len() && j != i ==> b[j] == a[j]
    &&& rel(a[i], b[i])
}

/// Only the output answering to `id` (if any) changed, as `rel` says.
pub open spec fn edits_output(s: AppData, t: AppData, id: u64, rel: spec_fn(OutputInfo, OutputInfo) -> bool) -> bool {
    &&& flags_same(s, t)
    &&& t.toplevels@ == s.toplevels@
    &&& t.groups@ == s.groups@
    &&& t.workspaces@ == s.workspaces@
    &&& match output_pos(s, id) {
        Some(i) => edited_at(s.outputs@, t.outputs@, i, rel),
        None => t.outputs@ == s.outputs@,
    }
}

pub open spec fn edits_toplevel(s: AppData, t: AppData, id: u64, rel: spec_fn(ToplevelInfo, ToplevelInfo) -> bool) -> bool {
    &&& flags_same(s, t)
    &&& t.outputs@ == s.outputs@
    &&& t.groups@ == s.groups@
    &&& t.workspaces@ == s.workspaces@
    &&& match toplevel_pos(s, id) {
        Some(i) => edited_at(s.toplevels@, t.toplevels@, i, rel),
        None => t.toplevels@ == s.toplevels@,
    }
}

pub open spec fn edits_group(s: AppData, t: AppData, id: u64, rel: spec_fn(WorkspaceGroup, WorkspaceGroup) -> bool) -> bool {
    &&& flags_same(s, t)
    &&& t.outputs@ == s.outputs@
    &&& t.toplevels@ == s.toplevels@
    &&& t.workspaces@ == s.workspaces@
    &&& match group_pos(s, id) {
        Some(i) => edited_at(s.groups@, t.groups@, i, rel),
        None => t.groups@ == s.groups@,
    }
}

pub open spec fn edits_workspace(s: AppData, t: AppData, id: u64, rel: spec_fn(Workspace, Workspace) -> bool) -> bool {
    &&& flags_same(s, t)
    &&& t.outputs@ == s.outputs@
    &&& t.toplevels@ == s.toplevels@
    &&& t.groups@ == s.groups@
    &&& match workspace_pos(s, id) {
        Some(i) => edited_at(s.workspaces@, t.workspaces@, i, rel),
        None => t.workspaces@ == s.workspaces@,
    }
}

/// A new record is appended unless one already answers to the identity;
/// `a` and `b` are the collection before and after.
pub open spec fn appended<T>(a: Seq<T>, b: Seq<T>, pos: Option<int>, fresh: spec_fn(T) -> bool) -> bool {
    match pos {
        Some(_) => b == a,
        None => b.len() == a.len() + 1 && b.drop_last() == a && fresh(b.last()),
    }
}

/// The record at `pos` (if any) is erased.
pub open spec fn erased<T>(a: Seq<T>, b: Seq<T>, pos: Option<int>) -> bool {
    match pos {
        Some(i) => b == a.remove(i),
        None => b == a,
    }
}

pub open spec fn fresh_output(o: OutputInfo, id: u64) -> bool {
    &&& o.id == id
    &&& o.name is None
    &&& o.description is None
    &&& o.x == 0 && o.y == 0
    &&& o.physical_width == 0 && o.physical_height == 0
    &&& o.make@.len() == 0 && o.model@.len() == 0
    &&& o.modes@.len() == 0
    &&& !o.settled
}

pub open spec fn fresh_toplevel(t: ToplevelInfo, id: u64) -> bool {
    &&& t.id == id
    &&& t.foreign_id is None
    &&& t.title@.len() == 0 && t.app_id@.len() == 0 && t.identifier@.len() == 0
    &&& t.state == ToplevelFlags { maximized: false, minimized: false, activated: false, fullscreen: false, sticky: false }
    &&& t.outputs@.len() == 0 && t.workspaces@.len() == 0 && t.geometry@.len() == 0
}

pub open spec fn fresh_group(g: WorkspaceGroup, id: u64) -> bool {
    &&& g.id == id
    &&& g.workspaces@.len() == 0 && g.outputs@.len() == 0
    &&& !g.can_create_workspace
}

pub open spec fn fresh_workspace(w: Workspace, id: u64) -> bool {
    &&& w.id == id
    &&& w.name@.len() == 0
    &&& w.wayland_id is None
    &&& w.cosmic_handle is None
    &&& w.tiling == Tiling::Unknown
    &&& w.state == WorkspaceFlags { active: false, hidden: false, urgent: false }
    &&& w.capabilities == WorkspaceCapabilities {
        move_workspace: false, pin: false, rename: false, set_tiling: false,
        activate: false, assign: false, deactivate: false, remove: false,
    }
}

pub open spec fn output_applied(s: AppData, t: AppData, e: OutputEvent) -> bool {
    match e {
        OutputEvent::New { id } => {
            &&& flags_same(s, t)
            &&& t.toplevels@ == s.toplevels@ && t.groups@ == s.groups@ && t.workspaces@ == s.workspaces@
            &&& appended(s.outputs@, t.outputs@, output_pos(s, id), |o: OutputInfo| fresh_output(o, id))
        },
        OutputEvent::Name { id, name } => edits_output(s, t, id,
            |o: OutputInfo, n: OutputInfo| n == OutputInfo { name: Some(name), ..o }),
        OutputEvent::Description { id, description } => edits_output(s, t, id,
            |o: OutputInfo, n: OutputInfo| n == OutputInfo { description: Some(description), ..o }),
        OutputEvent::Geometry { id, x, y, physical_width, physical_height, make, model } => edits_output(s, t, id,
            |o: OutputInfo, n: OutputInfo| n == OutputInfo { x, y, physical_width, physical_height, make, model, ..o }),
        OutputEvent::Mode { id, mode } => edits_output(s, t, id,
            |o: OutputInfo, n: OutputInfo| n.modes@ == o.modes@.push(mode) && n == OutputInfo { modes: n.modes, ..o }),
        OutputEvent::Done { id } => edits_output(s, t, id,
            |o: OutputInfo, n: OutputInfo| n == OutputInfo { settled: true, ..o }),
        OutputEvent::Removed { id } => {
            &&& flags_same(s, t)
            &&& t.toplevels@ == s.toplevels@ && t.groups@ == s.groups@ && t.workspaces@ == s.workspaces@
            &&& erased(s.outputs@, t.outputs@, output_pos(s, id))
        },
    }
}

pub open spec fn toplevel_applied(s: AppData, t: AppData, e: ToplevelEvent) -> bool {
    match e {
        ToplevelEvent::New { id } => {
            &&& flags_same(s, t)
            &&& t.outputs@ == s.outputs@ && t.groups@ == s.groups@ && t.workspaces@ == s.workspaces@
            &&& appended(s.toplevels@, t.toplevels@, toplevel_pos(s, id), |n: ToplevelInfo| fresh_toplevel(n, id))
        },
        ToplevelEvent::Correlate { id, foreign_id } => edits_toplevel(s, t, id,
            |o: ToplevelInfo, n: ToplevelInfo| n == ToplevelInfo { foreign_id: Some(foreign_id), ..o }),
        ToplevelEvent::Title { id, title } => edits_toplevel(s, t, id,
            |o: ToplevelInfo, n: ToplevelInfo| n == ToplevelInfo { title, ..o }),
        ToplevelEvent::AppId { id, app_id } => edits_toplevel(s, t, id,
            |o: ToplevelInfo, n: ToplevelInfo| n == ToplevelInfo { app_id, ..o }),
        ToplevelEvent::Identifier { id, identifier } => edits_toplevel(s, t, id,
            |o: ToplevelInfo, n: ToplevelInfo| n == ToplevelInfo { identifier, ..o }),
        ToplevelEvent::State { id, state } => edits_toplevel(s, t, id,
            |o: ToplevelInfo, n: ToplevelInfo| n == ToplevelInfo { state, ..o }),
        ToplevelEvent::OutputEnter { id, output } => edits_toplevel(s, t, id,
            |o: ToplevelInfo, n: ToplevelInfo|
                n.outputs@ == (if o.outputs@.contains(output) { o.outputs@ } else { o.outputs@.push(output) })
                && n == ToplevelInfo { outputs: n.outputs, ..o }),
        ToplevelEvent::OutputLeave { id, output } => edits_toplevel(s, t, id,
            |o: ToplevelInfo, n: ToplevelInfo|
                erased(o.outputs@, n.outputs@, pos_of(o.outputs@, output))
                && n == ToplevelInfo { outputs: n.outputs, ..o }),
        ToplevelEvent::WorkspaceEnter { id, workspace } => edits_toplevel(s, t, id,
            |o: ToplevelInfo, n: ToplevelInfo|
                n.workspaces@ == (if o.workspaces@.contains(workspace) { o.workspaces@ } else { o.workspaces@.push(workspace) })
                && n == ToplevelInfo { workspaces: n.workspaces, ..o }),
        ToplevelEvent::WorkspaceLeave { id, workspace } => edits_toplevel(s, t, id,
            |o: ToplevelInfo, n: ToplevelInfo|
                erased(o.workspaces@, n.workspaces@, pos_of(o.workspaces@, workspace))
                && n == ToplevelInfo { workspaces: n.workspaces, ..o }),
        ToplevelEvent::Geometry { id, geometry } => edits_toplevel(s, t, id,
            |o: ToplevelInfo, n: ToplevelInfo| n.geometry@ == o.geometry@.push(geometry)
                && n == ToplevelInfo { geometry: n.geometry, ..o }),
        ToplevelEvent::Closed { id } => {
            &&& flags_same(s, t)
            &&& t.outputs@ == s.outputs@ && t.groups@ == s.groups@ && t.workspaces@ == s.workspaces@
            &&& erased(s.toplevels@, t.toplevels@, toplevel_pos(s, id))
        },
        ToplevelEvent::Done => {
            &&& unchanged(s, AppData { toplevels_done: s.toplevels_done, ..t })
            &&& t.toplevels_done
        },
    }
}

pub open spec fn workspace_applied(s: AppData, t: AppData, e: WorkspaceEvent) -> bool {
    match e {
        WorkspaceEvent::NewGroup { id } => {
            &&& flags_same(s, t)
            &&& t.outputs@ == s.outputs@ && t.toplevels@ == s.toplevels@ && t.workspaces@ == s.workspaces@
            &&& appended(s.groups@, t.groups@, group_pos(s, id), |g: WorkspaceGroup| fresh_group(g, id))
        },
        WorkspaceEvent::GroupCapabilities { id, can_create_workspace } => edits_group(s, t, id,
            |o: WorkspaceGroup, n: WorkspaceGroup| n == WorkspaceGroup { can_create_workspace, ..o }),
        WorkspaceEvent::GroupOutputEnter { id, output } => edits_group(s, t, id,
            |o: WorkspaceGroup, n: WorkspaceGroup|
                n.outputs@ == (if o.outputs@.contains(output) { o.outputs@ } else { o.outputs@.push(output) })
                && n == WorkspaceGroup { outputs: n.outputs, ..o }),
        WorkspaceEvent::GroupOutputLeave { id, output } => edits_group(s, t, id,
            |o: WorkspaceGroup, n: WorkspaceGroup|
                erased(o.outputs@, n.outputs@, pos_of(o.outputs@, output))
                && n == WorkspaceGroup { outputs: n.outputs, ..o }),
        WorkspaceEvent::GroupWorkspaceEnter { id, workspace } => edits_group(s, t, id,
            |o: WorkspaceGroup, n: WorkspaceGroup|
                n.workspaces@ == (if o.workspaces@.contains(workspace) { o.workspaces@ } else { o.workspaces@.push(workspace) })
                && n == WorkspaceGroup { workspaces: n.workspaces, ..o }),
        WorkspaceEvent::GroupWorkspaceLeave { id, workspace } => edits_group(s, t, id,
            |o: WorkspaceGroup, n: WorkspaceGroup|
                erased(o.workspaces@, n.workspaces@, pos_of(o.workspaces@, workspace))
                && n == WorkspaceGroup { workspaces: n.workspaces, ..o }),
        WorkspaceEvent::GroupRemoved { id } => {
            &&& flags_same(s, t)
            &&& t.outputs@ == s.outputs@ && t.toplevels@ == s.toplevels@ && t.workspaces@ == s.workspaces@
            &&& erased(s.groups@, t.groups@, group_pos(s, id))
        },
        WorkspaceEvent::New { id } => {
            &&& flags_same(s, t)
            &&& t.outputs@ == s.outputs@ && t.toplevels@ == s.toplevels@ && t.groups@ == s.groups@
            &&& appended(s.workspaces@, t.workspaces@, workspace_pos(s, id), |w: Workspace| fresh_workspace(w, id))
        },
        WorkspaceEvent::Name { id, name } => edits_workspace(s, t, id,
            |o: Workspace, n: Workspace| n == Workspace { name, ..o }),
        WorkspaceEvent::Id { id, wayland_id } => edits_workspace(s, t, id,
            |o: Workspace, n: Workspace| n == Workspace { wayland_id: Some(wayland_id), ..o }),
        WorkspaceEvent::CosmicHandle { id, handle } => edits_workspace(s, t, id,
            |o: Workspace, n: Workspace| n == Workspace { cosmic_handle: Some(handle), ..o }),
        WorkspaceEvent::Tiling { id, tiling } => edits_workspace(s, t, id,
            |o: Workspace, n: Workspace| n == Workspace { tiling, ..o }),
        WorkspaceEvent::State { id, state } => edits_workspace(s, t, id,
            |o: Workspace, n: Workspace| n == Workspace { state, ..o }),
        WorkspaceEvent::Capabilities { id, capabilities } => edits_workspace(s, t, id,
            |o: Workspace, n: Workspace| n == Workspace { capabilities, ..o }),
        WorkspaceEvent::Removed { id } => {
            &&& flags_same(s, t)
            &&& t.outputs@ == s.outputs@ && t.toplevels@ == s.toplevels@ && t.groups@ == s.groups@
            &&& erased(s.workspaces@, t.workspaces@, workspace_pos(s, id))
        },
        WorkspaceEvent::Done => {
            &&& unchanged(s, AppData { workspaces_done: s.workspaces_done, ..t })
            &&& t.workspaces_done
        },
    }
}

/// What applying `e` to the mirror `s` yields: `t`.
pub open spec fn applied(s: AppData, t: AppData, e: Event) -> bool {
    match e {
        Event::Output(e) => output_applied(s, t, e),
        Event::Toplevel(e) => toplevel_applied(s, t, e),
        Event::Workspace(e) => workspace_applied(s, t, e),
        Event::Unknown => unchanged(s, t),
    }
}


/// Appends `x` to `v` unless it is already there.
fn add_once(v: &mut Vec<u64>, x: u64)
    ensures
        final(v)@ == (if old(v)@.contains(x) { old(v)@ } else { old(v)@.push(x) }),
{
    if position_of(v, x).is_none() {
        v.push(x);
    }
}

impl AppData {
    pub fn apply_output_event(&mut self, e: OutputEvent)
        ensures
            output_applied(*old(self), *final(self), e),
            old(self).wf() ==> final(self).wf(),
    {
        match e {
            OutputEvent::New { id } => {
                if self.find_output(id).is_none() {
                    self.outputs.push(OutputInfo {
                        id,
                        name: None,
                        description: None,
                        x: 0,
                        y: 0,
                        physical_width: 0,
                        physical_height: 0,
                        make: String::new(),
                        model: String::new(),
                        modes: Vec::new(),
                        settled: false,
                    });
                    assert(self.outputs@.drop_last() =~= old(self).outputs@);
                }
            },
            OutputEvent::Name { id, name } => {
                if let Some(i) = self.find_output(id) {
                    self.outputs[i].name = Some(name);
                }
            },
            OutputEvent::Description { id, description } => {
                if let Some(i) = self.find_output(id) {
                    self.outputs[i].description = Some(description);
                }
            },
            OutputEvent::Geometry { id, x, y, physical_width, physical_height, make, model } => {
                if let Some(i) = self.find_output(id) {
                    self.outputs[i].x = x;
                    self.outputs[i].y = y;
                    self.outputs[i].physical_width = physical_width;
                    self.outputs[i].physical_height = physical_height;
                    self.outputs[i].make = make;
                    self.outputs[i].model = model;
                }
            },
            OutputEvent::Mode { id, mode } => {
                if let Some(i) = self.find_output(id) {
                    self.outputs[i].modes.push(mode);
                }
            },
            OutputEvent::Done { id } => {
                if let Some(i) = self.find_output(id) {
                    self.outputs[i].settled = true;
                }
            },
            OutputEvent::Removed { id } => {
                if let Some(i) = self.find_output(id) {
                    self.outputs.remove(i);
                }
            },
        }
    }

    pub fn apply_toplevel_event(&mut self, e: ToplevelEvent)
        ensures
            toplevel_applied(*old(self), *final(self), e),
            old(self).wf() ==> final(self).wf(),
    {
        match e {
            ToplevelEvent::New { id } => {
                if self.find_toplevel(id).is_none() {
                    self.toplevels.push(ToplevelInfo {
                        id,
                        foreign_id: None,
                        title: String::new(),
                        app_id: String::new(),
                        identifier: String::new(),
                        state: ToplevelFlags {
                            maximized: false,
                            minimized: false,
                            activated: false,
                            fullscreen: false,
                            sticky: false,
                        },
                        outputs: Vec::new(),
                        workspaces: Vec::new(),
                        geometry: Vec::new(),
                    });
                    assert(self.toplevels@.drop_last() =~= old(self).toplevels@);
                }
            },
            ToplevelEvent::Correlate { id, foreign_id } => {
                if let Some(i) = self.find_toplevel(id) {
                    self.toplevels[i].foreign_id = Some(foreign_id);
                }
            },
            ToplevelEvent::Title { id, title } => {
                if let Some(i) = self.find_toplevel(id) {
                    self.toplevels[i].title = title;
                }
            },
            ToplevelEvent::AppId { id, app_id } => {
                if let Some(i) = self.find_toplevel(id) {
                    self.toplevels[i].app_id = app_id;
                }
            },
            ToplevelEvent::Identifier { id, identifier } => {
                if let Some(i) = self.find_toplevel(id) {
                    self.toplevels[i].identifier = identifier;
                }
            },
            ToplevelEvent::State { id, state } => {
                if let Some(i) = self.find_toplevel(id) {
                    self.toplevels[i].state = state;
                }
            },
            ToplevelEvent::OutputEnter { id, output } => {
                if let Some(i) = self.find_toplevel(id) {
                    add_once(&mut self.toplevels[i].outputs, output);
                }
            },
            ToplevelEvent::OutputLeave { id, output } => {
                if let Some(i) = self.find_toplevel(id) {
                    remove_first(&mut self.toplevels[i].outputs, output);
                }
            },
            ToplevelEvent::WorkspaceEnter { id, workspace } => {
                if let Some(i) = self.find_toplevel(id) {
                    add_once(&mut self.toplevels[i].workspaces, workspace);
                }
            },
            ToplevelEvent::WorkspaceLeave { id, workspace } => {
                if let Some(i) = self.find_toplevel(id) {
                    remove_first(&mut self.toplevels[i].workspaces, workspace);
                }
            },
            ToplevelEvent::Geometry { id, geometry } => {
                if let Some(i) = self.find_toplevel(id) {
                    self.toplevels[i].geometry.push(geometry);
                }
            },
            ToplevelEvent::Closed { id } => {
                if let Some(i) = self.find_toplevel(id) {
                    self.toplevels.remove(i);
                }
            },
            ToplevelEvent::Done => {
                self.toplevels_done = true;
            },
        }
    }

    #[verifier::rlimit(60)]
    pub fn apply_workspace_event(&mut self, e: WorkspaceEvent)
        ensures
            workspace_applied(*old(self), *final(self), e),
            old(self).wf() ==> final(self).wf(),
    {
        match e {
            WorkspaceEvent::NewGroup { id } => {
                if self.find_group(id).is_none() {
                    self.groups.push(WorkspaceGroup {
                        id,
                        workspaces: Vec::new(),
                        outputs: Vec::new(),
                        can_create_workspace: false,
                    });
                    assert(self.groups@.drop_last() =~= old(self).groups@);
                }
            },
            WorkspaceEvent::GroupCapabilities { id, can_create_workspace } => {
                if let Some(i) = self.find_group(id) {
                    self.groups[i].can_create_workspace = can_create_workspace;
                }
            },
            WorkspaceEvent::GroupOutputEnter { id, output } => {
                if let Some(i) = self.find_group(id) {
                    add_once(&mut self.groups[i].outputs, output);
                }
            },
            WorkspaceEvent::GroupOutputLeave { id, output } => {
                if let Some(i) = self.find_group(id) {
                    remove_first(&mut self.groups[i].outputs, output);
                }
            },
            WorkspaceEvent::GroupWorkspaceEnter { id, workspace } => {
                if let Some(i) = self.find_group(id) {
                    add_once(&mut self.groups[i].workspaces, workspace);
                }
            },
            WorkspaceEvent::GroupWorkspaceLeave { id, workspace } => {
                if let Some(i) = self.find_group(id) {
                    remove_first(&mut self.groups[i].workspaces, workspace);
                }
            },
            WorkspaceEvent::GroupRemoved { id } => {
                if let Some(i) = self.find_group(id) {
                    self.groups.remove(i);
                }
            },
            WorkspaceEvent::New { id } => {
                if self.find_workspace(id).is_none() {
                    self.workspaces.push(Workspace {
                        id,
                        name: String::new(),
                        wayland_id: None,
                        cosmic_handle: None,
                        tiling: Tiling::Unknown,
                        state: WorkspaceFlags { active: false, hidden: false, urgent: false },
                        capabilities: WorkspaceCapabilities {
                            move_workspace: false,
                            pin: false,
                            rename: false,
                            set_tiling: false,
                            activate: false,
                            assign: false,
                            deactivate: false,
                            remove: false,
                        },
                    });
                    assert(self.workspaces@.drop_last() =~= old(self).workspaces@);
                }
            },
            WorkspaceEvent::Name { id, name } => {
                if let Some(i) = self.find_workspace(id) {
                    self.workspaces[i].name = name;
                }
            },
            WorkspaceEvent::Id { id, wayland_id } => {
                if let Some(i) = self.find_workspace(id) {
                    self.workspaces[i].wayland_id = Some(wayland_id);
                }
            },
            WorkspaceEvent::CosmicHandle { id, handle } => {
                if let Some(i) = self.find_workspace(id) {
                    self.workspaces[i].cosmic_handle = Some(handle);
                }
            },
            WorkspaceEvent::Tiling { id, tiling } => {
                if let Some(i) = self.find_workspace(id) {
                    self.workspaces[i].tiling = tiling;
                }
            },
            WorkspaceEvent::State { id, state } => {
                if let Some(i) = self.find_workspace(id) {
                    self.workspaces[i].state = state;
                }
            },
            WorkspaceEvent::Capabilities { id, capabilities } => {
                if let Some(i) = self.find_workspace(id) {
                    self.workspaces[i].capabilities = capabilities;
                }
            },
            WorkspaceEvent::Removed { id } => {
                if let Some(i) = self.find_workspace(id) {
                    self.workspaces.remove(i);
                }
            },
            WorkspaceEvent::Done => {
                self.workspaces_done = true;
            },
        }
    }

    /// Applies one server event to the mirror. Events for identities that
    /// were never created change nothing.
    pub fn apply(&mut self, e: Event)
        ensures
            applied(*old(self), *final(self), e),
            old(self).wf() ==> final(self).wf(),
    {
        match e {
            Event::Output(e) => self.apply_output_event(e),
            Event::Toplevel(e) => self.apply_toplevel_event(e),
            Event::Workspace(e) => self.apply_workspace_event(e),
            Event::Unknown => {},
        }
    }
}


// ---------------------------------------------------------------------------
// Completeness of each entity class
// ---------------------------------------------------------------------------

/// At least one output exists and every known output has settled.
pub open spec fn outputs_ready(s: AppData) -> bool {
    s.outputs@.len() > 0 && forall|i: int| 0 <= i < s.outputs@.len() ==> #[trigger] s.outputs@[i].settled
}

/// The entity classes a command needs before it can run.
#[derive(Clone, Copy, Debug, PartialEq, Eq, Structural)]
pub struct Needs {
    pub outputs: bool,
    pub toplevels: bool,
    pub workspaces: bool,
}

pub open spec fn ready_for(s: AppData, needs: Needs) -> bool {
    &&& needs.outputs ==> outputs_ready(s)
    &&& needs.toplevels ==> s.toplevels_done
    &&& needs.workspaces ==> s.workspaces_done
}

impl AppData {
    pub fn outputs_complete(&self) -> (r: bool)
        ensures
            r == outputs_ready(*self),
    {
        if self.outputs.len() == 0 {
            return false;
        }
        let mut i: usize = 0;
        while i < self.outputs.len()
            invariant
                i <= self.outputs@.len(),
                forall|j: int| 0 <= j < i ==> #[trigger] self.outputs@[j].settled,
            decreases self.outputs@.len() - i,
        {
            if !self.outputs[i].settled {
                return false;
            }
            i = i + 1;
        }
        true
    }

    pub fn toplevels_complete(&self) -> (r: bool)
        ensures
            r == self.toplevels_done,
    {
        self.toplevels_done
    }

    pub fn workspaces_complete(&self) -> (r: bool)
        ensures
            r == self.workspaces_done,
    {
        self.workspaces_done
    }

    /// Every class in `needs` is complete; the classes are judged separately.
    pub fn is_ready(&self, needs: Needs) -> (r: bool)
        ensures
            r == ready_for(*self, needs),
    {
        (!needs.outputs || self.outputs_complete()) && (!needs.toplevels || self.toplevels_complete())
            && (!needs.workspaces || self.workspaces_complete())
    }
}

/// With no output known, the outputs class is not complete.
pub proof fn lemma_outputs_not_ready_when_empty(s: AppData)
    requires
        s.outputs@.len() == 0,
    ensures
        !outputs_ready(s),
{
}

/// Starting from no outputs, the arrival of one output followed by its
/// settle signal makes the outputs class complete.
pub proof fn lemma_outputs_ready_after_settle(s: AppData, t: AppData, u: AppData, id: u64)
    requires
        s.outputs@.len() == 0,
        applied(s, t, Event::Output(OutputEvent::New { id })),
        applied(t, u, Event::Output(OutputEvent::Done { id })),
    ensures
        outputs_ready(u),
{
    lemma_first_hit_none(output_hits(s.outputs@, id));
    assert(t.outputs@.len() == 1);
    assert(t.outputs@[0].id == id);
    lemma_first_hit_some(output_hits(t.outputs@, id), 0);
    assert(u.outputs@[0].settled);
}

/// Whether the outputs class is complete depends on the outputs alone:
/// toplevel and workspace signals never change it.
pub proof fn lemma_outputs_ready_independent(s: AppData, t: AppData)
    requires
        t.outputs@ == s.outputs@,
    ensures
        outputs_ready(t) == outputs_ready(s),
{
}

/// The terminal toplevel and workspace signals leave the outputs class as
/// it was.
pub proof fn lemma_other_done_keeps_outputs(s: AppData, t: AppData, e: Event)
    requires
        e == Event::Toplevel(ToplevelEvent::Done) || e == Event::Workspace(WorkspaceEvent::Done),
        applied(s, t, e),
    ensures
        outputs_ready(t) == outputs_ready(s),
        t.outputs@ == s.outputs@,
{
}

} // verus!
