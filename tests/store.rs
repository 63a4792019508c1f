use conductor::convergence::{Action, Backoff};
use conductor::cosmic::{
    AppData, Event, Geometry, Mode, Needs, OutputEvent, Tiling, ToplevelEvent, ToplevelFlags, WorkspaceEvent,
    WorkspaceFlags,
};

fn output(s: &mut AppData, id: u64) {
    s.apply(Event::Output(OutputEvent::New { id }));
}

#[test]
fn outputs_gate_needs_one_settled_output() {
    let mut s = AppData::new(true, true);
    assert!(!s.outputs_complete());
    s.apply(Event::Toplevel(ToplevelEvent::Done));
    s.apply(Event::Workspace(WorkspaceEvent::Done));
    assert!(!s.outputs_complete());
    assert!(s.toplevels_complete());
    assert!(s.workspaces_complete());
    output(&mut s, 7);
    assert!(!s.outputs_complete());
    s.apply(Event::Output(OutputEvent::Done { id: 7 }));
    assert!(s.outputs_complete());
}

#[test]
fn outputs_gate_ignores_other_classes() {
    let mut s = AppData::new(true, true);
    output(&mut s, 1);
    s.apply(Event::Output(OutputEvent::Done { id: 1 }));
    assert!(s.outputs_complete());
    assert!(!s.toplevels_complete());
    assert!(!s.workspaces_complete());
    let needs = Needs { outputs: true, toplevels: false, workspaces: false };
    assert!(s.is_ready(needs));
    let all = Needs { outputs: true, toplevels: true, workspaces: true };
    assert!(!s.is_ready(all));
}

#[test]
fn outputs_gate_waits_for_every_known_output() {
    let mut s = AppData::new(true, true);
    output(&mut s, 1);
    output(&mut s, 2);
    s.apply(Event::Output(OutputEvent::Done { id: 1 }));
    assert!(!s.outputs_complete());
    s.apply(Event::Output(OutputEvent::Done { id: 2 }));
    assert!(s.outputs_complete());
    s.apply(Event::Output(OutputEvent::Removed { id: 2 }));
    assert!(s.outputs_complete());
    s.apply(Event::Output(OutputEvent::Removed { id: 1 }));
    assert!(!s.outputs_complete());
}

#[test]
fn output_fields_arrive_in_any_order() {
    let mut s = AppData::new(true, true);
    output(&mut s, 3);
    s.apply(Event::Output(OutputEvent::Mode {
        id: 3,
        mode: Mode { width: 1920, height: 1200, refresh_rate: 60000, current: true, preferred: true },
    }));
    s.apply(Event::Output(OutputEvent::Description { id: 3, description: "Dell U2412".to_string() }));
    s.apply(Event::Output(OutputEvent::Geometry {
        id: 3,
        x: 10,
        y: 20,
        physical_width: 520,
        physical_height: 320,
        make: "Dell".to_string(),
        model: "U2412".to_string(),
    }));
    s.apply(Event::Output(OutputEvent::Name { id: 3, name: "DP-1".to_string() }));
    let o = &s.outputs[0];
    assert_eq!(o.name.as_deref(), Some("DP-1"));
    assert_eq!(o.description.as_deref(), Some("Dell U2412"));
    assert_eq!((o.x, o.y, o.physical_width, o.physical_height), (10, 20, 520, 320));
    assert_eq!(o.make, "Dell");
    assert_eq!(o.model, "U2412");
    assert_eq!(o.modes.len(), 1);
    assert!(o.modes[0].current);
    assert!(!o.settled);
}

#[test]
fn events_for_unknown_identities_are_dropped() {
    let mut s = AppData::new(true, true);
    s.apply(Event::Output(OutputEvent::Name { id: 9, name: "HDMI-1".to_string() }));
    s.apply(Event::Toplevel(ToplevelEvent::Title { id: 9, title: "x".to_string() }));
    s.apply(Event::Workspace(WorkspaceEvent::Name { id: 9, name: "1".to_string() }));
    s.apply(Event::Unknown);
    assert!(s.outputs.is_empty());
    assert!(s.toplevels.is_empty());
    assert!(s.workspaces.is_empty());
}

#[test]
fn creation_twice_keeps_one_record() {
    let mut s = AppData::new(true, true);
    output(&mut s, 1);
    output(&mut s, 1);
    s.apply(Event::Toplevel(ToplevelEvent::New { id: 5 }));
    s.apply(Event::Toplevel(ToplevelEvent::New { id: 5 }));
    assert_eq!(s.outputs.len(), 1);
    assert_eq!(s.toplevels.len(), 1);
}

#[test]
fn second_handle_reaches_the_same_toplevel() {
    let mut s = AppData::new(true, true);
    s.apply(Event::Toplevel(ToplevelEvent::New { id: 10 }));
    s.apply(Event::Toplevel(ToplevelEvent::Correlate { id: 10, foreign_id: 110 }));
    s.apply(Event::Toplevel(ToplevelEvent::Title { id: 110, title: "Terminal".to_string() }));
    s.apply(Event::Toplevel(ToplevelEvent::AppId { id: 10, app_id: "term".to_string() }));
    assert_eq!(s.toplevels.len(), 1);
    assert_eq!(s.toplevels[0].title, "Terminal");
    assert_eq!(s.toplevels[0].app_id, "term");
    assert_eq!(s.toplevels[0].foreign_id, Some(110));
    s.apply(Event::Toplevel(ToplevelEvent::Closed { id: 110 }));
    assert!(s.toplevels.is_empty());
}

#[test]
fn state_events_replace_all_flags() {
    let mut s = AppData::new(true, true);
    s.apply(Event::Toplevel(ToplevelEvent::New { id: 1 }));
    let first = ToplevelFlags { maximized: true, minimized: false, activated: true, fullscreen: false, sticky: true };
    s.apply(Event::Toplevel(ToplevelEvent::State { id: 1, state: first }));
    let second = ToplevelFlags { maximized: false, minimized: true, activated: false, fullscreen: false, sticky: false };
    s.apply(Event::Toplevel(ToplevelEvent::State { id: 1, state: second }));
    assert_eq!(s.toplevels[0].state, second);
}

#[test]
fn toplevel_memberships_enter_and_leave() {
    let mut s = AppData::new(true, true);
    s.apply(Event::Toplevel(ToplevelEvent::New { id: 1 }));
    s.apply(Event::Toplevel(ToplevelEvent::OutputEnter { id: 1, output: 4 }));
    s.apply(Event::Toplevel(ToplevelEvent::OutputEnter { id: 1, output: 4 }));
    s.apply(Event::Toplevel(ToplevelEvent::OutputEnter { id: 1, output: 5 }));
    s.apply(Event::Toplevel(ToplevelEvent::WorkspaceEnter { id: 1, workspace: 8 }));
    s.apply(Event::Toplevel(ToplevelEvent::OutputLeave { id: 1, output: 4 }));
    s.apply(Event::Toplevel(ToplevelEvent::Geometry {
        id: 1,
        geometry: Geometry { output: 5, x: 1, y: 2, width: 3, height: 4 },
    }));
    assert_eq!(s.toplevels[0].outputs, vec![5]);
    assert_eq!(s.toplevels[0].workspaces, vec![8]);
    s.apply(Event::Toplevel(ToplevelEvent::WorkspaceLeave { id: 1, workspace: 8 }));
    assert!(s.toplevels[0].workspaces.is_empty());
    assert_eq!(s.toplevels[0].geometry.len(), 1);
}

#[test]
fn group_members_keep_their_order() {
    let mut s = AppData::new(true, true);
    s.apply(Event::Workspace(WorkspaceEvent::NewGroup { id: 100 }));
    for w in [3u64, 1, 2] {
        s.apply(Event::Workspace(WorkspaceEvent::New { id: w }));
        s.apply(Event::Workspace(WorkspaceEvent::GroupWorkspaceEnter { id: 100, workspace: w }));
    }
    s.apply(Event::Workspace(WorkspaceEvent::GroupWorkspaceEnter { id: 100, workspace: 1 }));
    assert_eq!(s.groups[0].workspaces, vec![3, 1, 2]);
    s.apply(Event::Workspace(WorkspaceEvent::GroupWorkspaceLeave { id: 100, workspace: 1 }));
    assert_eq!(s.groups[0].workspaces, vec![3, 2]);
    s.apply(Event::Workspace(WorkspaceEvent::GroupCapabilities { id: 100, can_create_workspace: true }));
    assert!(s.groups[0].can_create_workspace);
    s.apply(Event::Workspace(WorkspaceEvent::GroupRemoved { id: 100 }));
    assert!(s.groups.is_empty());
}

#[test]
fn workspace_fields_are_replaced() {
    let mut s = AppData::new(true, true);
    s.apply(Event::Workspace(WorkspaceEvent::New { id: 1 }));
    s.apply(Event::Workspace(WorkspaceEvent::Name { id: 1, name: "web".to_string() }));
    s.apply(Event::Workspace(WorkspaceEvent::Id { id: 1, wayland_id: "ws-1".to_string() }));
    assert_eq!(s.workspaces[0].cosmic_handle, None);
    s.apply(Event::Workspace(WorkspaceEvent::CosmicHandle { id: 1, handle: 41 }));
    s.apply(Event::Workspace(WorkspaceEvent::Tiling { id: 1, tiling: Tiling::Enabled }));
    s.apply(Event::Workspace(WorkspaceEvent::State {
        id: 1,
        state: WorkspaceFlags { active: true, hidden: false, urgent: true },
    }));
    let w = &s.workspaces[0];
    assert_eq!(w.name, "web");
    assert_eq!(w.wayland_id.as_deref(), Some("ws-1"));
    assert_eq!(w.cosmic_handle, Some(41));
    assert_eq!(w.tiling, Tiling::Enabled);
    assert!(w.state.active && w.state.urgent && !w.state.hidden);
    s.apply(Event::Workspace(WorkspaceEvent::Removed { id: 1 }));
    assert!(s.workspaces.is_empty());
}

#[test]
fn backoff_doubles_up_to_the_cap() {
    let mut b = Backoff::new();
    assert_eq!(b.delay_ms, 20);
    assert_eq!(b.decide(false), Action::RoundTrip);
    assert_eq!(b.decide(true), Action::Finish);
    let mut slept = Vec::new();
    for _ in 0..6 {
        slept.push(b.after_round_trip(0).unwrap());
    }
    assert_eq!(slept, vec![20, 40, 80, 160, 200, 200]);
    assert_eq!(b.delay_ms, 200);
    assert_eq!(b.round_trips, 6);
}

#[test]
fn backoff_keeps_delay_after_busy_round_trip() {
    let mut b = Backoff::new();
    assert_eq!(b.after_round_trip(0), Some(20));
    assert_eq!(b.after_round_trip(5), None);
    assert_eq!(b.delay_ms, 40);
    assert_eq!(b.after_round_trip(0), Some(40));
    assert_eq!(b.delay_ms, 80);
}
