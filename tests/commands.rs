use conductor::args::WorkspaceIdent;
use conductor::cosmic::{
    AppData, Event, Mode, OutputEvent, ToplevelEvent, ToplevelFlags, WorkspaceCapabilities, WorkspaceEvent,
    WorkspaceFlags,
};
use conductor::error::CommandError;
use conductor::output::{current_mode, display_name, display_names, find};
use conductor::toplevel::{
    self, find_from_id, fullscreen, maximize, minimize, sticky, SetStateAction, ToplevelRequest, WindowState,
};
use conductor::workspace::{self, get_workspace, MoveWarning, WorkspaceRequest, AXIS};

fn add_output(s: &mut AppData, id: u64, name: Option<&str>, make: &str, model: &str) {
    s.apply(Event::Output(OutputEvent::New { id }));
    if let Some(n) = name {
        s.apply(Event::Output(OutputEvent::Name { id, name: n.to_string() }));
    }
    s.apply(Event::Output(OutputEvent::Geometry {
        id,
        x: 0,
        y: 0,
        physical_width: 0,
        physical_height: 0,
        make: make.to_string(),
        model: model.to_string(),
    }));
    s.apply(Event::Output(OutputEvent::Done { id }));
}

fn add_group(s: &mut AppData, id: u64, outputs: &[u64], members: &[(u64, &str)]) {
    s.apply(Event::Workspace(WorkspaceEvent::NewGroup { id }));
    for o in outputs {
        s.apply(Event::Workspace(WorkspaceEvent::GroupOutputEnter { id, output: *o }));
    }
    for (w, name) in members {
        s.apply(Event::Workspace(WorkspaceEvent::New { id: *w }));
        s.apply(Event::Workspace(WorkspaceEvent::Name { id: *w, name: name.to_string() }));
        s.apply(Event::Workspace(WorkspaceEvent::CosmicHandle { id: *w, handle: *w + 1000 }));
        s.apply(Event::Workspace(WorkspaceEvent::GroupWorkspaceEnter { id, workspace: *w }));
    }
}

fn add_toplevel(s: &mut AppData, id: u64, handle: Option<u64>, identifier: &str, maximized: bool) {
    s.apply(Event::Toplevel(ToplevelEvent::New { id }));
    if let Some(h) = handle {
        s.apply(Event::Toplevel(ToplevelEvent::Correlate { id, foreign_id: h }));
    }
    s.apply(Event::Toplevel(ToplevelEvent::Identifier { id, identifier: identifier.to_string() }));
    s.apply(Event::Toplevel(ToplevelEvent::State {
        id,
        state: ToplevelFlags { maximized, minimized: false, activated: false, fullscreen: false, sticky: false },
    }));
}

fn ident(name: &str, display: Option<&str>) -> WorkspaceIdent {
    WorkspaceIdent { name: name.to_string(), display: display.map(|d| d.to_string()) }
}

/// One display `DP-1` with group 100 holding A, B, C, D (ids 1 to 4).
fn four_workspaces() -> AppData {
    let mut s = AppData::new(true, true);
    add_output(&mut s, 50, Some("DP-1"), "Dell", "U2412");
    add_group(&mut s, 100, &[50], &[(1, "A"), (2, "B"), (3, "C"), (4, "D")]);
    s
}

#[test]
fn display_name_falls_back_to_make_and_model() {
    let mut s = AppData::new(true, true);
    add_output(&mut s, 1, None, "Dell", "U2412");
    assert_eq!(display_name(&s.outputs[0]), "Dell+U2412");
    assert_eq!(find(&s, "Dell+U2412"), Some(0));
}

#[test]
fn display_name_prefers_advertised_name() {
    let mut s = AppData::new(true, true);
    add_output(&mut s, 1, Some("HDMI-A-1"), "Dell", "U2412");
    assert_eq!(display_name(&s.outputs[0]), "HDMI-A-1");
    assert_eq!(find(&s, "Dell+U2412"), None);
    assert_eq!(find(&s, "HDMI-A-1"), Some(0));
}

#[test]
fn display_names_skip_unknown_outputs() {
    let mut s = AppData::new(true, true);
    add_output(&mut s, 1, Some("DP-1"), "A", "B");
    add_output(&mut s, 2, None, "LG", "27UL");
    assert_eq!(display_names(&s, &vec![2, 9, 1]), vec!["LG+27UL".to_string(), "DP-1".to_string()]);
}

#[test]
fn prefix_resolution_unique_ambiguous_missing() {
    let mut s = AppData::new(true, true);
    add_toplevel(&mut s, 1, Some(11), "abc123", false);
    add_toplevel(&mut s, 2, Some(12), "abc456", false);
    assert_eq!(find_from_id(&s, "abc"), Err(CommandError::ToplevelAmbiguous));
    assert_eq!(find_from_id(&s, "abc1"), Ok(0));
    assert_eq!(s.toplevels[find_from_id(&s, "abc1").unwrap()].identifier, "abc123");
    assert_eq!(find_from_id(&s, "abd"), Err(CommandError::ToplevelNotFound));
    assert_eq!(find_from_id(&s, "abc4567"), Err(CommandError::ToplevelNotFound));
    assert_eq!(find_from_id(&s, "abc456"), Ok(1));
}

#[test]
fn toggle_unsets_when_maximized() {
    let mut s = AppData::new(true, true);
    add_toplevel(&mut s, 1, Some(11), "win", true);
    let r = maximize(&s, "win", SetStateAction::from(false, true).unwrap());
    assert_eq!(r, Ok(ToplevelRequest::SetState { handle: 11, state: WindowState::Maximized, on: false }));
}

#[test]
fn toggle_sets_when_not_maximized() {
    let mut s = AppData::new(true, true);
    add_toplevel(&mut s, 1, Some(11), "win", false);
    let r = maximize(&s, "win", SetStateAction::from(false, true).unwrap());
    assert_eq!(r, Ok(ToplevelRequest::SetState { handle: 11, state: WindowState::Maximized, on: true }));
}

#[test]
fn unset_and_toggle_together_are_refused() {
    assert_eq!(SetStateAction::from(true, true), Err(CommandError::ConflictingFlags));
    assert_eq!(SetStateAction::from(true, false), Ok(SetStateAction::Disable));
    assert_eq!(SetStateAction::from(false, false), Ok(SetStateAction::Enable));
    assert_eq!(SetStateAction::from(false, true), Ok(SetStateAction::Toggle));
}

#[test]
fn set_and_unset_ignore_current_state() {
    let mut s = AppData::new(true, true);
    add_toplevel(&mut s, 1, Some(11), "win", true);
    assert_eq!(
        minimize(&s, "w", SetStateAction::Enable),
        Ok(ToplevelRequest::SetState { handle: 11, state: WindowState::Minimized, on: true })
    );
    assert_eq!(
        fullscreen(&s, "w", SetStateAction::Disable),
        Ok(ToplevelRequest::SetState { handle: 11, state: WindowState::Fullscreen, on: false })
    );
    assert_eq!(
        sticky(&s, "w", SetStateAction::Toggle),
        Ok(ToplevelRequest::SetState { handle: 11, state: WindowState::Sticky, on: true })
    );
    assert_eq!(toplevel::activate(&s, "w", &vec![5]), Ok(ToplevelRequest::Activate { handle: 11, seat: 5 }));
}

#[test]
fn mutation_without_second_handle_is_internal_error() {
    let mut s = AppData::new(true, true);
    add_toplevel(&mut s, 1, None, "win", false);
    assert_eq!(maximize(&s, "win", SetStateAction::Enable), Err(CommandError::MissingHandle));
}

#[test]
fn mutation_without_manager_is_refused() {
    let mut s = AppData::new(false, false);
    add_toplevel(&mut s, 1, Some(11), "win", false);
    assert_eq!(maximize(&s, "win", SetStateAction::Enable), Err(CommandError::ManagerUnavailable));
    add_output(&mut s, 50, Some("DP-1"), "a", "b");
    add_group(&mut s, 100, &[50], &[(1, "A"), (2, "B")]);
    assert_eq!(workspace::pin(&s, ident("A", None), true), Err(CommandError::ManagerUnavailable));
    assert_eq!(workspace::move_to(&s, ident("A", None), 2, None).err(), Some(CommandError::ManagerUnavailable));
}

#[test]
fn move_first_to_last_goes_after_second() {
    let mut s = AppData::new(true, true);
    add_output(&mut s, 50, Some("DP-1"), "a", "b");
    add_group(&mut s, 100, &[50], &[(1, "A"), (2, "B"), (3, "C")]);
    let plan = workspace::move_to(&s, ident("A", None), 3, None).unwrap();
    assert_eq!(
        plan.requests,
        vec![WorkspaceRequest::MoveAfter { workspace: 1, other: 2, axis: AXIS }, WorkspaceRequest::Commit]
    );
    assert!(plan.warnings.is_empty());
}

#[test]
fn move_last_to_front_goes_before_first() {
    let s = four_workspaces();
    let plan = workspace::move_to(&s, ident("D", None), 1, None).unwrap();
    assert_eq!(
        plan.requests,
        vec![WorkspaceRequest::MoveBefore { workspace: 4, other: 1, axis: 0 }, WorkspaceRequest::Commit]
    );
    assert!(plan.warnings.is_empty());
}

#[test]
fn move_to_current_position_sends_nothing() {
    let s = four_workspaces();
    let plan = workspace::move_to(&s, ident("C", Some("DP-1")), 3, None).unwrap();
    assert!(plan.requests.is_empty());
    assert_eq!(plan.warnings, vec![MoveWarning::AlreadyInPlace { position: 2 }]);
}

#[test]
fn move_position_zero_and_past_end_are_clamped() {
    let s = four_workspaces();
    let plan = workspace::move_to(&s, ident("C", None), 0, None).unwrap();
    assert_eq!(plan.warnings, vec![MoveWarning::PositionZero]);
    assert_eq!(
        plan.requests,
        vec![WorkspaceRequest::MoveBefore { workspace: 3, other: 1, axis: 0 }, WorkspaceRequest::Commit]
    );
    let plan = workspace::move_to(&s, ident("A", None), 9, None).unwrap();
    assert_eq!(plan.warnings, vec![MoveWarning::PositionTooLarge { requested: 8, last: 3 }]);
    assert_eq!(
        plan.requests,
        vec![WorkspaceRequest::MoveAfter { workspace: 1, other: 3, axis: 0 }, WorkspaceRequest::Commit]
    );
    let plan = workspace::move_to(&s, ident("A", None), usize::MAX, None).unwrap();
    assert!(plan.warnings.is_empty());
}

#[test]
fn move_to_other_display_goes_last() {
    let mut s = four_workspaces();
    add_output(&mut s, 51, None, "LG", "27UL");
    add_group(&mut s, 101, &[51], &[(5, "E"), (6, "F")]);
    let plan = workspace::move_to(&s, ident("A", None), usize::MAX, Some("LG+27UL")).unwrap();
    assert_eq!(
        plan.requests,
        vec![WorkspaceRequest::MoveAfter { workspace: 1, other: 5, axis: 0 }, WorkspaceRequest::Commit]
    );
    assert_eq!(
        workspace::move_to(&s, ident("A", None), 1, Some("nowhere")).err(),
        Some(CommandError::UnknownDisplay)
    );
}

#[test]
fn move_into_empty_group_fails_single_member_group_works() {
    let mut s = AppData::new(true, true);
    add_output(&mut s, 50, Some("DP-1"), "a", "b");
    add_output(&mut s, 51, Some("DP-2"), "a", "b");
    add_group(&mut s, 100, &[50], &[(1, "A"), (2, "B")]);
    add_group(&mut s, 101, &[51], &[]);
    assert_eq!(
        workspace::move_to(&s, ident("A", None), 1, Some("DP-2")).err(),
        Some(CommandError::NoReferenceWorkspace)
    );
    add_group(&mut s, 102, &[], &[(3, "C")]);
    s.apply(Event::Workspace(WorkspaceEvent::GroupOutputEnter { id: 101, output: 51 }));
    s.apply(Event::Workspace(WorkspaceEvent::GroupWorkspaceEnter { id: 101, workspace: 3 }));
    let plan = workspace::move_to(&s, ident("A", None), 1, Some("DP-2")).unwrap();
    assert_eq!(
        plan.requests,
        vec![WorkspaceRequest::MoveBefore { workspace: 1, other: 3, axis: 0 }, WorkspaceRequest::Commit]
    );
}

#[test]
fn workspace_without_second_handle_is_internal_error() {
    let mut s = four_workspaces();
    s.apply(Event::Workspace(WorkspaceEvent::New { id: 9 }));
    s.apply(Event::Workspace(WorkspaceEvent::Name { id: 9, name: "bare".to_string() }));
    s.apply(Event::Workspace(WorkspaceEvent::GroupWorkspaceEnter { id: 100, workspace: 9 }));
    assert_eq!(workspace::move_to(&s, ident("bare", None), 1, None).err(), Some(CommandError::MissingHandle));
    let plan = workspace::move_to(&s, ident("bare", None), 5, None).unwrap();
    assert!(plan.requests.is_empty());
    assert_eq!(plan.warnings, vec![MoveWarning::AlreadyInPlace { position: 4 }]);
    assert_eq!(
        workspace::move_to(&s, ident("bare", None), 1, Some("nowhere")).err(),
        Some(CommandError::UnknownDisplay)
    );
    assert_eq!(workspace::pin(&s, ident("bare", None), true), Err(CommandError::MissingHandle));
    assert_eq!(
        workspace::activate(&s, ident("bare", None)),
        Ok(vec![WorkspaceRequest::Activate { workspace: 9 }, WorkspaceRequest::Commit])
    );
}

#[test]
fn activation_needs_exactly_one_seat() {
    let mut s = AppData::new(true, true);
    add_toplevel(&mut s, 1, Some(11), "win", false);
    assert_eq!(toplevel::activate(&s, "win", &vec![]), Err(CommandError::SeatNotUnique));
    assert_eq!(toplevel::activate(&s, "win", &vec![3, 4]), Err(CommandError::SeatNotUnique));
    assert_eq!(toplevel::activate(&s, "win", &vec![3]), Ok(ToplevelRequest::Activate { handle: 11, seat: 3 }));
    assert_eq!(toplevel::activate(&s, "nope", &vec![3]), Err(CommandError::ToplevelNotFound));
}

#[test]
fn workspace_resolution_errors() {
    let mut s = four_workspaces();
    add_output(&mut s, 51, Some("DP-2"), "a", "b");
    add_group(&mut s, 101, &[51], &[(5, "A")]);
    assert_eq!(get_workspace(&s, &ident("A", None)), Err(CommandError::WorkspaceAmbiguous));
    assert_eq!(get_workspace(&s, &ident("A", Some("DP-2"))), Ok((1, 0, 4)));
    assert_eq!(get_workspace(&s, &ident("C", None)), Ok((0, 2, 2)));
    assert_eq!(get_workspace(&s, &ident("Z", None)), Err(CommandError::WorkspaceNotFound));
    assert_eq!(get_workspace(&s, &ident("C", Some("DP-2"))), Err(CommandError::WorkspaceNotOnDisplay));
    assert_eq!(get_workspace(&s, &ident("C", Some("DP-9"))), Err(CommandError::UnknownDisplay));
    s.apply(Event::Workspace(WorkspaceEvent::New { id: 9 }));
    s.apply(Event::Workspace(WorkspaceEvent::Name { id: 9, name: "lonely".to_string() }));
    assert_eq!(get_workspace(&s, &ident("lonely", None)), Err(CommandError::WorkspaceWithoutGroup));
}

#[test]
fn pin_and_activate_are_committed() {
    let s = four_workspaces();
    assert_eq!(
        workspace::pin(&s, ident("B", None), true),
        Ok(vec![WorkspaceRequest::Pin { workspace: 2 }, WorkspaceRequest::Commit])
    );
    assert_eq!(
        workspace::pin(&s, ident("B", None), false),
        Ok(vec![WorkspaceRequest::Unpin { workspace: 2 }, WorkspaceRequest::Commit])
    );
    assert_eq!(
        workspace::activate(&s, ident("D", Some("DP-1"))),
        Ok(vec![WorkspaceRequest::Activate { workspace: 4 }, WorkspaceRequest::Commit])
    );
}

#[test]
fn toplevel_move_picks_the_group_output() {
    let mut s = four_workspaces();
    add_toplevel(&mut s, 1, Some(11), "win", false);
    assert_eq!(
        toplevel::move_to(&s, "win", ident("C", None)),
        Ok(ToplevelRequest::MoveToWorkspace { handle: 11, workspace: 3, output: 50 })
    );
    s.apply(Event::Workspace(WorkspaceEvent::GroupOutputEnter { id: 100, output: 77 }));
    assert_eq!(toplevel::move_to(&s, "win", ident("C", None)), Err(CommandError::GroupOutputNotUnique));
}

#[test]
fn toplevel_listing_filters() {
    let mut s = four_workspaces();
    add_output(&mut s, 51, Some("DP-2"), "a", "b");
    add_toplevel(&mut s, 1, Some(11), "one", false);
    add_toplevel(&mut s, 2, Some(12), "two", false);
    add_toplevel(&mut s, 3, Some(13), "three", false);
    s.apply(Event::Toplevel(ToplevelEvent::WorkspaceEnter { id: 1, workspace: 2 }));
    s.apply(Event::Toplevel(ToplevelEvent::WorkspaceEnter { id: 3, workspace: 2 }));
    s.apply(Event::Toplevel(ToplevelEvent::OutputEnter { id: 2, output: 51 }));
    assert_eq!(toplevel::list(&s, None, None), Ok(vec![0, 1, 2]));
    assert_eq!(toplevel::list(&s, Some("B".to_string()), None), Ok(vec![0, 2]));
    assert_eq!(toplevel::list(&s, None, Some("DP-2".to_string())), Ok(vec![1]));
    assert_eq!(toplevel::list(&s, None, Some("DP-7".to_string())), Err(CommandError::UnknownDisplay));
    assert_eq!(toplevel::list(&s, Some("Q".to_string()), None), Err(CommandError::WorkspaceNotFound));
}

#[test]
fn repeated_queries_agree() {
    let mut s = four_workspaces();
    add_toplevel(&mut s, 1, Some(11), "one", false);
    s.apply(Event::Toplevel(ToplevelEvent::WorkspaceEnter { id: 1, workspace: 2 }));
    let first = toplevel::list(&s, None, None);
    let second = toplevel::list(&s, None, None);
    assert_eq!(first, second);
    assert_eq!(toplevel::list(&s, Some("B".to_string()), None), toplevel::list(&s, Some("B".to_string()), None));
    s.apply(Event::Unknown);
    assert_eq!(toplevel::list(&s, None, None), first);
    assert_eq!(get_workspace(&s, &ident("B", None)), get_workspace(&s, &ident("B", None)));
}

#[test]
fn presenter_helpers() {
    let mut s = four_workspaces();
    add_toplevel(&mut s, 1, Some(11), "one", false);
    s.apply(Event::Toplevel(ToplevelEvent::WorkspaceEnter { id: 1, workspace: 2 }));
    s.apply(Event::Toplevel(ToplevelEvent::WorkspaceEnter { id: 1, workspace: 99 }));
    s.apply(Event::Toplevel(ToplevelEvent::OutputEnter { id: 1, output: 50 }));
    assert_eq!(toplevel::workspace_of(&s, 0), Some(1));
    assert_eq!(toplevel::output_of(&s.toplevels[0]), Some(50));
    s.apply(Event::Toplevel(ToplevelEvent::OutputEnter { id: 1, output: 51 }));
    assert_eq!(toplevel::output_of(&s.toplevels[0]), None);
    assert_eq!(workspace::get_groups_for_workspace(3, &s), vec![0]);
    assert_eq!(workspace::workspace_toplevels(2, &s), vec![0]);
    assert_eq!(workspace::workspace_toplevels(1, &s), Vec::<usize>::new());
    assert!(!workspace::is_workspace_tiling(&s.workspaces[0]));
    assert_eq!(workspace::state_labels(&s.workspaces[0]), vec!["-"]);
    assert_eq!(workspace::capability_labels(&s.workspaces[0]), vec!["-"]);
}

#[test]
fn current_mode_and_state_labels() {
    let mut s = AppData::new(true, true);
    add_output(&mut s, 1, Some("DP-1"), "a", "b");
    assert_eq!(current_mode(&s.outputs[0]), None);
    let low = Mode { width: 800, height: 600, refresh_rate: 60000, current: false, preferred: false };
    let high = Mode { width: 1920, height: 1080, refresh_rate: 60000, current: true, preferred: true };
    s.apply(Event::Output(OutputEvent::Mode { id: 1, mode: low }));
    s.apply(Event::Output(OutputEvent::Mode { id: 1, mode: high }));
    assert_eq!(current_mode(&s.outputs[0]), Some(high));
    let flags = ToplevelFlags { maximized: true, minimized: false, activated: true, fullscreen: false, sticky: true };
    assert_eq!(toplevel::state_labels(flags), vec!["Maximized", "Activated", "Sticky"]);
}

#[test]
fn workspace_labels_follow_flags() {
    let mut s = four_workspaces();
    s.apply(Event::Workspace(WorkspaceEvent::State {
        id: 1,
        state: WorkspaceFlags { active: true, hidden: true, urgent: false },
    }));
    s.apply(Event::Workspace(WorkspaceEvent::Capabilities {
        id: 1,
        capabilities: WorkspaceCapabilities {
            move_workspace: true,
            pin: true,
            rename: false,
            set_tiling: true,
            activate: true,
            assign: false,
            deactivate: false,
            remove: true,
        },
    }));
    assert_eq!(workspace::state_labels(&s.workspaces[0]), vec!["active", "hidden"]);
    assert_eq!(
        workspace::capability_labels(&s.workspaces[0]),
        vec!["move", "pin", "set tiling", "activate", "remove"]
    );
}
