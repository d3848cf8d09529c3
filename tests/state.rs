use nzm_agent::{PaneInfo, PaneManifest, State};

fn create_test_pane(id: u32, title: &str, is_plugin: bool) -> PaneInfo {
    PaneInfo {
        id,
        is_plugin,
        title: title.to_string(),
        is_focused: false,
        is_floating: false,
    }
}

fn create_manifest_with_panes(panes: Vec<PaneInfo>) -> PaneManifest {
    let mut manifest = PaneManifest::new();
    manifest.insert(0, panes);
    manifest
}

fn titles(state: &State) -> Vec<String> {
    state.panes().iter().map(|p| p.title.clone()).collect()
}

#[test]
fn test_empty_state_has_no_panes() {
    let state = State::default();
    assert!(state.panes().is_empty());
}

#[test]
fn test_update_panes_stores_terminal_panes() {
    let mut state = State::default();
    let pane_info = create_test_pane(1, "test__cc_1", false);
    let manifest = create_manifest_with_panes(vec![pane_info]);
    state.update_panes(manifest);
    assert_eq!(state.panes().len(), 1);
    assert_eq!(state.panes()[0].id, 1);
    assert_eq!(state.panes()[0].title, "test__cc_1");
}

#[test]
fn test_update_panes_excludes_plugin_panes() {
    let mut state = State::default();
    let terminal = create_test_pane(1, "test__cc_1", false);
    let plugin = create_test_pane(2, "nzm-agent", true);
    let manifest = create_manifest_with_panes(vec![terminal, plugin]);
    state.update_panes(manifest);
    assert_eq!(state.panes().len(), 1);
    assert_eq!(state.panes()[0].title, "test__cc_1");
}

#[test]
fn test_update_panes_clears_previous_state() {
    let mut state = State::default();
    state.update_panes(create_manifest_with_panes(vec![create_test_pane(1, "old_pane", false)]));
    assert_eq!(state.panes().len(), 1);
    state.update_panes(create_manifest_with_panes(vec![create_test_pane(2, "new_pane", false)]));
    assert_eq!(state.panes().len(), 1);
    assert_eq!(state.panes()[0].id, 2);
    assert_eq!(state.panes()[0].title, "new_pane");
}

#[test]
fn test_get_pane_by_id_returns_pane() {
    let mut state = State::default();
    let pane = create_test_pane(5, "test__cod_1", false);
    state.update_panes(create_manifest_with_panes(vec![pane]));
    let found = state.get_pane(5);
    assert!(found.is_some());
    assert_eq!(found.unwrap().id, 5);
    assert_eq!(found.unwrap().title, "test__cod_1");
}

#[test]
fn test_get_pane_by_id_returns_none_for_missing() {
    let state = State::default();
    assert!(state.get_pane(999).is_none());
}

#[test]
fn test_get_pane_by_title_returns_pane() {
    let mut state = State::default();
    let pane = create_test_pane(3, "myproject__gmi_1", false);
    state.update_panes(create_manifest_with_panes(vec![pane]));
    let found = state.get_pane_by_title("myproject__gmi_1");
    assert!(found.is_some());
    assert_eq!(found.unwrap().id, 3);
}

#[test]
fn test_get_pane_by_title_returns_none_for_missing() {
    let state = State::default();
    assert!(state.get_pane_by_title("nonexistent").is_none());
}

#[test]
fn test_get_panes_by_prefix() {
    let mut state = State::default();
    state.update_panes(create_manifest_with_panes(vec![
        create_test_pane(1, "myproject__cc_1", false),
        create_test_pane(2, "myproject__cc_2", false),
        create_test_pane(3, "myproject__cod_1", false),
        create_test_pane(4, "other__cc_1", false),
    ]));
    let cc_panes = state.get_panes_by_prefix("myproject__cc_");
    assert_eq!(cc_panes.len(), 2);
    let myproject_panes = state.get_panes_by_prefix("myproject__");
    assert_eq!(myproject_panes.len(), 3);
}

#[test]
fn test_multiple_tabs() {
    let mut state = State::default();
    let mut manifest = PaneManifest::new();
    manifest.insert(0, vec![create_test_pane(1, "tab0_pane", false)]);
    manifest.insert(1, vec![create_test_pane(2, "tab1_pane", false)]);
    state.update_panes(manifest);
    assert_eq!(state.panes().len(), 2);
    assert!(state.get_pane(1).is_some());
    assert!(state.get_pane(2).is_some());
}

#[test]
fn tabs_are_walked_in_ascending_index_order() {
    let mut manifest = PaneManifest::new();
    manifest.insert(5, vec![create_test_pane(3, "c", false), create_test_pane(4, "d", false)]);
    manifest.insert(0, vec![create_test_pane(1, "a", false)]);
    manifest.insert(2, vec![create_test_pane(9, "plugin", true), create_test_pane(2, "b", false)]);
    let mut state = State::new();
    state.update_panes(manifest);
    assert_eq!(titles(&state), vec!["a", "b", "c", "d"]);
}

#[test]
fn inserting_a_tab_again_replaces_its_panes() {
    let mut manifest = PaneManifest::new();
    manifest.insert(1, vec![create_test_pane(1, "first", false)]);
    manifest.insert(1, vec![create_test_pane(2, "second", false)]);
    let mut state = State::new();
    state.update_panes(manifest);
    assert_eq!(titles(&state), vec!["second"]);
    assert!(state.get_pane(1).is_none());
}

#[test]
fn replacing_twice_with_one_snapshot_equals_replacing_once() {
    let build = || {
        let mut m = PaneManifest::new();
        m.insert(0, vec![create_test_pane(1, "x", false), create_test_pane(2, "y", true)]);
        m.insert(3, vec![create_test_pane(7, "z", false)]);
        m
    };
    let mut once = State::new();
    once.update_panes(build());
    let mut twice = State::new();
    twice.update_panes(build());
    twice.update_panes(build());
    assert_eq!(titles(&once), titles(&twice));
    for id in [1u32, 2, 7, 8] {
        assert_eq!(
            once.get_pane(id).map(|p| p.title.clone()),
            twice.get_pane(id).map(|p| p.title.clone())
        );
    }
}

#[test]
fn duplicate_ids_list_every_entry_and_look_up_the_last() {
    let mut state = State::new();
    state.update_panes(create_manifest_with_panes(vec![
        create_test_pane(4, "early", false),
        create_test_pane(4, "late", false),
    ]));
    assert_eq!(titles(&state), vec!["early", "late"]);
    assert_eq!(state.get_pane(4).unwrap().title, "late");
}

#[test]
fn plugin_ids_are_not_found() {
    let mut state = State::new();
    state.update_panes(create_manifest_with_panes(vec![
        create_test_pane(1, "term", false),
        create_test_pane(2, "plug", true),
    ]));
    assert!(state.get_pane(1).is_some());
    assert!(state.get_pane(2).is_none());
}

#[test]
fn title_lookup_returns_the_first_match() {
    let mut state = State::new();
    state.update_panes(create_manifest_with_panes(vec![
        create_test_pane(1, "same", false),
        create_test_pane(2, "same", false),
    ]));
    assert_eq!(state.get_pane_by_title("same").unwrap().id, 1);
}

#[test]
fn prefix_lookup_keeps_registry_order_and_empty_prefix_matches_all() {
    let mut state = State::new();
    state.update_panes(create_manifest_with_panes(vec![
        create_test_pane(1, "ab2", false),
        create_test_pane(2, "b", false),
        create_test_pane(3, "ab1", false),
    ]));
    let ids: Vec<u32> = state.get_panes_by_prefix("ab").iter().map(|p| p.id).collect();
    assert_eq!(ids, vec![1, 3]);
    assert_eq!(state.get_panes_by_prefix("").len(), 3);
    assert!(state.get_panes_by_prefix("abc").is_empty());
}
