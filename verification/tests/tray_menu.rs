use trayplay::actions::{
    apply_custom_outcome, decide_selection, handle_action, handle_selection, ActionEvent,
    ConfigStore, CustomPromptOutcome, MenuAction, StoreOp,
};
use trayplay::config::{Config, Container, Field, FieldValue, Quality};
use trayplay::menu::{
    build_menu, container_entries, duration_entries, framerate_entries, quality_entries, MenuNode,
};
use trayplay::options::{render_group, OptionEntry};

fn base_config() -> Config {
    Config {
        framerate: 60,
        replay_duration_secs: 120,
        quality: Quality::High,
        container: Container::MKV,
    }
}

fn entry(label: &str, value: FieldValue) -> OptionEntry {
    OptionEntry { label: label.to_string(), value }
}

// A current value equal to one of the group's entries is selected at
// exactly that entry's index, for every field's group.
#[test]
fn matching_value_selects_its_index() {
    let framerate = framerate_entries();
    let g = render_group(&framerate, FieldValue::Count(60), true);
    assert_eq!(g.selected, 1);

    let duration = duration_entries();
    let g = render_group(&duration, FieldValue::Count(120), true);
    assert_eq!(g.selected, 2);

    let quality = quality_entries();
    for (i, q) in [Quality::Medium, Quality::High, Quality::VeryHigh, Quality::Ultra]
        .into_iter()
        .enumerate()
    {
        let g = render_group(&quality, FieldValue::Quality(q), false);
        assert_eq!(g.selected, i);
    }

    let container = container_entries();
    for (i, c) in [Container::MKV, Container::MP4, Container::WEBM, Container::FLV]
        .into_iter()
        .enumerate()
    {
        let g = render_group(&container, FieldValue::Container(c), false);
        assert_eq!(g.selected, i);
    }
}

// Current quality = High, entries = [Medium, High, VeryHigh, Ultra] with no
// custom slot: selected index must be 1.
#[test]
fn scenario_quality_high_selects_one() {
    let entries = quality_entries();
    let g = render_group(&entries, FieldValue::Quality(Quality::High), false);
    assert_eq!(g.selected, 1);
    assert!(!g.has_custom);
    assert_eq!(g.labels.len(), 4);
}

// An unmatched value with no custom slot leaves the selection one past the
// end: nothing is visibly selected.
#[test]
fn unmatched_without_custom_selects_nothing() {
    let entries = quality_entries();
    let g = render_group(&entries, FieldValue::Container(Container::FLV), false);
    assert_eq!(g.selected, entries.len());
    assert_eq!(g.labels.len(), entries.len());
}

// The sentinel slot is appended exactly when custom values are allowed, and
// carries the sentinel label.
#[test]
fn custom_slot_appended_when_allowed() {
    let entries = framerate_entries();
    let g = render_group(&entries, FieldValue::Count(30), true);
    assert_eq!(g.labels.len(), 3);
    assert_eq!(g.labels[0], "30");
    assert_eq!(g.labels[1], "60");
    assert_eq!(g.labels[2], "Custom...");
    let g = render_group(&entries, FieldValue::Count(30), false);
    assert_eq!(g.labels.len(), 2);
}

// The first match wins when scanning entries in order.
#[test]
fn first_match_wins() {
    let entries = vec![
        entry("a", FieldValue::Count(7)),
        entry("b", FieldValue::Count(9)),
        entry("c", FieldValue::Count(7)),
    ];
    let g = render_group(&entries, FieldValue::Count(7), false);
    assert_eq!(g.selected, 0);
}

// Current framerate = 45 (unmatched), entries = [30, 60] with custom
// allowed: the sentinel slot (index 2) is selected; choosing it and
// entering 45 leaves the framerate at 45 and persists exactly once.
#[test]
fn scenario_unmatched_framerate_custom_entry() {
    let mut config = base_config();
    config.framerate = 45;

    let entries = framerate_entries();
    let g = render_group(&entries, FieldValue::Count(config.framerate), true);
    assert_eq!(g.selected, 2);

    let mut store = ConfigStore::new(config);
    let mut pending: Vec<ActionEvent> = Vec::new();
    let prompt = handle_selection(&mut store, &mut pending, &entries, Field::Framerate, 2);
    assert_eq!(prompt, Some(Field::Framerate));
    assert_eq!(store.config, config);
    assert!(store.ops.is_empty());

    apply_custom_outcome(&mut store, Field::Framerate, CustomPromptOutcome::Value(45));
    assert_eq!(store.config.framerate, 45);
    let saves = store.ops.iter().filter(|op| **op == StoreOp::Save).count();
    assert_eq!(saves, 1);
    assert_eq!(store.ops, vec![StoreOp::Assign(Field::Framerate), StoreOp::Save]);
    assert!(pending.is_empty());
}

// Cancelling the custom prompt leaves the configuration unchanged and
// performs no persistence call; confirming alters exactly one field.
#[test]
fn custom_prompt_cancel_and_confirm() {
    let config = base_config();
    let mut store = ConfigStore::new(config);

    apply_custom_outcome(&mut store, Field::ReplayDurationSecs, CustomPromptOutcome::Cancelled);
    assert_eq!(store.config, config);
    assert!(store.ops.is_empty());

    apply_custom_outcome(&mut store, Field::ReplayDurationSecs, CustomPromptOutcome::Value(300));
    assert_eq!(store.config.replay_duration_secs, 300);
    assert_eq!(store.config.framerate, config.framerate);
    assert_eq!(store.config.quality, config.quality);
    assert_eq!(store.config.container, config.container);
    assert_eq!(store.ops, vec![StoreOp::Assign(Field::ReplayDurationSecs), StoreOp::Save]);
}

// A failed prompt is non-fatal: the configuration is left unchanged and
// nothing is persisted.
#[test]
fn custom_prompt_failure_leaves_config_unchanged() {
    let config = base_config();
    let mut store = ConfigStore::new(config);
    apply_custom_outcome(&mut store, Field::Framerate, CustomPromptOutcome::Failed);
    assert_eq!(store.config, config);
    assert!(store.ops.is_empty());
}

// Setting a field via a matching entry and re-rendering the group
// reproduces the same selected index.
#[test]
fn round_trip_selection_is_idempotent() {
    let entries = duration_entries();
    let mut store = ConfigStore::new(base_config());
    let mut pending: Vec<ActionEvent> = Vec::new();

    for i in 0..entries.len() {
        let prompt =
            handle_selection(&mut store, &mut pending, &entries, Field::ReplayDurationSecs, i);
        assert_eq!(prompt, None);
        let g = render_group(
            &entries,
            FieldValue::Count(store.config.replay_duration_secs),
            true,
        );
        assert_eq!(g.selected, i);
    }
    assert!(pending.is_empty());
}

// Every assignment in the store's log is followed by a completed
// persistence call before the exclusive access ends.
#[test]
fn persistence_follows_every_assignment() {
    let mut store = ConfigStore::new(base_config());
    let mut pending: Vec<ActionEvent> = Vec::new();
    let entries = framerate_entries();

    handle_selection(&mut store, &mut pending, &entries, Field::Framerate, 0);
    handle_action(
        &mut store,
        &mut pending,
        MenuAction::Dispatch { event: ActionEvent::SaveReplay },
    );
    apply_custom_outcome(&mut store, Field::ReplayDurationSecs, CustomPromptOutcome::Value(90));
    apply_custom_outcome(&mut store, Field::Framerate, CustomPromptOutcome::Cancelled);
    handle_selection(&mut store, &mut pending, &quality_entries(), Field::Quality, 3);

    for (i, op) in store.ops.iter().enumerate() {
        if matches!(op, StoreOp::Assign(_)) {
            assert!(
                store.ops[i + 1..].contains(&StoreOp::Save),
                "assignment at {i} not followed by a save"
            );
        }
    }
    assert_eq!(
        store.ops,
        vec![
            StoreOp::Assign(Field::Framerate),
            StoreOp::Save,
            StoreOp::Assign(Field::ReplayDurationSecs),
            StoreOp::Save,
            StoreOp::Assign(Field::Quality),
            StoreOp::Save,
        ]
    );
}

// Choosing "Quit" sends exactly one Quit event and mutates no
// configuration state.
#[test]
fn quit_sends_one_event_and_mutates_nothing() {
    let config = base_config();
    let mut store = ConfigStore::new(config);
    let mut pending: Vec<ActionEvent> = Vec::new();

    let prompt =
        handle_action(&mut store, &mut pending, MenuAction::Dispatch { event: ActionEvent::Quit });
    assert_eq!(prompt, None);
    assert_eq!(pending, vec![ActionEvent::Quit]);
    assert_eq!(store.config, config);
    assert!(store.ops.is_empty());
}

// The "Path" action dispatches exactly one ChangeReplayPath event to the
// main loop and asks for no local prompt: the file picker runs in the main
// context, never inline.
#[test]
fn path_action_dispatches_event_without_prompt() {
    let config = base_config();
    let menu = build_menu(&config);
    let path_action = match &menu[2] {
        MenuNode::Submenu { children, .. } => match &children[4] {
            MenuNode::Action { label, action, .. } => {
                assert_eq!(label, "Path");
                *action
            }
            other => panic!("expected an action node, got {other:?}"),
        },
        _ => panic!("expected the settings submenu at index 2"),
    };
    assert_eq!(path_action, MenuAction::Dispatch { event: ActionEvent::ChangeReplayPath });

    let mut store = ConfigStore::new(config);
    let mut pending: Vec<ActionEvent> = Vec::new();
    let prompt = handle_action(&mut store, &mut pending, path_action);
    assert_eq!(prompt, None);
    assert_eq!(pending, vec![ActionEvent::ChangeReplayPath]);
    assert_eq!(store.config, config);
    assert!(store.ops.is_empty());
}

// The menu is assembled in its fixed order with the documented labels,
// icons and groups, rendered against the given snapshot.
#[test]
fn menu_tree_has_fixed_structure() {
    let config = base_config();
    let menu = build_menu(&config);
    assert_eq!(menu.len(), 6);

    match &menu[0] {
        MenuNode::Action { label, icon, action } => {
            assert_eq!(label, "Save replay");
            assert_eq!(icon, "document-save");
            assert_eq!(*action, MenuAction::Dispatch { event: ActionEvent::SaveReplay });
        }
        other => panic!("expected an action node, got {other:?}"),
    }
    assert!(matches!(menu[1], MenuNode::Separator));

    match &menu[2] {
        MenuNode::Submenu { label, icon, children } => {
            assert_eq!(label, "Settings");
            assert_eq!(icon, "configure");
            assert_eq!(children.len(), 5);
            match &children[0] {
                MenuNode::Options { label, icon, field, entries, group } => {
                    assert_eq!(label, "Framerate");
                    assert_eq!(icon, "speedometer");
                    assert_eq!(*field, Field::Framerate);
                    assert_eq!(entries.len(), 2);
                    assert!(group.has_custom);
                    assert_eq!(group.selected, 1);
                }
                other => panic!("expected an options node, got {other:?}"),
            }
            match &children[1] {
                MenuNode::Options { label, field, group, .. } => {
                    assert_eq!(label, "Duration");
                    assert_eq!(*field, Field::ReplayDurationSecs);
                    assert_eq!(group.selected, 2);
                    assert_eq!(
                        group.labels,
                        vec!["30s", "1min", "2min", "3min", "5min", "Custom..."]
                    );
                }
                other => panic!("expected an options node, got {other:?}"),
            }
            match &children[2] {
                MenuNode::Options { label, field, group, .. } => {
                    assert_eq!(label, "Quality");
                    assert_eq!(*field, Field::Quality);
                    assert!(!group.has_custom);
                    assert_eq!(group.selected, 1);
                }
                other => panic!("expected an options node, got {other:?}"),
            }
            match &children[3] {
                MenuNode::Options { label, field, group, .. } => {
                    assert_eq!(label, "Container");
                    assert_eq!(*field, Field::Container);
                    assert!(!group.has_custom);
                    assert_eq!(group.selected, 0);
                    assert_eq!(group.labels, vec!["MKV", "MP4", "WEBM", "FLV"]);
                }
                other => panic!("expected an options node, got {other:?}"),
            }
        }
        other => panic!("expected the settings submenu, got {other:?}"),
    }

    match &menu[3] {
        MenuNode::Action { label, icon, action } => {
            assert_eq!(label, "About");
            assert_eq!(icon, "help-about");
            assert_eq!(*action, MenuAction::ShowAbout);
        }
        other => panic!("expected an action node, got {other:?}"),
    }
    assert!(matches!(menu[4], MenuNode::Separator));
    match &menu[5] {
        MenuNode::Action { label, icon, action } => {
            assert_eq!(label, "Quit");
            assert_eq!(icon, "gtk-quit");
            assert_eq!(*action, MenuAction::Dispatch { event: ActionEvent::Quit });
        }
        other => panic!("expected an action node, got {other:?}"),
    }
}

// Rebuilding from the same snapshot gives the same selected indices:
// the builder keeps no state between invocations.
#[test]
fn menu_build_is_idempotent() {
    let config = base_config();
    let first = build_menu(&config);
    let second = build_menu(&config);
    for (a, b) in first.iter().zip(second.iter()) {
        if let (
            MenuNode::Options { group: ga, .. },
            MenuNode::Options { group: gb, .. },
        ) = (a, b)
        {
            assert_eq!(ga.selected, gb.selected);
            assert_eq!(ga.labels, gb.labels);
        }
    }
}

// Picking an in-range index maps back to that entry's value; the sentinel
// index maps to the custom prompt.
#[test]
fn selection_maps_back_to_values() {
    let entries = framerate_entries();
    assert_eq!(
        decide_selection(&entries, Field::Framerate, 0),
        MenuAction::SetField { field: Field::Framerate, value: FieldValue::Count(30) }
    );
    assert_eq!(
        decide_selection(&entries, Field::Framerate, 1),
        MenuAction::SetField { field: Field::Framerate, value: FieldValue::Count(60) }
    );
    assert_eq!(
        decide_selection(&entries, Field::Framerate, 2),
        MenuAction::PromptCustom { field: Field::Framerate }
    );
}

// An in-range selection assigns the entry's value and persists, touching
// only the selected field.
#[test]
fn in_range_selection_assigns_and_saves() {
    let config = base_config();
    let mut store = ConfigStore::new(config);
    let mut pending: Vec<ActionEvent> = Vec::new();
    let entries = container_entries();

    let prompt = handle_selection(&mut store, &mut pending, &entries, Field::Container, 3);
    assert_eq!(prompt, None);
    assert_eq!(store.config.container, Container::FLV);
    assert_eq!(store.config.framerate, config.framerate);
    assert_eq!(store.config.replay_duration_secs, config.replay_duration_secs);
    assert_eq!(store.config.quality, config.quality);
    assert_eq!(store.ops, vec![StoreOp::Assign(Field::Container), StoreOp::Save]);
    assert!(pending.is_empty());
}

// The save-replay item dispatches exactly one SaveReplay event.
#[test]
fn save_replay_dispatches_one_event() {
    let config = base_config();
    let menu = build_menu(&config);
    let action = match &menu[0] {
        MenuNode::Action { action, .. } => *action,
        other => panic!("expected an action node, got {other:?}"),
    };
    let mut store = ConfigStore::new(config);
    let mut pending: Vec<ActionEvent> = Vec::new();
    handle_action(&mut store, &mut pending, action);
    assert_eq!(pending, vec![ActionEvent::SaveReplay]);
    assert_eq!(store.config, config);
}

// The about action touches neither the store nor the event queue.
#[test]
fn about_action_touches_nothing() {
    let config = base_config();
    let mut store = ConfigStore::new(config);
    let mut pending: Vec<ActionEvent> = Vec::new();
    let prompt = handle_action(&mut store, &mut pending, MenuAction::ShowAbout);
    assert_eq!(prompt, None);
    assert!(pending.is_empty());
    assert_eq!(store.config, config);
    assert!(store.ops.is_empty());
}

// Reading a field back gives the value that was assigned.
#[test]
fn field_access_round_trips() {
    let mut config = base_config();
    config.set_field(Field::Quality, FieldValue::Quality(Quality::Ultra));
    assert_eq!(config.field_value(Field::Quality), FieldValue::Quality(Quality::Ultra));
    config.set_field(Field::Framerate, FieldValue::Count(144));
    assert_eq!(config.field_value(Field::Framerate), FieldValue::Count(144));
    assert_eq!(config.field_value(Field::Quality), FieldValue::Quality(Quality::Ultra));
}
