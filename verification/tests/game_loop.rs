use std::collections::HashMap;
use textquest_dll::hooks::game_loop::jitter::{human_jitter_ticks, jitter_seed, Xorshift32};
use textquest_dll::hooks::game_loop::spawns::{
    compute_spawn_delta_events, parse_follow_slash_command, resolve_follow_spawn, FollowPick, FollowSlashCommand,
    SpawnDeltaKind, SpawnInfo,
};
use textquest_dll::hooks::game_loop::stick::{parse_movement_slash_command, MovementSlashCommand};
use textquest_dll::hooks::game_loop::state::{button_to_click, character_index, read_memory_len, GameLoopState};
use textquest_dll::hooks::game_loop::title::window_title;
use textquest_dll::hooks::game_loop::{
    intercept_custom_slash_command, next_bandolier_restore_command, parse_bandolier_activate_command,
    parse_casting_command, parse_nav_waypoint_command, parse_spell_set_command, remove_spell_set_entries,
    should_preclear_target_for_slash, spell_name_indicates_invisibility, tokenize_slash_command, CastingAction,
    CommandQueue, EnterWorldAction, InterceptedSlashCommand, NavWaypointCommand, ParsedCastingCommand,
    PendingBandolierRestore, SpellSetCommand,
};

fn fake_spawn(id: u32, display: &str) -> SpawnInfo {
    SpawnInfo { spawn_id: id, spawn_type: 1, name: display.to_string(), displayed_name: display.to_string() }
}

#[test]
fn spawn_delta_events_report_created_and_destroyed() {
    let previous: HashMap<u32, (String, u8)> =
        [(1u32, ("a_wolf".into(), 1u8)), (2, ("a_bear".into(), 1u8))].into_iter().collect();
    let current = vec![fake_spawn(2, "a_bear"), fake_spawn(3, "a_ox")];
    let (next, events) = compute_spawn_delta_events(&previous, &current, "freportw".into(), 12345);
    assert_eq!(
        next,
        [(2u32, ("a_bear".to_string(), 1u8)), (3u32, ("a_ox".to_string(), 1u8))].into_iter().collect()
    );
    assert_eq!(events.len(), 2);
    assert_eq!(events.first().unwrap().kind, SpawnDeltaKind::Created);
    assert_eq!(events.first().unwrap().spawn_name, "a_ox");
    assert_eq!(events.get(1).unwrap().kind, SpawnDeltaKind::Destroyed);
    assert_eq!(events.get(1).unwrap().spawn_name, "a_wolf");
    for e in &events {
        assert_eq!(e.zone, "freportw");
        assert_eq!(e.timestamp_ms, 12345);
        assert_eq!(e.spawn_type, 1);
    }
}

#[test]
fn spawn_delta_events_with_empty_previous_emits_none() {
    let previous: HashMap<u32, (String, u8)> = HashMap::new();
    let current = vec![fake_spawn(10, "a_goblin")];
    let (next, events) = compute_spawn_delta_events(&previous, &current, "freportw".into(), 1);
    assert_eq!(next, [(10u32, ("a_goblin".to_string(), 1u8))].into_iter().collect());
    assert!(events.is_empty(), "initial snapshots should be used as baseline without emission");
}

#[test]
fn spawn_snapshot_skips_id_zero_and_keeps_last_duplicate() {
    let previous: HashMap<u32, (String, u8)> = [(9u32, ("x".into(), 0u8))].into_iter().collect();
    let current = vec![fake_spawn(0, "nobody"), fake_spawn(4, "first"), fake_spawn(4, "second")];
    let (next, events) = compute_spawn_delta_events(&previous, &current, "qeynos".into(), 7);
    assert_eq!(next, [(4u32, ("second".to_string(), 1u8))].into_iter().collect());
    assert_eq!(events.len(), 2);
    assert_eq!(events[0].spawn_id, 4);
    assert_eq!(events[0].spawn_name, "second");
    assert_eq!(events[1].spawn_id, 9);
    assert_eq!(events[1].kind, SpawnDeltaKind::Destroyed);
    assert_eq!(events[1].spawn_type, 0);
    assert_eq!(events[1].zone, "qeynos");
}

#[test]
fn spell_set_command_parser_supports_shortcuts() {
    assert_eq!(parse_spell_set_command("/sss buffs"), Some(SpellSetCommand::Save(String::from("buffs"))));
    assert_eq!(parse_spell_set_command("/ssl burn"), Some(SpellSetCommand::Load(String::from("burn"))));
    assert_eq!(parse_spell_set_command("/ssm heal set"), Some(SpellSetCommand::Load(String::from("heal set"))));
    assert_eq!(parse_spell_set_command("/ssd raid"), Some(SpellSetCommand::Delete(String::from("raid"))));
    assert_eq!(parse_spell_set_command("/deletespellset raid"), Some(SpellSetCommand::Delete(String::from("raid"))));
    assert_eq!(parse_spell_set_command("/sss   "), None);
    assert_eq!(parse_spell_set_command("/sit"), None);
}

#[test]
fn intercepts_cleartarget_slash_command() {
    assert_eq!(intercept_custom_slash_command("/cleartarget"), Some(InterceptedSlashCommand::ClearTarget));
    assert_eq!(intercept_custom_slash_command("/ClearTarget"), Some(InterceptedSlashCommand::ClearTarget));
}

#[test]
fn intercepts_click_right_target_slash_command() {
    assert_eq!(intercept_custom_slash_command("/click right target"), Some(InterceptedSlashCommand::InteractTarget));
    assert_eq!(intercept_custom_slash_command("/CLICK RIGHT TARGET"), Some(InterceptedSlashCommand::InteractTarget));
    assert_eq!(intercept_custom_slash_command("/click left target"), None);
    assert_eq!(intercept_custom_slash_command("/click right door"), None);
}

#[test]
fn rewrites_door_slash_command_to_doortarget() {
    assert_eq!(intercept_custom_slash_command("/door"), Some(InterceptedSlashCommand::Rewrite("/doortarget".into())));
    assert_eq!(
        intercept_custom_slash_command("/door id 7"),
        Some(InterceptedSlashCommand::Rewrite("/doortarget id 7".into()))
    );
    assert_eq!(
        intercept_custom_slash_command("/DOOR   wooden gate"),
        Some(InterceptedSlashCommand::Rewrite("/doortarget wooden gate".into()))
    );
}

#[test]
fn preclears_for_target_and_doortarget_commands() {
    assert!(should_preclear_target_for_slash("/target Emperor Crush"));
    assert!(!should_preclear_target_for_slash("/target"));
    assert!(should_preclear_target_for_slash("/doortarget"));
    assert!(should_preclear_target_for_slash("/doortarget id 5"));
    assert!(!should_preclear_target_for_slash("/nav target"));
    assert!(!should_preclear_target_for_slash("/click right target"));
}

#[test]
fn remove_spell_set_entries_deletes_matching_loadout_block() {
    let content = "[SpellLoadouts]\r\nSpellLoadout1.inuse=1\r\nSpellLoadout1.name=Buffs\r\nSpellLoadout1.slot1=123\r\nSpellLoadout2.inuse=1\r\nSpellLoadout2.name=Burn\r\nSpellLoadout2.slot1=456\r\n";
    let updated = remove_spell_set_entries(content, "buffs").expect("updated content");
    assert!(!updated.contains("SpellLoadout1.inuse=1"));
    assert!(!updated.contains("SpellLoadout1.name=Buffs"));
    assert!(!updated.contains("SpellLoadout1.slot1=123"));
    assert!(updated.contains("SpellLoadout2.name=Burn"));
}

#[test]
fn test_human_jitter_bounds() {
    let mut rng = Xorshift32::new(12345);
    for _ in 0..10_000 {
        let ticks = human_jitter_ticks(&mut rng);
        assert!(ticks >= 2, "jitter {ticks} below minimum 2");
        assert!(ticks <= 29, "jitter {ticks} above maximum 29");
    }
}

#[test]
fn test_human_jitter_distribution_peaks_at_center() {
    let mut rng = Xorshift32::new(42);
    let mut counts = [0u32; 30];
    for _ in 0..100_000 {
        let ticks = human_jitter_ticks(&mut rng) as usize;
        counts[ticks] += 1;
    }
    let peak = counts[2..=10].iter().enumerate().max_by_key(|(_, c)| *c).map(|(i, _)| i + 2).unwrap();
    assert_eq!(peak, 6, "Expected peak at 6 ticks, got {peak}");
}

#[test]
fn test_human_jitter_produces_hesitation_spikes() {
    let mut rng = Xorshift32::new(99);
    let mut saw_spike = false;
    for _ in 0..10_000 {
        if human_jitter_ticks(&mut rng) > 10 {
            saw_spike = true;
            break;
        }
    }
    assert!(saw_spike, "Expected at least one hesitation spike > 10 in 10000 draws");
}

#[test]
fn xorshift_step_values() {
    let mut rng = Xorshift32::new(1);
    assert_eq!(rng.next_u32(), 270_369);
    assert_eq!(rng.state, 270_369);
    assert_eq!(jitter_seed(0), 1);
    assert_eq!(jitter_seed(0x1_0000_0005), 5);
}

#[test]
fn parse_follow_slash_supports_named_and_off_modes() {
    let follow = parse_movement_slash_command(r#"/follow "Main Tank""#).unwrap().unwrap();
    assert_eq!(
        follow,
        MovementSlashCommand::Follow(FollowSlashCommand::Start { leader_name: Some("Main Tank".to_string()) })
    );
    let off = parse_movement_slash_command("/follow off").unwrap().unwrap();
    assert_eq!(off, MovementSlashCommand::Follow(FollowSlashCommand::Off));
}

#[test]
fn follow_arguments_join_and_blank_is_an_error() {
    assert_eq!(parse_follow_slash_command(&[]), Ok(FollowSlashCommand::Start { leader_name: None }));
    assert_eq!(
        parse_follow_slash_command(&["Main".to_string(), "Tank".to_string()]),
        Ok(FollowSlashCommand::Start { leader_name: Some("Main Tank".to_string()) })
    );
    assert_eq!(parse_follow_slash_command(&["OFF".to_string()]), Ok(FollowSlashCommand::Off));
    assert_eq!(
        parse_follow_slash_command(&[" ".to_string(), "".to_string()]),
        Err("missing leader name for /follow".to_string())
    );
}

#[test]
fn resolve_follow_spawn_prefers_current_target_then_nearby() {
    let current = SpawnInfo { spawn_id: 1, spawn_type: 0, name: "Camrene".into(), displayed_name: "Camrene".into() };
    let nearby = vec![SpawnInfo { spawn_id: 2, spawn_type: 0, name: "Derakor".into(), displayed_name: "Derakor".into() }];
    let pick = |p: Option<FollowPick>| match p {
        Some(FollowPick::CurrentTarget) => Some(current.spawn_id),
        Some(FollowPick::Nearby(i)) => Some(nearby[i].spawn_id),
        None => None,
    };
    assert_eq!(pick(resolve_follow_spawn(Some(&current), &nearby, None)), Some(1));
    assert_eq!(pick(resolve_follow_spawn(Some(&current), &nearby, Some("Derakor"))), Some(2));
    assert_eq!(pick(resolve_follow_spawn(Some(&current), &nearby, Some("  camrene "))), Some(1));
    assert_eq!(pick(resolve_follow_spawn(None, &nearby, Some("nobody"))), None);
    assert_eq!(pick(resolve_follow_spawn(None, &nearby, Some("   "))), None);
}

#[test]
fn parse_casting_spell_with_targetid_and_invis_guard() {
    let parsed = parse_casting_command(r#"/casting "Complete Heal" gem1 -targetid|42 -invis"#).unwrap().unwrap();
    assert_eq!(
        parsed,
        ParsedCastingCommand {
            action: CastingAction::CastGem(1),
            target_id: Some(42),
            require_not_invisible: true,
            bandolier_set: None,
        }
    );
}

#[test]
fn parse_casting_item_by_name() {
    let parsed = parse_casting_command(r#"/casting "Fungi Tunic" item"#).unwrap().unwrap();
    assert_eq!(
        parsed,
        ParsedCastingCommand {
            action: CastingAction::UseItem(r#""Fungi Tunic""#.to_string()),
            target_id: None,
            require_not_invisible: false,
            bandolier_set: None,
        }
    );
}

#[test]
fn parse_casting_item_by_slot_selector() {
    let parsed = parse_casting_command(r#"/casting "Clicky" LeftEar -targetid|99"#).unwrap().unwrap();
    assert_eq!(
        parsed,
        ParsedCastingCommand {
            action: CastingAction::UseItem("leftear".to_string()),
            target_id: Some(99),
            require_not_invisible: false,
            bandolier_set: None,
        }
    );
}

#[test]
fn parse_casting_numeric_slot_selector() {
    let parsed = parse_casting_command(r#"/casting "Clicky" 13"#).unwrap().unwrap();
    assert_eq!(
        parsed,
        ParsedCastingCommand {
            action: CastingAction::UseItem("13".to_string()),
            target_id: None,
            require_not_invisible: false,
            bandolier_set: None,
        }
    );
}

#[test]
fn parse_casting_bandolier_option_with_spaces() {
    let parsed = parse_casting_command(r#"/casting "Fungi Tunic" item -bandolier|"Heal Set""#).unwrap().unwrap();
    assert_eq!(
        parsed,
        ParsedCastingCommand {
            action: CastingAction::UseItem(r#""Fungi Tunic""#.to_string()),
            target_id: None,
            require_not_invisible: false,
            bandolier_set: Some("Heal Set".to_string()),
        }
    );
}

#[test]
fn parse_casting_rejects_invalid_targetid() {
    let err = parse_casting_command(r#"/casting "Clicky" item -targetid|abc"#).unwrap().unwrap_err();
    assert!(err.contains("invalid -targetid value"));
}

#[test]
fn parse_casting_rejects_unsupported_type() {
    let err = parse_casting_command(r#"/casting "Harm Touch" alt"#).unwrap().unwrap_err();
    assert!(err.contains("unsupported /casting type"));
}

#[test]
fn invisibility_matcher_ignores_see_invis_but_matches_camouflage() {
    assert!(!spell_name_indicates_invisibility("See Invisible"));
    assert!(!spell_name_indicates_invisibility("Invisibility to Animals"));
    assert!(spell_name_indicates_invisibility("Camouflage"));
    assert!(spell_name_indicates_invisibility("Improved Invisibility"));
}

#[test]
fn parse_nav_waypoint_supports_save_and_recall() {
    let save = parse_nav_waypoint_command("/nav waypoint save Camp1").unwrap().unwrap();
    assert_eq!(save, NavWaypointCommand::Save(String::from("Camp1")));
    let recall = parse_nav_waypoint_command("/nav waypoint Camp1").unwrap().unwrap();
    assert_eq!(recall, NavWaypointCommand::Recall(String::from("Camp1")));
    let recall_kw = parse_nav_waypoint_command("/nav waypoint recall camp2").unwrap().unwrap();
    assert_eq!(recall_kw, NavWaypointCommand::Recall(String::from("camp2")));
    let record = parse_nav_waypoint_command("/nav recordwaypoint pull_spot tag").unwrap().unwrap();
    assert_eq!(record, NavWaypointCommand::Save(String::from("pull_spot")));
}

#[test]
fn parse_nav_waypoint_handles_list_and_delete() {
    let list = parse_nav_waypoint_command("/nav wp list").unwrap().unwrap();
    assert_eq!(list, NavWaypointCommand::List);
    let delete = parse_nav_waypoint_command("/nav waypoint delete camp1").unwrap().unwrap();
    assert_eq!(delete, NavWaypointCommand::Delete(String::from("camp1")));
    let missing = parse_nav_waypoint_command("/nav waypoint").unwrap().unwrap_err();
    assert!(missing.contains("Waypoint name is required"));
}

#[test]
fn tokenize_slash_command_preserves_escaped_quotes_inside_quotes() {
    let tokens = tokenize_slash_command(r#"/casting "Item \"Name\"" item"#).unwrap();
    assert_eq!(tokens, vec!["/casting", r#"Item "Name""#, "item"]);
}

#[test]
fn parse_bandolier_activate_command_preserves_named_sets() {
    assert_eq!(parse_bandolier_activate_command(r#"/bandolier activate "Heal Set""#), Some("Heal Set".to_string()));
    assert_eq!(parse_bandolier_activate_command("/bandolier activate 2"), Some("2".to_string()));
}

#[test]
fn next_bandolier_restore_command_waits_for_cast_completion() {
    let mut pending = Some(PendingBandolierRestore {
        requested_set: "Heal Set".to_string(),
        restore_to: Some("Melee".to_string()),
        deadline_tick: 30,
        saw_casting: false,
    });
    assert_eq!(next_bandolier_restore_command(&mut pending, 5, Some(true)), None);
    assert!(pending.as_ref().is_some_and(|state| state.saw_casting));
    assert_eq!(
        next_bandolier_restore_command(&mut pending, 6, Some(false)),
        Some(r#"/bandolier activate "Melee""#.to_string())
    );
    assert!(pending.is_none());
}

#[test]
fn next_bandolier_restore_command_rolls_back_after_timeout_without_cast() {
    let mut pending = Some(PendingBandolierRestore {
        requested_set: "Heal Set".to_string(),
        restore_to: Some("Melee".to_string()),
        deadline_tick: 10,
        saw_casting: false,
    });
    assert_eq!(
        next_bandolier_restore_command(&mut pending, 10, None),
        Some(r#"/bandolier activate "Melee""#.to_string())
    );
    assert!(pending.is_none());
}

#[test]
fn window_title_names_character_and_zone() {
    assert_eq!(window_title(Some("Camrene"), Some("West Freeport"), Some("freportw")), Some("[TQ] EQ - Camrene (West Freeport)\0".to_string()));
    assert_eq!(window_title(Some("Camrene"), None, Some("freportw")), Some("[TQ] EQ - Camrene (freportw)\0".to_string()));
    assert_eq!(window_title(Some("Camrene"), None, None), Some("[TQ] EQ - Camrene\0".to_string()));
    assert_eq!(window_title(Some(""), Some("x"), None), None);
    assert_eq!(window_title(None, Some("x"), None), None);
}

#[test]
fn command_queue_hands_out_due_commands_in_order() {
    let mut q: CommandQueue<&str> = CommandQueue::new();
    q.push("a", 10);
    q.push("b", 5);
    q.push("c", 20);
    q.enqueue("d", 3, None);
    assert_eq!(q.take_ready(9), vec!["b", "d"]);
    assert_eq!(q.take_ready(9), Vec::<&str>::new());
    assert_eq!(q.take_ready(20), vec!["a", "c"]);
    assert!(q.is_empty());
}

#[test]
fn enter_world_sequence_selects_waits_then_enters() {
    let mut st = GameLoopState::new();
    st.queue_enter_world(0x100, 0x200, 0x300, "Camrene".to_string());
    assert_eq!(
        st.enter_world_step(1_000, None),
        EnterWorldAction::SelectCharacter { wnd: 0x100, func: 0x300, character_name: "Camrene".to_string() }
    );
    assert_eq!(st.enter_world_step(1_050, None), EnterWorldAction::Idle);
    assert_eq!(st.enter_world_step(1_090, None), EnterWorldAction::Idle);
    assert_eq!(st.enter_world_step(1_091, Some(0x111)), EnterWorldAction::EnterWorld { wnd: 0x111, func: 0x200 });
    assert_eq!(st.enter_world_step(1_092, None), EnterWorldAction::Idle);
}

#[test]
fn character_index_finds_first_matching_row_ignoring_case() {
    let rows = vec![
        Some("Wizard01".to_string()),
        None,
        Some("CLERIC01".to_string()),
        Some("cleric01".to_string()),
    ];
    assert_eq!(character_index(&rows, "Cleric01"), 2);
    assert_eq!(character_index(&rows, "wizard01"), 0);
}

#[test]
fn character_index_defaults_to_first_row() {
    let rows = vec![Some("Wizard01".to_string()), Some("Cleric01".to_string())];
    assert_eq!(character_index(&rows, ""), 0);
    assert_eq!(character_index(&rows, "Rogue01"), 0);
    assert_eq!(character_index(&[], "Rogue01"), 0);
}

#[test]
fn character_index_searches_only_the_first_64_rows() {
    let mut rows: Vec<Option<String>> = (0..64).map(|i| Some(format!("Alt{i}"))).collect();
    rows.push(Some("Main".to_string()));
    assert_eq!(character_index(&rows, "Main"), 0);
    assert_eq!(character_index(&rows, "alt63"), 63);
}

#[test]
fn queued_button_is_clicked_only_while_readable() {
    assert_eq!(button_to_click(0x1000, true), Some(0x1000));
    assert_eq!(button_to_click(0x1000, false), None);
    assert_eq!(button_to_click(0, true), None);
}

#[test]
fn memory_reads_are_capped_at_4096_bytes() {
    assert_eq!(read_memory_len(16), 16);
    assert_eq!(read_memory_len(4096), 4096);
    assert_eq!(read_memory_len(1 << 20), 4096);
}
