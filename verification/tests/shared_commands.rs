use afk_companion_bot::config::Config;
use afk_companion_bot::shared::{
    BlockPos, Mode, Shared, MAX_EAT_THRESHOLD, MAX_FOLLOW_DISTANCE, MIN_EAT_THRESHOLD,
    MIN_FOLLOW_DISTANCE,
};

fn test_shared() -> Shared {
    Shared::new(Config {
        server: String::new(),
        data_dir: ".afk".into(),
        language: "en".into(),
        ms_client_id: None,
        owner: String::new(),
        bridge_port: 0,
        reconnect_seconds: 8,
        accounts: Vec::new(),
    })
}

// Convenience: register a bot and read back its runtime mode.
fn mode_of(s: &mut Shared, id: &str) -> Mode {
    s.ctx(id).rt.mode
}

#[test]
fn follow_sets_mode_and_target() {
    let mut s = test_shared();
    s.ctx("A");
    s.apply_command(r#"{"cmd":"follow","bot":"A","target":"Steve"}"#);
    let rt = &s.ctx("A").rt;
    assert_eq!(rt.mode, Mode::Follow);
    assert_eq!(rt.follow_target.as_deref(), Some("Steve"));
}

#[test]
fn protect_sets_mode_and_target() {
    let mut s = test_shared();
    s.ctx("A");
    s.apply_command(r#"{"cmd":"protect","bot":"A","target":"Alex"}"#);
    let rt = &s.ctx("A").rt;
    assert_eq!(rt.mode, Mode::Protect);
    assert_eq!(rt.protect_target.as_deref(), Some("Alex"));
}

#[test]
fn stop_resets_state() {
    let mut s = test_shared();
    s.ctx("A");
    s.apply_command(r#"{"cmd":"goto","bot":"A","x":1.0,"y":2.0,"z":3.0}"#);
    s.apply_command(r#"{"cmd":"killaura","bot":"A","on":true,"range":4.0,"stay_still":true}"#);
    s.apply_command(r#"{"cmd":"stop","bot":"A"}"#);
    let rt = &s.ctx("A").rt;
    assert_eq!(rt.mode, Mode::Idle);
    assert!(!rt.killaura_on);
    assert!(!rt.mining_active);
    assert!(rt.goto_target.is_none());
}

#[test]
fn killaura_parses_fields_and_clamps() {
    let mut s = test_shared();
    s.ctx("A");
    s.apply_command(r#"{"cmd":"killaura","bot":"A","on":true,"range":99.0,"stay_still":true}"#);
    let rt = &s.ctx("A").rt;
    assert!(rt.killaura_on);
    assert_eq!(f64::from_bits(rt.killaura_range), 6.0); // clamped to max
    assert!(rt.killaura_stay_still);
}

#[test]
fn hold_position_toggles_mode() {
    let mut s = test_shared();
    s.ctx("A");
    s.apply_command(r#"{"cmd":"hold_position","bot":"A","on":true}"#);
    assert_eq!(mode_of(&mut s, "A"), Mode::Hold);
    s.apply_command(r#"{"cmd":"hold_position","bot":"A","on":false}"#);
    assert_eq!(mode_of(&mut s, "A"), Mode::Idle);
}

#[test]
fn mine_start_sets_mode() {
    let mut s = test_shared();
    s.ctx("A");
    s.apply_command(r#"{"cmd":"mine_start","bot":"A"}"#);
    assert_eq!(mode_of(&mut s, "A"), Mode::Mine);
}

#[test]
fn pull_sets_request() {
    let mut s = test_shared();
    s.ctx("A");
    s.apply_command(r#"{"cmd":"pull","bot":"A","arg":"42"}"#);
    assert_eq!(s.ctx("A").rt.pull_request.as_deref(), Some("42"));
    let mut s2 = test_shared();
    s2.ctx("A");
    s2.apply_command(r#"{"cmd":"pull","bot":"A"}"#);
    assert_eq!(s2.ctx("A").rt.pull_request.as_deref(), Some("manual"));
}

#[test]
fn auto_totem_toggle() {
    let mut s = test_shared();
    s.ctx("A");
    s.apply_command(r#"{"cmd":"auto_totem","bot":"A","on":true}"#);
    assert!(s.ctx("A").rt.auto_totem);
    s.apply_command(r#"{"cmd":"auto_totem","bot":"A","on":false}"#);
    assert!(!s.ctx("A").rt.auto_totem);
}

#[test]
fn auto_armor_toggle() {
    let mut s = test_shared();
    s.ctx("A");
    s.apply_command(r#"{"cmd":"auto_armor","bot":"A","on":true}"#);
    assert!(s.ctx("A").rt.auto_armor);
}

#[test]
fn auto_disconnect_sets_threshold() {
    let mut s = test_shared();
    s.ctx("A");
    s.apply_command(r#"{"cmd":"auto_disconnect","bot":"A","on":true,"health":6.5}"#);
    let rt = &s.ctx("A").rt;
    assert!(rt.auto_disconnect);
    assert_eq!(f64::from_bits(rt.auto_disconnect_health), 6.5);
}

#[test]
fn goto_floors_coords_and_sets_mode() {
    let mut s = test_shared();
    s.ctx("A");
    s.apply_command(r#"{"cmd":"goto","bot":"A","x":10.9,"y":64.2,"z":-3.7}"#);
    let rt = &s.ctx("A").rt;
    assert_eq!(rt.mode, Mode::Goto);
    assert_eq!(rt.goto_target, Some(BlockPos::new(10, 64, -4)));
}

#[test]
fn follow_distance_clamps() {
    let mut s = test_shared();
    s.ctx("A");
    s.apply_command(r#"{"cmd":"follow_distance","bot":"A","distance":0.1}"#);
    assert_eq!(s.ctx("A").rt.follow_distance, MIN_FOLLOW_DISTANCE);
    s.apply_command(r#"{"cmd":"follow_distance","bot":"A","distance":50.0}"#);
    assert_eq!(s.ctx("A").rt.follow_distance, MAX_FOLLOW_DISTANCE);
    s.apply_command(r#"{"cmd":"follow_distance","bot":"A","distance":4.0}"#);
    assert_eq!(f64::from_bits(s.ctx("A").rt.follow_distance), 4.0);
}

#[test]
fn sprint_toggle() {
    let mut s = test_shared();
    s.ctx("A");
    s.apply_command(r#"{"cmd":"sprint","bot":"A","on":true}"#);
    assert!(s.ctx("A").rt.sprinting);
    s.apply_command(r#"{"cmd":"sprint","bot":"A","on":false}"#);
    assert!(!s.ctx("A").rt.sprinting);
}

#[test]
fn sneak_toggle() {
    let mut s = test_shared();
    s.ctx("A");
    s.apply_command(r#"{"cmd":"sneak","bot":"A","on":true}"#);
    assert!(s.ctx("A").rt.sneaking);
}

#[test]
fn deposit_sets_request() {
    let mut s = test_shared();
    s.ctx("A");
    s.apply_command(r#"{"cmd":"deposit","bot":"A"}"#);
    assert!(s.ctx("A").rt.deposit_request);
}

#[test]
fn drop_trash_sets_request() {
    let mut s = test_shared();
    s.ctx("A");
    s.apply_command(r#"{"cmd":"drop_trash","bot":"A"}"#);
    assert!(s.ctx("A").rt.drop_trash_request);
}

#[test]
fn eat_threshold_sets_and_clamps() {
    let mut s = test_shared();
    s.ctx("A");
    s.apply_command(r#"{"cmd":"eat_threshold","bot":"A","food":15}"#);
    assert_eq!(s.ctx("A").rt.eat_threshold, 15);
    s.apply_command(r#"{"cmd":"eat_threshold","bot":"A","food":0}"#);
    assert_eq!(s.ctx("A").rt.eat_threshold, MIN_EAT_THRESHOLD);
    s.apply_command(r#"{"cmd":"eat_threshold","bot":"A","food":99}"#);
    assert_eq!(s.ctx("A").rt.eat_threshold, MAX_EAT_THRESHOLD);
}

#[test]
fn unknown_command_is_ignored() {
    let mut s = test_shared();
    s.ctx("A");
    s.apply_command(r#"{"cmd":"nonsense","bot":"A"}"#);
    assert_eq!(mode_of(&mut s, "A"), Mode::Idle);
}

#[test]
fn malformed_json_is_ignored() {
    let mut s = test_shared();
    s.ctx("A");
    s.apply_command("not json at all");
    assert_eq!(mode_of(&mut s, "A"), Mode::Idle);
}

#[test]
fn commands_are_isolated_per_bot() {
    let mut s = test_shared();
    s.ctx("A");
    s.ctx("B");
    // A command aimed at A must never touch B.
    s.apply_command(r#"{"cmd":"follow","bot":"A","target":"Steve"}"#);
    assert_eq!(mode_of(&mut s, "A"), Mode::Follow);
    assert_eq!(mode_of(&mut s, "B"), Mode::Idle);
    assert!(s.ctx("B").rt.follow_target.is_none());

    // And a command aimed at B must never touch A.
    s.apply_command(r#"{"cmd":"hold_position","bot":"B","on":true}"#);
    assert_eq!(mode_of(&mut s, "B"), Mode::Hold);
    assert_eq!(mode_of(&mut s, "A"), Mode::Follow);
}

#[test]
fn broadcast_targets_every_bot() {
    let mut s = test_shared();
    s.ctx("A");
    s.ctx("B");
    s.apply_command(r#"{"cmd":"hold_position","bot":"all","on":true}"#);
    assert_eq!(mode_of(&mut s, "A"), Mode::Hold);
    assert_eq!(mode_of(&mut s, "B"), Mode::Hold);
}

#[test]
fn command_for_unknown_bot_is_ignored() {
    let mut s = test_shared();
    s.ctx("A");
    // Target an account that is not connected: nothing must change, and no
    // ghost context is created for it.
    s.apply_command(r#"{"cmd":"follow","bot":"ghost","target":"Steve"}"#);
    assert_eq!(mode_of(&mut s, "A"), Mode::Idle);
    assert_eq!(s.ids(), vec!["A".to_string()]);
}

#[test]
fn set_owner_is_global_and_creates_no_bot() {
    let mut s = test_shared();
    assert_eq!(s.owner(), "");
    s.apply_command(r#"{"cmd":"set_owner","owner":"Steve","bot":"all"}"#);
    assert_eq!(s.owner(), "Steve");
    // It must not have created a phantom bot for the "all" tag.
    assert!(s.ids().is_empty());
}

#[test]
fn mode_as_str_mapping() {
    assert_eq!(Mode::Idle.as_str(), "idle");
    assert_eq!(Mode::Follow.as_str(), "follow");
    assert_eq!(Mode::Protect.as_str(), "protect");
    assert_eq!(Mode::Hold.as_str(), "hold");
    assert_eq!(Mode::Mine.as_str(), "mine");
    assert_eq!(Mode::Goto.as_str(), "goto");
}

#[test]
fn say_queues_the_line_for_the_named_bot_only() {
    let mut s = test_shared();
    s.ctx("A");
    s.ctx("B");
    s.apply_command(r#"{"cmd":"say","bot":"A","text":"hello there"}"#);
    assert_eq!(s.ctx("A").rt.pending_say.as_deref(), Some("hello there"));
    assert!(s.ctx("B").rt.pending_say.is_none());
}

#[test]
fn say_without_text_changes_nothing() {
    let mut s = test_shared();
    s.ctx("A");
    s.apply_command(r#"{"cmd":"say","bot":"A","text":""}"#);
    assert!(s.ctx("A").rt.pending_say.is_none());
    s.apply_command(r#"{"cmd":"say","bot":"A"}"#);
    assert!(s.ctx("A").rt.pending_say.is_none());
}

#[test]
fn applying_a_command_twice_equals_once() {
    let mut s = test_shared();
    s.ctx("A");
    let cmd = r#"{"cmd":"killaura","bot":"A","on":true,"range":4.5,"stay_still":true}"#;
    s.apply_command(cmd);
    let once = {
        let rt = &s.ctx("A").rt;
        (rt.killaura_on, rt.killaura_range, rt.killaura_stay_still, rt.mode)
    };
    s.apply_command(cmd);
    let twice = {
        let rt = &s.ctx("A").rt;
        (rt.killaura_on, rt.killaura_range, rt.killaura_stay_still, rt.mode)
    };
    assert_eq!(once, twice);
    assert_eq!(f64::from_bits(once.1), 4.5);
}

#[test]
fn ctx_twice_gives_the_same_context() {
    let mut s = test_shared();
    s.ctx("A");
    s.apply_command(r#"{"cmd":"sprint","bot":"A","on":true}"#);
    assert!(s.ctx("A").rt.sprinting);
    assert!(s.ctx("A").rt.sprinting);
    assert_eq!(s.ids(), vec!["A".to_string()]);
}

#[test]
fn goto_always_comes_with_a_target() {
    let mut s = test_shared();
    s.ctx("A");
    s.apply_command(r#"{"cmd":"goto","bot":"A","x":1.5,"y":64.0,"z":-2.5}"#);
    assert_eq!(mode_of(&mut s, "A"), Mode::Goto);
    assert_eq!(s.ctx("A").rt.goto_target, Some(BlockPos::new(1, 64, -3)));
    s.apply_command(r#"{"cmd":"goto","bot":"A","x":1.5}"#);
    assert_eq!(s.ctx("A").rt.goto_target, Some(BlockPos::new(1, 64, -3)));
}

#[test]
fn ids_list_each_registered_bot_once_sorted() {
    let mut s = test_shared();
    s.ctx("B");
    s.ctx("A");
    s.ctx("B");
    s.ctx_mut("A");
    s.ctx("C");
    assert_eq!(s.ids(), vec!["A".to_string(), "B".to_string(), "C".to_string()]);
    assert_eq!(s.ctx("B").id, "B");
}
