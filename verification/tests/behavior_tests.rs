use afk_companion_bot::behavior::{
    anti_afk, anti_afk_step, auto_eat, equip_due, maintain_equipment, maybe_start_tasks,
    next_check, survival_end, take_pending_say, telemetry_due, tick_plan, tracked_name, EatStep,
    MlgStep, TickCheck, TickEnd,
};
use afk_companion_bot::config::Config;
use afk_companion_bot::human::{delay, delay_millis, ticks};
use afk_companion_bot::shared::{BlockPos, Mode, Runtime, Shared};
use afk_companion_bot::tasks::unsafe_now;

fn test_shared() -> Shared {
    Shared::new(Config {
        server: String::new(),
        data_dir: ".afk".into(),
        language: "en".into(),
        ms_client_id: None,
        owner: String::new(),
        bridge_port: 0,
        reconnect_seconds: 8,
        accounts: Vec::new(),
    })
}

fn menu(items: &[(usize, &str)]) -> Vec<Option<String>> {
    let mut slots = vec![None; 46];
    for (i, name) in items {
        slots[*i] = Some(name.to_string());
    }
    slots
}

#[test]
fn jobs_start_once() {
    let mut rt = Runtime::default();
    rt.mode = Mode::Mine;
    rt.pull_request = Some("health_low".into());
    rt.deposit_request = true;
    let starts = maybe_start_tasks(&mut rt);
    assert!(starts.mine);
    assert_eq!(starts.pull.as_deref(), Some("health_low"));
    assert!(starts.deposit);
    assert!(!starts.drop_trash);
    assert!(rt.mining_active && rt.pull_active && rt.deposit_active);
    assert!(rt.pull_request.is_none() && !rt.deposit_request);
    // Right away again: nothing new starts.
    let again = maybe_start_tasks(&mut rt);
    assert!(!again.mine && again.pull.is_none() && !again.deposit && !again.drop_trash);
    // A pull requested while one runs is dropped.
    rt.pull_request = Some("3".into());
    let third = maybe_start_tasks(&mut rt);
    assert!(third.pull.is_none());
    assert!(rt.pull_request.is_none());
}

#[test]
fn countdowns_pace_telemetry_and_gear() {
    let mut rt = Runtime::default();
    assert!(telemetry_due(&mut rt));
    assert_eq!(rt.telemetry_cooldown, 10);
    for _ in 0..10 {
        assert!(!telemetry_due(&mut rt));
    }
    assert!(telemetry_due(&mut rt));
    assert!(equip_due(&mut rt));
    assert_eq!(rt.equip_cooldown, 20);
    assert!(!equip_due(&mut rt));
    assert_eq!(rt.equip_cooldown, 19);
}

#[test]
fn eating_when_hungry() {
    let mut rt = Runtime::default();
    let slots = menu(&[(38, "bread")]);
    // Food above the threshold (17): nothing.
    assert_eq!(auto_eat(&mut rt, 18, &slots), EatStep::Nothing);
    assert_eq!(auto_eat(&mut rt, 17, &slots), EatStep::Eat(2));
    assert_eq!(rt.eat_cooldown, 36);
    assert_eq!(auto_eat(&mut rt, 5, &slots), EatStep::Chewing);
    rt.eat_cooldown = 1;
    assert_eq!(auto_eat(&mut rt, 5, &slots), EatStep::Nothing);
    assert_eq!(auto_eat(&mut rt, 5, &menu(&[])), EatStep::Nothing);
}

#[test]
fn anti_afk_glances_after_the_period() {
    let mut rt = Runtime::default();
    rt.anti_afk = 198;
    assert!(!anti_afk_step(&mut rt, 5));
    assert_eq!(rt.anti_afk, 199);
    rt.anti_afk = 204;
    assert!(anti_afk_step(&mut rt, 5));
    assert_eq!(rt.anti_afk, 0);
    rt.anti_afk = 0;
    assert!(!anti_afk(&mut rt));
    rt.anti_afk = 239;
    assert!(anti_afk(&mut rt));
}

#[test]
fn gear_swaps_totem_shield_and_armor() {
    let mut rt = Runtime::default();
    rt.auto_totem = true;
    rt.auto_armor = true;
    let slots = menu(&[(5, "leather_helmet"), (12, "shield"), (15, "totem_of_undying"), (20, "iron_helmet"), (21, "diamond_boots")]);
    assert_eq!(maintain_equipment(&mut rt, slots.clone()), vec![(15, 45), (20, 5), (21, 8)]);
    // Throttled on the next ticks.
    assert!(maintain_equipment(&mut rt, slots).is_empty());
    // Without auto-totem a shield goes to an empty offhand.
    let mut rt2 = Runtime::default();
    let slots2 = menu(&[(12, "shield"), (15, "totem_of_undying")]);
    assert_eq!(maintain_equipment(&mut rt2, slots2), vec![(12, 45)]);
    // A held shield stays.
    let mut rt3 = Runtime::default();
    let slots3 = menu(&[(12, "shield"), (45, "shield")]);
    assert!(maintain_equipment(&mut rt3, slots3).is_empty());
}

#[test]
fn tracked_player_and_warnings() {
    assert_eq!(tracked_name(Some("Alex".into()), "Steve").as_deref(), Some("Alex"));
    assert_eq!(tracked_name(None, "Steve").as_deref(), Some("Steve"));
    assert_eq!(tracked_name(None, ""), None);
    let mut s = test_shared();
    s.ctx("Bot");
    let mut rx = s.tx().subscribe();
    let ctx = s.ctx_mut("Bot");
    ctx.warn_cant_see("Steve");
    ctx.warn_cant_see("Steve");
    assert_eq!(ctx.rt.cant_see_cooldown, 99);
    ctx.saw_target();
    assert_eq!(ctx.rt.cant_see_cooldown, 0);
    assert_eq!(
        rx.try_recv().unwrap(),
        r#"{"bot":"Bot","event":"error","text":"I can't see Steve. Make sure the bot is on the same server as you and you're within render distance."}"#
    );
    assert!(rx.try_recv().is_err());
}

#[test]
fn goto_arrival() {
    let mut s = test_shared();
    let ctx = s.ctx_mut("Bot");
    ctx.rt.mode = Mode::Goto;
    assert_eq!(ctx.goto_target(), None);
    assert_eq!(ctx.rt.mode, Mode::Idle);
    ctx.rt.mode = Mode::Goto;
    ctx.rt.goto_target = Some(BlockPos::new(1, 2, 3));
    assert_eq!(ctx.goto_target(), Some(BlockPos::new(1, 2, 3)));
    ctx.arrived();
    assert_eq!(ctx.rt.mode, Mode::Idle);
    assert!(ctx.rt.goto_target.is_none());
}

#[test]
fn water_bucket_clutch() {
    let mut s = test_shared();
    let ctx = s.ctx_mut("Bot");
    let slots = menu(&[(40, "water_bucket"), (42, "bucket")]);
    let fast = (-0.8f64).to_bits();
    let slow = (-0.1f64).to_bits();
    let far = 5.0f64.to_bits();
    assert_eq!(ctx.auto_mlg(false, fast, far, false, &slots), MlgStep::Clutch(4));
    assert!(ctx.rt.mlg_placed);
    assert_eq!(ctx.auto_mlg(false, slow, far, false, &slots), MlgStep::Nothing);
    assert_eq!(ctx.auto_mlg(true, slow, 0.0f64.to_bits(), false, &slots), MlgStep::Scoop(Some(6)));
    assert!(!ctx.rt.mlg_placed);
    assert_eq!(ctx.auto_mlg(false, fast, 2.0f64.to_bits(), false, &slots), MlgStep::Nothing);
}

#[test]
fn disconnect_at_low_health() {
    let mut s = test_shared();
    s.ctx("Bot");
    let mut rx = s.tx().subscribe();
    let ctx = s.ctx_mut("Bot");
    assert!(!ctx.auto_disconnect(1.0f64.to_bits(), "1.0", "0.0"));
    ctx.rt.auto_disconnect = true;
    ctx.rt.auto_disconnect_health = 6.5f64.to_bits();
    assert!(!ctx.auto_disconnect(7.0f64.to_bits(), "7.0", "6.5"));
    assert!(ctx.auto_disconnect(6.5f64.to_bits(), "6.5", "6.5"));
    assert_eq!(rx.try_recv().unwrap(), r#"{"bot":"Bot","event":"log","text":"Health 6.5 <= 6.5, disconnecting."}"#);
    assert_eq!(rx.try_recv().unwrap(), r#"{"bot":"Bot","event":"status","status":"disconnected"}"#);
    assert!(unsafe_now(6.0f64.to_bits()));
    assert!(!unsafe_now(6.5f64.to_bits()));
    assert!(!unsafe_now(f64::NAN.to_bits()));
}

#[test]
fn telemetry_event_layout() {
    let mut s = test_shared();
    s.ctx("Bot");
    let mut rx = s.tx().subscribe();
    s.ctx_mut("Bot").telemetry("20.0", 18, "1.5", "64.0", "-3.25");
    assert_eq!(
        rx.try_recv().unwrap(),
        r#"{"bot":"Bot","event":"telemetry","food":18,"health":20.0,"mode":"idle","x":1.5,"y":64.0,"z":-3.25}"#
    );
}

#[test]
fn random_timing_stays_in_its_band() {
    for _ in 0..50 {
        let t = ticks(3, 7);
        assert!((3..=7).contains(&t));
        assert_eq!(ticks(9, 2), 9);
        let ms = delay_millis(10, 20);
        assert!((10..=20).contains(&ms));
        let d = delay(5, 6).as_millis();
        assert!((5..=6).contains(&d));
    }
}

#[test]
fn combat_only_with_killaura_or_protect() {
    let mut s = test_shared();
    let ctx = s.ctx_mut("Bot");
    assert_eq!(ctx.combat_settings(), None);
    ctx.rt.mode = Mode::Protect;
    assert_eq!(ctx.combat_settings(), Some((3.0f64.to_bits(), true)));
    ctx.rt.mode = Mode::Idle;
    ctx.rt.killaura_on = true;
    ctx.rt.killaura_stay_still = false;
    assert_eq!(ctx.combat_settings(), Some((3.0f64.to_bits(), false)));
}

#[test]
fn tick_priority_survive_then_combat_then_move() {
    let mut rt = Runtime::default();
    rt.mode = Mode::Follow;
    let plan = tick_plan(&mut rt, true, true, EatStep::Eat(2), true);
    assert_eq!(plan.end, TickEnd::Clutch);
    assert_eq!(plan.movement, None);
    assert!(!plan.glance);
    assert_eq!(rt.anti_afk, 0);

    let plan = tick_plan(&mut rt, false, true, EatStep::Chewing, true);
    assert_eq!(plan.end, TickEnd::Disconnect);
    let plan = tick_plan(&mut rt, false, false, EatStep::Chewing, true);
    assert_eq!(plan.end, TickEnd::Eat);
    let plan = tick_plan(&mut rt, false, false, EatStep::Nothing, true);
    assert_eq!(plan.end, TickEnd::Combat);
    assert_eq!(plan.movement, None);
    assert_eq!(rt.anti_afk, 0);

    let plan = tick_plan(&mut rt, false, false, EatStep::Nothing, false);
    assert_eq!(plan.end, TickEnd::Completed);
    assert_eq!(plan.movement, Some(Mode::Follow));
    assert!(!plan.glance);
    assert_eq!(rt.anti_afk, 1);
}

#[test]
fn tick_survival_end_and_idle_mode() {
    assert_eq!(survival_end(false, false, EatStep::Nothing), None);
    assert_eq!(survival_end(false, false, EatStep::Eat(0)), Some(TickEnd::Eat));
    assert_eq!(survival_end(true, false, EatStep::Nothing), Some(TickEnd::Clutch));
    let mut rt = Runtime::default();
    let plan = tick_plan(&mut rt, false, false, EatStep::Nothing, false);
    assert_eq!(plan.movement, None);
    rt.mode = Mode::Hold;
    rt.anti_afk = 239;
    let plan = tick_plan(&mut rt, false, false, EatStep::Nothing, false);
    assert_eq!(plan.movement, Some(Mode::Hold));
    assert!(plan.glance);
    assert_eq!(rt.anti_afk, 0);
    rt.anti_afk = u32::MAX;
    let plan = tick_plan(&mut rt, false, false, EatStep::Nothing, false);
    assert!(!plan.glance);
    assert_eq!(rt.anti_afk, u32::MAX);
}

#[test]
fn checks_run_in_priority_order() {
    assert_eq!(next_check(TickCheck::Clutch, true), TickCheck::Done);
    assert_eq!(next_check(TickCheck::Clutch, false), TickCheck::Disconnect);
    assert_eq!(next_check(TickCheck::Disconnect, true), TickCheck::Done);
    assert_eq!(next_check(TickCheck::Disconnect, false), TickCheck::Eat);
    assert_eq!(next_check(TickCheck::Eat, true), TickCheck::Done);
    assert_eq!(next_check(TickCheck::Eat, false), TickCheck::Upkeep);
    assert_eq!(next_check(TickCheck::Upkeep, false), TickCheck::Combat);
    assert_eq!(next_check(TickCheck::Combat, true), TickCheck::Done);
    assert_eq!(next_check(TickCheck::Combat, false), TickCheck::Done);
}

#[test]
fn say_line_is_taken_once() {
    let mut rt = Runtime::default();
    rt.pending_say = Some("hello".into());
    assert_eq!(take_pending_say(&mut rt).as_deref(), Some("hello"));
    assert!(rt.pending_say.is_none());
    assert_eq!(take_pending_say(&mut rt), None);
}
