use afk_companion_bot::config::Config;
use afk_companion_bot::shared::{BlockPos, Mode, Runtime, Shared};
use afk_companion_bot::tasks::{
    choose_stasis, find_trapdoor_near, first_mine_position, mine_box, next_mine_position,
    refresh_stasis, trapdoor_candidates, trash_slots, DepositOutcome, PullStart, PullStep,
};

fn test_shared() -> Shared {
    Shared::new(Config {
        server: String::new(),
        data_dir: ".afk".into(),
        language: "en".into(),
        ms_client_id: None,
        owner: String::new(),
        bridge_port: 0,
        reconnect_seconds: 8,
        accounts: Vec::new(),
    })
}

fn p(x: i32, y: i32, z: i32) -> BlockPos {
    BlockPos::new(x, y, z)
}

#[test]
fn mining_visits_the_box_top_layer_first() {
    let bx = mine_box(p(1, 5, 3), p(0, 4, 2));
    let mut order = vec![first_mine_position(bx)];
    while let Some(next) = next_mine_position(bx, *order.last().unwrap()) {
        order.push(next);
    }
    assert_eq!(
        order,
        vec![p(0, 5, 2), p(0, 5, 3), p(1, 5, 2), p(1, 5, 3), p(0, 4, 2), p(0, 4, 3), p(1, 4, 2), p(1, 4, 3)]
    );
}

#[test]
fn mining_job_start_and_finish() {
    let mut s = test_shared();
    let ctx = s.ctx_mut("Bot");
    ctx.rt.mining_active = true;
    assert!(ctx.start_mining().is_none());
    assert!(!ctx.rt.mining_active);
    ctx.rt.sel1 = Some(p(0, 0, 0));
    ctx.rt.sel2 = Some(p(1, 1, 1));
    ctx.rt.command_sender = Some("Steve".into());
    let (bx, line) = ctx.start_mining().unwrap();
    assert_eq!(bx, mine_box(p(0, 0, 0), p(1, 1, 1)));
    assert_eq!(line.as_deref(), Some("/msg Steve Mining started."));
    ctx.rt.mode = Mode::Mine;
    assert!(ctx.mining_continues());
    assert_eq!(ctx.finish_mining().as_deref(), Some("/msg Steve Mining finished."));
    assert_eq!(ctx.rt.mode, Mode::Idle);
    assert!(!ctx.mining_continues());
}

#[test]
fn refresh_keeps_ids_of_known_chambers() {
    let mut rt = Runtime::default();
    refresh_stasis(&mut rt, vec![(p(0, 0, 0), Some("Alex".into())), (p(5, 0, 0), None)]);
    assert_eq!(rt.stasis.iter().map(|s| s.id).collect::<Vec<_>>(), vec![1, 2]);
    assert_eq!(rt.next_stasis_id, 3);
    refresh_stasis(&mut rt, vec![(p(9, 9, 9), None), (p(5, 0, 0), Some("Bo".into()))]);
    assert_eq!(rt.stasis.iter().map(|s| s.id).collect::<Vec<_>>(), vec![3, 2]);
    assert_eq!(rt.stasis[1].owner.as_deref(), Some("Bo"));
    assert_eq!(rt.next_stasis_id, 4);
    assert!(rt.stasis.iter().all(|s| s.id < rt.next_stasis_id));
}

#[test]
fn pull_argument_selects_a_chamber() {
    let mut rt = Runtime::default();
    refresh_stasis(&mut rt, vec![(p(0, 0, 0), Some("Alex".into())), (p(5, 0, 0), Some("Bo".into()))]);
    assert_eq!(choose_stasis(&rt.stasis, "health_low"), Some(0));
    assert_eq!(choose_stasis(&rt.stasis, "2"), Some(1));
    assert_eq!(choose_stasis(&rt.stasis, "9"), None);
    assert_eq!(choose_stasis(&rt.stasis, "bo"), Some(1));
    assert_eq!(choose_stasis(&rt.stasis, "Carl"), None);
}

#[test]
fn pull_job_steps() {
    let mut s = test_shared();
    let ctx = s.ctx_mut("Bot");
    ctx.rt.command_sender = Some("Steve".into());
    ctx.rt.pull_active = true;
    match ctx.begin_pull("manual", vec![]) {
        PullStart::Done(w) => assert_eq!(w.as_deref(), Some("/msg Steve No stasis chamber found nearby.")),
        PullStart::Pull(_) => panic!("nothing to pull"),
    }
    assert!(!ctx.rt.pull_active);
    ctx.rt.pull_active = true;
    match ctx.begin_pull("manual", vec![(p(1, 2, 3), None)]) {
        PullStart::Done(w) => assert_eq!(
            w.as_deref(),
            Some("/msg Steve Found 1 stasis chamber(s). Use !pull <id> or !pull <owner>.")
        ),
        PullStart::Pull(_) => panic!("manual only lists"),
    }
    match ctx.begin_pull("Alex", vec![(p(1, 2, 3), Some("alex".into()))]) {
        PullStart::Pull(pos) => assert_eq!(pos, p(1, 2, 3)),
        PullStart::Done(_) => panic!("the chamber should be chosen"),
    }
    ctx.rt.pull_active = true;
    assert!(matches!(ctx.after_pull_attempt(p(1, 2, 3), 0, vec![(p(1, 2, 3), None)]), PullStep::Retry));
    match ctx.after_pull_attempt(p(1, 2, 3), 4, vec![(p(1, 2, 3), None)]) {
        PullStep::GaveUp(w) => assert_eq!(w.as_deref(), Some("/msg Steve Could not pull after several attempts.")),
        _ => panic!("the last attempt gives up"),
    }
    assert!(!ctx.rt.pull_active);
    match ctx.after_pull_attempt(p(1, 2, 3), 1, vec![]) {
        PullStep::Pulled(w) => assert_eq!(w.as_deref(), Some("/msg Steve Pulled successfully.")),
        _ => panic!("the pearl is gone"),
    }
    assert_eq!(ctx.no_trapdoor().as_deref(), Some("/msg Steve No trapdoor or lever found next to that pearl."));
}

#[test]
fn pull_logs_each_chamber_when_listing() {
    let mut s = test_shared();
    s.ctx("Bot");
    let mut rx = s.tx().subscribe();
    let ctx = s.ctx_mut("Bot");
    ctx.begin_pull("manual", vec![(p(1, -2, 3), None), (p(4, 5, 6), Some("Alex".into()))]);
    assert_eq!(rx.try_recv().unwrap(), r#"{"bot":"Bot","event":"log","text":"Stasis 1 at 1 -2 3 (owner: unknown)"}"#);
    assert_eq!(rx.try_recv().unwrap(), r#"{"bot":"Bot","event":"log","text":"Stasis 2 at 4 5 6 (owner: Alex)"}"#);
    assert_eq!(
        rx.try_recv().unwrap(),
        r#"{"bot":"Bot","event":"log","text":"Found 2 stasis chamber(s). Use !pull <id> or !pull <owner>."}"#
    );
}

#[test]
fn trapdoor_search_order() {
    let pearl = p(10, 20, 30);
    let spots = trapdoor_candidates(pearl);
    assert_eq!(spots.len(), 150);
    assert_eq!(spots[0], p(8, 17, 28));
    assert_eq!(spots[1], p(8, 17, 29));
    assert_eq!(spots[5], p(8, 18, 28));
    assert_eq!(spots[149], p(12, 22, 32));
    let mut ids: Vec<Option<String>> = vec![Some("stone".into()); 150];
    ids[40] = Some("oak_trapdoor".into());
    ids[90] = Some("iron_trapdoor".into());
    assert_eq!(find_trapdoor_near(pearl, &ids), Some(spots[40]));
    assert_eq!(find_trapdoor_near(pearl, &vec![None; 150]), None);
}

#[test]
fn trash_slots_and_job_ends() {
    let mut slots: Vec<Option<String>> = vec![None; 46];
    slots[9] = Some("rotten_flesh".into());
    slots[10] = Some("bread".into());
    slots[44] = Some("string".into());
    assert_eq!(trash_slots(&slots, 9, 45), vec![9, 44]);
    assert_eq!(trash_slots(&slots, 10, 44), Vec::<usize>::new());
    let mut s = test_shared();
    s.ctx("Bot");
    let mut rx = s.tx().subscribe();
    let ctx = s.ctx_mut("Bot");
    ctx.rt.deposit_active = true;
    ctx.rt.command_sender = Some("Steve".into());
    assert_eq!(ctx.finish_deposit(DepositOutcome::NoChest).as_deref(), Some("/msg Steve No chest found nearby."));
    assert!(!ctx.rt.deposit_active);
    assert_eq!(ctx.finish_deposit(DepositOutcome::Moved(vec![9, 44])), None);
    ctx.rt.drop_trash_active = true;
    ctx.finish_drop_trash(vec![9, 12, 40]);
    assert!(!ctx.rt.drop_trash_active);
    assert_eq!(rx.try_recv().unwrap(), r#"{"bot":"Bot","event":"log","text":"No chest found nearby."}"#);
    assert_eq!(rx.try_recv().unwrap(), r#"{"bot":"Bot","event":"log","text":"Deposited 2 item stack(s)."}"#);
    assert_eq!(rx.try_recv().unwrap(), r#"{"bot":"Bot","event":"log","text":"Dropped 3 trash stack(s)."}"#);
}
