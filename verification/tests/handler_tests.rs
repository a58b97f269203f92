use afk_companion_bot::config::Config;
use afk_companion_bot::handler::{handle, read_bang_command, whisper, GameEvent};
use afk_companion_bot::shared::{BlockPos, Mode, Shared, Vec3};

fn test_shared() -> Shared {
    Shared::new(Config {
        server: String::new(),
        data_dir: ".afk".into(),
        language: "en".into(),
        ms_client_id: None,
        owner: "Steve".into(),
        bridge_port: 0,
        reconnect_seconds: 8,
        accounts: Vec::new(),
    })
}

fn point(x: f64, y: f64, z: f64) -> Vec3 {
    Vec3 { x: x.to_bits(), y: y.to_bits(), z: z.to_bits() }
}

fn owner_whisper(s: &mut Shared, text: &str, pos: Option<Vec3>) -> Option<String> {
    s.ctx_mut("Bot").handle_chat(
        &format!("Steve whispers to you: {text}"),
        text,
        Some("Steve"),
        true,
        "Steve",
        pos,
    )
}

#[test]
fn whisper_line_needs_a_target() {
    assert_eq!(whisper(Some("Alex"), "hi there"), Some("/msg Alex hi there".to_string()));
    assert_eq!(whisper(None, "hi"), None);
}

#[test]
fn bang_commands_are_read_from_trimmed_text() {
    assert_eq!(read_bang_command("  !pull  Alex extra"), Some(("pull".to_string(), Some("Alex".to_string()))));
    assert_eq!(read_bang_command("!stop"), Some(("stop".to_string(), None)));
    assert_eq!(read_bang_command("nice! gg"), None);
    assert_eq!(read_bang_command("!   "), None);
}

#[test]
fn owner_follow_without_name_follows_the_sender() {
    let mut s = test_shared();
    let reply = owner_whisper(&mut s, "!follow", None);
    assert_eq!(reply.as_deref(), Some("/msg Steve Following Steve."));
    let rt = &s.ctx("Bot").rt;
    assert_eq!(rt.mode, Mode::Follow);
    assert_eq!(rt.follow_target.as_deref(), Some("Steve"));
    assert_eq!(rt.command_sender.as_deref(), Some("Steve"));
}

#[test]
fn follow_and_protect_take_a_named_player() {
    let mut s = test_shared();
    assert_eq!(owner_whisper(&mut s, "!FOLLOW Alex", None).as_deref(), Some("/msg Steve Following Alex."));
    assert_eq!(s.ctx("Bot").rt.follow_target.as_deref(), Some("Alex"));
    assert_eq!(
        owner_whisper(&mut s, "!protect", None).as_deref(),
        Some("/msg Steve Protecting you. I will fight off hostiles and stay close.")
    );
    assert_eq!(s.ctx("Bot").rt.mode, Mode::Protect);
    assert_eq!(s.ctx("Bot").rt.protect_target.as_deref(), Some("Steve"));
}

#[test]
fn only_owner_whispers_are_commands() {
    let mut s = test_shared();
    // Public chat, even from the owner, is never a command.
    let r = s.ctx_mut("Bot").handle_chat("<Steve> !follow", "!follow", Some("Steve"), false, "Steve", None);
    assert_eq!(r, None);
    // A stranger's whisper is ignored.
    let r = s.ctx_mut("Bot").handle_chat("x", "!follow", Some("Mallory"), true, "Steve", None);
    assert_eq!(r, None);
    // With no owner set nobody may command the bot.
    let r = s.ctx_mut("Bot").handle_chat("x", "!follow", Some("Steve"), true, "", None);
    assert_eq!(r, None);
    // A whisper that merely contains a `!` is no command.
    let r = s.ctx_mut("Bot").handle_chat("x", "nice! gg", Some("Steve"), true, "Steve", None);
    assert_eq!(r, None);
    assert_eq!(s.ctx("Bot").rt.mode, Mode::Idle);
    // The owner's name is compared ignoring ASCII case.
    let r = s.ctx_mut("Bot").handle_chat("x", "!stop", Some("steve"), true, "Steve", None);
    assert_eq!(r.as_deref(), Some("/msg steve Stopped."));
}

#[test]
fn sel_marks_corners_at_the_sender_block() {
    let mut s = test_shared();
    let r = owner_whisper(&mut s, "!sel 2", Some(point(10.5, 64.0, -3.2)));
    assert_eq!(r.as_deref(), Some("/msg Steve Point 2 set at 10 64 -4."));
    assert_eq!(s.ctx("Bot").rt.sel2, Some(BlockPos::new(10, 64, -4)));
    let r = owner_whisper(&mut s, "!sel", Some(point(-0.5, 70.9, 0.0)));
    assert_eq!(r.as_deref(), Some("/msg Steve Point 1 set at -1 70 0."));
    let r = owner_whisper(&mut s, "!sel 1", None);
    assert_eq!(
        r.as_deref(),
        Some("/msg Steve I cannot see you to mark the point. Get within render distance.")
    );
}

#[test]
fn mine_needs_both_corners() {
    let mut s = test_shared();
    let r = owner_whisper(&mut s, "!mine", None);
    assert_eq!(r.as_deref(), Some("/msg Steve Set both corners first: !sel 1 then !sel 2."));
    assert_eq!(s.ctx("Bot").rt.mode, Mode::Idle);
    owner_whisper(&mut s, "!sel 1", Some(point(0.0, 0.0, 0.0)));
    owner_whisper(&mut s, "!sel 2", Some(point(2.0, 1.0, 2.0)));
    let r = owner_whisper(&mut s, "!mine", None);
    assert_eq!(r.as_deref(), Some("/msg Steve Mining the selected area."));
    assert_eq!(s.ctx("Bot").rt.mode, Mode::Mine);
}

#[test]
fn stop_come_pull_help_and_unknown() {
    let mut s = test_shared();
    assert_eq!(
        owner_whisper(&mut s, "!come", None).as_deref(),
        Some("/msg Steve I cannot see you. Get closer and try again.")
    );
    assert_eq!(s.ctx("Bot").rt.mode, Mode::Idle);
    assert_eq!(
        owner_whisper(&mut s, "!come", Some(point(3.5, 70.0, -1.5))).as_deref(),
        Some("/msg Steve Coming to you.")
    );
    // A one-shot walk to where the sender stands, not a lasting follow.
    assert_eq!(s.ctx("Bot").rt.mode, Mode::Goto);
    assert_eq!(s.ctx("Bot").rt.goto_target, Some(BlockPos::new(3, 70, -2)));
    s.ctx_mut("Bot").arrived();
    assert_eq!(s.ctx("Bot").rt.mode, Mode::Idle);
    assert_eq!(owner_whisper(&mut s, "!stop", None).as_deref(), Some("/msg Steve Stopped."));
    assert_eq!(s.ctx("Bot").rt.mode, Mode::Idle);
    assert_eq!(
        owner_whisper(&mut s, "!pull", None).as_deref(),
        Some("/msg Steve Looking for a stasis chamber...")
    );
    assert_eq!(s.ctx("Bot").rt.pull_request.as_deref(), Some("manual"));
    owner_whisper(&mut s, "!pull 7", None);
    assert_eq!(s.ctx("Bot").rt.pull_request.as_deref(), Some("7"));
    assert_eq!(
        owner_whisper(&mut s, "!commands", None).as_deref(),
        Some("/msg Steve Commands: !follow !protect !come !stop !sel 1|2 !mine !pull")
    );
    assert_eq!(
        owner_whisper(&mut s, "!Dance", None).as_deref(),
        Some("/msg Steve Unknown command 'dance'. Try !help.")
    );
}

#[test]
fn chat_lines_and_replies_are_logged_for_the_mod() {
    let mut s = test_shared();
    s.ctx("Bot");
    let mut rx = s.tx().subscribe();
    owner_whisper(&mut s, "!stop", None);
    assert_eq!(
        rx.try_recv().unwrap(),
        r#"{"bot":"Bot","event":"log","text":"Steve whispers to you: !stop"}"#
    );
    assert_eq!(rx.try_recv().unwrap(), r#"{"bot":"Bot","event":"log","text":"Stopped."}"#);
    assert!(rx.try_recv().is_err());
}

#[test]
fn handle_reports_connection_events() {
    let mut s = test_shared();
    let mut rx = s.tx().subscribe();
    assert_eq!(handle(&mut s, None, GameEvent::Init), None);
    assert_eq!(rx.try_recv().unwrap(), r#"{"event":"status","status":"connecting"}"#);
    // Without a profile nothing else happens.
    assert_eq!(handle(&mut s, None, GameEvent::Login), None);
    assert!(rx.try_recv().is_err());
    handle(&mut s, Some("Bot"), GameEvent::Login);
    assert_eq!(rx.try_recv().unwrap(), r#"{"bot":"Bot","event":"status","status":"online"}"#);
    assert_eq!(rx.try_recv().unwrap(), r#"{"bot":"Bot","event":"log","text":"In game."}"#);
    assert_eq!(rx.try_recv().unwrap(), r#"{"bots":["Bot"],"event":"roster"}"#);
    handle(&mut s, Some("Bot"), GameEvent::Death);
    assert_eq!(rx.try_recv().unwrap(), r#"{"bot":"Bot","event":"log","text":"Died, respawning."}"#);
    handle(&mut s, Some("Bot"), GameEvent::Disconnect { reason: None });
    assert_eq!(rx.try_recv().unwrap(), r#"{"bot":"Bot","event":"status","status":"disconnected"}"#);
    assert_eq!(rx.try_recv().unwrap(), r#"{"bot":"Bot","event":"log","text":"Disconnected: unknown"}"#);
    handle(&mut s, Some("Other"), GameEvent::Other);
    assert_eq!(s.ids(), vec!["Bot".to_string(), "Other".to_string()]);
}

#[test]
fn handle_routes_chat_to_the_bot() {
    let mut s = test_shared();
    let r = handle(
        &mut s,
        Some("Bot"),
        GameEvent::Chat {
            message: "Steve whispers to you: !hold".into(),
            content: "!follow".into(),
            sender: Some("Steve".into()),
            is_whisper: true,
            sender_position: None,
        },
    );
    assert_eq!(r.as_deref(), Some("/msg Steve Following Steve."));
    assert_eq!(s.ctx("Bot").rt.mode, Mode::Follow);
}
