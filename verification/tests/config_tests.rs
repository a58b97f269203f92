use afk_companion_bot::config::{
    account_menu_lines, answer_or_default, cache_file, is_blank_answer, logout_message,
    menu_action, microsoft_account_config, next_microsoft_key, offline_account_config,
    pick_account, picks_offline_auth, setup_config, sign_in_client_id, start_one_message,
    strings, uses_offline_auth, AccountConfig, Config, ConfigError, Lang, MenuAction,
};
use std::path::Path;

fn config_with(names: &[&str]) -> Config {
    Config {
        server: "play.example.com".into(),
        data_dir: ".afk".into(),
        language: "en".into(),
        ms_client_id: None,
        owner: String::new(),
        bridge_port: 8765,
        reconnect_seconds: 8,
        accounts: names
            .iter()
            .map(|n| AccountConfig { username: n.to_string(), auth: "microsoft".into() })
            .collect(),
    }
}

#[test]
fn cache_file_sanitizes_account_into_data_dir() {
    let path = cache_file(Path::new(".afk"), "User@Example.com");
    assert_eq!(path, Path::new(".afk").join("User_Example_com.json"));
}

#[test]
fn offline_auth_needs_no_cache() {
    // Sanity: the data dir is only used to derive a Microsoft cache path; the
    // helper itself must produce a stable, filesystem-safe name.
    assert_eq!(
        cache_file(Path::new("/tmp/x"), "bot 1!"),
        Path::new("/tmp/x").join("bot_1_.json")
    );
}

#[test]
fn lang_round_trips_through_code() {
    for lang in [Lang::En, Lang::Fr, Lang::Es, Lang::De, Lang::Ru, Lang::Pt, Lang::It] {
        assert!(Lang::from_code(lang.code()) == lang);
    }
    // Unknown codes fall back to English.
    assert!(Lang::from_code("xx") == Lang::En);
}

#[test]
fn lang_codes_are_trimmed_and_case_folded() {
    assert_eq!(Lang::from_code("  FR "), Lang::Fr);
    assert_eq!(Lang::from_code("De"), Lang::De);
    assert_eq!(Lang::from_code(""), Lang::En);
}

#[test]
fn validate_reports_each_problem() {
    assert!(matches!(config_with(&[]).validate(), Err(ConfigError::NoAccounts)));
    assert!(matches!(config_with(&["a", "  "]).validate(), Err(ConfigError::EmptyUsername)));
    match config_with(&["Bot", "other", "BOT"]).validate() {
        Err(ConfigError::DuplicateUsername(name)) => assert_eq!(name, "BOT"),
        other => panic!("unexpected {other:?}"),
    }
    assert!(config_with(&["a", "b"]).validate().is_ok());
}

#[test]
fn next_microsoft_key_skips_used_keys() {
    assert_eq!(next_microsoft_key(&config_with(&[])), "account-1");
    assert_eq!(next_microsoft_key(&config_with(&["account-1", "account-3"])), "account-2");
    assert_eq!(next_microsoft_key(&config_with(&["account-2", "account-1"])), "account-3");
}

#[test]
fn data_path_and_lang_come_from_the_config() {
    let mut c = config_with(&["a"]);
    c.language = "ru".into();
    assert_eq!(c.lang(), Lang::Ru);
    let data = c.data_path();
    assert!(data.is_absolute());
    assert!(data.ends_with(".afk"));
    c.data_dir = "/srv/bot-cache".into();
    assert_eq!(c.data_path(), Path::new("/srv/bot-cache"));
}

#[test]
fn answers_and_defaults() {
    assert_eq!(answer_or_default(String::new(), "127.0.0.1"), "127.0.0.1");
    assert_eq!(answer_or_default("10.0.0.2".into(), "127.0.0.1"), "10.0.0.2");
    assert!(is_blank_answer("   "));
    assert!(!is_blank_answer(" Steve "));
    assert!(picks_offline_auth("2"));
    assert!(picks_offline_auth("cracked"));
    assert!(!picks_offline_auth("1"));
    assert!(uses_offline_auth("OFFLINE"));
    assert!(uses_offline_auth("Cracked"));
    assert!(!uses_offline_auth("microsoft"));
}

#[test]
fn setup_builds_the_first_config() {
    let c = setup_config(Lang::Fr, microsoft_account_config("account-1"), "1.2.3.4", "25566");
    assert_eq!(c.server, "1.2.3.4:25566");
    assert_eq!(c.language, "fr");
    assert_eq!(c.data_dir, ".afk");
    assert_eq!(c.bridge_port, 8765);
    assert_eq!(c.reconnect_seconds, 8);
    assert_eq!(c.owner, "");
    assert_eq!(c.accounts.len(), 1);
    assert_eq!(c.accounts[0].username, "account-1");
    assert_eq!(c.accounts[0].auth, "microsoft");
    let d = setup_config(Lang::En, offline_account_config("Steve".into()), "127.0.0.1", "25565");
    assert_eq!(d.server, "127.0.0.1");
    assert_eq!(d.accounts[0].auth, "offline");
}

#[test]
fn account_menu_answers() {
    assert_eq!(menu_action("", 2), MenuAction::StartAll);
    assert_eq!(menu_action("2", 2), MenuAction::StartOne(1));
    assert_eq!(menu_action("3", 2), MenuAction::NoSuchNumber);
    assert_eq!(menu_action("0", 2), MenuAction::NoSuchNumber);
    assert_eq!(menu_action("A", 2), MenuAction::Add);
    assert_eq!(menu_action("r", 2), MenuAction::Remove);
    assert_eq!(menu_action("L", 2), MenuAction::LogOut);
    assert_eq!(menu_action("q", 2), MenuAction::Quit);
    assert_eq!(menu_action("zz", 2), MenuAction::Stay);
    assert_eq!(menu_action("s", 2), MenuAction::ChangeServer);
    assert_eq!(menu_action("G", 2), MenuAction::ChangeLanguage);
}

#[test]
fn picking_and_editing_accounts() {
    let mut c = config_with(&["a", "b", "c"]);
    assert_eq!(pick_account("2", &c), Some(1));
    assert_eq!(pick_account("4", &c), None);
    assert_eq!(pick_account("x", &c), None);
    let removed = c.remove_account(0);
    assert_eq!(removed.username, "a");
    assert_eq!(c.accounts.len(), 2);
    c.add_account(microsoft_account_config("account-9"));
    c.keep_only(2);
    assert_eq!(c.accounts.len(), 1);
    assert_eq!(c.accounts[0].username, "account-9");
}

#[test]
fn console_texts_follow_the_language() {
    assert_eq!(strings(Lang::En).saved, "Configuration saved.");
    assert_ne!(strings(Lang::Fr).saved, strings(Lang::En).saved);
}

#[test]
fn account_menu_texts() {
    let c = config_with(&["account-1", "Steve"]);
    let t = strings(Lang::En);
    let lines = account_menu_lines(&c, &t);
    assert_eq!(lines.len(), 4);
    assert_eq!(lines[0], format!("{}: play.example.com", t.server));
    assert_eq!(lines[1], format!("{}:", t.accounts));
    assert_eq!(lines[2], "  [1] account-1 (microsoft)");
    assert_eq!(lines[3], "  [2] Steve (microsoft)");
    assert_eq!(start_one_message(&t, "Steve"), format!("{} Steve.", t.start_one));
    assert_eq!(logout_message(&t, "Steve", true), format!("{} Steve", t.logged_out));
    assert_eq!(logout_message(&t, "Steve", false), format!("{} Steve", t.no_cache));
}

#[test]
fn sign_in_uses_the_launcher_id_by_default() {
    assert_eq!(sign_in_client_id(None), "00000000402b5328");
    assert_eq!(sign_in_client_id(Some("my-app")), "my-app");
}

#[test]
fn menu_changes_server_and_language() {
    let mut c = config_with(&["a", "b"]);
    c.set_server("10.0.0.5", "25565");
    assert_eq!(c.server, "10.0.0.5");
    c.set_server("10.0.0.5", "25570");
    assert_eq!(c.server, "10.0.0.5:25570");
    c.set_language(Lang::from_code("DE"));
    assert_eq!(c.language, "de");
    assert_eq!(c.lang(), Lang::De);
    assert_eq!(c.accounts.len(), 2);
    assert_eq!(strings(c.lang()).server, strings(Lang::De).server);
}
