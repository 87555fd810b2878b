use introvert::account::{AccountState, ChatLine, classify_chat, COOLDOWN_START};
use introvert::decision::{decide, Command, LocationStatus, Rule};

fn status(server: Option<&str>, gametype: Option<&str>) -> LocationStatus {
    LocationStatus {
        mode: None,
        server: server.map(|s| s.to_string()),
        gametype: gametype.map(|s| s.to_string()),
    }
}

fn state(timer: Option<i32>, target: Option<&str>) -> AccountState {
    AccountState {
        world_spawn_timer: timer,
        screen_open_timer: None,
        target: target.map(|s| s.to_string()),
    }
}

#[test]
fn limbo_sends_lobby_and_cools_down() {
    assert_eq!(classify_chat("{\"server\":\"limbo\"}"), ChatLine::Status);
    let mut st = state(Some(57), Some("Bob"));
    let cmd = st.apply_status(&status(Some("limbo"), None));
    assert_eq!(cmd, Command::Lobby);
    assert_eq!(cmd.text(), "lobby");
    assert_eq!(st.world_spawn_timer, Some(-300));
    assert_eq!(COOLDOWN_START, -300);
}

#[test]
fn survival_sends_skyblock_and_cools_down() {
    let mut st = state(Some(201), Some("Bob"));
    let cmd = st.apply_status(&status(None, Some("SURVIVAL")));
    assert_eq!(cmd, Command::Skyblock);
    assert_eq!(cmd.text(), "skyblock");
    assert_eq!(st.world_spawn_timer, Some(-300));
}

#[test]
fn skyblock_without_target_warps_home() {
    let mut st = state(Some(201), None);
    let cmd = st.apply_status(&status(None, Some("SKYBLOCK")));
    assert_eq!(cmd, Command::WarpIsland);
    assert_eq!(cmd.text(), "warp island");
    assert_eq!(st.world_spawn_timer, Some(-300));
}

#[test]
fn skyblock_with_target_visits_and_keeps_timer() {
    let mut st = state(Some(201), Some("Bob"));
    let cmd = st.apply_status(&status(None, Some("SKYBLOCK")));
    assert_eq!(cmd, Command::Visit("Bob".to_string()));
    assert_eq!(cmd.text(), "visit Bob");
    assert_eq!(st.world_spawn_timer, Some(201));
    assert_eq!(st.target.as_deref(), Some("Bob"));
}

#[test]
fn limbo_masks_other_rules() {
    let d = decide(&status(Some("limbo"), Some("SKYBLOCK")), &Some("Bob".to_string()));
    assert_eq!(d.rule, Rule::EscapeLimbo);
    assert_eq!(d.command, Command::Lobby);
}

#[test]
fn missing_gametype_is_not_skyblock() {
    let d = decide(&status(Some("mini1"), None), &None);
    assert_eq!(d.rule, Rule::JoinSkyblock);
    let d = decide(&status(None, Some("skyblock")), &None);
    assert_eq!(d.rule, Rule::JoinSkyblock);
}

#[test]
fn visit_only_with_target() {
    let d = decide(&status(Some("mini1"), Some("SKYBLOCK")), &Some("Alice".to_string()));
    assert_eq!(d.rule, Rule::VisitTarget);
    assert!(!d.rule.starts_cooldown());
    let d = decide(&status(Some("mini1"), Some("SKYBLOCK")), &None);
    assert_eq!(d.rule, Rule::WarpHome);
    assert!(d.rule.starts_cooldown());
}

#[test]
fn locraw_command_text() {
    assert_eq!(Command::Locraw.text(), "locraw");
}

#[test]
fn chat_noise_is_dropped() {
    assert_eq!(classify_chat("{\"Mana\":1}"), ChatLine::Noise);
    assert_eq!(classify_chat("you finished the parkour"), ChatLine::Noise);
    assert_eq!(classify_chat("hello {"), ChatLine::Plain);
    assert_eq!(classify_chat(""), ChatLine::Plain);
    assert_eq!(classify_chat("{"), ChatLine::Status);
    assert_eq!(classify_chat("mana {"), ChatLine::Plain);
}
