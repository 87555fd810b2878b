use introvert::inventory::{find_by_label_substring, InventorySlot, ItemStack};
use introvert::label::{StyledRun, StyledText, TextStyle};
use introvert::swarm::{target_for, AccountIdentity, ConfigError, SwarmConfig};
use introvert::text::{contains_text, eq_ignore_ascii_case, starts_with_text, text_equals};

fn style(bold: bool, color: Option<&str>) -> TextStyle {
    TextStyle {
        color: color.map(|c| c.to_string()),
        bold,
        italic: false,
        underlined: false,
        strikethrough: false,
        obfuscated: false,
    }
}

fn named(label: &str) -> InventorySlot {
    InventorySlot::Present(ItemStack { custom_name: Some(StyledText::plain_text(label)) })
}

#[test]
fn render_drops_style_and_keeps_order() {
    let label = StyledText {
        runs: vec![
            StyledRun { text: "Visit ".to_string(), style: style(true, Some("green")) },
            StyledRun { text: "".to_string(), style: style(false, None) },
            StyledRun { text: "player island".to_string(), style: style(false, Some("gray")) },
        ],
    };
    assert_eq!(label.render(), "Visit player island");
    assert_eq!(StyledText { runs: vec![] }.render(), "");
}

#[test]
fn find_returns_lowest_matching_index() {
    let slots = vec![
        InventorySlot::Empty,
        named("Close"),
        named("Visit player island"),
        named("Visit player island (again)"),
    ];
    assert_eq!(find_by_label_substring(&slots, "Visit player island"), Some(2));
    assert_eq!(find_by_label_substring(&slots, "again"), Some(3));
}

#[test]
fn find_none_when_empty_or_absent() {
    assert_eq!(find_by_label_substring(&vec![], "x"), None);
    let slots = vec![InventorySlot::Empty, InventorySlot::Present(ItemStack { custom_name: None }), named("Close")];
    assert_eq!(find_by_label_substring(&slots, "visit"), None);
    assert_eq!(find_by_label_substring(&slots, "close"), None);
    assert_eq!(find_by_label_substring(&slots, ""), Some(2));
}

#[test]
fn text_helpers() {
    assert!(text_equals("abc", "abc"));
    assert!(!text_equals("abc", "abd"));
    assert!(!text_equals("abc", "ab"));
    assert!(starts_with_text("{\"a\"}", "{"));
    assert!(!starts_with_text("", "{"));
    assert!(contains_text("visit player island", "player"));
    assert!(contains_text("abc", ""));
    assert!(!contains_text("ab", "abc"));
    assert!(eq_ignore_ascii_case("BoB_1", "bob_1"));
    assert!(!eq_ignore_ascii_case("Bob", "Bobb"));
    assert!(!eq_ignore_ascii_case("Bo[", "Bo{"));
}

#[test]
fn targets_are_assigned() {
    assert_eq!(target_for("Island", "island"), None);
    assert_eq!(target_for("Alt1", "Island"), Some("Island".to_string()));
}

#[test]
fn swarm_states_and_check() {
    let config = SwarmConfig {
        destination_name: "Owner".to_string(),
        join_delay_secs: 5,
        accounts: vec![
            AccountIdentity { name: "alt".to_string(), uuid: 1 },
            AccountIdentity { name: "OWNER".to_string(), uuid: 2 },
        ],
    };
    assert_eq!(config.check(), Ok(()));
    assert!(!config.destination_is_listed());
    let states = config.initial_states();
    assert_eq!(states.len(), 2);
    assert_eq!(states[0].target.as_deref(), Some("Owner"));
    assert_eq!(states[1].target, None);
    assert!(states.iter().all(|s| s.world_spawn_timer.is_none() && s.screen_open_timer.is_none()));
    let empty = SwarmConfig { destination_name: "Owner".to_string(), join_delay_secs: 5, accounts: vec![] };
    assert_eq!(empty.check(), Err(ConfigError::NoAccounts));
    let listed = SwarmConfig {
        destination_name: "alt".to_string(),
        join_delay_secs: 5,
        accounts: config.accounts.clone(),
    };
    assert!(listed.destination_is_listed());
}
