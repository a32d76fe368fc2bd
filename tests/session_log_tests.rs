use game_companion::session_log::{
    exchange_entry, log_directory, log_file_name, log_header, log_slug, LogDirectory,
};

#[test]
fn slug_replaces_spaces_and_drops_punctuation() {
    assert_eq!(log_slug(&Some("Dark Souls III".to_string())), "Dark-Souls-III");
    assert_eq!(log_slug(&Some("ELDEN RING™: Night-reign!".to_string())), "ELDEN-RING-Night-reign");
    assert_eq!(log_slug(&None), "Unknown");
}

#[test]
fn log_file_name_joins_slug_and_time() {
    assert_eq!(log_file_name("Dark-Souls-III", "2025-01-31_21-05-09"), "Dark-Souls-III_2025-01-31_21-05-09.txt");
}

#[test]
fn header_has_four_lines() {
    let h = log_header(&Some("Elden Ring".to_string()), "2025-01-31 21:05:09");
    assert_eq!(
        h,
        "=== AI Game Companion - Session Log ===\nGame: Elden Ring\nDate: 2025-01-31 21:05:09\n========================================\n\n"
    );
    assert!(log_header(&None, "d").contains("Game: Unknown\n"));
}

#[test]
fn exchange_blocks_are_timestamped() {
    assert_eq!(
        exchange_entry("21:05:09", "what boss is this?", "The Nameless King."),
        "[21:05:09] You:\nwhat boss is this?\n\n[21:05:09] Sage:\nThe Nameless King.\n\n"
    );
}

#[test]
fn log_directory_prefers_configuration() {
    assert!(matches!(log_directory(&Some("D:\\logs".to_string())), LogDirectory::Configured(d) if d == "D:\\logs"));
    assert!(matches!(log_directory(&None), LogDirectory::BesideLibrary));
}
