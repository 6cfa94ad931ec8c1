use bugtracker::errors::EngineError;
use bugtracker::motd::parse_motd;
use bugtracker::notices::{
    edition_toggled_notice, invalid_bug_id_notice, link_added_notice, link_missing_notice,
    link_removed_notice, marked_notice, missing_bug_notice, renamed_notice, status_changed_notice,
    tracking_notice,
};
use bugtracker::numfmt::u64_string;
use bugtracker::parse::{
    parse_bug_id, parse_edition, parse_link_id, parse_order, parse_status, validate_text,
};
use bugtracker::server::{favicon_url, offline_description, online_description, player_field};
use bugtracker::stats::{stats_text, StatsBuckets};
use bugtracker::status::{BugOrder, BugStatus};

#[test]
fn bug_ids_parse_with_or_without_prefix() {
    assert_eq!(parse_bug_id("42"), Some(42));
    assert_eq!(parse_bug_id("LOTR-42"), Some(42));
    assert_eq!(parse_bug_id("lotr-7"), Some(7));
    assert_eq!(parse_bug_id("Lotr-7"), Some(7));
    assert_eq!(parse_bug_id("LOTR-LOTR-5"), Some(5));
    assert_eq!(parse_bug_id("+5"), Some(5));
    assert_eq!(parse_bug_id(""), None);
    assert_eq!(parse_bug_id("LOTR-"), None);
    assert_eq!(parse_bug_id("LOTR-x1"), None);
    assert_eq!(parse_bug_id("12a"), None);
    assert_eq!(parse_bug_id("18446744073709551615"), Some(u64::MAX));
    assert_eq!(parse_bug_id("18446744073709551616"), None);
    assert_eq!(parse_bug_id("99999999999999999999999"), None);
}

#[test]
fn link_ids_parse_with_or_without_hash() {
    assert_eq!(parse_link_id("3"), Some(3));
    assert_eq!(parse_link_id("#3"), Some(3));
    assert_eq!(parse_link_id("##3"), Some(3));
    assert_eq!(parse_link_id("#"), None);
    assert_eq!(parse_link_id("#x"), None);
}

#[test]
fn ordering_keywords_select_their_order() {
    assert_eq!(parse_order("latest"), Some(BugOrder::Chronological(false)));
    assert_eq!(parse_order("oldest"), Some(BugOrder::Chronological(true)));
    assert_eq!(parse_order("highest"), Some(BugOrder::Priority(false)));
    assert_eq!(parse_order("lowest"), Some(BugOrder::Priority(true)));
    assert_eq!(parse_order("newest"), None);
}

#[test]
fn edition_keywords_select_their_edition() {
    assert_eq!(parse_edition("legacy"), Some(true));
    assert_eq!(parse_edition("renewed"), Some(false));
    assert_eq!(parse_edition("classic"), None);
}

#[test]
fn status_names_parse_case_insensitively() {
    assert_eq!(parse_status("medium"), Some(BugStatus::Medium));
    assert_eq!(parse_status("Critical"), Some(BugStatus::Critical));
    assert_eq!(parse_status("RESOLVED"), Some(BugStatus::Resolved));
    assert_eq!(parse_status("forgevanilla"), Some(BugStatus::ForgeVanilla));
    assert_eq!(parse_status("urgent"), None);
    assert_eq!(parse_status(""), None);
}

#[test]
fn empty_titles_are_rejected_before_any_store_call() {
    assert_eq!(validate_text(""), Err(EngineError::Validation));
    assert_eq!(validate_text("a title"), Ok(()));
}

#[test]
fn numbers_render_in_decimal() {
    assert_eq!(u64_string(0), "0");
    assert_eq!(u64_string(7), "7");
    assert_eq!(u64_string(230), "230");
    assert_eq!(u64_string(1009), "1009");
    assert_eq!(u64_string(u64::MAX), "18446744073709551615");
}

#[test]
fn motd_styles_translate_to_markdown() {
    assert_eq!(parse_motd("plain"), "plain");
    assert_eq!(parse_motd("§lWorld"), "**World**");
    assert_eq!(parse_motd("§aHello §lWorld"), "Hello **World**");
    assert_eq!(parse_motd("§lBold§rPlain"), "**Bold**\u{200B}Plain");
    assert_eq!(parse_motd("§nunder§mstruck"), "__under~~struck~~__");
    assert_eq!(parse_motd("§oitalic"), "*italic*");
    assert_eq!(parse_motd("§zodd"), "§zodd");
    assert_eq!(parse_motd("a§"), "a");
}

#[test]
fn status_display_facts_are_exhaustive() {
    assert!(BugStatus::Resolved.is_terminal());
    assert!(BugStatus::Closed.is_terminal());
    assert!(!BugStatus::Medium.is_terminal());
    assert!(!BugStatus::ForgeVanilla.is_terminal());
    assert_eq!(BugStatus::Medium.marker(), "🟨");
    assert_eq!(BugStatus::Resolved.name(), "resolved");
    assert_eq!(BugStatus::default(), BugStatus::Medium);
    assert!(BugStatus::Low.weight() < BugStatus::Medium.weight());
    assert!(BugStatus::Medium.weight() < BugStatus::High.weight());
    assert!(BugStatus::High.weight() < BugStatus::Critical.weight());
}

#[test]
fn notices_carry_their_values() {
    assert_eq!(
        tracking_notice(3, BugStatus::Medium),
        "Tracking bug LOTR-3 (priority: `medium`)"
    );
    assert_eq!(
        status_changed_notice(3, BugStatus::Low, BugStatus::High),
        "Status changed for LOTR-3 from `low` to `high`!"
    );
    assert_eq!(
        marked_notice(3, BugStatus::Resolved),
        "LOTR-3 has been marked as resolved."
    );
    assert_eq!(missing_bug_notice(9), "The bug LOTR-9 does not exist!");
    assert_eq!(link_added_notice(2, 9), "Added link #2 to LOTR-9");
    assert_eq!(
        link_removed_notice(2, 9),
        "Successfully removed link #2 from LOTR-9"
    );
    assert_eq!(
        link_missing_notice(2, 9),
        "Link #2 does not exist in LOTR-9"
    );
    assert_eq!(
        edition_toggled_notice(9, true),
        "LOTR-9 has been changed from renewed to legacy"
    );
    assert_eq!(
        edition_toggled_notice(9, false),
        "LOTR-9 has been changed from legacy to renewed"
    );
    assert_eq!(
        renamed_notice(9),
        "Successfully changed the title of LOTR-9"
    );
    assert_eq!(
        invalid_bug_id_notice("abc"),
        "`abc` is not a valid bug id!"
    );
}

#[test]
fn corrective_notice_texts() {
    assert_eq!(
        EngineError::PageOutOfRange.notice(),
        "Page number too high, consider calling `!bugs` and using the navigation arrows."
    );
    assert_eq!(
        EngineError::ContentTooLarge.notice(),
        "Too many bugs to display. Consider lowering the limit."
    );
    assert_eq!(
        EngineError::PermissionDenied.notice(),
        "You are not the original user of the command! Call `!bugs` yourself to use the buttons."
    );
}

#[test]
fn stats_text_partitions_the_total() {
    let buckets = StatsBuckets {
        resolved: 4,
        low: 1,
        medium: 2,
        high: 3,
        critical: 1,
        closed: 2,
        forgevanilla: 1,
        total: 14,
        legacy: 5,
    };
    assert_eq!(buckets.open_count(), 7);
    let text = stats_text(&buckets);
    assert_eq!(
        text,
        "4 resolved\n2 closed\n1 forge or vanilla\n\n_Open bugs: 7_\n1 with low priority\n2 with medium priority\n3 with high priority\n1 critical bugs\n\n**Total: 14 tracked bugs**\n\t_including 5 legacy bugs_\n"
    );
}

#[test]
fn server_card_pieces() {
    assert_eq!(offline_description("mc.example.invalid"), "**IP:**  `mc.example.invalid`");
    assert_eq!(
        favicon_url("mc.example.invalid"),
        "https://eu.mc-api.net/v3/server/favicon/mc.example.invalid"
    );
    let lines = vec!["§lWelcome".to_string(), "home".to_string()];
    assert_eq!(
        online_description(Some(&lines), "mc.example.invalid"),
        "**Welcome\nhome**\n\n**IP:**  `mc.example.invalid`"
    );
    assert_eq!(
        online_description(None, "mc.example.invalid"),
        "**IP:**  `mc.example.invalid`"
    );
}

#[test]
fn player_field_escapes_and_caps() {
    let names = vec!["a_b".to_string(), "c".to_string()];
    let field = player_field(2, 20, Some(&names));
    assert_eq!(field.name, "Players: 2/20");
    assert_eq!(field.value, "a\\_b, c");

    let field = player_field(0, 20, None);
    assert_eq!(field.value, "[]()");

    let many: Vec<String> = (0..200).map(|i| format!("player{}", i)).collect();
    let field = player_field(200, 200, Some(&many));
    assert_eq!(field.value, "Too many usernames to display!");
}
