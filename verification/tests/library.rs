use ether::cache::{ProfileCache, SessionData};
use ether::custom_commands::{Actions, CommandQueue, Comparison, Events, QueueEntry};
use ether::embeds::{footer_text, EMBED_COLOUR, FOOTERS};
use ether::hooks::{
    apply_outcome, find_ether_hook, match_activation, pattern_of, select_profile, HookError,
    WebhookSummary,
};
use ether::link_traversal::{
    start_traversal, status_is_redirection, HopReport, IpAddress, LocationHeader, Step,
    TraversalError,
};
use ether::multi_key_map::MultiKeyMap;
use ether::profile::{
    button_id, classify_press, created_description, is_own_press, new_profile, page_at,
    page_view, turn_page, PageTurn, ProfileError, ProfileInfo, ProfilePrimaryOption,
};
use ether::ruin::{
    approved_roles, is_registry_submission, message_link_field, registry_button, trim_content,
    review_plan, PendingRegistry, RegistryButton, ReviewPlan, UpdateAction, LISTENER_CHANNEL_ID, REGISTERED_OC_ROLE_ID,
    RUIN_GUILD_ID, SUBMISSION_BOTTOM, SUBMISSION_TOP,
};
use ether::stats::{latency_line, latency_millis, memory_line};
use ether::structures::{
    AutoModerationModule, DBGuild, FeatureInversionMode, FeatureOptions, Features,
    GuildSummary, LinkTraversalModule, ViolationOption, WarningsModule,
};
use ether::text::{contains, decimal_string, ends_with, starts_with};
use ether::warnings::{
    parse_time, parse_time_at, parse_u64, warn_description, warning_duration, warning_entries,
    warning_expiry, warnings_target, Warning,
};

fn profile(name: &str, activation: &str, owner: u64) -> ProfileInfo {
    ProfileInfo {
        name: name.to_string(),
        activation: activation.to_string(),
        image_url: String::new(),
        owner,
        crated_timestamp: 0,
        last_used_timestamp: 0,
        uses: 0,
    }
}

fn chars(s: &str) -> Vec<char> {
    s.chars().collect()
}

#[test]
fn parse_u64_accepts_digits_and_plus() {
    assert_eq!(parse_u64(&chars("48")), Some(48));
    assert_eq!(parse_u64(&chars("+7")), Some(7));
    assert_eq!(parse_u64(&chars("18446744073709551615")), Some(u64::MAX));
}

#[test]
fn parse_u64_refuses_bad_text() {
    assert_eq!(parse_u64(&chars("")), None);
    assert_eq!(parse_u64(&chars("+")), None);
    assert_eq!(parse_u64(&chars("-1")), None);
    assert_eq!(parse_u64(&chars("4x")), None);
    assert_eq!(parse_u64(&chars("18446744073709551616")), None);
}

#[test]
fn parse_time_at_each_unit() {
    assert_eq!(parse_time_at("1d", 1000), 1000 + 86400);
    assert_eq!(parse_time_at("48h", 0), 48 * 3600);
    assert_eq!(parse_time_at("2w", 5), 5 + 2 * 604800);
    assert_eq!(parse_time_at("1m", 0), 2592000);
    assert_eq!(parse_time_at("1y", 0), 31536000);
}

#[test]
fn parse_time_at_unreadable_length_is_never() {
    assert_eq!(parse_time_at("5s", 1234), 0);
    assert_eq!(parse_time_at("5x", 1000), 0);
    assert_eq!(parse_time_at("xd", 1234), 0);
    assert_eq!(parse_time_at("d", 1234), 0);
    assert_eq!(parse_time_at("soon", 1234), 0);
    assert_eq!(parse_time_at("10", 1234), 0);
    assert_eq!(parse_time_at("0d", 1234), 1234);
}

#[test]
fn parse_time_at_units_agree_and_shift() {
    let t = 1_700_000_000;
    assert_eq!(parse_time_at("48h", t), parse_time_at("2d", t));
    assert_eq!(parse_time_at("14d", t), parse_time_at("2w", t));
    assert_eq!(parse_time_at("30d", t), parse_time_at("1m", t));
    assert_eq!(parse_time_at("365d", t), parse_time_at("1y", t));
    assert!(parse_time_at("24h", t) > parse_time_at("23h", t));
    assert_eq!(parse_time_at("3h", t + 50), parse_time_at("3h", t) + 50);
}

#[test]
fn warning_duration_overflow_is_none() {
    assert_eq!(warning_duration("18446744073709551615d"), None);
    assert_eq!(warning_duration("3h"), Some(10800));
}

#[test]
fn parse_time_adds_the_clock() {
    let now = std::time::SystemTime::now()
        .duration_since(std::time::UNIX_EPOCH)
        .unwrap()
        .as_secs();
    let r = parse_time("1d".to_string());
    assert!(r >= now + 86400 && r <= now + 86400 + 60);
    assert_eq!(parse_time("soon".to_string()), 0);
}

#[test]
fn warning_expiry_without_length_is_never() {
    assert_eq!(warning_expiry(None), 0);
    assert_eq!(warning_expiry(Some("soon".to_string())), 0);
    assert!(warning_expiry(Some("1h".to_string())) >= 3600);
}

#[test]
fn warn_description_with_and_without_expiry() {
    assert_eq!(warn_description(42, "spam", 0), "Applied a warning to <@42> for ``spam``.");
    assert_eq!(
        warn_description(42, "spam", 1700000000),
        "Applied a warning to <@42> for ``spam``.\n This warning will expire at <t:1700000000>."
    );
}

#[test]
fn warning_entries_are_numbered_from_one() {
    let ws = vec![
        Warning { user: 1, issuer: 9, guild: 3, reason: "rude".to_string(), expires_timestamp: 0 },
        Warning { user: 1, issuer: 8, guild: 3, reason: "spam".to_string(), expires_timestamp: 77 },
    ];
    let e = warning_entries(&ws);
    assert_eq!(e.len(), 2);
    assert_eq!(e[0], "**Warning 1 by <@9>:**\n\nReason: rude");
    assert_eq!(e[1], "**Warning 2 by <@8>:**\n\nReason: spam\nExpires at <t:77>.");
}

#[test]
fn warnings_target_permission() {
    assert_eq!(warnings_target(false, Some(5), 1), None);
    assert_eq!(warnings_target(false, None, 1), Some(1));
    assert_eq!(warnings_target(true, Some(5), 1), Some(5));
    assert_eq!(warnings_target(true, None, 1), Some(1));
}

#[test]
fn multi_key_map_insert_stores_under_every_key() {
    let mut m: MultiKeyMap<u64, String> = MultiKeyMap::new();
    assert!(m.is_empty());
    assert_eq!(m.insert(vec![1, 2, 3], "a".to_string()), None);
    assert_eq!(m.len(), 3);
    assert_eq!(m.get(&2), Some(&"a".to_string()));
    assert!(m.contains_key(&3));
    assert!(!m.contains_key(&4));
    assert_eq!(m.insert(vec![4, 3], "b".to_string()), Some("a".to_string()));
    assert_eq!(m.get(&1), Some(&"a".to_string()));
    assert_eq!(m.get(&3), Some(&"b".to_string()));
}

#[test]
fn multi_key_map_repeated_last_key_returns_clone() {
    let mut m: MultiKeyMap<u64, u32> = MultiKeyMap::new();
    assert_eq!(m.insert(vec![7, 7], 5), Some(5));
    assert_eq!(m.insert(vec![], 6), None);
    assert_eq!(m.len(), 1);
}

#[test]
fn multi_key_map_remove_only_that_key() {
    let mut m: MultiKeyMap<u64, u32> = MultiKeyMap::new();
    m.insert(vec![1, 2], 9);
    assert_eq!(m.remove(&1), Some(9));
    assert_eq!(m.remove(&1), None);
    assert_eq!(m.get(&1), None);
    assert_eq!(m.get(&2), Some(&9));
    assert!(!m.is_empty());
    m.remove(&2);
    assert!(m.is_empty());
    assert_eq!(m.len(), 0);
}

#[test]
fn trim_content_short_message_unchanged() {
    let s = "hello".to_string();
    assert_eq!(trim_content(&s), "hello");
    let exact = "a".repeat(2000);
    assert_eq!(trim_content(&exact), exact);
}

#[test]
fn trim_content_long_message_cut() {
    let s = "a".repeat(2001);
    let t = trim_content(&s);
    assert_eq!(t, format!("{}..[101 more characters]", "a".repeat(1900)));
    assert!(t.chars().count() <= 2000);
    assert_eq!(trim_content(&t), t);
    let long = "a".repeat(2500);
    assert_eq!(trim_content(&long), format!("{}..[600 more characters]", "a".repeat(1900)));
}

#[test]
fn trim_content_counts_characters() {
    let euros = "€".repeat(700);
    assert_eq!(trim_content(&euros), euros);
    let s = "é".repeat(2001);
    assert_eq!(trim_content(&s), format!("{}..[101 more characters]", "é".repeat(1900)));
}

#[test]
fn registry_register_and_lookup() {
    let mut r = PendingRegistry::new();
    let c = r.register(10, 20, 30);
    assert_eq!(r.lookup(10), Some(c));
    assert_eq!(r.lookup(20), Some(c));
    assert_eq!(r.lookup(30), None);
    assert!(r.contains(20));
    assert_eq!(c.user_id, 30);
}

#[test]
fn registry_settle_forgets_both() {
    let mut r = PendingRegistry::new();
    let c = r.register(10, 20, 30);
    let d = r.register(11, 21, 31);
    r.settle(&c);
    assert!(!r.contains(20));
    assert!(!r.contains(10));
    assert_eq!(r.lookup(11), Some(d));
    assert_eq!(r.lookup(21), Some(d));
}

#[test]
fn registry_update_actions() {
    let mut r = PendingRegistry::new();
    let c = r.register(10, 20, 30);
    assert_eq!(r.on_message_update(99, true), UpdateAction::Ignore);
    assert_eq!(r.on_message_update(10, false), UpdateAction::Edit(c));
    assert!(r.contains(10));
    assert_eq!(r.on_message_update(10, true), UpdateAction::Withdrawn(c));
    assert!(!r.contains(10) && !r.contains(20));
}

#[test]
fn registry_submission_filter() {
    let body = format!("{}\nName: X\n{}", SUBMISSION_TOP, SUBMISSION_BOTTOM);
    assert!(is_registry_submission(Some(RUIN_GUILD_ID), LISTENER_CHANNEL_ID, &body));
    assert!(!is_registry_submission(None, LISTENER_CHANNEL_ID, &body));
    assert!(!is_registry_submission(Some(1), LISTENER_CHANNEL_ID, &body));
    assert!(!is_registry_submission(Some(RUIN_GUILD_ID), 5, &body));
    assert!(!is_registry_submission(Some(RUIN_GUILD_ID), LISTENER_CHANNEL_ID, "Name: X"));
}

#[test]
fn registry_buttons() {
    assert_eq!(registry_button("ruin_accept"), RegistryButton::Accept);
    assert_eq!(registry_button("ruin_deny"), RegistryButton::Deny);
    assert_eq!(registry_button("ruin_other"), RegistryButton::Unknown);
    assert_eq!(registry_button("12next"), RegistryButton::NotOurs);
}

#[test]
fn approved_roles_appends_registered_role() {
    assert_eq!(approved_roles(&vec![1, 2]), vec![1, 2, REGISTERED_OC_ROLE_ID]);
    assert_eq!(message_link_field("https://x/y"), "[Here](https://x/y)");
}

#[test]
fn new_profile_requires_text_marker() {
    let p = new_profile("Bob".into(), "b:text".into(), None, 7, 100).unwrap();
    assert_eq!(p.image_url, "");
    assert_eq!(p.owner, 7);
    assert_eq!(p.crated_timestamp, 100);
    assert_eq!(p.uses, 0);
    let q = new_profile("Bob".into(), "b:".into(), Some("u".into()), 7, 100);
    assert_eq!(q.unwrap_err(), ProfileError::MissingTextMarker);
    let r = new_profile("Bob".into(), "//text".into(), Some("http://i".into()), 7, 1).unwrap();
    assert_eq!(r.image_url, "http://i");
    assert_eq!(
        created_description("Bob", "b:text"),
        "Created a profile named ``Bob`` with activation ``b:text``."
    );
}

#[test]
fn pagination_turns_round() {
    assert_eq!(turn_page(0, 3, PageTurn::Next), Some(1));
    assert_eq!(turn_page(2, 3, PageTurn::Next), Some(0));
    assert_eq!(turn_page(0, 3, PageTurn::Previous), Some(2));
    assert_eq!(turn_page(1, 3, PageTurn::Previous), Some(0));
    assert_eq!(turn_page(1, 3, PageTurn::Other), None);
    let n = turn_page(1, 3, PageTurn::Next).unwrap();
    assert_eq!(turn_page(n, 3, PageTurn::Previous), Some(1));
}

#[test]
fn pagination_full_rounds() {
    for start in 0..4 {
        let mut p = start;
        for _ in 0..4 {
            p = turn_page(p, 4, PageTurn::Next).unwrap();
        }
        assert_eq!(p, start);
        for _ in 0..4 {
            p = turn_page(p, 4, PageTurn::Previous).unwrap();
        }
        assert_eq!(p, start);
        for _ in 0..3 {
            p = turn_page(p, 4, PageTurn::Next).unwrap();
        }
        for _ in 0..3 {
            p = turn_page(p, 4, PageTurn::Previous).unwrap();
        }
        assert_eq!(p, start);
    }
}

#[test]
fn pagination_buttons() {
    let next = button_id(123, "next");
    let prev = button_id(123, "prev");
    assert_eq!(next, "123next");
    assert_eq!(classify_press("123next", &next, &prev), PageTurn::Next);
    assert_eq!(classify_press("123prev", &next, &prev), PageTurn::Previous);
    assert_eq!(classify_press("123edit", &next, &prev), PageTurn::Other);
    assert!(is_own_press("123edit", 123));
    assert!(!is_own_press("124edit", 123));
}

#[test]
fn page_view_hides_empty_image() {
    let mut p = profile("A", "a:text", 1);
    assert_eq!(page_view(&p).image, None);
    p.image_url = "http://img".into();
    assert_eq!(page_view(&p).image, Some("http://img".to_string()));
    let pages = vec![p];
    assert!(page_at(&pages, 0).is_some());
    assert!(page_at(&pages, 1).is_none());
}

#[test]
fn pattern_replaces_every_marker() {
    assert_eq!(pattern_of(">>text<<"), ">>([\\s\\S]+)<<");
    assert_eq!(pattern_of("texttext"), "([\\s\\S]+)([\\s\\S]+)");
    assert_eq!(pattern_of("plain"), "plain");
}

#[test]
fn match_activation_uses_regex() {
    let p = profile("A", "a:text", 1);
    assert_eq!(match_activation(&p, "a:hello"), Some(Some("hello".to_string())));
    assert_eq!(match_activation(&p, "b:hello"), None);
    let bad = profile("B", "(text", 1);
    assert_eq!(match_activation(&bad, "(x"), None);
}

#[test]
fn select_profile_last_match_wins() {
    let ps = vec![profile("A", "a:text", 1), profile("B", "text!", 1), profile("C", "c:text", 1)];
    let r = select_profile(&ps, "a:hi!").unwrap().unwrap();
    assert_eq!(r.profile.name, "B");
    assert_eq!(r.content, "a:hi");
    assert!(select_profile(&ps, "zzz").unwrap().is_none());
}

#[test]
fn select_profile_missing_capture_is_error() {
    let ps = vec![profile("A", "hey", 1)];
    assert_eq!(select_profile(&ps, "hey you").unwrap_err(), HookError::MissingCapture);
    let r = apply_outcome(None, &ps[0], None).unwrap();
    assert!(r.is_none());
}

#[test]
fn ether_hook_is_first_with_token_and_name() {
    let hooks = vec![
        WebhookSummary { has_token: false, name: Some("EtherHook".into()) },
        WebhookSummary { has_token: true, name: Some("Other".into()) },
        WebhookSummary { has_token: true, name: Some("EtherHook".into()) },
        WebhookSummary { has_token: true, name: Some("EtherHook".into()) },
    ];
    assert_eq!(find_ether_hook(&hooks), Some(2));
    assert_eq!(find_ether_hook(&hooks[..2].iter().map(|h| WebhookSummary { has_token: h.has_token, name: h.name.clone() }).collect()), None);
}

#[test]
fn profile_cache_groups_by_owner() {
    let ps = vec![profile("A", "a", 1), profile("B", "b", 2), profile("C", "c", 1)];
    let cache = ProfileCache::from_profiles(ps);
    let ones = cache.profiles_of(1).unwrap();
    assert_eq!(ones.len(), 2);
    assert_eq!(ones[0].name, "A");
    assert_eq!(ones[1].name, "C");
    assert_eq!(cache.profiles_of(2).unwrap().len(), 1);
    assert!(cache.profiles_of(3).is_none());
    let data = SessionData { cache };
    assert_eq!(data.cache.users.len(), 2);
}

#[test]
fn traversal_follows_redirects() {
    let (state, first) = start_traversal("HTTP://Example.com").unwrap();
    assert_eq!(first, "http://example.com/");
    let ip = IpAddress::V4([1, 2, 3, 4]);
    let s = state.step(HopReport {
        status: 301,
        url: first.clone(),
        ip: Some(ip),
        location: LocationHeader::Value("https://example.org/a".into()),
    });
    let (state, next) = match s {
        Step::Follow(st, n) => (st, n),
        _ => panic!("expected a redirect"),
    };
    assert_eq!(next, "https://example.org/a");
    let done = match state.step(HopReport {
        status: 200,
        url: next.clone(),
        ip: Some(ip),
        location: LocationHeader::Missing,
    }) {
        Step::Finished(t) => t,
        _ => panic!("expected the end"),
    };
    assert_eq!(done.end_status, 200);
    assert_eq!(done.hops.len(), 2);
    assert_eq!(done.source_url, "http://example.com/");
    assert_eq!(done.destination_url, "https://example.org/a");
}

#[test]
fn traversal_errors() {
    assert_eq!(start_traversal("not a url").err(), Some(TraversalError::InvalidOrigin));
    let ip = IpAddress::V6([0; 16]);
    let fail = |loc: LocationHeader, ip: Option<IpAddress>| {
        let (state, first) = start_traversal("http://a.b/").unwrap();
        match state.step(HopReport { status: 302, url: first, ip, location: loc }) {
            Step::Failed(e) => e,
            _ => panic!("expected a failure"),
        }
    };
    assert_eq!(fail(LocationHeader::Missing, Some(ip)), TraversalError::NoLocationHeader);
    assert_eq!(fail(LocationHeader::Unreadable, Some(ip)), TraversalError::UnreadableLocation);
    assert_eq!(fail(LocationHeader::Value("::".into()), Some(ip)), TraversalError::InvalidRedirect);
    assert_eq!(fail(LocationHeader::Missing, None), TraversalError::NoRemoteAddress);
    assert!(status_is_redirection(300) && status_is_redirection(399));
    assert!(!status_is_redirection(200) && !status_is_redirection(400));
}

#[test]
fn footer_is_one_of_the_footers() {
    for _ in 0..20 {
        let f = footer_text();
        assert!(FOOTERS.contains(&f));
    }
    assert_eq!(EMBED_COLOUR, [0, 255, 255]);
}

#[test]
fn stats_lines() {
    assert_eq!(memory_line(2_500_000, 7_600_000), "Memory: 2mb / 10mb");
    assert_eq!(latency_millis(10, 10_250), 250);
    assert_eq!(latency_millis(10, 9_000), 0);
    assert_eq!(latency_line(250), "One way latency: ``250``");
}

#[test]
fn guild_defaults() {
    let g = DBGuild::to_default(&GuildSummary { id: 1, owner_id: 2, name: "G".into(), icon_url: None });
    assert_eq!(g.icon, "");
    assert_eq!(g.active_features, 0);
    assert!(!g.features.link_traversal.enabled);
    assert_eq!(g.features.link_traversal.channel_mode, FeatureInversionMode::Whitelist);
    assert_eq!(g.features.auto_moderation.regex_action, ViolationOption::Delete);
    let h = DBGuild::to_default(&GuildSummary { id: 1, owner_id: 2, name: "G".into(), icon_url: Some("i".into()) });
    assert_eq!(h.icon, "i");
    let _ = FeatureOptions::default();
    let _ = LinkTraversalModule::default();
    let a = AutoModerationModule::default();
    assert_eq!(a.warn_threshold, 0);
    let w = WarningsModule { enabled: true, required_permissions: 8 };
    assert!(w.enabled);
}

#[test]
fn stored_codes() {
    assert_eq!(FeatureInversionMode::Blacklist.code(), 0);
    assert_eq!(FeatureInversionMode::Whitelist.code(), 1);
    assert_eq!(ViolationOption::Delete.code(), 0);
    assert_eq!(ViolationOption::Ban.code(), 3);
    assert_eq!(Features::LinkTraversal.code(), 1);
    assert_eq!(Features::AutoModeration.code(), 2);
}

#[test]
fn custom_command_kinds() {
    let q = CommandQueue { queues: std::collections::HashMap::new() };
    assert!(q.queues.is_empty());
    assert_ne!(Events::MemberJoin, Events::MessageSent);
    assert_ne!(Comparison::Equal, Comparison::Includes);
    assert_eq!(Actions::SendMessage, Actions::SendMessage);
    assert_eq!(QueueEntry, QueueEntry);
    assert_ne!(ProfilePrimaryOption::Create, ProfilePrimaryOption::Edit);
}

#[test]
fn text_helpers() {
    assert_eq!(decimal_string(0), "0");
    assert_eq!(decimal_string(1905), "1905");
    assert!(starts_with("abc", "ab") && !starts_with("abc", "bc"));
    assert!(ends_with("abc", "bc") && !ends_with("abc", "ab"));
    assert!(contains("a text b", "text") && !contains("tex", "text"));
}


#[test]
fn review_plan_cases() {
    assert_eq!(
        review_plan(RegistryButton::Accept, true, false),
        ReviewPlan::CleanUp { delete_original: true, delete_crosspost: false }
    );
    assert_eq!(
        review_plan(RegistryButton::Deny, false, false),
        ReviewPlan::CleanUp { delete_original: false, delete_crosspost: false }
    );
    assert_eq!(review_plan(RegistryButton::Accept, true, true), ReviewPlan::Approve);
    assert_eq!(review_plan(RegistryButton::Deny, true, true), ReviewPlan::Deny);
    assert_eq!(review_plan(RegistryButton::Unknown, true, true), ReviewPlan::Invalid);
}

#[test]
fn multi_key_map_insert_then_remove_restores() {
    let mut m: MultiKeyMap<u64, u32> = MultiKeyMap::new();
    m.insert(vec![1], 3);
    m.insert(vec![5], 4);
    assert_eq!(m.remove(&5), Some(4));
    assert_eq!(m.len(), 1);
    assert_eq!(m.get(&1), Some(&3));
}

#[test]
fn empty_or_wide_lengths_never_expire() {
    assert_eq!(parse_time_at("", 1234), 0);
    assert_eq!(parse_time_at("1é", 1234), 0);
    assert_eq!(warning_duration(""), Some(0));
    assert_eq!(warning_expiry(Some(String::new())), 0);
    assert_eq!(parse_time("5€".to_string()), 0);
}
