use boorubot::config::{config_locations, first_found, BooruConfig, Config};
use boorubot::interaction::{channel_allows_ecchi, followup, route, InteractionReturn, Route};
use boorubot::text::{chars_of, decimal_string, join, same_text, text_contains};

#[test]
fn decimal_strings() {
    assert_eq!(decimal_string(0), "0");
    assert_eq!(decimal_string(7), "7");
    assert_eq!(decimal_string(10), "10");
    assert_eq!(decimal_string(9051), "9051");
    assert_eq!(decimal_string(u32::MAX), "4294967295");
}

#[test]
fn contains_and_equality() {
    assert!(text_contains("hello world", "lo w"));
    assert!(text_contains("abc", ""));
    assert!(text_contains("abc", "abc"));
    assert!(!text_contains("abc", "abcd"));
    assert!(!text_contains("abc", "ac"));
    assert!(text_contains("héllo", "él"));
    assert!(same_text("ab", "ab"));
    assert!(!same_text("ab", "abc"));
    assert_eq!(chars_of("añb"), vec!['a', 'ñ', 'b']);
}

#[test]
fn joins() {
    let parts = vec!["a".to_string(), "".to_string(), "c".to_string()];
    assert_eq!(join(&parts, ", "), "a, , c");
    assert_eq!(join(&Vec::new(), "x"), "");
    assert_eq!(join(&vec!["one".to_string()], "x"), "one");
}

#[test]
fn routes() {
    assert!(matches!(route("help"), Route::Help));
    assert!(matches!(route("ping"), Route::Ping));
    assert!(matches!(route("booru"), Route::Booru));
    match route("boor") {
        Route::Unknown(InteractionReturn::Message(s)) => assert_eq!(s, "not implemented :("),
        _ => panic!("expected an unknown command"),
    }
}

#[test]
fn ecchi_channels() {
    assert!(channel_allows_ecchi("ecchi-pics", None));
    assert!(channel_allows_ecchi("general", Some("rules here; boorubot: ecchi")));
    assert!(!channel_allows_ecchi("general", Some("boorubot:ecchi")));
    assert!(!channel_allows_ecchi("general", None));
    assert!(!channel_allows_ecchi("Ecchi", Some("")));
}

#[test]
fn followups() {
    assert_eq!(followup(InteractionReturn::Message("hi".to_string())), Some((false, "hi".to_string())));
    assert_eq!(followup(InteractionReturn::SilentMessage("psst".to_string())), Some((true, "psst".to_string())));
    assert_eq!(followup(InteractionReturn::Raw()), None);
    assert_eq!(followup(InteractionReturn::Embed(serenity::builder::CreateEmbed::default())), None);
}

#[test]
fn configuration() {
    assert_eq!(
        config_locations(),
        vec![
            "./config.toml".to_string(),
            "$HOME/.config/boorubot.toml".to_string(),
            "$HOME/.config/boorubot/config.toml".to_string(),
        ]
    );
    let mut config = Config::default();
    assert!(config.token.is_none());
    assert!(config.booru_config.blacklist.is_empty());
    assert_eq!(config.token_for(None), None);
    assert_eq!(config.token_for(Some("env".to_string())), Some("env".to_string()));
    config.token = Some("file".to_string());
    assert_eq!(config.token_for(None), Some("file".to_string()));
    assert_eq!(config.token_for(Some("env".to_string())), Some("env".to_string()));
    let b = BooruConfig::default();
    assert!(b.force_block.is_empty() && b.nsfw_tags.is_empty());
}

#[test]
fn first_existing_location() {
    assert_eq!(first_found(&vec![false, true, true]), Some(1));
    assert_eq!(first_found(&vec![true, false, true]), Some(0));
    assert_eq!(first_found(&vec![false, false, false]), None);
    assert_eq!(first_found(&Vec::new()), None);
}
