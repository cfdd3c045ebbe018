use boorubot::commands::booru::{self, exclusion, BooruStep};
use boorubot::config::BooruConfig;
use boorubot::interaction::{CommandOption, OptionValue};

fn config() -> BooruConfig {
    BooruConfig {
        blacklist: vec!["guro".to_string()],
        force_block: vec!["spider".to_string()],
        nsfw_tags: vec!["nude".to_string()],
    }
}

fn tags(value: &str) -> CommandOption {
    CommandOption { name: "tags".to_string(), resolved: Some(OptionValue::String(value.to_string())) }
}

#[test]
fn searches_never_carry_rejected_tags() {
    for input in ["guro", "x spider", "nude", "cat", "a_guro_b"] {
        for nsfw in [false, true] {
            if let BooruStep::Search(q) = booru::run(&[tags(input)], &config(), nsfw, false) {
                assert!(!q.tags.contains("guro") && !q.tags.contains("spider"));
                if !nsfw {
                    assert!(!q.tags.contains("nude"));
                }
            }
        }
    }
}

#[test]
fn searches_always_exclude_listed_tags() {
    for (nsfw, ecchi) in [(false, false), (false, true), (true, false), (true, true)] {
        match booru::run(&[tags("cat")], &config(), nsfw, ecchi) {
            BooruStep::Search(q) => {
                let words: Vec<&str> = q.master_exclude.split(' ').collect();
                assert!(words.contains(&"-guro"));
                assert!(words.contains(&"-spider"));
                assert_eq!(words.contains(&"-nude"), !nsfw);
            },
            _ => panic!("expected a search"),
        }
    }
}

#[test]
fn sfw_searches_never_ask_for_explicit_ratings() {
    for rating in ["rating:general", "rating:sensitive", "rating:questionable", "rating:explicit"] {
        let options = vec![CommandOption {
            name: "rating".to_string(),
            resolved: Some(OptionValue::String(rating.to_string())),
        }];
        for ecchi in [false, true] {
            if let BooruStep::Search(q) = booru::run(&options, &config(), false, ecchi) {
                assert!(q.rating != "rating:questionable" && q.rating != "rating:explicit");
                if !ecchi {
                    assert!(q.rating != "rating:sensitive");
                }
            }
        }
    }
}

#[test]
fn exclusion_negates_each_word() {
    assert_eq!(exclusion("red blue green"), " -red -blue -green");
    assert_eq!(exclusion("solo"), " -solo");
}

#[test]
fn searches_ask_for_at_most_five_images() {
    for n in [-7, 0, 1, 4, 5, 6, 100, i64::MAX] {
        let options = vec![CommandOption { name: "count".to_string(), resolved: Some(OptionValue::Integer(n)) }];
        match booru::run(&options, &config(), true, false) {
            BooruStep::Search(q) => {
                assert!(q.count <= 5);
                assert!(q.limit().map_or(true, |l| l <= 5));
            },
            _ => panic!("expected a search"),
        }
    }
}

#[test]
fn declared_booru_options_are_accepted() {
    let mut command = boorubot::interaction::ApplicationCommand::new();
    booru::register(&mut command);
    for declared in &command.options {
        for value in [
            None,
            Some(OptionValue::String("x".to_string())),
            Some(OptionValue::Integer(2)),
            Some(OptionValue::Other),
        ] {
            let options = vec![CommandOption { name: declared.name.clone(), resolved: value }];
            match booru::run(&options, &config(), true, true) {
                BooruStep::Reply(boorubot::interaction::InteractionReturn::Message(s)) => {
                    assert_ne!(s, "Invalid option")
                },
                _ => {},
            }
        }
    }
}

#[test]
fn declared_help_option_is_accepted() {
    let mut command = boorubot::interaction::ApplicationCommand::new();
    boorubot::commands::help::register(&mut command);
    let name = command.options[0].name.clone();
    let options = vec![
        CommandOption { name: name.clone(), resolved: None },
        CommandOption { name, resolved: Some(OptionValue::String("ping".to_string())) },
    ];
    match boorubot::commands::help::run(&options, &config()) {
        boorubot::interaction::InteractionReturn::SilentMessage(s) => {
            assert_eq!(s, "No help for this module.")
        },
        _ => panic!("expected the help of ping"),
    }
}
