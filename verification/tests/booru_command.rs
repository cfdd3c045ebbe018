use boorubot::commands::booru::{
    self, exclusion, invert_tags_and_stringify, respond, BooruStep, Post, SearchRequest,
};
use boorubot::config::BooruConfig;
use boorubot::interaction::{
    ApplicationCommand, CommandOption, InteractionReturn, OptionKind, OptionValue,
};

fn strings(items: &[&str]) -> Vec<String> {
    items.iter().map(|s| s.to_string()).collect()
}

fn config() -> BooruConfig {
    BooruConfig {
        blacklist: strings(&["loli", "gore"]),
        force_block: strings(&["spider"]),
        nsfw_tags: strings(&["nude", "sex"]),
    }
}

fn text_option(name: &str, value: &str) -> CommandOption {
    CommandOption { name: name.to_string(), resolved: Some(OptionValue::String(value.to_string())) }
}

fn int_option(name: &str, value: i64) -> CommandOption {
    CommandOption { name: name.to_string(), resolved: Some(OptionValue::Integer(value)) }
}

fn other_option(name: &str) -> CommandOption {
    CommandOption { name: name.to_string(), resolved: Some(OptionValue::Other) }
}

fn silent(step: BooruStep) -> String {
    match step {
        BooruStep::Reply(InteractionReturn::SilentMessage(s)) => s,
        _ => panic!("expected a silent message"),
    }
}

fn message(step: BooruStep) -> String {
    match step {
        BooruStep::Reply(InteractionReturn::Message(s)) => s,
        _ => panic!("expected a message"),
    }
}

fn search(step: BooruStep) -> SearchRequest {
    match step {
        BooruStep::Search(q) => q,
        _ => panic!("expected a search"),
    }
}

#[test]
fn invert_tags_prefixes_each_tag() {
    assert_eq!(invert_tags_and_stringify(strings(&["a", "b_c"])), "-a -b_c");
    assert_eq!(invert_tags_and_stringify(strings(&["solo"])), "-solo");
    assert_eq!(invert_tags_and_stringify(Vec::new()), "");
}

#[test]
fn blacklisted_tags_are_refused() {
    let options = vec![text_option("tags", "cat_ears loli gore")];
    let answer = silent(booru::run(&options, &config(), true, false));
    assert_eq!(answer, "Your search includes tags that would violate discord's ToS: `loli` `gore`");
}

#[test]
fn blacklist_matches_inside_words() {
    let options = vec![text_option("tags", "lolita_fashion")];
    let answer = silent(booru::run(&options, &config(), true, true));
    assert_eq!(answer, "Your search includes tags that would violate discord's ToS: `loli`");
}

#[test]
fn blocked_tags_are_refused() {
    let options = vec![text_option("tags", "spider_man")];
    let answer = silent(booru::run(&options, &config(), true, false));
    assert_eq!(
        answer,
        "Your search includes tags that have been blocked by the bot operator: spider\nContact them if you believe this is in error."
    );
}

#[test]
fn nsfw_tags_are_refused_in_sfw_channels() {
    let options = vec![text_option("tags", "nude sex beach")];
    let answer = silent(booru::run(&options, &config(), false, true));
    assert_eq!(
        answer,
        "You're using NSFW tags in a SFW channel: nude` `sex\nEither move to a NSFW channel or remove those tags"
    );
}

#[test]
fn nsfw_tags_pass_in_nsfw_channels() {
    let options = vec![text_option("tags", "nude beach")];
    let q = search(booru::run(&options, &config(), true, false));
    assert_eq!(q.tags, "nude beach");
    assert_eq!(q.master_exclude, "-loli -gore -spider");
}

#[test]
fn defaults_without_options() {
    let q = search(booru::run(&[], &config(), true, false));
    assert_eq!(q.tags, "");
    assert_eq!(q.exclude, "");
    assert_eq!(q.rating, "");
    assert_eq!(q.count, 1);
    assert_eq!(q.user_input(), " ");
    assert_eq!(q.limit(), Some(1));
}

#[test]
fn sfw_channel_excludes_nsfw_tags_twice_without_ecchi() {
    let q = search(booru::run(&[], &config(), false, false));
    assert_eq!(q.master_exclude, "-loli -gore -spider -nude -sex -nude -sex");
}

#[test]
fn ecchi_channel_excludes_nsfw_tags_once() {
    let q = search(booru::run(&[], &config(), false, true));
    assert_eq!(q.master_exclude, "-loli -gore -spider -nude -sex");
}

#[test]
fn exclude_option_negates_each_word() {
    let options = vec![text_option("exclude", "dog cat"), text_option("exclude", "bird")];
    let q = search(booru::run(&options, &config(), true, false));
    assert_eq!(q.exclude, " -dog -cat -bird");
    assert_eq!(exclusion("a  b"), " -a - -b");
    assert_eq!(exclusion(""), " -");
}

#[test]
fn full_search_request() {
    let options = vec![
        text_option("tags", "cat_ears"),
        text_option("exclude", "dog"),
        text_option("rating", "rating:general"),
        int_option("count", 3),
    ];
    let q = search(booru::run(&options, &config(), false, false));
    assert_eq!(q.user_input(), "cat_ears -dog rating:general");
    assert_eq!(q.limit(), Some(3));
}

#[test]
fn later_options_override_earlier_ones() {
    let options = vec![
        text_option("rating", "rating:general"),
        text_option("rating", "rating:sensitive"),
        int_option("count", 2),
        int_option("count", 5),
    ];
    let q = search(booru::run(&options, &config(), true, false));
    assert_eq!(q.rating, "rating:sensitive");
    assert_eq!(q.count, 5);
}

#[test]
fn sensitive_rating_needs_ecchi_in_sfw_channels() {
    let options = vec![text_option("rating", "rating:sensitive")];
    let answer = silent(booru::run(&options, &config(), false, false));
    assert!(answer.starts_with("Rating `sensitive` has been disabled in SFW channels"));
    let q = search(booru::run(&options, &config(), false, true));
    assert_eq!(q.rating, "rating:sensitive");
}

#[test]
fn explicit_ratings_only_in_nsfw_channels() {
    for rating in ["rating:questionable", "rating:explicit"] {
        let options = vec![text_option("rating", rating)];
        for ecchi in [false, true] {
            let answer = silent(booru::run(&options, &config(), false, ecchi));
            assert_eq!(answer, "Ratings `Questionable` and `Explicit` are only allowed in NSFW channels!");
        }
        let q = search(booru::run(&options, &config(), true, false));
        assert_eq!(q.rating, rating);
    }
}

#[test]
fn wrong_value_kinds_are_answered() {
    let config = config();
    assert_eq!(
        silent(booru::run(&[other_option("tags")], &config, true, false)),
        "Couldn't parse value in option `tags`, is it valid?"
    );
    assert_eq!(
        silent(booru::run(&[int_option("exclude", 1)], &config, true, false)),
        "Couldn't parse value in option `exclude`, is it valid?"
    );
    assert_eq!(
        message(booru::run(&[int_option("rating", 1)], &config, true, false)),
        "This shouldn't happen, is discord drunk?"
    );
    assert_eq!(message(booru::run(&[text_option("count", "2")], &config, true, false)), "what?");
    assert_eq!(message(booru::run(&[text_option("size", "2")], &config, true, false)), "Invalid option");
}

#[test]
fn options_without_value_change_nothing() {
    let options = vec![CommandOption { name: "tags".to_string(), resolved: None }];
    let q = search(booru::run(&options, &config(), true, false));
    assert_eq!(q.tags, "");
}

#[test]
fn first_refusal_wins() {
    let options = vec![text_option("bogus", "x"), text_option("tags", "loli")];
    assert_eq!(message(booru::run(&options, &config(), true, false)), "Invalid option");
}

#[test]
fn count_is_at_most_five() {
    for (given, kept) in [(10, 5), (5, 5), (3, 3), (i64::MAX, 5), (0, 0), (-4, -4)] {
        let q = search(booru::run(&[int_option("count", given)], &config(), true, false));
        assert_eq!(q.count, kept);
    }
}

#[test]
fn limit_for_every_count() {
    let mut q = search(booru::run(&[], &config(), true, false));
    for (count, limit) in [(1, Some(1)), (5, Some(5)), (9, Some(5)), (0, Some(0)), (-1, None), (i64::MIN, None)] {
        q.count = count;
        assert_eq!(q.limit(), limit);
    }
    let q = search(booru::run(&[int_option("count", 10)], &config(), true, false));
    assert_eq!(q.limit(), Some(5));
    let q = search(booru::run(&[int_option("count", -3)], &config(), true, false));
    assert_eq!(q.limit(), None);
}

#[test]
fn respond_lists_posts() {
    let posts = vec![
        Post {
            id: 123,
            created_at: "Mon Jan 01".to_string(),
            file_url: "https://img/a.png".to_string(),
            tags: "cat".to_string(),
            rating: "general".to_string(),
        },
        Post {
            id: 0,
            created_at: "Tue".to_string(),
            file_url: "u".to_string(),
            tags: "".to_string(),
            rating: "sensitive".to_string(),
        },
    ];
    match respond(Some(posts)) {
        InteractionReturn::Message(s) => assert_eq!(
            s,
            "Post: <https://gelbooru.com/index.php?page=post&s=view&id=123>\nCreated at: Mon Jan 01\nRating: general\nhttps://img/a.png\n\nPost: <https://gelbooru.com/index.php?page=post&s=view&id=0>\nCreated at: Tue\nRating: sensitive\nu\n\n"
        ),
        _ => panic!("expected a message"),
    }
    match respond(Some(Vec::new())) {
        InteractionReturn::Message(s) => assert_eq!(s, ""),
        _ => panic!("expected a message"),
    }
}

#[test]
fn respond_reports_failure() {
    match respond(None) {
        InteractionReturn::SilentMessage(s) => {
            assert_eq!(s, "Error in trying to get post data, check your tags and try again")
        },
        _ => panic!("expected a silent message"),
    }
}

#[test]
fn booru_help_names_blocked_tags() {
    let text = booru::help(&config());
    assert!(text.starts_with("`/booru` - Get an image from gelbooru\n\nOptions:"));
    assert!(text.ends_with(
        "Additionally we block all images tagged with `spider` from our results due to discord ToS and community guidelines, this can not be disabled."
    ));
    let two = BooruConfig { blacklist: Vec::new(), force_block: strings(&["a", "b"]), nsfw_tags: Vec::new() };
    assert!(booru::help(&two).contains("tagged with `a b` from our results"));
}

#[test]
fn booru_register_declares_four_options() {
    let mut command = ApplicationCommand::new();
    booru::register(&mut command);
    assert_eq!(command.name, "booru");
    assert_eq!(command.description, "Get a booru image");
    let names: Vec<&str> = command.options.iter().map(|o| o.name.as_str()).collect();
    assert_eq!(names, vec!["tags", "exclude", "rating", "count"]);
    assert!(command.options[3].kind == OptionKind::Integer);
    assert!(command.options[0].kind == OptionKind::String);
    let choices: Vec<(&str, &str)> = command.options[2]
        .choices
        .iter()
        .map(|c| (c.name.as_str(), c.value.as_str()))
        .collect();
    assert_eq!(
        choices,
        vec![
            ("general", "rating:general"),
            ("sensitive", "rating:sensitive"),
            ("questionable", "rating:questionable"),
            ("explicit", "rating:explicit"),
        ]
    );
    assert_eq!(command.options[1].description, "tags to exclude");
}
