use boorubot::commands::help;
use boorubot::config::BooruConfig;
use boorubot::interaction::{ApplicationCommand, CommandOption, InteractionReturn, OptionKind, OptionValue};

fn config() -> BooruConfig {
    BooruConfig { blacklist: Vec::new(), force_block: vec!["gore".to_string()], nsfw_tags: Vec::new() }
}

fn module(value: &str) -> CommandOption {
    CommandOption { name: "module".to_string(), resolved: Some(OptionValue::String(value.to_string())) }
}

fn silent(answer: InteractionReturn) -> String {
    match answer {
        InteractionReturn::SilentMessage(s) => s,
        _ => panic!("expected a silent message"),
    }
}

#[test]
fn help_text() {
    assert_eq!(help::help(), "`/help` - Bot help and info\n\nRun `/help module` to get started");
}

#[test]
fn no_module_lists_modules() {
    match help::run(&[], &config()) {
        InteractionReturn::Message(s) => {
            assert_eq!(s, "What module do you want help with?\n\nmodules:\n- help\n- ping\n- booru")
        },
        _ => panic!("expected a message"),
    }
}

#[test]
fn module_help() {
    assert_eq!(silent(help::run(&[module("help")], &config())), help::help());
    assert_eq!(silent(help::run(&[module("ping")], &config())), "No help for this module.");
    assert_eq!(silent(help::run(&[module("booru")], &config())), boorubot::commands::booru::help(&config()));
    assert_eq!(silent(help::run(&[module("nope")], &config())), "Invalid module name.");
}

#[test]
fn other_arguments_are_refused() {
    let options = vec![CommandOption { name: "topic".to_string(), resolved: None }, module("help")];
    assert_eq!(silent(help::run(&options, &config())), "Invalid argument.");
}

#[test]
fn module_without_text_is_skipped() {
    let options = vec![
        CommandOption { name: "module".to_string(), resolved: Some(OptionValue::Integer(3)) },
        module("ping"),
    ];
    assert_eq!(silent(help::run(&options, &config())), "No help for this module.");
    let options = vec![CommandOption { name: "module".to_string(), resolved: None }];
    assert!(matches!(help::run(&options, &config()), InteractionReturn::Message(_)));
}

#[test]
fn help_register_declares_module_option() {
    let mut command = ApplicationCommand::new();
    help::register(&mut command);
    assert_eq!(command.name, "help");
    assert_eq!(command.description, "Get help");
    assert_eq!(command.options.len(), 1);
    assert_eq!(command.options[0].name, "module");
    assert_eq!(command.options[0].description, "Module for help");
    assert!(command.options[0].kind == OptionKind::String);
    assert!(command.options[0].choices.is_empty());
}

#[test]
fn completion_accepts_module_options() {
    help::completion(&[module("help"), module("x")]);
    help::completion(&[]);
}
