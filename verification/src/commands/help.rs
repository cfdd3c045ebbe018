//! The `/help` command.

use vstd::prelude::*;
use crate::config::BooruConfig;
use crate::interaction::{
    plain_option, plain_option_declaration, ApplicationCommand, ApplicationCommandView,
    CommandOption, InteractionReturn, OptionKind, OptionValue, ReplyView,
};
use crate::text::{same_text, seq_contains, texts};

verus! {

/// The help text of `/help`.
pub const HELP_TEXT: &'static str = "`/help` - Bot help and info

Run `/help module` to get started";

/// The answer when no module was named.
pub const MODULE_MENU: &'static str = "What module do you want help with?

modules:
- help
- ping
- booru";

/// The help of a module that has none.
pub const NO_HELP: &'static str = "No help for this module.";

/// The answer to a module that does not exist.
pub const BAD_MODULE: &'static str = "Invalid module name.";

/// The answer to an option that `/help` does not have.
pub const BAD_ARGUMENT: &'static str = "Invalid argument.";

/// The help of the module named `module`.
pub open spec fn module_help(module: Seq<char>, force_block: Seq<Seq<char>>) -> ReplyView {
    if module == "help"@ {
        ReplyView::SilentMessage(HELP_TEXT@)
    } else if module == "ping"@ {
        ReplyView::SilentMessage(NO_HELP@)
    } else if module == "booru"@ {
        ReplyView::SilentMessage(crate::commands::booru::help_text(force_block))
    } else {
        ReplyView::SilentMessage(BAD_MODULE@)
    }
}

/// The answer to `/help` with these options: the first `module` option that holds a
/// string names the module; any option of another name ends the command; without
/// either, the list of modules.
pub open spec fn help_outcome(options: Seq<CommandOption>, force_block: Seq<Seq<char>>) -> ReplyView
    decreases options.len(),
{
    if options.len() == 0 {
        ReplyView::Message(MODULE_MENU@)
    } else if options[0].name@ == "module"@ {
        match options[0].resolved {
            Some(OptionValue::String(input)) => module_help(input@, force_block),
            _ => help_outcome(options.drop_first(), force_block),
        }
    } else {
        ReplyView::SilentMessage(BAD_ARGUMENT@)
    }
}

/// The help text of `/help`.
pub fn help() -> (text: String)
    ensures
        text@ == HELP_TEXT@,
{
    String::from_str(HELP_TEXT)
}

/// Answers `/help` with these options; the blocked tags of `config` go into the help of
/// `/booru`.
pub fn run(options: &[CommandOption], config: &BooruConfig) -> (answer: InteractionReturn)
    ensures
        answer@ == help_outcome(options@, texts(config.force_block@)),
{
    let ghost opts = options@;
    let ghost fb = texts(config.force_block@);
    assert(opts.skip(0) =~= opts);
    for i in 0..options.len()
        invariant
            opts == options@,
            fb == texts(config.force_block@),
            help_outcome(opts, fb) == help_outcome(opts.skip(i as int), fb),
    {
        assert(opts.skip(i as int)[0] == opts[i as int]);
        assert(opts.skip(i as int).drop_first() =~= opts.skip(i + 1));
        let option = &options[i];
        if same_text(option.name.as_str(), "module") {
            match &option.resolved {
                Some(OptionValue::String(input)) => {
                    let text = if same_text(input.as_str(), "help") {
                        help()
                    } else if same_text(input.as_str(), "ping") {
                        String::from_str(NO_HELP)
                    } else if same_text(input.as_str(), "booru") {
                        crate::commands::booru::help(config)
                    } else {
                        String::from_str(BAD_MODULE)
                    };
                    return InteractionReturn::SilentMessage(text);
                },
                _ => {},
            }
        } else {
            return InteractionReturn::SilentMessage(String::from_str(BAD_ARGUMENT));
        }
    }
    assert(opts.skip(opts.len() as int) =~= Seq::<CommandOption>::empty());
    InteractionReturn::Message(String::from_str(MODULE_MENU))
}

/// `command` declared as `/help`: its name and description set, and its `module`
/// option added after those it had.
pub open spec fn help_command(command: ApplicationCommandView) -> ApplicationCommandView {
    ApplicationCommandView {
        name: "help"@,
        description: "Get help"@,
        options: command.options.push(
            plain_option("module"@, "Module for help"@, OptionKind::String),
        ),
    }
}

/// Declares the `/help` command in `command`.
pub fn register(command: &mut ApplicationCommand) -> (ret: &mut ApplicationCommand)
    ensures
        ret@ == help_command(old(command)@),
        *final(command) == *final(ret),
{
    command.name = String::from_str("help");
    command.description = String::from_str("Get help");
    command.add_option(plain_option_declaration("module", "Module for help", OptionKind::String));
    command
}

/// Autocompletion of `/help`: it knows the `module` option only, and must not be
/// given any other.
pub fn completion(options: &[CommandOption])
    requires
        forall|i: int| 0 <= i < options@.len() ==> #[trigger] options@[i].name@ == "module"@,
{
    for i in 0..options.len()
        invariant
            forall|k: int| 0 <= k < options@.len() ==> #[trigger] options@[k].name@ == "module"@,
    {
        assert(options@[i as int].name@ == "module"@);
    }
}


/// `answer` is the help of the module that `option` names.
pub open spec fn names_module(option: CommandOption, answer: ReplyView, force_block: Seq<Seq<char>>) -> bool {
    match option.resolved {
        Some(OptionValue::String(input)) => answer == module_help(input@, force_block),
        _ => false,
    }
}

/// `/help` accepts the one option that `register` declares: when every option carries
/// that name, the answer is the list of modules or the help of a module named by one of
/// the options, never the refusal of an argument.
pub proof fn law_declared_option_accepted(
    command: ApplicationCommandView,
    options: Seq<CommandOption>,
    force_block: Seq<Seq<char>>,
)
    requires
        forall|i: int|
            0 <= i < options.len() ==> (#[trigger] options[i]).name@ == help_command(
                command,
            ).options.last().name,
    ensures
        help_outcome(options, force_block) == ReplyView::Message(MODULE_MENU@) || exists|i: int|
            0 <= i < options.len() && names_module(
                #[trigger] options[i],
                help_outcome(options, force_block),
                force_block,
            ),
    decreases options.len(),
{
    if options.len() > 0 {
        let rest = options.drop_first();
        assert forall|i: int| 0 <= i < rest.len() implies (#[trigger] rest[i]).name@
            == help_command(command).options.last().name by {
            assert(rest[i] == options[i + 1]);
        }
        law_declared_option_accepted(command, rest, force_block);
        assert(options[0].name@ == "module"@);
        match options[0].resolved {
            Some(OptionValue::String(input)) => {
                assert(names_module(options[0], help_outcome(options, force_block), force_block));
            },
            _ => {
                if help_outcome(rest, force_block) != ReplyView::Message(MODULE_MENU@) {
                    let i = choose|i: int|
                        0 <= i < rest.len() && names_module(
                            #[trigger] rest[i],
                            help_outcome(rest, force_block),
                            force_block,
                        );
                    assert(rest[i] == options[i + 1]);
                }
            },
        }
    }
}


/// The help of the `booru` module is `/booru`'s own help for the whole list of blocked
/// tags, and so names every blocked tag.
pub proof fn law_booru_module_help(
    options: Seq<CommandOption>,
    input: String,
    force_block: Seq<Seq<char>>,
    k: int,
)
    requires
        options.len() > 0,
        options[0].name@ == "module"@,
        options[0].resolved == Some(OptionValue::String(input)),
        input@ == "booru"@,
    ensures
        help_outcome(options, force_block) == ReplyView::SilentMessage(
            crate::commands::booru::help_text(force_block),
        ),
        0 <= k < force_block.len() ==> seq_contains(
            crate::commands::booru::help_text(force_block),
            force_block[k],
        ),
{
    reveal_strlit("booru");
    reveal_strlit("help");
    reveal_strlit("ping");
    assert("booru"@.len() == 5 && "help"@.len() == 4 && "ping"@.len() == 4);
    assert("booru"@ != "help"@);
    assert("booru"@ != "ping"@);
    if 0 <= k < force_block.len() {
        crate::commands::booru::law_help_names_each_blocked_tag(force_block, k);
    }
}

} // verus!
