//! What a slash command receives and what it answers.

use vstd::prelude::*;
use crate::text::{seq_contains, text_contains};

verus! {

/// An embed built for Discord by serenity; the library only carries it through.
#[verifier::external_type_specification]
#[verifier::external_body]
pub struct ExCreateEmbed(serenity::builder::CreateEmbed);

/// The answer to an interaction.
pub enum InteractionReturn {
    /// A message that everybody in the channel sees.
    Message(String),
    /// A message that only the user who ran the command sees.
    SilentMessage(String),
    /// An embed.
    Embed(serenity::builder::CreateEmbed),
    /// No content.
    Raw(),
}

/// The model of an [`InteractionReturn`]: its kind and its text.
pub enum ReplyView {
    Message(Seq<char>),
    SilentMessage(Seq<char>),
    Embed,
    Raw,
}

impl View for InteractionReturn {
    type V = ReplyView;

    open spec fn view(&self) -> ReplyView {
        match self {
            InteractionReturn::Message(s) => ReplyView::Message(s@),
            InteractionReturn::SilentMessage(s) => ReplyView::SilentMessage(s@),
            InteractionReturn::Embed(_) => ReplyView::Embed,
            InteractionReturn::Raw() => ReplyView::Raw,
        }
    }
}

/// The value a user gave for an option of a slash command, as far as the commands read it.
pub enum OptionValue {
    String(String),
    Integer(i64),
    /// Any other kind of value (a user, a channel, a number, ...).
    Other,
}

/// One option of a slash command as Discord resolved it.
pub struct CommandOption {
    pub name: String,
    pub resolved: Option<OptionValue>,
}

/// The commands that the bot dispatches to.
pub enum Route {
    Help,
    Ping,
    Booru,
    /// A command that the bot does not know, with its answer.
    Unknown(InteractionReturn),
}

/// The model of a [`Route`].
pub enum RouteView {
    Help,
    Ping,
    Booru,
    Unknown(ReplyView),
}

impl View for Route {
    type V = RouteView;

    open spec fn view(&self) -> RouteView {
        match self {
            Route::Help => RouteView::Help,
            Route::Ping => RouteView::Ping,
            Route::Booru => RouteView::Booru,
            Route::Unknown(r) => RouteView::Unknown(r@),
        }
    }
}

/// Where a command of the given name goes.
pub open spec fn route_of(name: Seq<char>) -> RouteView {
    if name == "help"@ {
        RouteView::Help
    } else if name == "ping"@ {
        RouteView::Ping
    } else if name == "booru"@ {
        RouteView::Booru
    } else {
        RouteView::Unknown(ReplyView::Message("not implemented :("@))
    }
}

/// Chooses the command that handles an interaction named `name`.
pub fn route(name: &str) -> (r: Route)
    ensures
        r@ == route_of(name@),
{
    if crate::text::same_text(name, "help") {
        Route::Help
    } else if crate::text::same_text(name, "ping") {
        Route::Ping
    } else if crate::text::same_text(name, "booru") {
        Route::Booru
    } else {
        Route::Unknown(not_implemented())
    }
}

/// The answer to a command that this bot does not carry out.
pub fn not_implemented() -> (answer: InteractionReturn)
    ensures
        answer@ == ReplyView::Message("not implemented :("@),
{
    InteractionReturn::Message(String::from_str("not implemented :("))
}

/// A channel allows ecchi content when its name holds `ecchi`
/// or its topic holds `boorubot: ecchi`.
pub open spec fn allows_ecchi(name: Seq<char>, topic: Option<Seq<char>>) -> bool {
    seq_contains(name, "ecchi"@) || match topic {
        Some(t) => seq_contains(t, "boorubot: ecchi"@),
        None => false,
    }
}

/// The characters of an optional string.
pub open spec fn opt_text(s: Option<&str>) -> Option<Seq<char>> {
    match s {
        Some(t) => Some(t@),
        None => None,
    }
}

/// A channel allows ecchi content when its name holds `ecchi`, whatever its topic; when
/// its topic holds `boorubot: ecchi`, whatever its name; and in no other case.
pub proof fn law_ecchi_channel(name: Seq<char>, topic: Option<Seq<char>>, t: Seq<char>)
    ensures
        seq_contains(name, "ecchi"@) ==> allows_ecchi(name, topic),
        seq_contains(t, "boorubot: ecchi"@) ==> allows_ecchi(name, Some(t)),
        (!seq_contains(name, "ecchi"@) && (forall|x: Seq<char>|
            topic == Some(x) ==> !seq_contains(x, "boorubot: ecchi"@))) ==> !allows_ecchi(
            name,
            topic,
        ),
{
}

/// Whether a channel with this name and topic allows ecchi content.
pub fn channel_allows_ecchi(name: &str, topic: Option<&str>) -> (allowed: bool)
    ensures
        allowed == allows_ecchi(name@, opt_text(topic)),
{
    if text_contains(name, "ecchi") {
        true
    } else {
        match topic {
            Some(t) => text_contains(t, "boorubot: ecchi"),
            None => false,
        }
    }
}

/// How an answer goes out as a follow-up message: whether only the user sees it,
/// and its text. Embeds and empty answers have no follow-up form.
pub fn followup(content: InteractionReturn) -> (out: Option<(bool, String)>)
    ensures
        match content@ {
            ReplyView::Message(s) => out matches Some((silent, t)) && !silent && t@ == s,
            ReplyView::SilentMessage(s) => out matches Some((silent, t)) && silent && t@ == s,
            _ => out is None,
        },
{
    match content {
        InteractionReturn::Message(data) => Some((false, data)),
        InteractionReturn::SilentMessage(data) => Some((true, data)),
        _ => None,
    }
}


/// The kind of value that an option of a slash command takes.
#[derive(PartialEq, Eq, Structural, Clone, Copy)]
pub enum OptionKind {
    String,
    Integer,
}

/// A fixed choice of a string option: the name shown and the value sent.
pub struct StringChoice {
    pub name: String,
    pub value: String,
}

/// The declaration of an option of a slash command.
pub struct OptionDeclaration {
    pub name: String,
    pub description: String,
    pub kind: OptionKind,
    pub choices: Vec<StringChoice>,
}

/// The declaration of a slash command, as it is registered with Discord.
pub struct ApplicationCommand {
    pub name: String,
    pub description: String,
    pub options: Vec<OptionDeclaration>,
}

/// The model of an [`OptionDeclaration`]; each choice is a pair of name and value.
pub struct OptionDeclarationView {
    pub name: Seq<char>,
    pub description: Seq<char>,
    pub kind: OptionKind,
    pub choices: Seq<(Seq<char>, Seq<char>)>,
}

/// The model of an [`ApplicationCommand`].
pub struct ApplicationCommandView {
    pub name: Seq<char>,
    pub description: Seq<char>,
    pub options: Seq<OptionDeclarationView>,
}

impl View for OptionDeclaration {
    type V = OptionDeclarationView;

    open spec fn view(&self) -> OptionDeclarationView {
        OptionDeclarationView {
            name: self.name@,
            description: self.description@,
            kind: self.kind,
            choices: self.choices@.map_values(|c: StringChoice| (c.name@, c.value@)),
        }
    }
}

impl View for ApplicationCommand {
    type V = ApplicationCommandView;

    open spec fn view(&self) -> ApplicationCommandView {
        ApplicationCommandView {
            name: self.name@,
            description: self.description@,
            options: self.options@.map_values(|o: OptionDeclaration| o@),
        }
    }
}

/// An option without fixed choices, as a model.
pub open spec fn plain_option(name: Seq<char>, description: Seq<char>, kind: OptionKind) -> OptionDeclarationView {
    OptionDeclarationView { name, description, kind, choices: Seq::empty() }
}

impl ApplicationCommand {
    /// A declaration with no name, no description and no options.
    pub fn new() -> (c: Self)
        ensures
            c@ == (ApplicationCommandView {
                name: Seq::empty(),
                description: Seq::empty(),
                options: Seq::empty(),
            }),
    {
        let c = ApplicationCommand { name: String::new(), description: String::new(), options: Vec::new() };
        assert(c@.options =~= Seq::<OptionDeclarationView>::empty());
        c
    }

    /// Adds an option at the end of the command's options.
    pub fn add_option(&mut self, option: OptionDeclaration)
        ensures
            final(self)@ == (ApplicationCommandView {
                options: old(self)@.options.push(option@),
                ..old(self)@
            }),
    {
        self.options.push(option);
        assert(self@.options =~= old(self)@.options.push(option@));
    }
}

/// An option without fixed choices.
pub fn plain_option_declaration(name: &str, description: &str, kind: OptionKind) -> (o: OptionDeclaration)
    ensures
        o@ == plain_option(name@, description@, kind),
{
    let o = OptionDeclaration {
        name: String::from_str(name),
        description: String::from_str(description),
        kind,
        choices: Vec::new(),
    };
    assert(o@.choices =~= Seq::<(Seq<char>, Seq<char>)>::empty());
    o
}

} // verus!
