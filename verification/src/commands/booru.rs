//! The `/booru` command: checks the user's options against the tag lists, builds the
//! Gelbooru search, and turns the posts found into the answer.

use vstd::prelude::*;
use crate::config::BooruConfig;
use crate::interaction::{
    plain_option, plain_option_declaration, ApplicationCommand, ApplicationCommandView,
    CommandOption, InteractionReturn, OptionDeclaration, OptionDeclarationView, OptionKind,
    OptionValue, ReplyView, StringChoice,
};
use crate::text::{
    has_word, word_at, lemma_contains_middle, lemma_empty_contains_nothing, lemma_join_word, lemma_word_extend_left,
    lemma_word_extend_right, chars_of, decimal, decimal_string, join, push_char, same_text, seq_contains, seq_join,
    text_contains, texts,
};

verus! {

/// Start of the answer to tags that Discord's terms of service forbid.
pub const TOS_PREFIX: &'static str = "Your search includes tags that would violate discord's ToS: `";

/// End of the answer to tags that Discord's terms of service forbid.
pub const TOS_SUFFIX: &'static str = "`";

/// Start of the answer to tags that the operator blocked.
pub const BLOCKED_PREFIX: &'static str = "Your search includes tags that have been blocked by the bot operator: ";

/// End of the answer to tags that the operator blocked.
pub const BLOCKED_SUFFIX: &'static str = "\nContact them if you believe this is in error.";

/// Start of the answer to NSFW tags in a SFW channel.
pub const NSFW_PREFIX: &'static str = "You're using NSFW tags in a SFW channel: ";

/// End of the answer to NSFW tags in a SFW channel.
pub const NSFW_SUFFIX: &'static str = "\nEither move to a NSFW channel or remove those tags";

/// What stands between two offending tags in an answer.
pub const TAG_SEPARATOR: &'static str = "` `";

/// Answer to a `tags` option that is not a string.
pub const BAD_TAGS: &'static str = "Couldn't parse value in option `tags`, is it valid?";

/// Answer to an `exclude` option that is not a string.
pub const BAD_EXCLUDE: &'static str = "Couldn't parse value in option `exclude`, is it valid?";

/// Answer to a `rating` option that is not a string.
pub const BAD_RATING: &'static str = "This shouldn't happen, is discord drunk?";

/// Answer to a `count` option that is not an integer.
pub const BAD_COUNT: &'static str = "what?";

/// Answer to an option that the command does not have.
pub const BAD_OPTION: &'static str = "Invalid option";

/// Answer to the `sensitive` rating in a SFW channel that does not allow ecchi content.
pub const SENSITIVE_REFUSED: &'static str = "Rating `sensitive` has been disabled in SFW channels, please vote here https://discord.com/channels/1106263385588387850/1106263386376904777/1106271638191865906 if you want a say in this.";

/// Answer to the `questionable` and `explicit` ratings in a SFW channel.
pub const NSFW_RATING_REFUSED: &'static str = "Ratings `Questionable` and `Explicit` are only allowed in NSFW channels!";

/// Answer when Gelbooru could not be asked.
pub const FETCH_FAILED: &'static str = "Error in trying to get post data, check your tags and try again";

/// The most images a search asks for: the help text promises that `count` "accepts any
/// number, max of 5".
pub const MAX_IMAGES: i64 = 5;

/// First part of the help text, before the blocked tags.
pub const HELP_PREFIX: &'static str = "`/booru` - Get an image from gelbooru

Options:
- tags: a space separated list of tags to search for.
    any non blacklisted gelbooru tags are supported.
- exclude: a space separated list of tags to exclude.
    any gelbooru tag is supported
- rating: what rating the image should be.
    + `general` -> SFW
    + `sensitive` -> Ecchi/risqué (panty-shots, breasts, ass, ...)
    + `questionable` -> Non-genital nudity and suggestive content
    + `explicit` -> NSFW
    Read more here: <https://gelbooru.com/index.php?page=wiki&s=&s=view&id=2535>
- count: how many images to post
    accepts any number, max of 5 due to discord's link embed limit.

Note for moderators:
This command may produce sexual explicit material in SFW channels, while we try to do our best to filter this out; gelbooru's tag system is not perfect.
If ecchi/suggestive content (rating:`sensitive`) is desirable in a SFW channel either add `ecchi` in the channel name or `boorubot: ecchi` in the channel description, this will allow ecchi content while filtering NSFW.
Additionally we block all images tagged with `";

/// Last part of the help text, after the blocked tags.
pub const HELP_SUFFIX: &'static str = "` from our results due to discord ToS and community guidelines, this can not be disabled.";

/// Start of a post's entry in the answer, before the post's id.
pub const POST_URL: &'static str = "Post: <https://gelbooru.com/index.php?page=post&s=view&id=";

/// Between a post's id and its creation date.
pub const POST_CREATED: &'static str = ">\nCreated at: ";

/// Between a post's creation date and its rating.
pub const POST_RATING: &'static str = "\nRating: ";

/// End of a post's entry.
pub const POST_END: &'static str = "\n\n";

// ---------------------------------------------------------------------------
// The rules, as spec functions.

/// The tags of `tags`, in order and with repeats, that occur in `input`.
pub open spec fn tags_found(tags: Seq<Seq<char>>, input: Seq<char>) -> Seq<Seq<char>>
    decreases tags.len(),
{
    if tags.len() == 0 {
        Seq::empty()
    } else {
        tags_found(tags.drop_last(), input) + if seq_contains(input, tags.last()) {
            seq![tags.last()]
        } else {
            Seq::empty()
        }
    }
}

/// The answer that lists offending tags between a prefix and a suffix.
pub open spec fn listing(prefix: Seq<char>, found: Seq<Seq<char>>, suffix: Seq<char>) -> Seq<char> {
    prefix + seq_join(found, TAG_SEPARATOR@) + suffix
}

/// The refusal, if any, of the user's search tags `input`: tags of the blacklist first,
/// then tags that the operator blocked, then (in a SFW channel) NSFW tags.
pub open spec fn tags_refusal(input: Seq<char>, config: BooruConfig, allow_nsfw: bool) -> Option<
    ReplyView,
> {
    let illegal = tags_found(texts(config.blacklist@), input);
    let blocked = tags_found(texts(config.force_block@), input);
    let nsfw = tags_found(texts(config.nsfw_tags@), input);
    if illegal.len() > 0 {
        Some(ReplyView::SilentMessage(listing(TOS_PREFIX@, illegal, TOS_SUFFIX@)))
    } else if blocked.len() > 0 {
        Some(ReplyView::SilentMessage(listing(BLOCKED_PREFIX@, blocked, BLOCKED_SUFFIX@)))
    } else if !allow_nsfw && nsfw.len() > 0 {
        Some(ReplyView::SilentMessage(listing(NSFW_PREFIX@, nsfw, NSFW_SUFFIX@)))
    } else {
        None
    }
}

/// `s` with each space followed by a `-`.
pub open spec fn dash_spaces(s: Seq<char>) -> Seq<char>
    decreases s.len(),
{
    if s.len() == 0 {
        Seq::empty()
    } else {
        dash_spaces(s.drop_last()) + if s.last() == ' ' {
            seq![' ', '-']
        } else {
            seq![s.last()]
        }
    }
}

/// The search text that excludes every space-separated word of `input`:
/// ` -word` for each word, in order.
pub open spec fn exclusion_of(input: Seq<char>) -> Seq<char> {
    seq![' ', '-'] + dash_spaces(input)
}

/// The image count a search keeps of the count the user gave: at most [`MAX_IMAGES`].
pub open spec fn clamped_count(n: i64) -> i64 {
    if n > MAX_IMAGES {
        MAX_IMAGES
    } else {
        n
    }
}

/// What the options given so far have set.
pub struct OptionsRead {
    pub tags: Seq<char>,
    pub exclude: Seq<char>,
    pub rating: Seq<char>,
    pub count: i64,
}

/// Before any option: no tags, nothing excluded, no rating, one image.
pub open spec fn options_start() -> OptionsRead {
    OptionsRead { tags: Seq::empty(), exclude: Seq::empty(), rating: Seq::empty(), count: 1 }
}

/// The effect of one option: a new state, or the answer that ends the command.
pub open spec fn apply_option(
    st: OptionsRead,
    opt: CommandOption,
    config: BooruConfig,
    allow_nsfw: bool,
) -> Result<OptionsRead, ReplyView> {
    let name = opt.name@;
    if name == "tags"@ {
        match opt.resolved {
            Some(OptionValue::String(input)) => match tags_refusal(input@, config, allow_nsfw) {
                Some(r) => Err(r),
                None => Ok(OptionsRead { tags: input@, ..st }),
            },
            Some(_) => Err(ReplyView::SilentMessage(BAD_TAGS@)),
            None => Ok(st),
        }
    } else if name == "exclude"@ {
        match opt.resolved {
            Some(OptionValue::String(input)) => Ok(
                OptionsRead { exclude: st.exclude + exclusion_of(input@), ..st },
            ),
            Some(_) => Err(ReplyView::SilentMessage(BAD_EXCLUDE@)),
            None => Ok(st),
        }
    } else if name == "rating"@ {
        match opt.resolved {
            Some(OptionValue::String(input)) => Ok(OptionsRead { rating: input@, ..st }),
            Some(_) => Err(ReplyView::Message(BAD_RATING@)),
            None => Ok(st),
        }
    } else if name == "count"@ {
        match opt.resolved {
            Some(OptionValue::Integer(n)) => Ok(OptionsRead { count: clamped_count(n), ..st }),
            Some(_) => Err(ReplyView::Message(BAD_COUNT@)),
            None => Ok(st),
        }
    } else {
        Err(ReplyView::Message(BAD_OPTION@))
    }
}

/// The options read in order; the first answer that ends the command wins.
pub open spec fn read_options(
    options: Seq<CommandOption>,
    config: BooruConfig,
    allow_nsfw: bool,
) -> Result<OptionsRead, ReplyView>
    decreases options.len(),
{
    if options.len() == 0 {
        Ok(options_start())
    } else {
        match read_options(options.drop_last(), config, allow_nsfw) {
            Err(r) => Err(r),
            Ok(st) => apply_option(st, options.last(), config, allow_nsfw),
        }
    }
}

/// The refusal, if any, of a rating: none in a NSFW channel; in a SFW channel the
/// `questionable` and `explicit` ratings are refused, and `sensitive` too unless the
/// channel allows ecchi content.
pub open spec fn rating_refusal(rating: Seq<char>, allow_nsfw: bool, allow_ecchi: bool) -> Option<
    ReplyView,
> {
    if allow_nsfw {
        None
    } else if rating == "rating:questionable"@ || rating == "rating:explicit"@ {
        Some(ReplyView::SilentMessage(NSFW_RATING_REFUSED@))
    } else if !allow_ecchi && rating == "rating:sensitive"@ {
        Some(ReplyView::SilentMessage(SENSITIVE_REFUSED@))
    } else {
        None
    }
}

/// Each tag with a `-` in front.
pub open spec fn negated(tags: Seq<Seq<char>>) -> Seq<Seq<char>> {
    tags.map_values(|t: Seq<char>| seq!['-'] + t)
}

/// The search text that excludes each tag of `tags`.
pub open spec fn inverted(tags: Seq<Seq<char>>) -> Seq<char> {
    seq_join(negated(tags), " "@)
}

/// The exclusions that the bot adds to every search: the blacklist and the operator's
/// blocked tags always; in a SFW channel the NSFW tags as well (twice where the channel
/// does not allow ecchi content).
pub open spec fn master_exclude(config: BooruConfig, allow_nsfw: bool, allow_ecchi: bool) -> Seq<
    char,
> {
    let always = inverted(texts(config.blacklist@) + texts(config.force_block@));
    let nsfw = inverted(texts(config.nsfw_tags@));
    if allow_nsfw {
        always
    } else if allow_ecchi {
        always + " "@ + nsfw
    } else {
        always + " "@ + nsfw + " "@ + nsfw
    }
}

/// The model of a [`SearchRequest`].
pub struct SearchView {
    pub tags: Seq<char>,
    pub exclude: Seq<char>,
    pub rating: Seq<char>,
    pub count: i64,
    pub master_exclude: Seq<char>,
}

/// The model of a [`BooruStep`].
pub enum StepView {
    Reply(ReplyView),
    Search(SearchView),
}

/// What the command does with these options in a channel of this kind.
pub open spec fn booru_outcome(
    options: Seq<CommandOption>,
    config: BooruConfig,
    allow_nsfw: bool,
    allow_ecchi: bool,
) -> StepView {
    match read_options(options, config, allow_nsfw) {
        Err(r) => StepView::Reply(r),
        Ok(st) => match rating_refusal(st.rating, allow_nsfw, allow_ecchi) {
            Some(r) => StepView::Reply(r),
            None => StepView::Search(
                SearchView {
                    tags: st.tags,
                    exclude: st.exclude,
                    rating: st.rating,
                    count: st.count,
                    master_exclude: master_exclude(config, allow_nsfw, allow_ecchi),
                },
            ),
        },
    }
}


/// The model of an optional answer.
pub open spec fn reply_view(r: Option<InteractionReturn>) -> Option<ReplyView> {
    match r {
        Some(x) => Some(x@),
        None => None,
    }
}

/// Once the options read so far end the command, reading more options does not change that.
pub proof fn lemma_refusal_sticks(
    options: Seq<CommandOption>,
    config: BooruConfig,
    allow_nsfw: bool,
    i: int,
    j: int,
)
    requires
        0 <= i <= j <= options.len(),
        read_options(options.take(i), config, allow_nsfw) is Err,
    ensures
        read_options(options.take(j), config, allow_nsfw) == read_options(
            options.take(i),
            config,
            allow_nsfw,
        ),
    decreases j - i,
{
    if j > i {
        lemma_refusal_sticks(options, config, allow_nsfw, i, j - 1);
        assert(options.take(j).drop_last() =~= options.take(j - 1));
    }
}

// ---------------------------------------------------------------------------
// The command.

/// A Gelbooru search that the checks let through.
pub struct SearchRequest {
    /// The user's search tags.
    pub tags: String,
    /// The user's exclusions, ` -word` for each word.
    pub exclude: String,
    /// The rating the user asked for (empty for none).
    pub rating: String,
    /// How many images the user asked for, at most [`MAX_IMAGES`].
    pub count: i64,
    /// The exclusions that the bot adds to every search.
    pub master_exclude: String,
}

impl View for SearchRequest {
    type V = SearchView;

    open spec fn view(&self) -> SearchView {
        SearchView {
            tags: self.tags@,
            exclude: self.exclude@,
            rating: self.rating@,
            count: self.count,
            master_exclude: self.master_exclude@,
        }
    }
}

/// What the command does next: answer at once, or search Gelbooru.
pub enum BooruStep {
    Reply(InteractionReturn),
    Search(SearchRequest),
}

impl View for BooruStep {
    type V = StepView;

    open spec fn view(&self) -> StepView {
        match self {
            BooruStep::Reply(r) => StepView::Reply(r@),
            BooruStep::Search(q) => StepView::Search(q@),
        }
    }
}

/// The tags of `tags` that occur in `input`, in order.
fn found_tags(tags: &Vec<String>, input: &str) -> (found: Vec<String>)
    ensures
        texts(found@) == tags_found(texts(tags@), input@),
{
    let mut found: Vec<String> = Vec::new();
    let ghost all = texts(tags@);
    for i in 0..tags.len()
        invariant
            all == texts(tags@),
            texts(found@) == tags_found(all.take(i as int), input@),
    {
        assert(all.take(i + 1).drop_last() =~= all.take(i as int));
        assert(all.take(i + 1).last() == tags@[i as int]@);
        if text_contains(input, tags[i].as_str()) {
            let ghost before = found@;
            found.push(tags[i].clone());
            assert(texts(found@) =~= texts(before) + seq![tags@[i as int]@]);
        } else {
            assert(tags_found(all.take(i + 1), input@) =~= tags_found(all.take(i as int), input@));
        }
    }
    assert(all.take(tags.len() as int) =~= all);
    found
}

/// `prefix`, the tags joined by the tag separator, then `suffix`.
fn listing_text(prefix: &str, found: &Vec<String>, suffix: &str) -> (s: String)
    ensures
        s@ == listing(prefix@, texts(found@), suffix@),
{
    let mut s = String::from_str(prefix);
    let joined = join(found, TAG_SEPARATOR);
    s.append(joined.as_str());
    s.append(suffix);
    s
}

/// The refusal, if any, of the search tags `input`.
fn check_tags(input: &str, config: &BooruConfig, allow_nsfw: bool) -> (refusal: Option<
    InteractionReturn,
>)
    ensures
        reply_view(refusal) == tags_refusal(input@, *config, allow_nsfw),
{
    let illegal = found_tags(&config.blacklist, input);
    if illegal.len() > 0 {
        return Some(
            InteractionReturn::SilentMessage(listing_text(TOS_PREFIX, &illegal, TOS_SUFFIX)),
        );
    }
    let blocked = found_tags(&config.force_block, input);
    if blocked.len() > 0 {
        return Some(
            InteractionReturn::SilentMessage(
                listing_text(BLOCKED_PREFIX, &blocked, BLOCKED_SUFFIX),
            ),
        );
    }
    if !allow_nsfw {
        let nsfw = found_tags(&config.nsfw_tags, input);
        if nsfw.len() > 0 {
            return Some(
                InteractionReturn::SilentMessage(listing_text(NSFW_PREFIX, &nsfw, NSFW_SUFFIX)),
            );
        }
    }
    None
}

/// The search text that excludes each space-separated word of `input`.
pub fn exclusion(input: &str) -> (s: String)
    ensures
        s@ == exclusion_of(input@),
{
    let chars = chars_of(input);
    let mut s = String::new();
    push_char(&mut s, ' ');
    push_char(&mut s, '-');
    for i in 0..chars.len()
        invariant
            chars@ == input@,
            s@ == seq![' ', '-'] + dash_spaces(chars@.take(i as int)),
    {
        assert(chars@.take(i + 1).drop_last() =~= chars@.take(i as int));
        let c = chars[i];
        if c == ' ' {
            push_char(&mut s, ' ');
            push_char(&mut s, '-');
        } else {
            push_char(&mut s, c);
        }
        assert(s@ =~= seq![' ', '-'] + dash_spaces(chars@.take(i + 1)));
    }
    assert(chars@.take(chars.len() as int) =~= chars@);
    s
}

/// Used for creating a negative tag string from a vec with tags
pub fn invert_tags_and_stringify(tags: Vec<String>) -> (s: String)
    ensures
        s@ == inverted(texts(tags@)),
{
    let mut negative_tags: Vec<String> = Vec::new();
    for i in 0..tags.len()
        invariant
            negative_tags@.len() == i,
            forall|k: int|
                0 <= k < i ==> #[trigger] negative_tags@[k]@ == seq!['-'] + tags@[k]@,
    {
        let mut tag = String::new();
        push_char(&mut tag, '-');
        tag.append(tags[i].as_str());
        negative_tags.push(tag);
    }
    assert(texts(negative_tags@) =~= negated(texts(tags@)));
    join(&negative_tags, " ")
}

/// A copy of the tags of `tags`.
fn copy_tags(tags: &Vec<String>) -> (copy: Vec<String>)
    ensures
        copy@ == tags@,
{
    let mut copy: Vec<String> = Vec::new();
    for i in 0..tags.len()
        invariant
            copy@ == tags@.take(i as int),
    {
        copy.push(tags[i].clone());
        assert(copy@ =~= tags@.take(i + 1));
    }
    assert(tags@.take(tags.len() as int) =~= tags@);
    copy
}

/// The exclusions that the bot adds to every search in a channel of this kind.
fn master_exclusion(config: &BooruConfig, allow_nsfw: bool, allow_ecchi: bool) -> (s: String)
    ensures
        s@ == master_exclude(*config, allow_nsfw, allow_ecchi),
{
    let mut always = copy_tags(&config.blacklist);
    for i in 0..config.force_block.len()
        invariant
            always@ == config.blacklist@ + config.force_block@.take(i as int),
    {
        always.push(config.force_block[i].clone());
        assert(always@ =~= config.blacklist@ + config.force_block@.take(i + 1));
    }
    assert(config.force_block@.take(config.force_block.len() as int) =~= config.force_block@);
    assert(texts(always@) =~= texts(config.blacklist@) + texts(config.force_block@));
    let exclude_tags = invert_tags_and_stringify(always);
    if allow_nsfw {
        return exclude_tags;
    }
    let exclude_nsfw = invert_tags_and_stringify(copy_tags(&config.nsfw_tags));
    let mut s = exclude_tags;
    s.append(" ");
    s.append(exclude_nsfw.as_str());
    if !allow_ecchi {
        s.append(" ");
        s.append(exclude_nsfw.as_str());
    }
    s
}

/// The refusal, if any, of a rating in a channel of this kind.
fn check_rating(rating: &str, allow_nsfw: bool, allow_ecchi: bool) -> (refusal: Option<
    InteractionReturn,
>)
    ensures
        reply_view(refusal) == rating_refusal(rating@, allow_nsfw, allow_ecchi),
{
    if allow_nsfw {
        None
    } else if same_text(rating, "rating:questionable") || same_text(rating, "rating:explicit") {
        Some(InteractionReturn::SilentMessage(String::from_str(NSFW_RATING_REFUSED)))
    } else if !allow_ecchi && same_text(rating, "rating:sensitive") {
        Some(InteractionReturn::SilentMessage(String::from_str(SENSITIVE_REFUSED)))
    } else {
        None
    }
}

/// Reads the options of a `/booru` command given in a channel of this kind, and either
/// answers at once or says what to search for.
pub fn run(options: &[CommandOption], config: &BooruConfig, allow_nsfw: bool, allow_ecchi: bool) -> (step: BooruStep)
    ensures
        step@ == booru_outcome(options@, *config, allow_nsfw, allow_ecchi),
{
    let mut user_tags = String::new();
    let mut user_exclude = String::new();
    let mut user_rating = String::new();
    let mut user_count: i64 = 1;
    let ghost opts = options@;
    for i in 0..options.len()
        invariant
            opts == options@,
            read_options(opts.take(i as int), *config, allow_nsfw) == Ok::<OptionsRead, ReplyView>(
                OptionsRead {
                    tags: user_tags@,
                    exclude: user_exclude@,
                    rating: user_rating@,
                    count: user_count,
                },
            ),
    {
        assert(opts.take(i + 1).drop_last() =~= opts.take(i as int));
        assert(opts.take(i + 1).last() == opts[i as int]);
        let option = &options[i];
        let mut refusal: Option<InteractionReturn> = None;
        if same_text(option.name.as_str(), "tags") {
            match &option.resolved {
                Some(OptionValue::String(input)) => {
                    refusal = check_tags(input.as_str(), config, allow_nsfw);
                    if refusal.is_none() {
                        user_tags = input.clone();
                    }
                },
                Some(_) => {
                    refusal = Some(InteractionReturn::SilentMessage(String::from_str(BAD_TAGS)));
                },
                None => {},
            }
        } else if same_text(option.name.as_str(), "exclude") {
            match &option.resolved {
                Some(OptionValue::String(input)) => {
                    let ex = exclusion(input.as_str());
                    user_exclude.append(ex.as_str());
                },
                Some(_) => {
                    refusal = Some(
                        InteractionReturn::SilentMessage(String::from_str(BAD_EXCLUDE)),
                    );
                },
                None => {},
            }
        } else if same_text(option.name.as_str(), "rating") {
            match &option.resolved {
                Some(OptionValue::String(input)) => {
                    user_rating = input.clone();
                },
                Some(_) => {
                    refusal = Some(InteractionReturn::Message(String::from_str(BAD_RATING)));
                },
                None => {},
            }
        } else if same_text(option.name.as_str(), "count") {
            match &option.resolved {
                Some(OptionValue::Integer(n)) => {
                    user_count = if *n > MAX_IMAGES {
                        MAX_IMAGES
                    } else {
                        *n
                    };
                },
                Some(_) => {
                    refusal = Some(InteractionReturn::Message(String::from_str(BAD_COUNT)));
                },
                None => {},
            }
        } else {
            refusal = Some(InteractionReturn::Message(String::from_str(BAD_OPTION)));
        }
        match refusal {
            Some(r) => {
                proof {
                    lemma_refusal_sticks(opts, *config, allow_nsfw, i + 1, opts.len() as int);
                    assert(opts.take(opts.len() as int) =~= opts);
                }
                return BooruStep::Reply(r);
            },
            None => {},
        }
    }
    assert(opts.take(opts.len() as int) =~= opts);
    match check_rating(user_rating.as_str(), allow_nsfw, allow_ecchi) {
        Some(r) => BooruStep::Reply(r),
        None => {
            let master_exclude = master_exclusion(config, allow_nsfw, allow_ecchi);
            BooruStep::Search(
                SearchRequest {
                    tags: user_tags,
                    exclude: user_exclude,
                    rating: user_rating,
                    count: user_count,
                    master_exclude,
                },
            )
        },
    }
}


// ---------------------------------------------------------------------------
// The declaration of the command.

/// The `rating` option with its four choices, as a model.
pub open spec fn rating_option() -> OptionDeclarationView {
    OptionDeclarationView {
        name: "rating"@,
        description: "rating"@,
        kind: OptionKind::String,
        choices: seq![
            ("general"@, "rating:general"@),
            ("sensitive"@, "rating:sensitive"@),
            ("questionable"@, "rating:questionable"@),
            ("explicit"@, "rating:explicit"@),
        ],
    }
}

/// `command` declared as `/booru`: its name and description set, and its four options
/// added after those it had.
pub open spec fn booru_command(command: ApplicationCommandView) -> ApplicationCommandView {
    ApplicationCommandView {
        name: "booru"@,
        description: "Get a booru image"@,
        options: command.options + seq![
            plain_option("tags"@, "tags to search for"@, OptionKind::String),
            plain_option("exclude"@, "tags to exclude"@, OptionKind::String),
            rating_option(),
            plain_option("count"@, "amount of images"@, OptionKind::Integer),
        ],
    }
}

/// A choice of the `rating` option.
fn choice(name: &str, value: &str) -> (c: StringChoice)
    ensures
        c.name@ == name@,
        c.value@ == value@,
{
    StringChoice { name: String::from_str(name), value: String::from_str(value) }
}

/// Declares the `/booru` command in `command`.
pub fn register(command: &mut ApplicationCommand) -> (ret: &mut ApplicationCommand)
    ensures
        ret@ == booru_command(old(command)@),
        *final(command) == *final(ret),
{
    command.name = String::from_str("booru");
    command.description = String::from_str("Get a booru image");
    command.add_option(plain_option_declaration("tags", "tags to search for", OptionKind::String));
    command.add_option(plain_option_declaration("exclude", "tags to exclude", OptionKind::String));
    let mut choices: Vec<StringChoice> = Vec::new();
    choices.push(choice("general", "rating:general"));
    choices.push(choice("sensitive", "rating:sensitive"));
    choices.push(choice("questionable", "rating:questionable"));
    choices.push(choice("explicit", "rating:explicit"));
    let rating = OptionDeclaration {
        name: String::from_str("rating"),
        description: String::from_str("rating"),
        kind: OptionKind::String,
        choices,
    };
    assert(rating@ == rating_option()) by {
        assert(rating@.choices =~= rating_option().choices);
    }
    command.add_option(rating);
    command.add_option(plain_option_declaration("count", "amount of images", OptionKind::Integer));
    assert(command@.options =~= booru_command(old(command)@).options);
    command
}


// ---------------------------------------------------------------------------
// The search and its answer.

impl SearchRequest {
    /// The user's part of the search: tags, exclusions, a space, and the rating.
    pub fn user_input(&self) -> (s: String)
        ensures
            s@ == self.tags@ + self.exclude@ + " "@ + self.rating@,
    {
        let mut s = self.tags.clone();
        s.append(self.exclude.as_str());
        s.append(" ");
        s.append(self.rating.as_str());
        s
    }

    /// The number of posts to ask Gelbooru for: the count, at most [`MAX_IMAGES`], when it
    /// is zero or more (a count of zero asks for zero posts); `None` for a negative count,
    /// which no limit can carry, so that no request is made and the answer is that to an
    /// empty list of posts.
    pub fn limit(&self) -> (limit: Option<u32>)
        ensures
            match limit {
                Some(l) => self.count >= 0 && l == clamped_count(self.count),
                None => self.count < 0,
            },
    {
        if 0 <= self.count && self.count <= MAX_IMAGES {
            Some(self.count as u32)
        } else if self.count > MAX_IMAGES {
            Some(MAX_IMAGES as u32)
        } else {
            None
        }
    }
}

/// A post found on Gelbooru, as far as the answer and the log read it.
pub struct Post {
    pub id: u32,
    pub created_at: String,
    pub file_url: String,
    pub tags: String,
    pub rating: String,
}

/// The answer's entry for one post: its page, creation date, rating and file.
pub open spec fn post_entry(post: Post) -> Seq<char> {
    POST_URL@ + decimal(post.id as nat) + POST_CREATED@ + post.created_at@ + POST_RATING@
        + post.rating@ + "\n"@ + post.file_url@ + POST_END@
}

/// The entries of the posts, in order.
pub open spec fn posts_text(posts: Seq<Post>) -> Seq<char>
    decreases posts.len(),
{
    if posts.len() == 0 {
        Seq::empty()
    } else {
        posts_text(posts.drop_last()) + post_entry(posts.last())
    }
}

/// The answer to a search: the posts found, or a failure.
pub open spec fn search_answer(fetched: Option<Seq<Post>>) -> ReplyView {
    match fetched {
        Some(posts) => ReplyView::Message(posts_text(posts)),
        None => ReplyView::SilentMessage(FETCH_FAILED@),
    }
}

/// The answer's entry for one post.
fn post_text(post: &Post) -> (s: String)
    ensures
        s@ == post_entry(*post),
{
    let mut s = String::from_str(POST_URL);
    let id = decimal_string(post.id);
    s.append(id.as_str());
    s.append(POST_CREATED);
    s.append(post.created_at.as_str());
    s.append(POST_RATING);
    s.append(post.rating.as_str());
    s.append("\n");
    s.append(post.file_url.as_str());
    s.append(POST_END);
    s
}

/// Answers the command once Gelbooru was asked: the posts found (`None` when the
/// request failed).
pub fn respond(fetched: Option<Vec<Post>>) -> (answer: InteractionReturn)
    ensures
        answer@ == search_answer(
            match fetched {
                Some(p) => Some(p@),
                None => None,
            },
        ),
{
    match fetched {
        None => InteractionReturn::SilentMessage(String::from_str(FETCH_FAILED)),
        Some(posts) => {
            let mut response = String::new();
            for i in 0..posts.len()
                invariant
                    response@ == posts_text(posts@.take(i as int)),
            {
                assert(posts@.take(i + 1).drop_last() =~= posts@.take(i as int));
                let entry = post_text(&posts[i]);
                response.append(entry.as_str());
            }
            assert(posts@.take(posts.len() as int) =~= posts@);
            InteractionReturn::Message(response)
        },
    }
}

/// The help text of `/booru`, naming the tags that are always blocked.
pub open spec fn help_text(force_block: Seq<Seq<char>>) -> Seq<char> {
    HELP_PREFIX@ + seq_join(force_block, " "@) + HELP_SUFFIX@
}

/// The help text of `/booru` for this configuration.
pub fn help(config: &BooruConfig) -> (text: String)
    ensures
        text@ == help_text(texts(config.force_block@)),
{
    let blocked_tags = join(&config.force_block, " ");
    let mut text = String::from_str(HELP_PREFIX);
    text.append(blocked_tags.as_str());
    text.append(HELP_SUFFIX);
    text
}


// ---------------------------------------------------------------------------
// Laws.

/// `s` holds none of the non-empty tags of `tags`.
pub open spec fn avoids(s: Seq<char>, tags: Seq<Seq<char>>) -> bool {
    forall|k: int|
        0 <= k < tags.len() && tags[k].len() > 0 ==> !seq_contains(s, #[trigger] tags[k])
}

/// The search tags respect the tag lists: no blacklisted tag, no blocked tag, and in a
/// SFW channel no NSFW tag.
pub open spec fn tags_allowed(tags: Seq<char>, config: BooruConfig, allow_nsfw: bool) -> bool {
    &&& avoids(tags, texts(config.blacklist@))
    &&& avoids(tags, texts(config.force_block@))
    &&& !allow_nsfw ==> avoids(tags, texts(config.nsfw_tags@))
}

/// When no tag of `tags` was found in `input`, none of them occurs there.
proof fn lemma_nothing_found(tags: Seq<Seq<char>>, input: Seq<char>)
    requires
        tags_found(tags, input).len() == 0,
    ensures
        forall|k: int| 0 <= k < tags.len() ==> !seq_contains(input, #[trigger] tags[k]),
    decreases tags.len(),
{
    if tags.len() > 0 {
        lemma_nothing_found(tags.drop_last(), input);
        assert forall|k: int| 0 <= k < tags.len() implies !seq_contains(
            input,
            #[trigger] tags[k],
        ) by {
            if k < tags.len() - 1 {
                assert(tags.drop_last()[k] == tags[k]);
            }
        }
    }
}

/// Search tags that passed the checks, or that were never given, respect the tag lists.
proof fn lemma_read_options_allowed(
    options: Seq<CommandOption>,
    config: BooruConfig,
    allow_nsfw: bool,
)
    ensures
        read_options(options, config, allow_nsfw) matches Ok(st) ==> tags_allowed(
            st.tags,
            config,
            allow_nsfw,
        ),
    decreases options.len(),
{
    if options.len() == 0 {
        assert forall|tags: Seq<Seq<char>>| true implies avoids(Seq::empty(), tags) by {
            assert forall|k: int| 0 <= k < tags.len() && tags[k].len() > 0 implies !seq_contains(
                Seq::empty(),
                #[trigger] tags[k],
            ) by {
                lemma_empty_contains_nothing(tags[k]);
            }
        }
    } else {
        lemma_read_options_allowed(options.drop_last(), config, allow_nsfw);
        let opt = options.last();
        if opt.name@ == "tags"@ {
            match opt.resolved {
                Some(OptionValue::String(input)) => {
                    if tags_refusal(input@, config, allow_nsfw) is None {
                        lemma_nothing_found(texts(config.blacklist@), input@);
                        lemma_nothing_found(texts(config.force_block@), input@);
                        if !allow_nsfw {
                            lemma_nothing_found(texts(config.nsfw_tags@), input@);
                        }
                    }
                },
                _ => {},
            }
        }
    }
}

/// No search goes out with tags that hold a (non-empty) blacklisted tag or a tag that the
/// operator blocked, nor, from a SFW channel, a NSFW tag: such tags are rejected.
pub proof fn law_search_avoids_rejected_tags(
    options: Seq<CommandOption>,
    config: BooruConfig,
    allow_nsfw: bool,
    allow_ecchi: bool,
)
    ensures
        booru_outcome(options, config, allow_nsfw, allow_ecchi) matches StepView::Search(q)
            ==> tags_allowed(q.tags, config, allow_nsfw),
{
    lemma_read_options_allowed(options, config, allow_nsfw);
}

/// Each `-t`, for `t` a tag of `tags`, stands between spaces in `inverted(tags)`.
proof fn lemma_inverted_words(tags: Seq<Seq<char>>)
    ensures
        forall|k: int|
            0 <= k < tags.len() ==> has_word(inverted(tags), seq!['-'] + #[trigger] tags[k]),
{
    assert forall|k: int| 0 <= k < tags.len() implies has_word(
        inverted(tags),
        seq!['-'] + #[trigger] tags[k],
    ) by {
        lemma_join_word(negated(tags), k);
    }
}

/// Each `-t`, for `t` a tag of `tags`, stays between spaces in `head + inverted(tags) + tail`
/// when `head` is empty or ends with a space and `tail` is empty or starts with one.
proof fn lemma_inverted_words_within(head: Seq<char>, tags: Seq<Seq<char>>, tail: Seq<char>)
    requires
        head.len() == 0 || head.last() == ' ',
        tail.len() == 0 || tail[0] == ' ',
    ensures
        forall|k: int|
            0 <= k < tags.len() ==> has_word(
                head + inverted(tags) + tail,
                seq!['-'] + #[trigger] tags[k],
            ),
{
    lemma_inverted_words(tags);
    assert forall|k: int| 0 <= k < tags.len() implies has_word(
        head + inverted(tags) + tail,
        seq!['-'] + #[trigger] tags[k],
    ) by {
        lemma_word_extend_left(head, inverted(tags), seq!['-'] + tags[k]);
        lemma_word_extend_right(head + inverted(tags), tail, seq!['-'] + tags[k]);
    }
}

/// The exclusions hold `-t` between spaces for each tag `t` of the blacklist and of the
/// blocked tags, and in a SFW channel for each NSFW tag.
proof fn lemma_master_exclude_words(config: BooruConfig, allow_nsfw: bool, allow_ecchi: bool)
    ensures
        forall|k: int|
            0 <= k < config.blacklist@.len() ==> has_word(
                master_exclude(config, allow_nsfw, allow_ecchi),
                seq!['-'] + #[trigger] config.blacklist@[k]@,
            ),
        forall|k: int|
            0 <= k < config.force_block@.len() ==> has_word(
                master_exclude(config, allow_nsfw, allow_ecchi),
                seq!['-'] + #[trigger] config.force_block@[k]@,
            ),
        !allow_nsfw ==> forall|k: int|
            0 <= k < config.nsfw_tags@.len() ==> has_word(
                master_exclude(config, allow_nsfw, allow_ecchi),
                seq!['-'] + #[trigger] config.nsfw_tags@[k]@,
            ),
{
    reveal_strlit(" ");
    let bl = texts(config.blacklist@);
    let always_tags = bl + texts(config.force_block@);
    let nsfw = texts(config.nsfw_tags@);
    let always = inverted(always_tags);
    let nsfw_ex = inverted(nsfw);
    let master = master_exclude(config, allow_nsfw, allow_ecchi);
    let rest = if allow_nsfw {
        Seq::<char>::empty()
    } else if allow_ecchi {
        " "@ + nsfw_ex
    } else {
        " "@ + nsfw_ex + " "@ + nsfw_ex
    };
    assert(master =~= Seq::<char>::empty() + always + rest);
    lemma_inverted_words_within(Seq::empty(), always_tags, rest);
    assert forall|k: int| 0 <= k < config.blacklist@.len() implies has_word(
        master,
        seq!['-'] + #[trigger] config.blacklist@[k]@,
    ) by {
        assert(always_tags[k] == config.blacklist@[k]@);
    }
    assert forall|k: int| 0 <= k < config.force_block@.len() implies has_word(
        master,
        seq!['-'] + #[trigger] config.force_block@[k]@,
    ) by {
        assert(always_tags[bl.len() + k] == config.force_block@[k]@);
    }
    if !allow_nsfw {
        let head = always + " "@;
        let tail = if allow_ecchi {
            Seq::<char>::empty()
        } else {
            " "@ + nsfw_ex
        };
        assert(master =~= head + nsfw_ex + tail);
        lemma_inverted_words_within(head, nsfw, tail);
        assert forall|k: int| 0 <= k < config.nsfw_tags@.len() implies has_word(
            master,
            seq!['-'] + #[trigger] config.nsfw_tags@[k]@,
        ) by {
            assert(nsfw[k] == config.nsfw_tags@[k]@);
        }
    }
}

/// Every search excludes each tag of the blacklist and each tag the operator blocked,
/// and a search from a SFW channel excludes each NSFW tag as well: `-tag` stands in the
/// exclusions between spaces, so for a tag without spaces it is one of their words.
pub proof fn law_search_excludes_listed_tags(
    options: Seq<CommandOption>,
    config: BooruConfig,
    allow_nsfw: bool,
    allow_ecchi: bool,
)
    ensures
        booru_outcome(options, config, allow_nsfw, allow_ecchi) matches StepView::Search(q) ==> {
            &&& forall|k: int|
                0 <= k < config.blacklist@.len() ==> has_word(
                    q.master_exclude,
                    seq!['-'] + #[trigger] config.blacklist@[k]@,
                )
            &&& forall|k: int|
                0 <= k < config.force_block@.len() ==> has_word(
                    q.master_exclude,
                    seq!['-'] + #[trigger] config.force_block@[k]@,
                )
            &&& !allow_nsfw ==> forall|k: int|
                0 <= k < config.nsfw_tags@.len() ==> has_word(
                    q.master_exclude,
                    seq!['-'] + #[trigger] config.nsfw_tags@[k]@,
                )
        },
{
    lemma_master_exclude_words(config, allow_nsfw, allow_ecchi);
}

/// A search from a SFW channel never asks for the `questionable` or `explicit` rating,
/// and asks for the `sensitive` rating only where the channel allows ecchi content.
pub proof fn law_sfw_ratings(
    options: Seq<CommandOption>,
    config: BooruConfig,
    allow_nsfw: bool,
    allow_ecchi: bool,
)
    ensures
        booru_outcome(options, config, allow_nsfw, allow_ecchi) matches StepView::Search(q)
            ==> (!allow_nsfw ==> {
            &&& q.rating != "rating:questionable"@
            &&& q.rating != "rating:explicit"@
            &&& !allow_ecchi ==> q.rating != "rating:sensitive"@
        }),
{
}


/// The count read from the options never exceeds [`MAX_IMAGES`].
proof fn lemma_read_options_count(options: Seq<CommandOption>, config: BooruConfig, allow_nsfw: bool)
    ensures
        read_options(options, config, allow_nsfw) matches Ok(st) ==> st.count <= MAX_IMAGES,
    decreases options.len(),
{
    if options.len() > 0 {
        lemma_read_options_count(options.drop_last(), config, allow_nsfw);
    }
}

/// No search asks for more than [`MAX_IMAGES`] images, whatever count the user gave.
pub proof fn law_search_count_at_most_max(
    options: Seq<CommandOption>,
    config: BooruConfig,
    allow_nsfw: bool,
    allow_ecchi: bool,
)
    ensures
        booru_outcome(options, config, allow_nsfw, allow_ecchi) matches StepView::Search(q)
            ==> q.count <= MAX_IMAGES,
{
    lemma_read_options_count(options, config, allow_nsfw);
}

/// ` -word` for each word of `words`, in order.
pub open spec fn excluded_words(words: Seq<Seq<char>>) -> Seq<char>
    decreases words.len(),
{
    if words.len() == 0 {
        Seq::empty()
    } else {
        excluded_words(words.drop_last()) + seq![' ', '-'] + words.last()
    }
}

/// Dashing the spaces of two texts one after the other dashes those of each.
proof fn lemma_dash_spaces_add(a: Seq<char>, b: Seq<char>)
    ensures
        dash_spaces(a + b) == dash_spaces(a) + dash_spaces(b),
    decreases b.len(),
{
    if b.len() == 0 {
        assert(a + b =~= a);
        assert(dash_spaces(a) + dash_spaces(b) =~= dash_spaces(a));
    } else {
        lemma_dash_spaces_add(a, b.drop_last());
        assert((a + b).drop_last() =~= a + b.drop_last());
        assert((a + b).last() == b.last());
        assert(dash_spaces(a + b) =~= dash_spaces(a) + dash_spaces(b));
    }
}

/// A text without spaces is left as it is.
proof fn lemma_dash_spaces_word(w: Seq<char>)
    requires
        !w.contains(' '),
    ensures
        dash_spaces(w) == w,
    decreases w.len(),
{
    if w.len() > 0 {
        assert(!w.drop_last().contains(' ')) by {
            if w.drop_last().contains(' ') {
                let i = choose|i: int| 0 <= i < w.drop_last().len() && w.drop_last()[i] == ' ';
                assert(w[i] == ' ');
            }
        }
        lemma_dash_spaces_word(w.drop_last());
        assert(w[w.len() - 1] == w.last());
        assert(w.drop_last() + seq![w.last()] =~= w);
    }
}

/// The `exclude` option excludes each tag of a space-separated list: for words without
/// spaces, joined by single spaces, the exclusion is ` -word` for each word, in order.
pub proof fn law_exclusion_negates_each_word(words: Seq<Seq<char>>)
    requires
        words.len() > 0,
        forall|k: int| 0 <= k < words.len() ==> !(#[trigger] words[k]).contains(' '),
    ensures
        exclusion_of(seq_join(words, " "@)) == excluded_words(words),
    decreases words.len(),
{
    if words.len() == 1 {
        lemma_dash_spaces_word(words[0]);
        assert(excluded_words(words.drop_last()) =~= Seq::<char>::empty());
        assert(excluded_words(words) =~= seq![' ', '-'] + words[0]);
    } else {
        let init = words.drop_last();
        assert forall|k: int| 0 <= k < init.len() implies !(#[trigger] init[k]).contains(' ') by {
            assert(init[k] == words[k]);
        }
        law_exclusion_negates_each_word(init);
        let front = seq_join(init, " "@);
        lemma_dash_spaces_add(front + " "@, words.last());
        lemma_dash_spaces_add(front, " "@);
        assert(dash_spaces(" "@) =~= seq![' ', '-']) by {
            reveal_strlit(" ");
            assert(" "@ =~= seq![' ']);
            assert(" "@.drop_last() =~= Seq::<char>::empty());
            assert(" "@.last() == ' ');
            assert(dash_spaces(Seq::<char>::empty()) =~= Seq::<char>::empty());
        }
        lemma_dash_spaces_word(words.last());
        assert(exclusion_of(seq_join(words, " "@)) =~= excluded_words(words));
    }
}


/// Whether a value fits an option of this kind (an option may also come without a value).
pub open spec fn value_fits(kind: OptionKind, value: Option<OptionValue>) -> bool {
    match value {
        None => true,
        Some(OptionValue::String(_)) => kind == OptionKind::String,
        Some(OptionValue::Integer(_)) => kind == OptionKind::Integer,
        Some(OptionValue::Other) => false,
    }
}

/// The names of the options that `register` adds to a declaration.
pub open spec fn declares_option(command: ApplicationCommandView, name: Seq<char>) -> bool {
    exists|k: int|
        command.options.len() <= k < booru_command(command).options.len()
            && #[trigger] booru_command(command).options[k].name == name
}

/// Every option that `register` declares for `/booru` is one that `run` knows: an option
/// of such a name is never answered as an invalid option; and with a value of the
/// declared kind, or none, it is taken, unless it is the `tags` option and its tags are
/// refused.
pub proof fn law_declared_option_accepted(
    command: ApplicationCommandView,
    k: int,
    opt: CommandOption,
    st: OptionsRead,
    config: BooruConfig,
    allow_nsfw: bool,
)
    requires
        command.options.len() <= k < booru_command(command).options.len(),
        opt.name@ == booru_command(command).options[k].name,
    ensures
        apply_option(st, opt, config, allow_nsfw) != Err::<OptionsRead, ReplyView>(
            ReplyView::Message(BAD_OPTION@),
        ),
        value_fits(booru_command(command).options[k].kind, opt.resolved) ==> match apply_option(
            st,
            opt,
            config,
            allow_nsfw,
        ) {
            Ok(_) => true,
            Err(r) => opt.name@ == "tags"@ && (opt.resolved matches Some(
                OptionValue::String(input),
            ) && tags_refusal(input@, config, allow_nsfw) == Some(r)),
        },
{
    reveal_strlit("Invalid option");
    reveal_strlit("This shouldn't happen, is discord drunk?");
    reveal_strlit("what?");
    reveal_strlit("tags");
    reveal_strlit("exclude");
    reveal_strlit("rating");
    reveal_strlit("count");
    let j = k - command.options.len();
    assert(booru_command(command).options[k] == seq![
        plain_option("tags"@, "tags to search for"@, OptionKind::String),
        plain_option("exclude"@, "tags to exclude"@, OptionKind::String),
        rating_option(),
        plain_option("count"@, "amount of images"@, OptionKind::Integer),
    ][j]);
    assert(BAD_OPTION@.len() != BAD_RATING@.len());
    assert(BAD_OPTION@.len() != BAD_COUNT@.len());
}

/// A `/booru` command whose options all carry names that `register` declares is never
/// answered as having an invalid option.
pub proof fn law_declared_options_never_invalid(
    command: ApplicationCommandView,
    options: Seq<CommandOption>,
    config: BooruConfig,
    allow_nsfw: bool,
    allow_ecchi: bool,
)
    requires
        forall|i: int| 0 <= i < options.len() ==> declares_option(command, #[trigger] options[i].name@),
    ensures
        booru_outcome(options, config, allow_nsfw, allow_ecchi) != StepView::Reply(
            ReplyView::Message(BAD_OPTION@),
        ),
{
    lemma_declared_options_read(command, options, config, allow_nsfw);
}

/// Reading options whose names `register` declares never ends in the invalid-option answer.
proof fn lemma_declared_options_read(
    command: ApplicationCommandView,
    options: Seq<CommandOption>,
    config: BooruConfig,
    allow_nsfw: bool,
)
    requires
        forall|i: int| 0 <= i < options.len() ==> declares_option(command, #[trigger] options[i].name@),
    ensures
        read_options(options, config, allow_nsfw) != Err::<OptionsRead, ReplyView>(
            ReplyView::Message(BAD_OPTION@),
        ),
    decreases options.len(),
{
    if options.len() > 0 {
        let init = options.drop_last();
        assert forall|i: int| 0 <= i < init.len() implies declares_option(
            command,
            #[trigger] init[i].name@,
        ) by {
            assert(init[i] == options[i]);
        }
        lemma_declared_options_read(command, init, config, allow_nsfw);
        match read_options(init, config, allow_nsfw) {
            Ok(st) => {
                assert(declares_option(command, options[options.len() - 1].name@));
                let k = choose|k: int|
                    command.options.len() <= k < booru_command(command).options.len()
                        && #[trigger] booru_command(command).options[k].name == options.last().name@;
                law_declared_option_accepted(command, k, options.last(), st, config, allow_nsfw);
            },
            Err(_) => {},
        }
    }
}


/// In a NSFW channel no rating ends the command: whatever the rating and whether or not
/// the channel allows ecchi content, options that are read without refusal give a search,
/// with the rating the user asked for.
pub proof fn law_nsfw_channel_takes_any_rating(
    options: Seq<CommandOption>,
    config: BooruConfig,
    allow_ecchi: bool,
)
    ensures
        forall|r: Seq<char>, e: bool| #[trigger] rating_refusal(r, true, e) is None,
        read_options(options, config, true) matches Ok(st) ==> booru_outcome(
            options,
            config,
            true,
            allow_ecchi,
        ) matches StepView::Search(q) && q.rating == st.rating,
{
}

/// A search carries exactly what the options set, whatever the channel: its tags,
/// exclusions, rating and count are those read from the options, and the kind of channel
/// changes only the bot's own exclusions.
pub proof fn law_search_keeps_what_options_set(
    options: Seq<CommandOption>,
    config: BooruConfig,
    allow_nsfw: bool,
    allow_ecchi: bool,
    other_ecchi: bool,
)
    ensures
        booru_outcome(options, config, allow_nsfw, allow_ecchi) matches StepView::Search(q) ==> (
        read_options(options, config, allow_nsfw) matches Ok(st) && q.tags == st.tags
            && q.exclude == st.exclude && q.rating == st.rating && q.count == st.count),
        booru_outcome(options, config, allow_nsfw, allow_ecchi) matches StepView::Search(q1) ==> (
        booru_outcome(options, config, allow_nsfw, other_ecchi) matches StepView::Search(q2) ==> (
        q1.tags == q2.tags && q1.exclude == q2.exclude && q1.rating == q2.rating && q1.count
            == q2.count)),
{
}

/// The last `count` option decides the count of a search: the integer given, at most
/// [`MAX_IMAGES`], in any channel.
pub proof fn law_last_count_decides(
    options: Seq<CommandOption>,
    n: i64,
    config: BooruConfig,
    allow_nsfw: bool,
    allow_ecchi: bool,
)
    requires
        options.len() > 0,
        options.last().name@ == "count"@,
        options.last().resolved == Some(OptionValue::Integer(n)),
    ensures
        booru_outcome(options, config, allow_nsfw, allow_ecchi) matches StepView::Search(q) ==> (
        q.count == if n > 5 {
            5
        } else {
            n
        }),
{
    reveal_strlit("count");
    reveal_strlit("tags");
    reveal_strlit("exclude");
    reveal_strlit("rating");
    assert("count"@[0] != "tags"@[0]);
    assert("count"@ != "tags"@);
    assert("count"@[0] != "exclude"@[0]);
    assert("count"@ != "exclude"@);
    assert("count"@[0] != "rating"@[0]);
    assert("count"@ != "rating"@);
}

/// The last `rating` option decides the rating of a search, in any channel.
pub proof fn law_last_rating_decides(
    options: Seq<CommandOption>,
    r: String,
    config: BooruConfig,
    allow_nsfw: bool,
    allow_ecchi: bool,
)
    requires
        options.len() > 0,
        options.last().name@ == "rating"@,
        options.last().resolved == Some(OptionValue::String(r)),
    ensures
        booru_outcome(options, config, allow_nsfw, allow_ecchi) matches StepView::Search(q) ==> (
        q.rating == r@),
{
    reveal_strlit("tags");
    reveal_strlit("exclude");
    reveal_strlit("rating");
    assert("rating"@[0] != "tags"@[0]);
    assert("rating"@ != "tags"@);
    assert("rating"@[0] != "exclude"@[0]);
    assert("rating"@ != "exclude"@);
}

/// The answer has one entry per post, in order: adding a post at the end adds its entry
/// at the end, and the answers to two lists one after the other are those of the joined
/// list.
pub proof fn law_answer_lists_each_post(posts: Seq<Post>, more: Seq<Post>, post: Post)
    ensures
        posts_text(posts.push(post)) == posts_text(posts) + post_entry(post),
        posts_text(posts + more) == posts_text(posts) + posts_text(more),
        posts_text(seq![post]) == post_entry(post),
    decreases more.len(),
{
    assert(posts.push(post).drop_last() =~= posts);
    assert(seq![post].drop_last() =~= Seq::<Post>::empty());
    assert(seq![post].last() == post);
    assert(posts_text(Seq::<Post>::empty()) =~= Seq::<char>::empty());
    assert(posts_text(seq![post]) =~= post_entry(post));
    if more.len() == 0 {
        assert(posts + more =~= posts);
        assert(posts_text(posts) + posts_text(more) =~= posts_text(posts));
    } else {
        law_answer_lists_each_post(posts, more.drop_last(), post);
        assert((posts + more).drop_last() =~= posts + more.drop_last());
        assert((posts + more).last() == more.last());
        assert(posts_text(posts + more) =~= posts_text(posts) + posts_text(more));
    }
}

/// A post's entry gives the post's creation date, rating and file url.
pub proof fn law_entry_gives_post_fields(post: Post)
    ensures
        seq_contains(post_entry(post), post.created_at@),
        seq_contains(post_entry(post), post.rating@),
        seq_contains(post_entry(post), post.file_url@),
{
    let head = POST_URL@ + decimal(post.id as nat) + POST_CREATED@;
    let e = post_entry(post);
    assert(e =~= head + post.created_at@ + (POST_RATING@ + post.rating@ + "\n"@
        + post.file_url@ + POST_END@));
    lemma_contains_middle(
        head,
        post.created_at@,
        POST_RATING@ + post.rating@ + "\n"@ + post.file_url@ + POST_END@,
    );
    assert(e =~= (head + post.created_at@ + POST_RATING@) + post.rating@ + ("\n"@
        + post.file_url@ + POST_END@));
    lemma_contains_middle(
        head + post.created_at@ + POST_RATING@,
        post.rating@,
        "\n"@ + post.file_url@ + POST_END@,
    );
    assert(e =~= (head + post.created_at@ + POST_RATING@ + post.rating@ + "\n"@)
        + post.file_url@ + POST_END@);
    lemma_contains_middle(
        head + post.created_at@ + POST_RATING@ + post.rating@ + "\n"@,
        post.file_url@,
        POST_END@,
    );
}

/// Each post's page link stands in the answer, in the order of the posts.
pub proof fn law_answer_links_each_post(posts: Seq<Post>, k: int)
    requires
        0 <= k < posts.len(),
    ensures
        seq_contains(posts_text(posts), POST_URL@ + decimal(posts[k].id as nat)),
{
    let front = posts.take(k);
    let back = posts.skip(k + 1);
    assert(posts =~= front.push(posts[k]) + back);
    law_answer_lists_each_post(front.push(posts[k]), back, posts[k]);
    law_answer_lists_each_post(front, Seq::empty(), posts[k]);
    let link = POST_URL@ + decimal(posts[k].id as nat);
    let before = posts_text(front);
    let entry = post_entry(posts[k]);
    assert(entry.subrange(0, link.len() as int) =~= link);
    assert(posts_text(posts) == before + entry + posts_text(back));
    let at: int = before.len() as int;
    assert((before + entry + posts_text(back)).subrange(at, at + link.len()) =~= link);
}

/// `/booru`'s help names every blocked tag.
pub proof fn law_help_names_each_blocked_tag(force_block: Seq<Seq<char>>, k: int)
    requires
        0 <= k < force_block.len(),
    ensures
        seq_contains(help_text(force_block), force_block[k]),
        has_word(seq_join(force_block, " "@), force_block[k]),
{
    lemma_join_word(force_block, k);
    let joined = seq_join(force_block, " "@);
    let i = choose|i: int| #[trigger] word_at(joined, force_block[k], i);
    let j = i + HELP_PREFIX@.len();
    let t = help_text(force_block);
    assert(t == HELP_PREFIX@ + joined + HELP_SUFFIX@);
    assert(t.subrange(j, j + force_block[k].len()) =~= joined.subrange(
        i,
        i + force_block[k].len(),
    ));
}

} // verus!
