//! The normalizer: one shape for every way of asking.
//!
//! A command reaches the assistant as a message that mentions it, as a
//! message that starts with one of its prefixes, or as a structured
//! interaction of the chat platform. Each becomes an [`Invocation`]: a
//! command name and an ordered list of arguments, with who asked and where.

use crate::chatbot;
use crate::registry::{self, catalogue, lookup, CommandOptionView};
use crate::text::{
    is_whitespace, is_word, join_words, joined, lemma_words_are_words, lemma_words_of_joined,
    lemma_words_of_word_then, replace_all, replaced, split_whitespace, str_eq, words,
};
use vstd::prelude::*;

verus! {

/// The way a command was asked for.
#[derive(Clone, Copy, Debug, PartialEq, Eq, Structural)]
pub enum Surface {
    /// A message that mentions the assistant.
    Mention,
    /// A message that starts with a prefix.
    PrefixText,
    /// A structured interaction.
    StructuredInteraction,
}

/// Who asked, and where.
#[derive(Clone, Debug, PartialEq, Eq)]
pub struct Origin {
    /// The user who asked.
    pub actor_id: String,
    /// The channel in which the user asked.
    pub channel_id: String,
    /// The server of that channel; `None` in a direct message.
    pub guild_id: Option<String>,
    /// The handle of the message or interaction that is answered.
    pub reply_target: String,
}

/// The view of an [`Origin`].
pub struct OriginView {
    pub actor_id: Seq<char>,
    pub channel_id: Seq<char>,
    pub guild_id: Option<Seq<char>>,
    pub reply_target: Seq<char>,
}

impl DeepView for Origin {
    type V = OriginView;

    open spec fn deep_view(&self) -> OriginView {
        OriginView {
            actor_id: self.actor_id@,
            channel_id: self.channel_id@,
            guild_id: self.guild_id.deep_view(),
            reply_target: self.reply_target@,
        }
    }
}

/// One request for a command, whatever way it came.
#[derive(Clone, Debug, PartialEq, Eq)]
pub struct Invocation {
    pub surface: Surface,
    pub command_name: String,
    pub arguments: Vec<String>,
    pub origin: Origin,
}

/// The view of an [`Invocation`].
pub struct InvocationView {
    pub surface: Surface,
    pub command_name: Seq<char>,
    pub arguments: Seq<Seq<char>>,
    pub origin: OriginView,
}

impl DeepView for Invocation {
    type V = InvocationView;

    open spec fn deep_view(&self) -> InvocationView {
        InvocationView {
            surface: self.surface,
            command_name: self.command_name@,
            arguments: self.arguments.deep_view(),
            origin: self.origin.deep_view(),
        }
    }
}

/// What a message asks for.
#[derive(Clone, Debug, PartialEq, Eq)]
pub enum MessageTrigger {
    /// The message is the liveness probe; it is answered with [`PONG`].
    Ping,
    /// The message asks for a command.
    Command(Invocation),
    /// The message is none of the assistant's business.
    Nothing,
}

/// The view of a [`MessageTrigger`].
pub enum MessageTriggerView {
    Ping,
    Command(InvocationView),
    Nothing,
}

impl DeepView for MessageTrigger {
    type V = MessageTriggerView;

    open spec fn deep_view(&self) -> MessageTriggerView {
        match self {
            MessageTrigger::Ping => MessageTriggerView::Ping,
            MessageTrigger::Command(invocation) => MessageTriggerView::Command(
                invocation.deep_view(),
            ),
            MessageTrigger::Nothing => MessageTriggerView::Nothing,
        }
    }
}

/// The message that is the liveness probe.
pub const PING: &'static str = "!ping";

/// The answer to the liveness probe.
pub const PONG: &'static str = "Pong!";

/// The name that stands in where a message with a prefix names no command.
/// No word can be this name: it holds a space.
pub const UNKNOWN_COMMAND: &'static str = "unknown command";

/// Whether a word is one of the prefixes that mark a message as a command.
pub open spec fn is_prefix(word: Seq<char>) -> bool {
    word == "kys"@ || word == "!ps"@ || word == "186"@
}

/// Executable form of [`is_prefix`].
pub fn word_is_prefix(word: &str) -> (marks: bool)
    ensures
        marks == is_prefix(word@),
{
    str_eq(word, "kys") || str_eq(word, "!ps") || str_eq(word, "186")
}

/// Whether the assistant is among the users that a message mentions.
pub fn mentions_bot(mentions: &Vec<String>, bot_id: &str) -> (mentioned: bool)
    ensures
        mentioned == mentions.deep_view().contains(bot_id@),
{
    let mut i: usize = 0;
    while i < mentions.len()
        invariant
            i <= mentions.len(),
            forall|k: int| 0 <= k < i ==> mentions.deep_view()[k] != bot_id@,
        decreases mentions.len() - i,
    {
        if str_eq(mentions[i].as_str(), bot_id) {
            assert(mentions.deep_view()[i as int] == bot_id@);
            return true;
        }
        i += 1;
    }
    false
}

/// The arguments of a message that mentions the assistant: the words of the
/// whole message, with the assistant's name in place of its mention token.
pub open spec fn mention_arguments(content: Seq<char>) -> Seq<Seq<char>> {
    words(replaced(content, chatbot::MENTION_TOKEN@, chatbot::DISPLAY_NAME@))
}

/// The command that the words of a message with a prefix name: the second
/// word, or [`UNKNOWN_COMMAND`] where there is none.
pub open spec fn named_command(tokens: Seq<Seq<char>>) -> Seq<char> {
    if tokens.len() >= 2 {
        tokens[1]
    } else {
        UNKNOWN_COMMAND@
    }
}

/// Reads the command that the words name: see [`named_command`].
pub fn command_name(tokens: &Vec<String>) -> (name: String)
    ensures
        name@ == named_command(tokens.deep_view()),
{
    if tokens.len() >= 2 {
        tokens[1].clone()
    } else {
        UNKNOWN_COMMAND.to_owned()
    }
}

/// What a message asks for.
///
/// The liveness probe comes first. A message without a word asks for
/// nothing. A message that mentions the assistant asks for the
/// conversation command, whatever it starts with. Any other message is a
/// command only where its first word is a prefix: the second word is the
/// command's name, the words after it are its arguments. A message that is
/// a prefix and nothing more names [`UNKNOWN_COMMAND`]; it is passed over
/// without an answer.
pub open spec fn message_trigger(
    content: Seq<char>,
    mentions: Seq<Seq<char>>,
    bot_id: Seq<char>,
    origin: OriginView,
) -> MessageTriggerView {
    let tokens = words(content);
    if content == PING@ {
        MessageTriggerView::Ping
    } else if tokens.len() == 0 {
        MessageTriggerView::Nothing
    } else if mentions.contains(bot_id) {
        MessageTriggerView::Command(
            InvocationView {
                surface: Surface::Mention,
                command_name: chatbot::NAME@,
                arguments: mention_arguments(content),
                origin,
            },
        )
    } else if is_prefix(tokens[0]) && named_command(tokens) != UNKNOWN_COMMAND@ {
        MessageTriggerView::Command(
            InvocationView {
                surface: Surface::PrefixText,
                command_name: named_command(tokens),
                arguments: tokens.skip(2),
                origin,
            },
        )
    } else {
        MessageTriggerView::Nothing
    }
}

/// Reads a message: see [`message_trigger`].
pub fn classify_message(content: &str, mentions: &Vec<String>, bot_id: &str, origin: Origin) -> (trigger:
    MessageTrigger)
    ensures
        trigger.deep_view() == message_trigger(
            content@,
            mentions.deep_view(),
            bot_id@,
            origin.deep_view(),
        ),
{
    if str_eq(content, PING) {
        return MessageTrigger::Ping;
    }
    let mut tokens = split_whitespace(content);
    if tokens.len() == 0 {
        return MessageTrigger::Nothing;
    }
    if mentions_bot(mentions, bot_id) {
        let named = replace_all(content, chatbot::MENTION_TOKEN, chatbot::DISPLAY_NAME);
        return MessageTrigger::Command(
            Invocation {
                surface: Surface::Mention,
                command_name: chatbot::NAME.to_owned(),
                arguments: split_whitespace(named.as_str()),
                origin,
            },
        );
    }
    if word_is_prefix(tokens[0].as_str()) {
        let command_name = command_name(&tokens);
        if !str_eq(command_name.as_str(), UNKNOWN_COMMAND) {
            let ghost all = tokens.deep_view();
            tokens.remove(0);
            tokens.remove(0);
            assert(tokens.deep_view() =~= all.skip(2));
            return MessageTrigger::Command(
                Invocation {
                    surface: Surface::PrefixText,
                    command_name,
                    arguments: tokens,
                    origin,
                },
            );
        }
    }
    MessageTrigger::Nothing
}

/// No word of a message is [`UNKNOWN_COMMAND`].
pub proof fn lemma_no_word_is_unknown(w: Seq<char>)
    requires
        is_word(w),
    ensures
        w != UNKNOWN_COMMAND@,
{
    reveal_strlit("unknown command");
    assert(UNKNOWN_COMMAND@.len() == 15 && UNKNOWN_COMMAND@[7] == ' ');
    assert(is_whitespace(' '));
    if w == UNKNOWN_COMMAND@ {
        assert(!is_whitespace(w[7]));
    }
}

/// The liveness probe is one word, and no prefix.
pub proof fn lemma_ping_is_one_word()
    ensures
        words(PING@) == seq![PING@],
        !is_prefix(PING@),
{
    reveal_strlit("kys");
    reveal_strlit("!ps");
    reveal_strlit("186");
    reveal_strlit("!ping");
    assert(PING@.len() == 5);
    assert(is_word(PING@));
    lemma_words_of_word_then(PING@, Seq::empty());
    assert(PING@ + Seq::<char>::empty() =~= PING@);
    assert(seq![PING@] + words(Seq::<char>::empty()) =~= seq![PING@]);
}

/// A message that is a prefix and nothing more is passed over.
pub proof fn lemma_prefix_alone_is_ignored(
    content: Seq<char>,
    mentions: Seq<Seq<char>>,
    bot_id: Seq<char>,
    origin: OriginView,
)
    requires
        words(content).len() == 1,
        is_prefix(words(content)[0]),
        !mentions.contains(bot_id),
    ensures
        message_trigger(content, mentions, bot_id, origin) == MessageTriggerView::Nothing,
{
    lemma_ping_is_one_word();
}

/// In a message that starts with a prefix and goes on, the second word is
/// the command and the words after it are its arguments.
pub proof fn lemma_second_word_is_the_command(
    content: Seq<char>,
    mentions: Seq<Seq<char>>,
    bot_id: Seq<char>,
    origin: OriginView,
)
    requires
        words(content).len() >= 2,
        is_prefix(words(content)[0]),
        !mentions.contains(bot_id),
    ensures
        message_trigger(content, mentions, bot_id, origin) == MessageTriggerView::Command(
            InvocationView {
                surface: Surface::PrefixText,
                command_name: words(content)[1],
                arguments: words(content).skip(2),
                origin,
            },
        ),
{
    lemma_ping_is_one_word();
    lemma_words_are_words(content, 0);
    lemma_no_word_is_unknown(words(content)[1]);
}

/// The value given for the parameter `name`: that of the first option with
/// this name.
pub open spec fn option_value(options: Seq<(Seq<char>, Seq<char>)>, name: Seq<char>) -> Option<
    Seq<char>,
>
    decreases options.len(),
{
    if options.len() == 0 {
        None
    } else if options[0].0 == name {
        Some(options[0].1)
    } else {
        option_value(options.drop_first(), name)
    }
}

/// Looks up the value that a structured interaction gives for a parameter.
pub fn get_option_str<'a>(options: &'a Vec<(String, String)>, name: &str) -> (value: Option<
    &'a str,
>)
    ensures
        value.deep_view() == option_value(options.deep_view(), name@),
{
    let mut i: usize = 0;
    assert(options.deep_view().skip(0) =~= options.deep_view());
    while i < options.len()
        invariant
            i <= options.len(),
            option_value(options.deep_view(), name@) == option_value(
                options.deep_view().skip(i as int),
                name@,
            ),
        decreases options.len() - i,
    {
        let ghost rest = options.deep_view().skip(i as int);
        assert(rest[0] == options.deep_view()[i as int]);
        assert(rest.drop_first() =~= options.deep_view().skip(i + 1));
        if str_eq(options[i].0.as_str(), name) {
            return Some(options[i].1.as_str());
        }
        i += 1;
    }
    None
}

/// The arguments that the parameters of a command stand for: one per
/// parameter, in the order of the schema, the default where no value was
/// given.
pub open spec fn schema_arguments(
    parameters: Seq<CommandOptionView>,
    options: Seq<(Seq<char>, Seq<char>)>,
) -> Seq<Seq<char>> {
    Seq::new(
        parameters.len(),
        |i: int|
            match option_value(options, parameters[i].name) {
                Some(value) => value,
                None => parameters[i].default,
            },
    )
}

/// The arguments of a structured interaction. For a command of the
/// catalogue they follow its schema; for any other name they are the given
/// values in the given order.
pub open spec fn interaction_arguments(name: Seq<char>, options: Seq<(Seq<char>, Seq<char>)>) -> Seq<
    Seq<char>,
> {
    match lookup(catalogue(), name) {
        Some(command) => schema_arguments(command.schema.options, options),
        None => Seq::new(options.len(), |i: int| options[i].1),
    }
}

/// What a structured interaction asks for.
pub open spec fn interaction_invocation(
    name: Seq<char>,
    options: Seq<(Seq<char>, Seq<char>)>,
    origin: OriginView,
) -> InvocationView {
    InvocationView {
        surface: Surface::StructuredInteraction,
        command_name: name,
        arguments: interaction_arguments(name, options),
        origin,
    }
}

/// Reads a structured interaction: the command's name as the platform gives
/// it, and the options that hold a text, each with its name.
pub fn normalize_interaction(name: &str, options: &Vec<(String, String)>, origin: Origin) -> (invocation:
    Invocation)
    ensures
        invocation.deep_view() == interaction_invocation(
            name@,
            options.deep_view(),
            origin.deep_view(),
        ),
{
    let mut arguments: Vec<String> = Vec::new();
    match registry::describe(name) {
        Some(command) => {
            let parameters = &command.schema.options;
            let mut i: usize = 0;
            while i < parameters.len()
                invariant
                    i <= parameters.len(),
                    arguments.deep_view() == schema_arguments(
                        parameters.deep_view(),
                        options.deep_view(),
                    ).take(i as int),
                decreases parameters.len() - i,
            {
                let ghost before = arguments.deep_view();
                let argument = match get_option_str(options, parameters[i].name.as_str()) {
                    Some(value) => value.to_owned(),
                    None => parameters[i].default.clone(),
                };
                let ghost added = argument@;
                arguments.push(argument);
                assert(arguments.deep_view() =~= before.push(added));
                assert(parameters.deep_view()[i as int] == parameters[i as int].deep_view());
                i += 1;
                assert(arguments.deep_view() =~= schema_arguments(
                    parameters.deep_view(),
                    options.deep_view(),
                ).take(i as int));
            }
            assert(arguments.deep_view() =~= schema_arguments(
                parameters.deep_view(),
                options.deep_view(),
            ));
        },
        None => {
            let mut i: usize = 0;
            while i < options.len()
                invariant
                    i <= options.len(),
                    arguments.deep_view() == Seq::new(
                        i as nat,
                        |k: int| options.deep_view()[k].1,
                    ),
                decreases options.len() - i,
            {
                let ghost before = arguments.deep_view();
                arguments.push(options[i].1.clone());
                assert(arguments.deep_view() =~= before.push(options.deep_view()[i as int].1));
                i += 1;
                assert(arguments.deep_view() =~= Seq::new(
                    i as nat,
                    |k: int| options.deep_view()[k].1,
                ));
            }
            assert(arguments.deep_view() =~= Seq::new(
                options.deep_view().len(),
                |k: int| options.deep_view()[k].1,
            ));
        },
    }
    Invocation {
        surface: Surface::StructuredInteraction,
        command_name: name.to_owned(),
        arguments,
        origin,
    }
}

/// The text that an invocation's arguments make when they are read as one
/// sentence.
pub fn sentence(invocation: &Invocation) -> (text: String)
    ensures
        text@ == joined(invocation.deep_view().arguments),
{
    assert(invocation.arguments.deep_view().skip(0) =~= invocation.arguments.deep_view());
    join_words(&invocation.arguments, 0)
}

/// A command that is written out is read back: a message made of a prefix,
/// a name and arguments, with single spaces between them, asks for the
/// command of that name with those arguments.
pub proof fn lemma_written_command(
    prefix: Seq<char>,
    name: Seq<char>,
    arguments: Seq<Seq<char>>,
    mentions: Seq<Seq<char>>,
    bot_id: Seq<char>,
    origin: OriginView,
)
    requires
        is_prefix(prefix),
        is_word(name),
        forall|i: int| 0 <= i < arguments.len() ==> is_word(#[trigger] arguments[i]),
        !mentions.contains(bot_id),
    ensures
        message_trigger(joined(seq![prefix, name] + arguments), mentions, bot_id, origin)
            == MessageTriggerView::Command(
            InvocationView {
                surface: Surface::PrefixText,
                command_name: name,
                arguments,
                origin,
            },
        ),
{
    let written = seq![prefix, name] + arguments;
    reveal_strlit("kys");
    reveal_strlit("!ps");
    reveal_strlit("186");
    assert(is_word(prefix));
    assert forall|i: int| 0 <= i < written.len() implies is_word(#[trigger] written[i]) by {
        if i >= 2 {
            assert(written[i] == arguments[i - 2]);
        }
    }
    lemma_words_of_joined(written);
    assert(written.skip(2) =~= arguments);
    lemma_second_word_is_the_command(joined(written), mentions, bot_id, origin);
}

/// Whether two invocations are the same request: they differ at most in
/// the surface they came through and in the handle that is answered.
pub open spec fn same_request(a: InvocationView, b: InvocationView) -> bool {
    &&& a.command_name == b.command_name
    &&& a.arguments == b.arguments
    &&& a.origin.actor_id == b.origin.actor_id
    &&& a.origin.channel_id == b.origin.channel_id
    &&& a.origin.guild_id == b.origin.guild_id
}

/// Whether two origins are the same user in the same place.
pub open spec fn same_place(a: OriginView, b: OriginView) -> bool {
    &&& a.actor_id == b.actor_id
    &&& a.channel_id == b.channel_id
    &&& a.guild_id == b.guild_id
}

/// A message with a prefix and a structured interaction that carry the same
/// command and the same arguments, from the same user in the same place,
/// become the same request: the two invocations differ in their surface
/// and, at most, in their reply target.
pub proof fn lemma_prefix_and_interaction_agree(
    prefixed: Seq<char>,
    mentions: Seq<Seq<char>>,
    bot_id: Seq<char>,
    name: Seq<char>,
    options: Seq<(Seq<char>, Seq<char>)>,
    by_message: OriginView,
    by_interaction: OriginView,
)
    requires
        same_place(by_message, by_interaction),
        !mentions.contains(bot_id),
        words(prefixed).len() >= 2,
        is_prefix(words(prefixed)[0]),
        words(prefixed)[1] == name,
        words(prefixed).skip(2) == interaction_arguments(name, options),
    ensures
        message_trigger(prefixed, mentions, bot_id, by_message) is Command,
        ({
            let a = message_trigger(prefixed, mentions, bot_id, by_message)->Command_0;
            let c = interaction_invocation(name, options, by_interaction);
            &&& a.surface == Surface::PrefixText
            &&& c.surface == Surface::StructuredInteraction
            &&& same_request(a, c)
        }),
{
    lemma_second_word_is_the_command(prefixed, mentions, bot_id, by_message);
}

/// A message that mentions the assistant is the same request as a message
/// with a prefix, and as a structured interaction, that asks for the
/// conversation with the words of the message as its arguments.
pub proof fn lemma_mention_agrees(
    mention: Seq<char>,
    prefixed: Seq<char>,
    mentions: Seq<Seq<char>>,
    bot_id: Seq<char>,
    options: Seq<(Seq<char>, Seq<char>)>,
    by_mention: OriginView,
    by_prefix: OriginView,
    by_interaction: OriginView,
)
    requires
        same_place(by_mention, by_prefix),
        same_place(by_mention, by_interaction),
        mention != PING@,
        mentions.contains(bot_id),
        words(mention).len() > 0,
        words(prefixed).len() >= 2,
        is_prefix(words(prefixed)[0]),
        words(prefixed)[1] == chatbot::NAME@,
        words(prefixed).skip(2) == mention_arguments(mention),
        interaction_arguments(chatbot::NAME@, options) == mention_arguments(mention),
    ensures
        message_trigger(mention, mentions, bot_id, by_mention) is Command,
        message_trigger(prefixed, Seq::empty(), bot_id, by_prefix) is Command,
        ({
            let a = message_trigger(mention, mentions, bot_id, by_mention)->Command_0;
            let b = message_trigger(prefixed, Seq::empty(), bot_id, by_prefix)->Command_0;
            let c = interaction_invocation(chatbot::NAME@, options, by_interaction);
            &&& a.surface == Surface::Mention
            &&& b.surface == Surface::PrefixText
            &&& c.surface == Surface::StructuredInteraction
            &&& same_request(a, b)
            &&& same_request(a, c)
        }),
{
    assert(!Seq::<Seq<char>>::empty().contains(bot_id));
    lemma_second_word_is_the_command(prefixed, Seq::empty(), bot_id, by_prefix);
}

} // verus!
