//! The catalogue of commands: what each one is called, which parameters its
//! structured form takes, and what the help says of it.
//!
//! The catalogue is fixed. Its order is the order in which the commands are
//! announced to the chat platform and in which the help lists them.

use crate::reply::{Embed, EmbedFieldView, EmbedView};
use crate::text::str_eq;
use crate::{chatbot, lunch_fetch, rozvrh, zmeny};
use vstd::prelude::*;

verus! {

/// One parameter of a command's structured form. Every parameter is a text.
#[derive(Clone, Debug, PartialEq, Eq)]
pub struct CommandOption {
    pub name: String,
    pub description: String,
    /// Whether the platform asks the user to fill it in.
    pub required: bool,
    /// The value that stands in where the user gave none.
    pub default: String,
}

/// The view of a [`CommandOption`].
pub struct CommandOptionView {
    pub name: Seq<char>,
    pub description: Seq<char>,
    pub required: bool,
    pub default: Seq<char>,
}

impl DeepView for CommandOption {
    type V = CommandOptionView;

    open spec fn deep_view(&self) -> CommandOptionView {
        CommandOptionView {
            name: self.name@,
            description: self.description@,
            required: self.required,
            default: self.default@,
        }
    }
}

impl CommandOption {
    /// A parameter with the given texts.
    pub fn new(name: &str, description: &str, required: bool, default: &str) -> (option: Self)
        ensures
            option.deep_view() == (CommandOptionView {
                name: name@,
                description: description@,
                required,
                default: default@,
            }),
    {
        CommandOption {
            name: name.to_owned(),
            description: description.to_owned(),
            required,
            default: default.to_owned(),
        }
    }
}

/// The structured form of a command: its name, a line about it, and its
/// parameters in the order in which they become arguments.
#[derive(Clone, Debug, PartialEq, Eq)]
pub struct CommandSchema {
    pub name: String,
    pub description: String,
    pub options: Vec<CommandOption>,
}

/// The view of a [`CommandSchema`].
pub struct CommandSchemaView {
    pub name: Seq<char>,
    pub description: Seq<char>,
    pub options: Seq<CommandOptionView>,
}

impl DeepView for CommandSchema {
    type V = CommandSchemaView;

    open spec fn deep_view(&self) -> CommandSchemaView {
        CommandSchemaView {
            name: self.name@,
            description: self.description@,
            options: self.options.deep_view(),
        }
    }
}

impl CommandSchema {
    /// A command without parameters.
    pub fn new(name: &str, description: &str) -> (schema: Self)
        ensures
            schema.deep_view() == (CommandSchemaView {
                name: name@,
                description: description@,
                options: Seq::empty(),
            }),
    {
        let schema = CommandSchema {
            name: name.to_owned(),
            description: description.to_owned(),
            options: Vec::new(),
        };
        assert(schema.options.deep_view() =~= Seq::empty());
        schema
    }

    /// The command with one more parameter, after those it has.
    pub fn add_option(self, option: CommandOption) -> (schema: Self)
        ensures
            schema.deep_view() == (CommandSchemaView {
                options: self.deep_view().options.push(option.deep_view()),
                ..self.deep_view()
            }),
    {
        let ghost before = self.options.deep_view();
        let ghost added = option.deep_view();
        let mut schema = self;
        schema.options.push(option);
        assert(schema.options.deep_view() =~= before.push(added));
        schema
    }
}

/// One command of the catalogue: its structured form and its help entry.
#[derive(Clone, Debug, PartialEq, Eq)]
pub struct SlashCommand {
    pub schema: CommandSchema,
    /// How the command is written, as the help shows it.
    pub help_summary: String,
    /// What the command does, as the help tells it.
    pub help_detail: String,
}

/// The view of a [`SlashCommand`].
pub struct SlashCommandView {
    pub schema: CommandSchemaView,
    pub help_summary: Seq<char>,
    pub help_detail: Seq<char>,
}

impl DeepView for SlashCommand {
    type V = SlashCommandView;

    open spec fn deep_view(&self) -> SlashCommandView {
        SlashCommandView {
            schema: self.schema.deep_view(),
            help_summary: self.help_summary@,
            help_detail: self.help_detail@,
        }
    }
}

impl SlashCommand {
    /// The descriptor made of a structured form and a help entry.
    pub fn new(schema: CommandSchema, help: (&str, &str)) -> (command: Self)
        ensures
            command.deep_view() == (SlashCommandView {
                schema: schema.deep_view(),
                help_summary: help.0@,
                help_detail: help.1@,
            }),
    {
        SlashCommand { schema, help_summary: help.0.to_owned(), help_detail: help.1.to_owned() }
    }
}

/// The catalogue, in the order of registration.
pub open spec fn catalogue() -> Seq<SlashCommandView> {
    seq![rozvrh::descriptor(), lunch_fetch::descriptor(), chatbot::descriptor(), zmeny::descriptor()]
}

/// The first command of `commands` that is called `name`.
pub open spec fn lookup(commands: Seq<SlashCommandView>, name: Seq<char>) -> Option<
    SlashCommandView,
>
    decreases commands.len(),
{
    if commands.len() == 0 {
        None
    } else if commands[0].schema.name == name {
        Some(commands[0])
    } else {
        lookup(commands.drop_first(), name)
    }
}

/// Every command of the catalogue, in the order of registration.
pub fn all() -> (commands: Vec<SlashCommand>)
    ensures
        commands.deep_view() == catalogue(),
{
    let mut commands: Vec<SlashCommand> = Vec::new();
    commands.push(rozvrh::command());
    commands.push(lunch_fetch::command());
    commands.push(chatbot::command());
    commands.push(zmeny::command());
    assert(commands.deep_view() =~= catalogue());
    commands
}

/// The command called `name`, if the catalogue has one.
pub fn describe(name: &str) -> (command: Option<SlashCommand>)
    ensures
        command.deep_view() == lookup(catalogue(), name@),
{
    let mut commands = all();
    let ghost whole = commands.deep_view();
    let mut found: Option<SlashCommand> = None;
    while commands.len() > 0
        invariant
            match found {
                Some(c) => lookup(whole, name@) == Some(c.deep_view()),
                None => lookup(whole, name@) == lookup(commands.deep_view(), name@),
            },
        decreases commands.len(),
    {
        let ghost before = commands.deep_view();
        let command = commands.remove(0);
        assert(commands.deep_view() =~= before.drop_first());
        assert(command.deep_view() == before[0]);
        if found.is_none() && str_eq(command.schema.name.as_str(), name) {
            found = Some(command);
        }
    }
    found
}

/// The names of the catalogue differ from each other.
pub proof fn lemma_names_differ()
    ensures
        forall|i: int, j: int|
            0 <= i < j < catalogue().len() ==> (#[trigger] catalogue()[i]).schema.name != (
            #[trigger] catalogue()[j]).schema.name,
{
    reveal_strlit("rozvrh");
    reveal_strlit("obedy");
    reveal_strlit("ai");
    reveal_strlit("zmeny");
    assert(rozvrh::NAME@.len() == 6);
    assert(lunch_fetch::NAME@.len() == 5);
    assert(chatbot::NAME@.len() == 2);
    assert(zmeny::NAME@.len() == 5);
    assert(lunch_fetch::NAME@[0] == 'o');
    assert(zmeny::NAME@[0] == 'z');
}

/// The heading of the help's first line.
pub const PREFIXES_TITLE: &'static str = "Prefixy";

/// The help's first line: the prefixes that mark a message as a command.
pub const PREFIXES_TEXT: &'static str =
    "Pan Špička přijímá tyto prefixy před zprávami jako příkazy:\n`!ps`, `kys`, `186`";

/// The heading of the help's second line.
pub const SLASH_TITLE: &'static str = "Lomítkové Příkazy";

/// The help's second line: that structured commands are taken too.
pub const SLASH_TEXT: &'static str =
    "Pan Špička také přijímá discordem podporované příkazy začínající s `/`";

/// The heading under which the help lists the commands.
pub const COMMANDS_TITLE: &'static str = "Pan Špička podporuje tyto příkazy:";

/// The help line of one command.
pub open spec fn help_line(command: SlashCommandView) -> EmbedFieldView {
    EmbedFieldView { name: command.help_summary, value: command.help_detail, inline: false }
}

/// The lines of the whole help: three lines of introduction, then one line
/// per command in the order of the catalogue.
pub open spec fn help_lines() -> Seq<EmbedFieldView> {
    seq![
        EmbedFieldView { name: PREFIXES_TITLE@, value: PREFIXES_TEXT@, inline: false },
        EmbedFieldView { name: SLASH_TITLE@, value: SLASH_TEXT@, inline: false },
        EmbedFieldView { name: COMMANDS_TITLE@, value: Seq::empty(), inline: false },
    ] + Seq::new(catalogue().len(), |i: int| help_line(catalogue()[i]))
}

/// An embed that a help entry can be added to.
pub trait HelpField: Sized {
    /// The embed with one more line: how a command is written, and what it
    /// does.
    fn help_field(self, args: (&str, &str)) -> Self;
}

impl HelpField for Embed {
    fn help_field(self, args: (&str, &str)) -> (embed: Self)
        ensures
            embed.deep_view() == (EmbedView {
                fields: self.deep_view().fields.push(
                    EmbedFieldView { name: args.0@, value: args.1@, inline: false },
                ),
                ..self.deep_view()
            }),
    {
        self.field(args.0, args.1)
    }
}

/// The whole help.
pub fn help_content() -> (embed: Embed)
    ensures
        embed.deep_view() == (EmbedView { fields: help_lines(), ..EmbedView::empty() }),
{
    let mut embed = Embed::new().field(PREFIXES_TITLE, PREFIXES_TEXT).field(
        SLASH_TITLE,
        SLASH_TEXT,
    ).field(COMMANDS_TITLE, "");
    proof {
        reveal_strlit("");
        assert(""@ =~= Seq::<char>::empty());
    }
    let commands = all();
    let ghost head = embed.deep_view().fields;
    let mut i: usize = 0;
    while i < commands.len()
        invariant
            i <= commands.len(),
            commands.deep_view() == catalogue(),
            embed.deep_view() == (EmbedView {
                fields: head + Seq::new(i as nat, |k: int| help_line(catalogue()[k])),
                ..EmbedView::empty()
            }),
        decreases commands.len() - i,
    {
        let ghost before = embed.deep_view().fields;
        assert(commands[i as int].deep_view() == catalogue()[i as int]);
        embed = embed.help_field(
            (commands[i].help_summary.as_str(), commands[i].help_detail.as_str()),
        );
        i += 1;
        assert(embed.deep_view().fields =~= head + Seq::new(
            i as nat,
            |k: int| help_line(catalogue()[k]),
        ));
    }
    assert(embed.deep_view().fields =~= help_lines());
    embed
}

/// The help about one command, or the whole help where `topic` names no
/// command of the catalogue.
pub fn help_about(topic: Option<&str>) -> (embed: Embed)
    ensures
        embed.deep_view() == match topic {
            Some(name) => match lookup(catalogue(), name@) {
                Some(command) => EmbedView { fields: seq![help_line(command)], ..EmbedView::empty() },
                None => EmbedView { fields: help_lines(), ..EmbedView::empty() },
            },
            None => EmbedView { fields: help_lines(), ..EmbedView::empty() },
        },
{
    let found = match topic {
        Some(name) => describe(name),
        None => None,
    };
    match found {
        Some(command) => {
            let embed = Embed::new().help_field(
                (command.help_summary.as_str(), command.help_detail.as_str()),
            );
            assert(embed.deep_view().fields =~= seq![help_line(command.deep_view())]);
            embed
        },
        None => help_content(),
    }
}

/// The structured commands that are registered with one server: those of
/// the catalogue, in the order rozvrh, zmeny, ai, obedy, and the help.
pub open spec fn server_commands() -> Seq<CommandSchemaView> {
    seq![
        rozvrh::schema(),
        zmeny::schema(),
        chatbot::schema(),
        lunch_fetch::schema(),
        CommandSchemaView {
            name: HELP_NAME@,
            description: HELP_DESCRIPTION@,
            options: Seq::empty(),
        },
    ]
}

/// The name of the help command.
pub const HELP_NAME: &'static str = "help";

/// The line that the chat platform shows about the help command.
pub const HELP_DESCRIPTION: &'static str = "zašle pomocné menu";

/// The structured commands to register with one server.
pub fn guild_commands() -> (commands: Vec<CommandSchema>)
    ensures
        commands.deep_view() == server_commands(),
{
    let mut commands: Vec<CommandSchema> = Vec::new();
    commands.push(rozvrh::register());
    commands.push(zmeny::register());
    commands.push(chatbot::register());
    commands.push(lunch_fetch::register());
    commands.push(CommandSchema::new(HELP_NAME, HELP_DESCRIPTION));
    assert(commands.deep_view() =~= server_commands());
    commands
}

/// The structured commands to register for every server: the forms of the
/// catalogue, in its order.
pub fn global_commands() -> (commands: Vec<CommandSchema>)
    ensures
        commands.deep_view() == Seq::new(catalogue().len(), |i: int| catalogue()[i].schema),
{
    let mut commands: Vec<CommandSchema> = Vec::new();
    commands.push(rozvrh::register());
    commands.push(lunch_fetch::register());
    commands.push(chatbot::register());
    commands.push(zmeny::register());
    assert(commands.deep_view() =~= Seq::new(catalogue().len(), |i: int| catalogue()[i].schema));
    commands
}

} // verus!
