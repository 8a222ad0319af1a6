//! The timetable-changes command: which rows of the page are kept.

use crate::reply::{Attachment, AttachmentView, Embed, EmbedView, ReplyPayload, ReplyPayloadView};
use crate::text::{chars_of, push_char};
use crate::registry::{
    CommandOption, CommandOptionView, CommandSchema, CommandSchemaView, SlashCommand,
    SlashCommandView,
};
use vstd::prelude::*;

verus! {

/// The name of the command.
pub const NAME: &'static str = "zmeny";

/// The line that the chat platform shows about the command.
pub const DESCRIPTION: &'static str = "pošle změny dané třídy";

/// The name of the parameter `class`.
pub const CLASS_OPTION: &'static str = "class";

/// What the chat platform shows about `class`.
pub const CLASS_HINT: &'static str = "třída ve formátu 1A, 7B atd...";

/// The value of `class` where the user gave none.
pub const CLASS_DEFAULT: &'static str = "7B";

/// How the command is written, as the help shows it.
pub const HELP_SUMMARY: &'static str = "`zmeny ~třída`";

/// What the help tells of the command.
pub const HELP_DETAIL: &'static str =
    "Pošle změny dané třídy.\n`~třída` musí mít velké písmeno a být bez tečky, eg. **7B**, **2A**...";

/// The structured form of the command.
pub open spec fn schema() -> CommandSchemaView {
    CommandSchemaView {
        name: NAME@,
        description: DESCRIPTION@,
        options: seq![
            CommandOptionView {
                name: CLASS_OPTION@,
                description: CLASS_HINT@,
                required: true,
                default: CLASS_DEFAULT@,
            },
        ],
    }
}

/// The command as the catalogue holds it.
pub open spec fn descriptor() -> SlashCommandView {
    SlashCommandView { schema: schema(), help_summary: HELP_SUMMARY@, help_detail: HELP_DETAIL@ }
}

/// The structured form under which the command is registered.
pub fn register() -> (command: CommandSchema)
    ensures
        command.deep_view() == schema(),
{
    let command = CommandSchema::new(NAME, DESCRIPTION).add_option(
        CommandOption::new(CLASS_OPTION, CLASS_HINT, true, CLASS_DEFAULT),
    );
    assert(command.deep_view().options =~= schema().options);
    command
}

/// The help entry of the command: how it is written, then what it does.
pub fn help_message() -> (entry: (&'static str, &'static str))
    ensures
        entry.0@ == HELP_SUMMARY@,
        entry.1@ == HELP_DETAIL@,
{
    (HELP_SUMMARY, HELP_DETAIL)
}

/// The command as the catalogue holds it.
pub fn command() -> (command: SlashCommand)
    ensures
        command.deep_view() == descriptor(),
{
    SlashCommand::new(register(), help_message())
}

/// The page that lists the changes of every class.
pub const PAGE_URL: &'static str = "https://bakalari.gypce.cz/bakaweb/next/zmeny.aspx";

/// The script that hides the rows of other classes, up to the class's name.
pub const SCRIPT_HEAD: &'static str =
    "[].forEach.call(document.querySelectorAll('table.datagrid > tbody > tr'), function(row) { if (row.firstElementChild && row.firstElementChild.textContent.trim() !== '";

/// The rest of the script, after the class's name.
pub const SCRIPT_TAIL: &'static str = "') { row.style.display = 'none'; } });";

/// Where the picture of the page is put.
pub const IMAGE_PATH: &'static str = "/tmp/zmeny.png";

/// The name under which the picture is sent.
pub const IMAGE_NAME: &'static str = "zmeny.png";

/// What the title of the embed starts with.
pub const TITLE: &'static str = "Změny třídy ";

/// The colour of the embed.
pub const COLOR: (u8, u8, u8) = (5, 180, 255);

/// A class's name as the page writes it: a dot between every two
/// characters, `7.B` for `7B`.
pub open spec fn dotted(name: Seq<char>) -> Seq<char>
    decreases name.len(),
{
    if name.len() <= 1 {
        name
    } else {
        dotted(name.drop_last()) + seq!['.', name.last()]
    }
}

/// Writes a class's name with dots: see [`dotted`].
pub fn dotted_name(name: &str) -> (text: String)
    ensures
        text@ == dotted(name@),
{
    let chars = chars_of(name);
    let mut text = String::new();
    let mut i: usize = 0;
    assert(chars@.take(0) =~= Seq::<char>::empty());
    while i < chars.len()
        invariant
            i <= chars.len(),
            text@ == dotted(chars@.take(i as int)),
        decreases chars.len() - i,
    {
        let ghost part = chars@.take(i + 1);
        assert(part.drop_last() =~= chars@.take(i as int));
        if i > 0 {
            push_char(&mut text, '.');
        }
        push_char(&mut text, chars[i]);
        assert(text@ =~= dotted(part));
        i += 1;
    }
    assert(chars@.take(chars.len() as int) =~= chars@);
    text
}

/// How the changes of a class are made and shown: the page whose picture is
/// taken, and the message that carries the picture.
#[derive(Clone, Debug, PartialEq, Eq)]
pub struct CreateZmeny {
    /// The address of the page.
    pub url: String,
    /// The script that is run in the page first.
    pub script: String,
    /// Where the picture is put, and the name under which it is sent.
    pub attachment: Attachment,
    /// The embed that shows the picture.
    pub embed: Embed,
}

/// The view of a [`CreateZmeny`].
pub struct CreateZmenyView {
    pub url: Seq<char>,
    pub script: Seq<char>,
    pub attachment: AttachmentView,
    pub embed: EmbedView,
}

impl DeepView for CreateZmeny {
    type V = CreateZmenyView;

    open spec fn deep_view(&self) -> CreateZmenyView {
        CreateZmenyView {
            url: self.url@,
            script: self.script@,
            attachment: self.attachment.deep_view(),
            embed: self.embed.deep_view(),
        }
    }
}

/// What the changes command comes to for the given arguments. The first
/// argument names the class, [`CLASS_DEFAULT`] where there is none.
pub open spec fn changes(args: Seq<Seq<char>>) -> CreateZmenyView {
    let class = if args.len() > 0 {
        args[0]
    } else {
        CLASS_DEFAULT@
    };
    CreateZmenyView {
        url: PAGE_URL@,
        script: SCRIPT_HEAD@ + dotted(class) + SCRIPT_TAIL@,
        attachment: AttachmentView { path: IMAGE_PATH@, name: IMAGE_NAME@ },
        embed: EmbedView {
            title: Some(TITLE@ + class),
            image: Some(IMAGE_NAME@),
            color: Some(COLOR),
            ..EmbedView::empty()
        },
    }
}

/// Plans the changes that the arguments ask for: see [`changes`].
pub fn zmeny_message(args: &Vec<String>) -> (plan: CreateZmeny)
    ensures
        plan.deep_view() == changes(args.deep_view()),
{
    let class: &str = if args.len() > 0 {
        args[0].as_str()
    } else {
        CLASS_DEFAULT
    };
    let mut script = SCRIPT_HEAD.to_owned();
    script.append(dotted_name(class).as_str());
    script.append(SCRIPT_TAIL);
    let mut title = TITLE.to_owned();
    title.append(class);
    let embed = Embed {
        title: Some(title),
        description: None,
        author: None,
        thumbnail: None,
        image: Some(IMAGE_NAME.to_owned()),
        color: Some(COLOR),
        footer: None,
        fields: Vec::new(),
    };
    assert(embed.fields.deep_view() =~= Seq::empty());
    CreateZmeny {
        url: PAGE_URL.to_owned(),
        script,
        attachment: Attachment { path: IMAGE_PATH.to_owned(), name: IMAGE_NAME.to_owned() },
        embed,
    }
}

impl CreateZmeny {
    /// The message that carries the picture: the embed and the file.
    pub fn payload(self) -> (payload: ReplyPayload)
        ensures
            payload.deep_view() == (ReplyPayloadView {
                content: None,
                embeds: seq![self.deep_view().embed],
                attachment: Some(self.deep_view().attachment),
            }),
    {
        let ghost embed = self.embed.deep_view();
        let mut embeds: Vec<Embed> = Vec::new();
        embeds.push(self.embed);
        let payload = ReplyPayload { content: None, embeds, attachment: Some(self.attachment) };
        assert(payload.embeds.deep_view() =~= seq![embed]);
        payload
    }
}

} // verus!
