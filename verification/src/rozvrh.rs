//! The timetable command: which page of the school's timetable is shown.

use crate::reply::{Attachment, AttachmentView, Embed, EmbedView, ReplyPayload, ReplyPayloadView};
use crate::text::{push_char, str_eq};
use crate::registry::{
    CommandOption, CommandOptionView, CommandSchema, CommandSchemaView, SlashCommand,
    SlashCommandView,
};
use vstd::prelude::*;

verus! {

/// The name of the command.
pub const NAME: &'static str = "rozvrh";

/// The line that the chat platform shows about the command.
pub const DESCRIPTION: &'static str = "pošle rozvrh dané třídy nebo učebny";

/// The name of the parameter `class`.
pub const CLASS_OPTION: &'static str = "class";

/// What the chat platform shows about `class`.
pub const CLASS_HINT: &'static str = "třída ve formátu 1A, 7B atd...";

/// The value of `class` where the user gave none.
pub const CLASS_DEFAULT: &'static str = "7B";

/// The name of the parameter `time`.
pub const TIME_OPTION: &'static str = "time";

/// What the chat platform shows about `time`.
pub const TIME_HINT: &'static str = "0 - tento týden, +1 - příští týden";

/// The value of `time` where the user gave none.
pub const TIME_DEFAULT: &'static str = "0";

/// How the command is written, as the help shows it.
pub const HELP_SUMMARY: &'static str = "`rozvrh ~třída ~čas`";

/// What the help tells of the command.
pub const HELP_DETAIL: &'static str =
    "Pošle rozvrh dané třídy nebo učebny.\n`~třída` musí mít velké písmeno a být bez tečky, eg. **7B**, **2A**...\n`~čas` je `+1` pro příští týden, jinak se pošle tento týden.";

/// The structured form of the command.
pub open spec fn schema() -> CommandSchemaView {
    CommandSchemaView {
        name: NAME@,
        description: DESCRIPTION@,
        options: seq![
            CommandOptionView {
                name: CLASS_OPTION@,
                description: CLASS_HINT@,
                required: true,
                default: CLASS_DEFAULT@,
            },
            CommandOptionView {
                name: TIME_OPTION@,
                description: TIME_HINT@,
                required: false,
                default: TIME_DEFAULT@,
            },
        ],
    }
}

/// The command as the catalogue holds it.
pub open spec fn descriptor() -> SlashCommandView {
    SlashCommandView { schema: schema(), help_summary: HELP_SUMMARY@, help_detail: HELP_DETAIL@ }
}

/// The structured form under which the command is registered.
pub fn register() -> (command: CommandSchema)
    ensures
        command.deep_view() == schema(),
{
    let command = CommandSchema::new(NAME, DESCRIPTION).add_option(
        CommandOption::new(CLASS_OPTION, CLASS_HINT, true, CLASS_DEFAULT),
    ).add_option(
        CommandOption::new(TIME_OPTION, TIME_HINT, false, TIME_DEFAULT),
    );
    assert(command.deep_view().options =~= schema().options);
    command
}

/// The help entry of the command: how it is written, then what it does.
pub fn help_message() -> (entry: (&'static str, &'static str))
    ensures
        entry.0@ == HELP_SUMMARY@,
        entry.1@ == HELP_DETAIL@,
{
    (HELP_SUMMARY, HELP_DETAIL)
}

/// The command as the catalogue holds it.
pub fn command() -> (command: SlashCommand)
    ensures
        command.deep_view() == descriptor(),
{
    SlashCommand::new(register(), help_message())
}

/// What a timetable is of.
#[derive(Clone, Copy, Debug, PartialEq, Eq, Structural)]
pub enum Kind {
    /// A class of pupils.
    Class,
    /// A room.
    Room,
}

/// The classes and rooms that have a timetable: the name by which it is
/// asked for, the code under which the school's site keeps it, and what it
/// is.
pub const TABLE: [(&'static str, &'static str, Kind); 74] = [
    ("1A", "2G", Kind::Class),
    ("1B", "2I", Kind::Class),
    ("1F", "2J", Kind::Class),
    ("1H", "2K", Kind::Class),
    ("1J", "2L", Kind::Class),
    ("2A", "2C", Kind::Class),
    ("2B", "2D", Kind::Class),
    ("2F", "2E", Kind::Class),
    ("2H", "2F", Kind::Class),
    ("3A", "28", Kind::Class),
    ("3B", "29", Kind::Class),
    ("3F", "2A", Kind::Class),
    ("3H", "2B", Kind::Class),
    ("4A", "24", Kind::Class),
    ("4B", "25", Kind::Class),
    ("4F", "26", Kind::Class),
    ("4H", "27", Kind::Class),
    ("5A", "20", Kind::Class),
    ("5B", "21", Kind::Class),
    ("6A", "1W", Kind::Class),
    ("6B", "1X", Kind::Class),
    ("7A", "1S", Kind::Class),
    ("7B", "1T", Kind::Class),
    ("8A", "1O", Kind::Class),
    ("8B", "1P", Kind::Class),
    ("106", "ZW", Kind::Room),
    ("107", "A5", Kind::Room),
    ("108", "RR", Kind::Room),
    ("109", "84", Kind::Room),
    ("110", "35", Kind::Room),
    ("111", "GZ", Kind::Room),
    ("203", "C0", Kind::Room),
    ("205", "U2", Kind::Room),
    ("206", "51", Kind::Room),
    ("207", "50", Kind::Room),
    ("208", "6B", Kind::Room),
    ("303", "N5", Kind::Room),
    ("304", "32", Kind::Room),
    ("305", "1N", Kind::Room),
    ("306", "LG", Kind::Room),
    ("307", "G4", Kind::Room),
    ("308", "VF", Kind::Room),
    ("404", "SR", Kind::Room),
    ("405", "30", Kind::Room),
    ("406", "0X", Kind::Room),
    ("407", "FO", Kind::Room),
    ("408", "DT", Kind::Room),
    ("409", "G0", Kind::Room),
    ("412", "9B", Kind::Room),
    ("Bl", "YC", Kind::Room),
    ("Bp", "FR", Kind::Room),
    ("Br", "PL", Kind::Room),
    ("Cl", "48", Kind::Room),
    ("Cp", "CZ", Kind::Room),
    ("Cr", "3S", Kind::Room),
    ("Fl", "FV", Kind::Room),
    ("Fp", "IP", Kind::Room),
    ("Fr", "EF", Kind::Room),
    ("J1", "B9", Kind::Room),
    ("J2", "T0", Kind::Room),
    ("J3", "JI", Kind::Room),
    ("J4", "S8", Kind::Room),
    ("MM1", "ZY", Kind::Room),
    ("MM2", "OG", Kind::Room),
    ("Pv", "9A", Kind::Room),
    ("ŠJ", "01", Kind::Room),
    ("T1", "5Z", Kind::Room),
    ("T2", "00", Kind::Room),
    ("T3", "NP", Kind::Room),
    ("T4", "ZZ", Kind::Room),
    ("V1", "38", Kind::Room),
    ("V2", "77", Kind::Room),
    ("V3", "3Z", Kind::Room),
    ("V4", "5H", Kind::Room),
];

/// The class whose timetable is shown where none is asked for.
pub const DEFAULT_CLASS: &'static str = "7B";

/// The argument that asks for next week's timetable.
pub const NEXT_WEEK: &'static str = "+1";

/// Where the school's site keeps its public timetables.
pub const BASE_URL: &'static str = "https://bakalari.gypce.cz/bakaweb/Timetable/Public/";

/// The script that is run in the page before its picture is taken.
pub const SCRIPT: &'static str = "document.getElementById('c-p-bn').click()";

/// Where the picture of the page is put.
pub const IMAGE_PATH: &'static str = "/tmp/rozvrh.png";

/// The name under which the picture is sent.
pub const IMAGE_NAME: &'static str = "rozvrh.png";

/// What the title of the embed starts with.
pub const TITLE: &'static str = "rozvrh pro ";

/// What is answered where the name is that of no class or room.
pub const UNKNOWN_CLASS: &'static str = "Nechápu, kterej rozvrh chceš 🤔";

/// The colour of the embed.
pub const COLOR: (u8, u8, u8) = (5, 180, 255);

/// The first row of the table at or after `from` that is called `name`.
pub open spec fn row_from(name: Seq<char>, from: int) -> Option<(Seq<char>, Kind)>
    decreases TABLE@.len() - from,
{
    if from < 0 || from >= TABLE@.len() {
        None
    } else if TABLE@[from].0@ == name {
        Some((TABLE@[from].1@, TABLE@[from].2))
    } else {
        row_from(name, from + 1)
    }
}

/// The code and kind of the class or room called `name`; `None` where the
/// table has no such name.
pub open spec fn target(name: Seq<char>) -> Option<(Seq<char>, Kind)> {
    row_from(name, 0)
}

/// Looks a class or room up in the table.
pub fn find_target(name: &str) -> (found: Option<(&'static str, Kind)>)
    ensures
        found.deep_view() == target(name@),
{
    let mut i: usize = 0;
    while i < TABLE.len()
        invariant
            i <= TABLE@.len(),
            target(name@) == row_from(name@, i as int),
        decreases TABLE@.len() - i,
    {
        if str_eq(TABLE[i].0, name) {
            return Some((TABLE[i].1, TABLE[i].2));
        }
        i += 1;
    }
    None
}

impl DeepView for Kind {
    type V = Kind;

    open spec fn deep_view(&self) -> Kind {
        *self
    }
}

impl Kind {
    /// The part of a timetable's address that says what it is of.
    pub open spec fn segment(self) -> Seq<char> {
        match self {
            Kind::Class => "Class"@,
            Kind::Room => "Room"@,
        }
    }

    /// Executable form of [`Kind::segment`].
    pub fn as_str(self) -> (text: &'static str)
        ensures
            text@ == self.segment(),
    {
        match self {
            Kind::Class => "Class",
            Kind::Room => "Room",
        }
    }
}

/// The argument at position `at`, or `default` where there are fewer.
pub open spec fn argument_or(args: Seq<Seq<char>>, at: int, default: Seq<char>) -> Seq<char> {
    if 0 <= at < args.len() {
        args[at]
    } else {
        default
    }
}

/// The part of a timetable's address that says which week it shows: next
/// week for [`NEXT_WEEK`], this week for anything else.
pub open spec fn week(time: Seq<char>) -> Seq<char> {
    if time == NEXT_WEEK@ {
        "Next"@
    } else {
        "Actual"@
    }
}

/// The address of a timetable.
pub open spec fn page_url(week: Seq<char>, kind: Kind, code: Seq<char>) -> Seq<char> {
    BASE_URL@ + week + seq!['/'] + kind.segment() + seq!['/'] + code
}

/// How a timetable is made and shown: the page whose picture is taken, and
/// the message that carries the picture.
#[derive(Clone, Debug, PartialEq, Eq)]
pub struct CreateRozvrh {
    /// The address of the page.
    pub url: String,
    /// The script that is run in the page first.
    pub script: String,
    /// Where the picture is put, and the name under which it is sent.
    pub attachment: Attachment,
    /// The embed that shows the picture.
    pub embed: Embed,
}

/// The view of a [`CreateRozvrh`].
pub struct CreateRozvrhView {
    pub url: Seq<char>,
    pub script: Seq<char>,
    pub attachment: AttachmentView,
    pub embed: EmbedView,
}

impl DeepView for CreateRozvrh {
    type V = CreateRozvrhView;

    open spec fn deep_view(&self) -> CreateRozvrhView {
        CreateRozvrhView {
            url: self.url@,
            script: self.script@,
            attachment: self.attachment.deep_view(),
            embed: self.embed.deep_view(),
        }
    }
}

/// What the timetable command comes to for the given arguments. The first
/// argument names the class or room, [`DEFAULT_CLASS`] where there is none;
/// the second says which week. A name that the table does not hold gives
/// the text of [`UNKNOWN_CLASS`].
pub open spec fn timetable(args: Seq<Seq<char>>) -> Result<CreateRozvrhView, Seq<char>> {
    let class = argument_or(args, 0, DEFAULT_CLASS@);
    let time = argument_or(args, 1, "0"@);
    match target(class) {
        Some((code, kind)) => Ok(
            CreateRozvrhView {
                url: page_url(week(time), kind, code),
                script: SCRIPT@,
                attachment: AttachmentView { path: IMAGE_PATH@, name: IMAGE_NAME@ },
                embed: EmbedView {
                    title: Some(TITLE@ + class),
                    image: Some(IMAGE_NAME@),
                    color: Some(COLOR),
                    ..EmbedView::empty()
                },
            },
        ),
        None => Err(UNKNOWN_CLASS@),
    }
}

/// Plans the timetable that the arguments ask for: see [`timetable`].
pub fn rozvrh_message(args: &Vec<String>) -> (plan: Result<CreateRozvrh, String>)
    ensures
        match plan {
            Ok(made) => timetable(args.deep_view()) == Ok::<CreateRozvrhView, Seq<char>>(
                made.deep_view(),
            ),
            Err(why) => timetable(args.deep_view()) == Err::<CreateRozvrhView, Seq<char>>(why@),
        },
{
    let class: &str = if args.len() > 0 {
        args[0].as_str()
    } else {
        DEFAULT_CLASS
    };
    let next = args.len() > 1 && str_eq(args[1].as_str(), NEXT_WEEK);
    proof {
        reveal_strlit("0");
        reveal_strlit("+1");
        assert("0"@ != NEXT_WEEK@) by {
            assert("0"@.len() == 1 && NEXT_WEEK@.len() == 2);
        }
    }
    match find_target(class) {
        Some((code, kind)) => {
            let mut url = BASE_URL.to_owned();
            url.append(if next {
                "Next"
            } else {
                "Actual"
            });
            push_char(&mut url, '/');
            url.append(kind.as_str());
            push_char(&mut url, '/');
            url.append(code);
            let mut title = TITLE.to_owned();
            title.append(class);
            proof {
                let time = argument_or(args.deep_view(), 1, "0"@);
                assert(class@ == argument_or(args.deep_view(), 0, DEFAULT_CLASS@));
                assert(week(time) == if next {
                    "Next"@
                } else {
                    "Actual"@
                });
                assert(url@ =~= page_url(week(time), kind, code@));
            }
            let embed = Embed {
                title: Some(title),
                description: None,
                author: None,
                thumbnail: None,
                image: Some(IMAGE_NAME.to_owned()),
                color: Some(COLOR),
                footer: None,
                fields: Vec::new(),
            };
            assert(embed.fields.deep_view() =~= Seq::empty());
            Ok(
                CreateRozvrh {
                    url,
                    script: SCRIPT.to_owned(),
                    attachment: Attachment {
                        path: IMAGE_PATH.to_owned(),
                        name: IMAGE_NAME.to_owned(),
                    },
                    embed,
                },
            )
        },
        None => Err(UNKNOWN_CLASS.to_owned()),
    }
}

impl CreateRozvrh {
    /// The message that carries the picture: the embed and the file.
    pub fn payload(self) -> (payload: ReplyPayload)
        ensures
            payload.deep_view() == (ReplyPayloadView {
                content: None,
                embeds: seq![self.deep_view().embed],
                attachment: Some(self.deep_view().attachment),
            }),
    {
        let ghost embed = self.embed.deep_view();
        let mut embeds: Vec<Embed> = Vec::new();
        embeds.push(self.embed);
        let payload = ReplyPayload { content: None, embeds, attachment: Some(self.attachment) };
        assert(payload.embeds.deep_view() =~= seq![embed]);
        payload
    }
}

} // verus!
