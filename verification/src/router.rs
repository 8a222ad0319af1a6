//! The router: what is done with an invocation, one step at a time.
//!
//! Answering a command takes several exchanges with the chat platform and
//! with the services behind the commands. The router does none of them. It
//! holds the state of one invocation and says, for each thing that happened,
//! what has to happen next: [`Dispatch::step`] takes an [`Event`] and gives
//! an [`Action`]. The caller carries the action out and comes back with the
//! event that answers it.
//!
//! Every invocation is acknowledged first, with a placeholder message or a
//! deferred response. Then the command is looked up and the permissions it
//! needs are checked; only then a handler runs. Whatever comes of it, the
//! acknowledgement is resolved once: by editing the placeholder or by a
//! follow-up message. A placeholder that could not be sent is not resolved:
//! there is nothing to edit.

use crate::invocation::{sentence, Invocation, InvocationView, Surface};
use crate::registry::{self, CommandSchema, CommandSchemaView};
use crate::reply::{ReplyPayload, ReplyPayloadView};
use crate::rozvrh::{self, CreateRozvrh, CreateRozvrhView};
use crate::database::ServerData;
use crate::text::{join_words, joined, parse_u64, parsed_u64, str_eq};
use crate::zmeny::{self, CreateZmeny, CreateZmenyView};
use crate::{chatbot, lunch_fetch};
use vstd::prelude::*;

verus! {

/// The message that acknowledges an invocation.
pub const THINKING: &'static str = "Přemejšlim... 🤔";

/// What stands above an answer that needs no words of its own.
pub const DONE: &'static str = "Bazinga ☝🤓";

/// The answer to `register`.
pub const REGISTERING: &'static str = "Registruju / commandy 🤓";

/// The answer to `unregister`.
pub const UNREGISTERING: &'static str = "Odebírám / commandy 🤓";

/// The answer to `announcements`.
pub const CHANNEL_SET: &'static str = "Kanál nastaven!";

/// The answer to a structured interaction that names no command.
pub const NOT_EXISTING: &'static str = "to neexistuje";

/// What a failed timetable or changes command starts its answer with.
pub const WENT_WRONG: &'static str = "Něco se pokazilo: ";

/// What a failed conversation starts its answer with.
pub const AI_FAILED: &'static str = "Failed talking with AI: ";

/// What any other failed command starts its answer with, in a message.
pub const INVOKE_FAILED: &'static str = "Failed to invoke command: ";

/// What a failed command starts its answer with, in an interaction.
pub const COMMAND_FAILED: &'static str = "Command failed: ";

/// What is said of a name that is no command, before the name.
pub const NOT_RECOGNIZED_HEAD: &'static str = "Command `";

/// What is said of a name that is no command, after the name.
pub const NOT_RECOGNIZED_TAIL: &'static str = "` not recognized";

/// The one user who may change the status and send announcements.
pub const ADMIN_ID: &'static str = "416295343198568458";

/// What anyone else is told.
pub const ADMIN_ONLY: &'static str = "Insufficient permissions: Only admins can use this command.";

/// What a user is told who may not manage the channel.
pub const INSUFFICIENT: &'static str = "Insufficient permissions";

/// What is said where a command of a server is asked for outside one.
pub const NO_GUILD: &'static str = "Failed getting guild id";

/// What is said where the channel is not one of a server.
pub const NO_GUILD_CHANNEL: &'static str = "Failed getting guild channel";

/// What is said where the channel could not be looked up, before the
/// reason.
pub const NO_CHANNEL: &'static str = "Failed getting channel: ";

/// What is said where the member could not be looked up, before the reason.
pub const NO_MEMBER: &'static str = "Failed getting member object: ";

/// What is said where the server's permissions are not at hand.
pub const NO_PERMISSIONS: &'static str = "Failed checking permissions";

/// What is said where an event does not answer the action before it.
pub const UNEXPECTED: &'static str = "unexpected event";

/// The argument that takes a server's announcement channel away.
pub const DISABLE: &'static str = "disable";

/// The name of the command that registers the structured commands.
pub const REGISTER: &'static str = "register";

/// The name of the command that takes them away.
pub const UNREGISTER: &'static str = "unregister";

/// The name of the command that sets the assistant's status.
pub const STATUS: &'static str = "status";

/// The name of the command that sets a server's announcement channel.
pub const ANNOUNCEMENTS: &'static str = "announcements";

/// The name of the command that sends an announcement to every server.
pub const ANNOUNCE: &'static str = "announce";

/// The commands that the router knows.
#[derive(Clone, Copy, Debug, PartialEq, Eq, Structural)]
pub enum Command {
    Rozvrh,
    Zmeny,
    Register,
    Unregister,
    Help,
    Ai,
    Status,
    Obedy,
    Announcements,
    Announce,
}

/// The command that a name stands for; `None` for any other name.
pub open spec fn resolved(name: Seq<char>) -> Option<Command> {
    if name == rozvrh::NAME@ {
        Some(Command::Rozvrh)
    } else if name == zmeny::NAME@ {
        Some(Command::Zmeny)
    } else if name == REGISTER@ {
        Some(Command::Register)
    } else if name == UNREGISTER@ {
        Some(Command::Unregister)
    } else if name == registry::HELP_NAME@ {
        Some(Command::Help)
    } else if name == chatbot::NAME@ {
        Some(Command::Ai)
    } else if name == STATUS@ {
        Some(Command::Status)
    } else if name == lunch_fetch::NAME@ {
        Some(Command::Obedy)
    } else if name == ANNOUNCEMENTS@ {
        Some(Command::Announcements)
    } else if name == ANNOUNCE@ {
        Some(Command::Announce)
    } else {
        None
    }
}

/// No name of the table hides another: each of the ten names stands for
/// its own command.
pub proof fn lemma_table_is_exact()
    ensures
        resolved(rozvrh::NAME@) == Some(Command::Rozvrh),
        resolved(zmeny::NAME@) == Some(Command::Zmeny),
        resolved(REGISTER@) == Some(Command::Register),
        resolved(UNREGISTER@) == Some(Command::Unregister),
        resolved(registry::HELP_NAME@) == Some(Command::Help),
        resolved(chatbot::NAME@) == Some(Command::Ai),
        resolved(STATUS@) == Some(Command::Status),
        resolved(lunch_fetch::NAME@) == Some(Command::Obedy),
        resolved(ANNOUNCEMENTS@) == Some(Command::Announcements),
        resolved(ANNOUNCE@) == Some(Command::Announce),
{
    reveal_strlit("rozvrh");
    reveal_strlit("zmeny");
    reveal_strlit("register");
    reveal_strlit("unregister");
    reveal_strlit("help");
    reveal_strlit("ai");
    reveal_strlit("status");
    reveal_strlit("obedy");
    reveal_strlit("announcements");
    reveal_strlit("announce");
    assert(rozvrh::NAME@.len() == 6 && rozvrh::NAME@[0] == 'r');
    assert(zmeny::NAME@.len() == 5 && zmeny::NAME@[0] == 'z');
    assert(REGISTER@.len() == 8 && REGISTER@[0] == 'r');
    assert(UNREGISTER@.len() == 10);
    assert(registry::HELP_NAME@.len() == 4);
    assert(chatbot::NAME@.len() == 2);
    assert(STATUS@.len() == 6 && STATUS@[0] == 's');
    assert(lunch_fetch::NAME@.len() == 5 && lunch_fetch::NAME@[0] == 'o');
    assert(ANNOUNCEMENTS@.len() == 13);
    assert(ANNOUNCE@.len() == 8 && ANNOUNCE@[0] == 'a');
}

/// Looks a command up by its name.
pub fn resolve(name: &str) -> (command: Option<Command>)
    ensures
        command == resolved(name@),
{
    if str_eq(name, rozvrh::NAME) {
        Some(Command::Rozvrh)
    } else if str_eq(name, zmeny::NAME) {
        Some(Command::Zmeny)
    } else if str_eq(name, REGISTER) {
        Some(Command::Register)
    } else if str_eq(name, UNREGISTER) {
        Some(Command::Unregister)
    } else if str_eq(name, registry::HELP_NAME) {
        Some(Command::Help)
    } else if str_eq(name, chatbot::NAME) {
        Some(Command::Ai)
    } else if str_eq(name, STATUS) {
        Some(Command::Status)
    } else if str_eq(name, lunch_fetch::NAME) {
        Some(Command::Obedy)
    } else if str_eq(name, ANNOUNCEMENTS) {
        Some(Command::Announcements)
    } else if str_eq(name, ANNOUNCE) {
        Some(Command::Announce)
    } else {
        None
    }
}

/// What the assistant is shown to be doing.
#[derive(Clone, Copy, Debug, PartialEq, Eq, Structural)]
pub enum ActivityKind {
    Competing,
    Custom,
    Listening,
    Playing,
    Watching,
}

/// A status: what the assistant is doing, and with what.
#[derive(Clone, Debug, PartialEq, Eq)]
pub struct Activity {
    pub kind: ActivityKind,
    pub text: String,
}

/// The view of an [`Activity`].
pub struct ActivityView {
    pub kind: ActivityKind,
    pub text: Seq<char>,
}

impl DeepView for Activity {
    type V = ActivityView;

    open spec fn deep_view(&self) -> ActivityView {
        ActivityView { kind: self.kind, text: self.text@ }
    }
}

/// What the assistant is shown to be doing when it comes up.
pub const STARTUP_STATUS: &'static str = "Kontroluju boty";

/// The status with which the assistant comes up.
pub fn startup_activity() -> (activity: Activity)
    ensures
        activity.deep_view() == (ActivityView { kind: ActivityKind::Custom, text: STARTUP_STATUS@ }),
{
    Activity { kind: ActivityKind::Custom, text: STARTUP_STATUS.to_owned() }
}

/// The kind of status that a word names.
pub open spec fn activity_kind(word: Seq<char>) -> Option<ActivityKind> {
    if word == "competing"@ {
        Some(ActivityKind::Competing)
    } else if word == "custom"@ {
        Some(ActivityKind::Custom)
    } else if word == "listening"@ {
        Some(ActivityKind::Listening)
    } else if word == "playing"@ {
        Some(ActivityKind::Playing)
    } else if word == "watching"@ {
        Some(ActivityKind::Watching)
    } else {
        None
    }
}

/// The status that the arguments ask for: the first names its kind, the
/// rest is its text. `None`, which clears the status, where the first
/// argument names no kind.
pub open spec fn activity_of(args: Seq<Seq<char>>) -> Option<ActivityView> {
    if args.len() == 0 {
        None
    } else {
        match activity_kind(args[0]) {
            Some(kind) => Some(ActivityView { kind, text: joined(args.skip(1)) }),
            None => None,
        }
    }
}

/// Reads the status that the arguments ask for: see [`activity_of`].
pub fn read_activity(args: &Vec<String>) -> (activity: Option<Activity>)
    ensures
        activity.deep_view() == activity_of(args.deep_view()),
{
    if args.len() == 0 {
        return None;
    }
    let word = args[0].as_str();
    let kind = if str_eq(word, "competing") {
        ActivityKind::Competing
    } else if str_eq(word, "custom") {
        ActivityKind::Custom
    } else if str_eq(word, "listening") {
        ActivityKind::Listening
    } else if str_eq(word, "playing") {
        ActivityKind::Playing
    } else if str_eq(word, "watching") {
        ActivityKind::Watching
    } else {
        return None;
    };
    Some(Activity { kind, text: join_words(args, 1) })
}

/// What a handler is asked to do. The caller does it and reports what came
/// of it.
#[derive(Clone, Debug, PartialEq, Eq)]
pub enum HandlerCall {
    /// Take the picture of a timetable and answer with it.
    Timetable(CreateRozvrh),
    /// Take the picture of a class's changes and answer with it.
    Changes(CreateZmeny),
    /// Put the message to the language model and answer with what it says.
    Chat(String),
    /// Fetch the meals of the day that lies so many days ahead.
    Lunch(i64),
    /// Make these the structured commands of the server.
    SetCommands { guild_id: String, commands: Vec<CommandSchema> },
    /// Show this status, or none.
    SetActivity(Option<Activity>),
    /// Set the announcement channel of the server in the store.
    SetAnnouncementChannel { server_id: String, channel_id: Option<String> },
    /// Send the text to the announcement channel of every server.
    Broadcast(String),
}

/// The view of a [`HandlerCall`].
pub enum HandlerCallView {
    Timetable(CreateRozvrhView),
    Changes(CreateZmenyView),
    Chat(Seq<char>),
    Lunch(i64),
    SetCommands { guild_id: Seq<char>, commands: Seq<CommandSchemaView> },
    SetActivity(Option<ActivityView>),
    SetAnnouncementChannel { server_id: Seq<char>, channel_id: Option<Seq<char>> },
    Broadcast(Seq<char>),
}

impl DeepView for HandlerCall {
    type V = HandlerCallView;

    open spec fn deep_view(&self) -> HandlerCallView {
        match self {
            HandlerCall::Timetable(plan) => HandlerCallView::Timetable(plan.deep_view()),
            HandlerCall::Changes(plan) => HandlerCallView::Changes(plan.deep_view()),
            HandlerCall::Chat(message) => HandlerCallView::Chat(message@),
            HandlerCall::Lunch(days) => HandlerCallView::Lunch(*days),
            HandlerCall::SetCommands { guild_id, commands } => HandlerCallView::SetCommands {
                guild_id: guild_id@,
                commands: commands.deep_view(),
            },
            HandlerCall::SetActivity(activity) => HandlerCallView::SetActivity(
                activity.deep_view(),
            ),
            HandlerCall::SetAnnouncementChannel {
                server_id,
                channel_id,
            } => HandlerCallView::SetAnnouncementChannel {
                server_id: server_id@,
                channel_id: channel_id.deep_view(),
            },
            HandlerCall::Broadcast(text) => HandlerCallView::Broadcast(text@),
        }
    }
}

/// What the look-up of a user's permissions in a channel came to.
#[derive(Clone, Debug, PartialEq, Eq)]
pub enum PermissionProbe {
    /// The channel could not be looked up, for the reason given.
    ChannelUnavailable(String),
    /// The channel is not one of a server.
    NotGuildChannel,
    /// The member could not be looked up, for the reason given.
    MemberUnavailable(String),
    /// The server's permissions are not at hand.
    GuildUnavailable,
    /// The permissions are known: whether the user may manage the channel.
    Resolved { manage_channels: bool },
}

/// The view of a [`PermissionProbe`].
pub enum PermissionProbeView {
    ChannelUnavailable(Seq<char>),
    NotGuildChannel,
    MemberUnavailable(Seq<char>),
    GuildUnavailable,
    Resolved { manage_channels: bool },
}

impl DeepView for PermissionProbe {
    type V = PermissionProbeView;

    open spec fn deep_view(&self) -> PermissionProbeView {
        match self {
            PermissionProbe::ChannelUnavailable(why) => PermissionProbeView::ChannelUnavailable(
                why@,
            ),
            PermissionProbe::NotGuildChannel => PermissionProbeView::NotGuildChannel,
            PermissionProbe::MemberUnavailable(why) => PermissionProbeView::MemberUnavailable(
                why@,
            ),
            PermissionProbe::GuildUnavailable => PermissionProbeView::GuildUnavailable,
            PermissionProbe::Resolved { manage_channels } => PermissionProbeView::Resolved {
                manage_channels: *manage_channels,
            },
        }
    }
}

impl PermissionProbeView {
    /// Whether the look-up shows that the user may manage the channel.
    pub open spec fn grants(self) -> bool {
        self == (PermissionProbeView::Resolved { manage_channels: true })
    }
}

/// What an invocation came to.
#[derive(Clone, Debug, PartialEq, Eq)]
pub enum Outcome {
    /// The handler answered.
    Success(ReplyPayload),
    /// The name is that of no command.
    CommandNotRecognized,
    /// A check failed before the handler ran; the text says which.
    PermissionDenied(String),
    /// The command could not be carried out; the text says why.
    HandlerFailed(String),
}

/// The view of an [`Outcome`].
pub enum OutcomeView {
    Success(ReplyPayloadView),
    CommandNotRecognized,
    PermissionDenied(Seq<char>),
    HandlerFailed(Seq<char>),
}

impl DeepView for Outcome {
    type V = OutcomeView;

    open spec fn deep_view(&self) -> OutcomeView {
        match self {
            Outcome::Success(payload) => OutcomeView::Success(payload.deep_view()),
            Outcome::CommandNotRecognized => OutcomeView::CommandNotRecognized,
            Outcome::PermissionDenied(why) => OutcomeView::PermissionDenied(why@),
            Outcome::HandlerFailed(why) => OutcomeView::HandlerFailed(why@),
        }
    }
}

/// The kinds of outcome, without what they carry.
#[derive(Clone, Copy, Debug, PartialEq, Eq, Structural)]
pub enum OutcomeKind {
    Success,
    CommandNotRecognized,
    PermissionDenied,
    HandlerFailed,
}

impl OutcomeView {
    /// The kind of the outcome.
    pub open spec fn kind(self) -> OutcomeKind {
        match self {
            OutcomeView::Success(_) => OutcomeKind::Success,
            OutcomeView::CommandNotRecognized => OutcomeKind::CommandNotRecognized,
            OutcomeView::PermissionDenied(_) => OutcomeKind::PermissionDenied,
            OutcomeView::HandlerFailed(_) => OutcomeKind::HandlerFailed,
        }
    }
}

impl Outcome {
    /// The kind of the outcome.
    pub fn kind(&self) -> (kind: OutcomeKind)
        ensures
            kind == self.deep_view().kind(),
    {
        match self {
            Outcome::Success(_) => OutcomeKind::Success,
            Outcome::CommandNotRecognized => OutcomeKind::CommandNotRecognized,
            Outcome::PermissionDenied(_) => OutcomeKind::PermissionDenied,
            Outcome::HandlerFailed(_) => OutcomeKind::HandlerFailed,
        }
    }
}

/// What is decided before any handler runs.
#[derive(Clone, Debug, PartialEq, Eq)]
pub enum Route {
    /// The invocation is answered at once.
    Reply(Outcome),
    /// The user's permissions in the channel have to be looked up first.
    Authorize,
    /// The handler is called.
    Run(HandlerCall),
}

/// The view of a [`Route`].
pub enum RouteView {
    Reply(OutcomeView),
    Authorize,
    Run(HandlerCallView),
}

impl DeepView for Route {
    type V = RouteView;

    open spec fn deep_view(&self) -> RouteView {
        match self {
            Route::Reply(outcome) => RouteView::Reply(outcome.deep_view()),
            Route::Authorize => RouteView::Authorize,
            Route::Run(call) => RouteView::Run(call.deep_view()),
        }
    }
}

/// The whole help, or the help about the command that the first argument
/// names.
pub open spec fn help_for(args: Seq<Seq<char>>) -> crate::reply::EmbedView {
    let whole = crate::reply::EmbedView {
        fields: registry::help_lines(),
        ..crate::reply::EmbedView::empty()
    };
    if args.len() > 0 {
        match registry::lookup(registry::catalogue(), args[0]) {
            Some(command) => crate::reply::EmbedView {
                fields: seq![registry::help_line(command)],
                ..crate::reply::EmbedView::empty()
            },
            None => whole,
        }
    } else {
        whole
    }
}

/// What is done with an invocation once it is acknowledged.
///
/// A name that is no command is answered as such. The status and the
/// announcement are for the administrator alone. The commands that change a
/// server need a server. The timetable is planned here, so that an unknown
/// class is answered without a handler; the help needs no handler at all.
/// The announcement channel waits for the user's permissions.
pub open spec fn route(invocation: InvocationView) -> RouteView {
    let args = invocation.arguments;
    let is_admin = invocation.origin.actor_id == ADMIN_ID@;
    match resolved(invocation.command_name) {
        None => RouteView::Reply(OutcomeView::CommandNotRecognized),
        Some(Command::Rozvrh) => match rozvrh::timetable(args) {
            Ok(plan) => RouteView::Run(HandlerCallView::Timetable(plan)),
            Err(why) => RouteView::Reply(OutcomeView::HandlerFailed(why)),
        },
        Some(Command::Zmeny) => RouteView::Run(HandlerCallView::Changes(zmeny::changes(args))),
        Some(Command::Ai) => RouteView::Run(HandlerCallView::Chat(joined(args))),
        Some(Command::Obedy) => RouteView::Run(
            HandlerCallView::Lunch(lunch_fetch::days_forward(args)),
        ),
        Some(Command::Help) => RouteView::Reply(
            OutcomeView::Success(ReplyPayloadView::embed(help_for(args))),
        ),
        Some(Command::Register) => match invocation.origin.guild_id {
            Some(guild_id) => RouteView::Run(
                HandlerCallView::SetCommands { guild_id, commands: registry::server_commands() },
            ),
            None => RouteView::Reply(OutcomeView::HandlerFailed(NO_GUILD@)),
        },
        Some(Command::Unregister) => match invocation.origin.guild_id {
            Some(guild_id) => RouteView::Run(
                HandlerCallView::SetCommands { guild_id, commands: Seq::empty() },
            ),
            None => RouteView::Reply(OutcomeView::HandlerFailed(NO_GUILD@)),
        },
        Some(Command::Status) => if is_admin {
            RouteView::Run(HandlerCallView::SetActivity(activity_of(args)))
        } else {
            RouteView::Reply(OutcomeView::PermissionDenied(ADMIN_ONLY@))
        },
        Some(Command::Announce) => if is_admin {
            RouteView::Run(HandlerCallView::Broadcast(joined(args)))
        } else {
            RouteView::Reply(OutcomeView::PermissionDenied(ADMIN_ONLY@))
        },
        Some(Command::Announcements) => match invocation.origin.guild_id {
            Some(_) => RouteView::Authorize,
            None => RouteView::Reply(OutcomeView::HandlerFailed(NO_GUILD@)),
        },
    }
}

/// What is done with the announcement-channel command once the user's
/// permissions were looked up. Only a user who may manage the channel gets
/// the handler: it sets the channel in which the user asked, or none where
/// the first argument is [`DISABLE`].
pub open spec fn authorized(invocation: InvocationView, probe: PermissionProbeView) -> RouteView {
    match probe {
        PermissionProbeView::ChannelUnavailable(why) => RouteView::Reply(
            OutcomeView::PermissionDenied(NO_CHANNEL@ + why),
        ),
        PermissionProbeView::NotGuildChannel => RouteView::Reply(
            OutcomeView::PermissionDenied(NO_GUILD_CHANNEL@),
        ),
        PermissionProbeView::MemberUnavailable(why) => RouteView::Reply(
            OutcomeView::PermissionDenied(NO_MEMBER@ + why),
        ),
        PermissionProbeView::GuildUnavailable => RouteView::Reply(
            OutcomeView::PermissionDenied(NO_PERMISSIONS@),
        ),
        PermissionProbeView::Resolved { manage_channels } => if !manage_channels {
            RouteView::Reply(OutcomeView::PermissionDenied(INSUFFICIENT@))
        } else {
            match invocation.origin.guild_id {
                Some(server_id) => RouteView::Run(
                    HandlerCallView::SetAnnouncementChannel {
                        server_id,
                        channel_id: if invocation.arguments.len() > 0 && invocation.arguments[0]
                            == DISABLE@ {
                            None
                        } else {
                            Some(invocation.origin.channel_id)
                        },
                    },
                ),
                None => RouteView::Reply(OutcomeView::HandlerFailed(NO_GUILD@)),
            }
        },
    }
}

/// Whether the invocation came as a message.
pub open spec fn in_text(surface: Surface) -> bool {
    surface != Surface::StructuredInteraction
}

/// The words that stand in the answer of a command that went well; `None`
/// where the handler's own words stand.
pub open spec fn confirmation(command: Option<Command>, surface: Surface) -> Option<Seq<char>> {
    match command {
        Some(Command::Rozvrh) | Some(Command::Zmeny) => if in_text(surface) {
            Some(DONE@)
        } else {
            None
        },
        Some(Command::Register) => Some(REGISTERING@),
        Some(Command::Unregister) => Some(UNREGISTERING@),
        Some(Command::Announcements) => Some(CHANNEL_SET@),
        Some(Command::Status) | Some(Command::Announce) => Some(DONE@),
        _ => None,
    }
}

/// What the answer of a command that did not go well starts with.
pub open spec fn failure_prefix(command: Option<Command>, surface: Surface) -> Seq<char> {
    if !in_text(surface) {
        COMMAND_FAILED@
    } else {
        match command {
            Some(Command::Rozvrh) | Some(Command::Zmeny) => WENT_WRONG@,
            Some(Command::Ai) => AI_FAILED@,
            _ => INVOKE_FAILED@,
        }
    }
}

/// The message that tells the user what the invocation came to.
pub open spec fn final_content(invocation: InvocationView, outcome: OutcomeView) -> ReplyPayloadView {
    let command = resolved(invocation.command_name);
    let surface = invocation.surface;
    match outcome {
        OutcomeView::Success(payload) => match confirmation(command, surface) {
            Some(words) => ReplyPayloadView { content: Some(words), ..payload },
            None => payload,
        },
        OutcomeView::CommandNotRecognized => if in_text(surface) {
            ReplyPayloadView::text(
                INVOKE_FAILED@ + NOT_RECOGNIZED_HEAD@ + invocation.command_name
                    + NOT_RECOGNIZED_TAIL@,
            )
        } else {
            ReplyPayloadView::text(NOT_EXISTING@)
        },
        OutcomeView::PermissionDenied(why) => ReplyPayloadView::text(
            failure_prefix(command, surface) + why,
        ),
        OutcomeView::HandlerFailed(why) => ReplyPayloadView::text(
            failure_prefix(command, surface) + why,
        ),
    }
}

/// How far the answering of an invocation has come.
#[derive(Clone, Copy, Debug, PartialEq, Eq, Structural)]
pub enum Stage {
    /// Nothing was done yet.
    Created,
    /// The acknowledgement is on its way.
    Acknowledging,
    /// The user's permissions are being looked up.
    Authorizing,
    /// The handler is at work.
    Running,
    /// The answer is on its way.
    Delivering,
    /// Nothing is left to do.
    Finished,
}

/// How an invocation is acknowledged.
#[derive(Clone, Copy, Debug, PartialEq, Eq, Structural)]
pub enum Acknowledgement {
    /// A message that says [`THINKING`], to be edited later.
    Placeholder,
    /// A deferred response that says [`THINKING`], to be followed up later.
    Defer,
}

/// How an answer is sent.
#[derive(Clone, Copy, Debug, PartialEq, Eq, Structural)]
pub enum DeliveryMode {
    /// The placeholder is edited: its text, embeds and files are replaced.
    Edit,
    /// A follow-up message is sent.
    FollowUp,
}

/// The answer to an invocation.
#[derive(Clone, Debug, PartialEq, Eq)]
pub struct Delivery {
    pub mode: DeliveryMode,
    pub outcome: OutcomeKind,
    pub payload: ReplyPayload,
}

/// The view of a [`Delivery`].
pub struct DeliveryView {
    pub mode: DeliveryMode,
    pub outcome: OutcomeKind,
    pub payload: ReplyPayloadView,
}

impl DeepView for Delivery {
    type V = DeliveryView;

    open spec fn deep_view(&self) -> DeliveryView {
        DeliveryView { mode: self.mode, outcome: self.outcome, payload: self.payload.deep_view() }
    }
}

/// What happened since the last step.
#[derive(Debug, PartialEq, Eq)]
pub enum Event {
    /// The invocation arrived.
    Start,
    /// The acknowledgement was sent, or could not be.
    Acknowledged(bool),
    /// The user's permissions were looked up.
    Authorized(PermissionProbe),
    /// The handler came back, with its answer or with why it failed.
    HandlerDone(Result<ReplyPayload, String>),
    /// The answer was sent, or could not be.
    Delivered(bool),
}

/// The view of an [`Event`].
pub enum EventView {
    Start,
    Acknowledged(bool),
    Authorized(PermissionProbeView),
    HandlerDone(Result<ReplyPayloadView, Seq<char>>),
    Delivered(bool),
}

impl DeepView for Event {
    type V = EventView;

    open spec fn deep_view(&self) -> EventView {
        match self {
            Event::Start => EventView::Start,
            Event::Acknowledged(sent) => EventView::Acknowledged(*sent),
            Event::Authorized(probe) => EventView::Authorized(probe.deep_view()),
            Event::HandlerDone(Ok(payload)) => EventView::HandlerDone(Ok(payload.deep_view())),
            Event::HandlerDone(Err(why)) => EventView::HandlerDone(Err(why@)),
            Event::Delivered(sent) => EventView::Delivered(*sent),
        }
    }
}

/// What has to happen next.
#[derive(Clone, Debug, PartialEq, Eq)]
pub enum Action {
    /// Acknowledge the invocation; answer with [`Event::Acknowledged`].
    Acknowledge(Acknowledgement),
    /// Look up whether the user may manage the channel; answer with
    /// [`Event::Authorized`].
    Authorize,
    /// Call the handler; answer with [`Event::HandlerDone`].
    Run(HandlerCall),
    /// Send the answer; answer with [`Event::Delivered`].
    Deliver(Delivery),
    /// Nothing.
    Finish,
}

/// The view of an [`Action`].
pub enum ActionView {
    Acknowledge(Acknowledgement),
    Authorize,
    Run(HandlerCallView),
    Deliver(DeliveryView),
    Finish,
}

impl DeepView for Action {
    type V = ActionView;

    open spec fn deep_view(&self) -> ActionView {
        match self {
            Action::Acknowledge(how) => ActionView::Acknowledge(*how),
            Action::Authorize => ActionView::Authorize,
            Action::Run(call) => ActionView::Run(call.deep_view()),
            Action::Deliver(delivery) => ActionView::Deliver(delivery.deep_view()),
            Action::Finish => ActionView::Finish,
        }
    }
}

/// The state of one invocation on its way through the router.
#[derive(Clone, Debug, PartialEq, Eq)]
pub struct Dispatch {
    pub invocation: Invocation,
    pub stage: Stage,
    /// Whether an answer can be sent: always for an interaction, for a
    /// message once its placeholder was sent.
    pub deliverable: bool,
}

/// The view of a [`Dispatch`].
pub struct DispatchView {
    pub invocation: InvocationView,
    pub stage: Stage,
    pub deliverable: bool,
}

impl DeepView for Dispatch {
    type V = DispatchView;

    open spec fn deep_view(&self) -> DispatchView {
        DispatchView {
            invocation: self.invocation.deep_view(),
            stage: self.stage,
            deliverable: self.deliverable,
        }
    }
}

impl DispatchView {
    /// The state of an invocation that has just arrived.
    pub open spec fn fresh(invocation: InvocationView) -> DispatchView {
        DispatchView { invocation, stage: Stage::Created, deliverable: false }
    }

    /// How the invocation is acknowledged, and how it is answered.
    pub open spec fn acknowledgement(self) -> Acknowledgement {
        if in_text(self.invocation.surface) {
            Acknowledgement::Placeholder
        } else {
            Acknowledgement::Defer
        }
    }

    /// How the answer is sent.
    pub open spec fn mode(self) -> DeliveryMode {
        if in_text(self.invocation.surface) {
            DeliveryMode::Edit
        } else {
            DeliveryMode::FollowUp
        }
    }

    /// The end of an invocation: the answer is sent where one can be sent.
    pub open spec fn concluded(self, outcome: OutcomeView) -> (DispatchView, ActionView) {
        if self.deliverable {
            (
                DispatchView { stage: Stage::Delivering, ..self },
                ActionView::Deliver(
                    DeliveryView {
                        mode: self.mode(),
                        outcome: outcome.kind(),
                        payload: final_content(self.invocation, outcome),
                    },
                ),
            )
        } else {
            (DispatchView { stage: Stage::Finished, ..self }, ActionView::Finish)
        }
    }

    /// What follows from a decision of the router.
    pub open spec fn followed(self, route: RouteView) -> (DispatchView, ActionView) {
        match route {
            RouteView::Reply(outcome) => self.concluded(outcome),
            RouteView::Authorize => (
                DispatchView { stage: Stage::Authorizing, ..self },
                ActionView::Authorize,
            ),
            RouteView::Run(call) => (
                DispatchView { stage: Stage::Running, ..self },
                ActionView::Run(call),
            ),
        }
    }

    /// The state after an event, and what has to happen next.
    ///
    /// An event that does not answer the action before it ends the
    /// invocation: where a handler or a look-up was awaited, the user is
    /// told that the command failed; else nothing more is done.
    pub open spec fn next(self, event: EventView) -> (DispatchView, ActionView) {
        match (self.stage, event) {
            (Stage::Created, EventView::Start) => (
                DispatchView { stage: Stage::Acknowledging, ..self },
                ActionView::Acknowledge(self.acknowledgement()),
            ),
            (Stage::Acknowledging, EventView::Acknowledged(sent)) => (DispatchView {
                deliverable: sent || !in_text(self.invocation.surface),
                ..self
            }).followed(route(self.invocation)),
            (Stage::Authorizing, EventView::Authorized(probe)) => self.followed(
                authorized(self.invocation, probe),
            ),
            (Stage::Running, EventView::HandlerDone(Ok(payload))) => self.concluded(
                OutcomeView::Success(payload),
            ),
            (Stage::Running, EventView::HandlerDone(Err(why))) => self.concluded(
                OutcomeView::HandlerFailed(why),
            ),
            (Stage::Authorizing, _) | (Stage::Running, _) => self.concluded(
                OutcomeView::HandlerFailed(UNEXPECTED@),
            ),
            _ => (DispatchView { stage: Stage::Finished, ..self }, ActionView::Finish),
        }
    }
}

/// A copy of an optional text.
fn copy_of(text: &Option<String>) -> (copy: Option<String>)
    ensures
        copy.deep_view() == text.deep_view(),
{
    match text {
        Some(t) => Some(t.clone()),
        None => None,
    }
}

/// Decides what is done with an acknowledged invocation: see [`route`].
pub fn route_invocation(invocation: &Invocation) -> (decision: Route)
    ensures
        decision.deep_view() == route(invocation.deep_view()),
{
    let args = &invocation.arguments;
    let is_admin = str_eq(invocation.origin.actor_id.as_str(), ADMIN_ID);
    match resolve(invocation.command_name.as_str()) {
        None => Route::Reply(Outcome::CommandNotRecognized),
        Some(Command::Rozvrh) => match rozvrh::rozvrh_message(args) {
            Ok(plan) => Route::Run(HandlerCall::Timetable(plan)),
            Err(why) => Route::Reply(Outcome::HandlerFailed(why)),
        },
        Some(Command::Zmeny) => Route::Run(HandlerCall::Changes(zmeny::zmeny_message(args))),
        Some(Command::Ai) => Route::Run(HandlerCall::Chat(sentence(invocation))),
        Some(Command::Obedy) => Route::Run(HandlerCall::Lunch(lunch_fetch::requested_day(args))),
        Some(Command::Help) => {
            let topic: Option<&str> = if args.len() > 0 {
                Some(args[0].as_str())
            } else {
                None
            };
            Route::Reply(Outcome::Success(ReplyPayload::embed(registry::help_about(topic))))
        },
        Some(Command::Register) => match copy_of(&invocation.origin.guild_id) {
            Some(guild_id) => Route::Run(
                HandlerCall::SetCommands { guild_id, commands: registry::guild_commands() },
            ),
            None => Route::Reply(Outcome::HandlerFailed(NO_GUILD.to_owned())),
        },
        Some(Command::Unregister) => match copy_of(&invocation.origin.guild_id) {
            Some(guild_id) => {
                let commands: Vec<CommandSchema> = Vec::new();
                assert(commands.deep_view() =~= Seq::empty());
                Route::Run(HandlerCall::SetCommands { guild_id, commands })
            },
            None => Route::Reply(Outcome::HandlerFailed(NO_GUILD.to_owned())),
        },
        Some(Command::Status) => if is_admin {
            Route::Run(HandlerCall::SetActivity(read_activity(args)))
        } else {
            Route::Reply(Outcome::PermissionDenied(ADMIN_ONLY.to_owned()))
        },
        Some(Command::Announce) => if is_admin {
            Route::Run(HandlerCall::Broadcast(sentence(invocation)))
        } else {
            Route::Reply(Outcome::PermissionDenied(ADMIN_ONLY.to_owned()))
        },
        Some(Command::Announcements) => match &invocation.origin.guild_id {
            Some(_) => Route::Authorize,
            None => Route::Reply(Outcome::HandlerFailed(NO_GUILD.to_owned())),
        },
    }
}

/// Decides what is done with the announcement-channel command once the
/// user's permissions were looked up: see [`authorized`].
pub fn authorize(invocation: &Invocation, probe: PermissionProbe) -> (decision: Route)
    ensures
        decision.deep_view() == authorized(invocation.deep_view(), probe.deep_view()),
{
    match probe {
        PermissionProbe::ChannelUnavailable(why) => {
            let mut text = NO_CHANNEL.to_owned();
            text.append(why.as_str());
            Route::Reply(Outcome::PermissionDenied(text))
        },
        PermissionProbe::NotGuildChannel => Route::Reply(
            Outcome::PermissionDenied(NO_GUILD_CHANNEL.to_owned()),
        ),
        PermissionProbe::MemberUnavailable(why) => {
            let mut text = NO_MEMBER.to_owned();
            text.append(why.as_str());
            Route::Reply(Outcome::PermissionDenied(text))
        },
        PermissionProbe::GuildUnavailable => Route::Reply(
            Outcome::PermissionDenied(NO_PERMISSIONS.to_owned()),
        ),
        PermissionProbe::Resolved { manage_channels } => if !manage_channels {
            Route::Reply(Outcome::PermissionDenied(INSUFFICIENT.to_owned()))
        } else {
            match copy_of(&invocation.origin.guild_id) {
                Some(server_id) => {
                    let disable = invocation.arguments.len() > 0 && str_eq(
                        invocation.arguments[0].as_str(),
                        DISABLE,
                    );
                    let channel_id = if disable {
                        None
                    } else {
                        Some(invocation.origin.channel_id.clone())
                    };
                    Route::Run(HandlerCall::SetAnnouncementChannel { server_id, channel_id })
                },
                None => Route::Reply(Outcome::HandlerFailed(NO_GUILD.to_owned())),
            }
        },
    }
}

/// Executable form of [`confirmation`].
pub fn confirmation_words(command: Option<Command>, surface: Surface) -> (words: Option<
    &'static str,
>)
    ensures
        words.deep_view() == confirmation(command, surface),
{
    let in_message = surface != Surface::StructuredInteraction;
    match command {
        Some(Command::Rozvrh) | Some(Command::Zmeny) => if in_message {
            Some(DONE)
        } else {
            None
        },
        Some(Command::Register) => Some(REGISTERING),
        Some(Command::Unregister) => Some(UNREGISTERING),
        Some(Command::Announcements) => Some(CHANNEL_SET),
        Some(Command::Status) | Some(Command::Announce) => Some(DONE),
        _ => None,
    }
}

/// Executable form of [`failure_prefix`].
pub fn failure_start(command: Option<Command>, surface: Surface) -> (start: &'static str)
    ensures
        start@ == failure_prefix(command, surface),
{
    if surface == Surface::StructuredInteraction {
        COMMAND_FAILED
    } else {
        match command {
            Some(Command::Rozvrh) | Some(Command::Zmeny) => WENT_WRONG,
            Some(Command::Ai) => AI_FAILED,
            _ => INVOKE_FAILED,
        }
    }
}

/// Writes the message that tells the user what the invocation came to: see
/// [`final_content`].
pub fn render(invocation: &Invocation, outcome: Outcome) -> (payload: ReplyPayload)
    ensures
        payload.deep_view() == final_content(invocation.deep_view(), outcome.deep_view()),
{
    let command = resolve(invocation.command_name.as_str());
    let surface = invocation.surface;
    match outcome {
        Outcome::Success(payload) => match confirmation_words(command, surface) {
            Some(words) => ReplyPayload {
                content: Some(words.to_owned()),
                embeds: payload.embeds,
                attachment: payload.attachment,
            },
            None => payload,
        },
        Outcome::CommandNotRecognized => if surface != Surface::StructuredInteraction {
            let mut text = INVOKE_FAILED.to_owned();
            text.append(NOT_RECOGNIZED_HEAD);
            text.append(invocation.command_name.as_str());
            text.append(NOT_RECOGNIZED_TAIL);
            ReplyPayload::text(text)
        } else {
            ReplyPayload::text(NOT_EXISTING.to_owned())
        },
        Outcome::PermissionDenied(why) => {
            let mut text = failure_start(command, surface).to_owned();
            text.append(why.as_str());
            ReplyPayload::text(text)
        },
        Outcome::HandlerFailed(why) => {
            let mut text = failure_start(command, surface).to_owned();
            text.append(why.as_str());
            ReplyPayload::text(text)
        },
    }
}

impl Dispatch {
    /// The state of an invocation that has just arrived.
    pub fn new(invocation: Invocation) -> (dispatch: Self)
        ensures
            dispatch.deep_view() == DispatchView::fresh(invocation.deep_view()),
    {
        Dispatch { invocation, stage: Stage::Created, deliverable: false }
    }

    /// Ends the invocation: see [`DispatchView::concluded`].
    fn conclude(&mut self, outcome: Outcome) -> (action: Action)
        ensures
            (final(self).deep_view(), action.deep_view()) == old(self).deep_view().concluded(
                outcome.deep_view(),
            ),
    {
        if self.deliverable {
            let mode = if self.invocation.surface != Surface::StructuredInteraction {
                DeliveryMode::Edit
            } else {
                DeliveryMode::FollowUp
            };
            let kind = outcome.kind();
            let payload = render(&self.invocation, outcome);
            self.stage = Stage::Delivering;
            Action::Deliver(Delivery { mode, outcome: kind, payload })
        } else {
            self.stage = Stage::Finished;
            Action::Finish
        }
    }

    /// Carries a decision out: see [`DispatchView::followed`].
    fn follow(&mut self, decision: Route) -> (action: Action)
        ensures
            (final(self).deep_view(), action.deep_view()) == old(self).deep_view().followed(
                decision.deep_view(),
            ),
    {
        match decision {
            Route::Reply(outcome) => self.conclude(outcome),
            Route::Authorize => {
                self.stage = Stage::Authorizing;
                Action::Authorize
            },
            Route::Run(call) => {
                self.stage = Stage::Running;
                Action::Run(call)
            },
        }
    }

    /// Takes in what happened and says what has to happen next: see
    /// [`DispatchView::next`].
    pub fn step(&mut self, event: Event) -> (action: Action)
        ensures
            (final(self).deep_view(), action.deep_view()) == old(self).deep_view().next(
                event.deep_view(),
            ),
    {
        match self.stage {
            Stage::Created => match event {
                Event::Start => {
                    self.stage = Stage::Acknowledging;
                    if self.invocation.surface != Surface::StructuredInteraction {
                        Action::Acknowledge(Acknowledgement::Placeholder)
                    } else {
                        Action::Acknowledge(Acknowledgement::Defer)
                    }
                },
                _ => {
                    self.stage = Stage::Finished;
                    Action::Finish
                },
            },
            Stage::Acknowledging => match event {
                Event::Acknowledged(sent) => {
                    self.deliverable = sent || self.invocation.surface
                        == Surface::StructuredInteraction;
                    let decision = route_invocation(&self.invocation);
                    self.follow(decision)
                },
                _ => {
                    self.stage = Stage::Finished;
                    Action::Finish
                },
            },
            Stage::Authorizing => match event {
                Event::Authorized(probe) => {
                    let decision = authorize(&self.invocation, probe);
                    self.follow(decision)
                },
                _ => self.conclude(Outcome::HandlerFailed(UNEXPECTED.to_owned())),
            },
            Stage::Running => match event {
                Event::HandlerDone(Ok(payload)) => self.conclude(Outcome::Success(payload)),
                Event::HandlerDone(Err(why)) => self.conclude(Outcome::HandlerFailed(why)),
                _ => self.conclude(Outcome::HandlerFailed(UNEXPECTED.to_owned())),
            },
            _ => {
                self.stage = Stage::Finished;
                Action::Finish
            },
        }
    }
}

/// How far a stage is from the start.
pub open spec fn rank(stage: Stage) -> nat {
    match stage {
        Stage::Created => 0,
        Stage::Acknowledging => 1,
        Stage::Authorizing => 2,
        Stage::Running => 3,
        Stage::Delivering => 4,
        Stage::Finished => 5,
    }
}

/// The actions that a run of events brings about, one per event.
pub open spec fn actions(dispatch: DispatchView, events: Seq<EventView>) -> Seq<ActionView>
    decreases events.len(),
{
    if events.len() == 0 {
        Seq::empty()
    } else {
        seq![dispatch.next(events[0]).1] + actions(
            dispatch.next(events[0]).0,
            events.drop_first(),
        )
    }
}

/// 1 where the action sends an answer, else 0.
pub open spec fn sends(action: ActionView) -> nat {
    if action is Deliver {
        1
    } else {
        0
    }
}

/// How many of the actions send an answer.
pub open spec fn deliveries(actions: Seq<ActionView>) -> nat
    decreases actions.len(),
{
    if actions.len() == 0 {
        0
    } else {
        sends(actions[0]) + deliveries(actions.drop_first())
    }
}

/// The store after the caller has carried an action out: the one call that
/// writes to it sets the channel of one server.
pub open spec fn store_after(
    store: Map<Seq<char>, Option<Seq<char>>>,
    action: ActionView,
) -> Map<Seq<char>, Option<Seq<char>>> {
    match action {
        ActionView::Run(
            HandlerCallView::SetAnnouncementChannel { server_id, channel_id },
        ) => store.insert(server_id, channel_id),
        _ => store,
    }
}

/// The store after the caller has carried a run of actions out.
pub open spec fn store_after_all(
    store: Map<Seq<char>, Option<Seq<char>>>,
    actions: Seq<ActionView>,
) -> Map<Seq<char>, Option<Seq<char>>>
    decreases actions.len(),
{
    if actions.len() == 0 {
        store
    } else {
        store_after_all(store_after(store, actions[0]), actions.drop_first())
    }
}

/// Whether an event reports that the user may manage the channel.
pub open spec fn grants(event: EventView) -> bool {
    event matches EventView::Authorized(probe) && probe.grants()
}

/// What one step does and does not do.
///
/// The invocation stays the same and the stage moves on, up to the last
/// stage, where it stays. The acknowledgement comes first: it answers the
/// start, and no handler is called and no permission looked up before it
/// was tried. An answer is sent only on the way into the stage
/// `Delivering`, and only where one can be sent. While a handler or a
/// look-up is awaited and an answer can be sent, whatever happens leads on
/// to the handler or to the answer. The store is written to only after a
/// look-up has shown that the user may manage the channel, and the status
/// and the announcement are for the administrator alone.
pub proof fn lemma_step(dispatch: DispatchView, event: EventView)
    ensures
        ({
            let (after, action) = dispatch.next(event);
            &&& after.invocation == dispatch.invocation
            &&& rank(after.stage) > rank(dispatch.stage) || (dispatch.stage == Stage::Finished
                && after == dispatch)
            &&& action is Acknowledge <==> dispatch.stage == Stage::Created && event is Start
            &&& action is Run ==> dispatch.stage == Stage::Acknowledging || dispatch.stage
                == Stage::Authorizing
            &&& action is Authorize ==> dispatch.stage == Stage::Acknowledging
            &&& action is Deliver ==> after.stage == Stage::Delivering && after.deliverable
            &&& after.stage == Stage::Delivering ==> action is Deliver
            &&& after.stage == Stage::Finished ==> action is Finish
            &&& dispatch.stage != Stage::Acknowledging ==> after.deliverable
                == dispatch.deliverable
            &&& dispatch.deliverable && (dispatch.stage == Stage::Authorizing || dispatch.stage
                == Stage::Running) ==> action is Deliver || (dispatch.stage == Stage::Authorizing
                && after.stage == Stage::Running)
            &&& action matches ActionView::Run(HandlerCallView::SetAnnouncementChannel { .. })
                ==> dispatch.stage == Stage::Authorizing && grants(event)
            &&& action matches ActionView::Run(HandlerCallView::SetActivity(_))
                ==> dispatch.invocation.origin.actor_id == ADMIN_ID@
            &&& action matches ActionView::Run(HandlerCallView::Broadcast(_))
                ==> dispatch.invocation.origin.actor_id == ADMIN_ID@
        }),
{
}

/// Every command of the catalogue, and every structured command of a
/// server, is a command that the router knows.
pub proof fn lemma_catalogue_is_routed()
    ensures
        forall|i: int|
            0 <= i < registry::catalogue().len() ==> resolved(
                (#[trigger] registry::catalogue()[i]).schema.name,
            ) is Some,
        forall|i: int|
            0 <= i < registry::server_commands().len() ==> resolved(
                (#[trigger] registry::server_commands()[i]).name,
            ) is Some,
{
}

/// A name that is no command is answered, and answered as such: once the
/// invocation is acknowledged, the next action sends the words for an
/// unknown command, on whatever surface the invocation came. Only a
/// message whose placeholder could not be sent gets no answer.
pub proof fn lemma_unknown_command_is_answered(invocation: InvocationView, sent: bool)
    requires
        resolved(invocation.command_name) is None,
    ensures
        ({
            let started = DispatchView::fresh(invocation).next(EventView::Start);
            let answered = started.0.next(EventView::Acknowledged(sent));
            &&& started.1 == ActionView::Acknowledge(started.0.acknowledgement())
            &&& sent || !in_text(invocation.surface) ==> answered.1 == ActionView::Deliver(
                DeliveryView {
                    mode: started.0.mode(),
                    outcome: OutcomeKind::CommandNotRecognized,
                    payload: final_content(invocation, OutcomeView::CommandNotRecognized),
                },
            )
            &&& !sent && in_text(invocation.surface) ==> answered.1 == ActionView::Finish
        }),
{
}

/// Once the answer is on its way, nothing more is sent and the store is
/// left alone.
pub proof fn lemma_quiet_after_answer(
    dispatch: DispatchView,
    events: Seq<EventView>,
    store: Map<Seq<char>, Option<Seq<char>>>,
)
    requires
        dispatch.stage == Stage::Delivering || dispatch.stage == Stage::Finished,
    ensures
        deliveries(actions(dispatch, events)) == 0,
        store_after_all(store, actions(dispatch, events)) == store,
    decreases events.len(),
{
    if events.len() > 0 {
        lemma_step(dispatch, events[0]);
        let run = actions(dispatch, events);
        assert(run.drop_first() =~= actions(dispatch.next(events[0]).0, events.drop_first()));
        lemma_quiet_after_answer(dispatch.next(events[0]).0, events.drop_first(), store);
    }
}

/// No invocation is answered twice.
pub proof fn lemma_answered_at_most_once(dispatch: DispatchView, events: Seq<EventView>)
    ensures
        deliveries(actions(dispatch, events)) <= 1,
    decreases events.len(),
{
    if events.len() > 0 {
        let (after, action) = dispatch.next(events[0]);
        lemma_step(dispatch, events[0]);
        let run = actions(dispatch, events);
        assert(run.drop_first() =~= actions(after, events.drop_first()));
        if action is Deliver {
            lemma_quiet_after_answer(after, events.drop_first(), Map::empty());
        } else {
            lemma_answered_at_most_once(after, events.drop_first());
        }
    }
}

/// An acknowledgement is never left standing. Where the acknowledgement
/// was sent, or the invocation is an interaction, then whatever the two
/// events after it are, the answer is sent by then, and it is sent once
/// however long the run goes on. Where the placeholder of a message could
/// not be sent, no answer is sent.
pub proof fn lemma_pending_reply_is_resolved(
    invocation: InvocationView,
    sent: bool,
    rest: Seq<EventView>,
)
    requires
        rest.len() >= 2,
    ensures
        ({
            let run = seq![EventView::Start, EventView::Acknowledged(sent)] + rest;
            let answers = deliveries(actions(DispatchView::fresh(invocation), run));
            if sent || !in_text(invocation.surface) {
                answers == 1
            } else {
                answers == 0
            }
        }),
{
    let run = seq![EventView::Start, EventView::Acknowledged(sent)] + rest;
    let d0 = DispatchView::fresh(invocation);
    let (d1, a1) = d0.next(run[0]);
    let (d2, a2) = d1.next(run[1]);
    let (d3, a3) = d2.next(run[2]);
    let (d4, a4) = d3.next(run[3]);
    lemma_step(d0, run[0]);
    lemma_step(d1, run[1]);
    lemma_step(d2, run[2]);
    lemma_step(d3, run[3]);
    let r1 = run.drop_first();
    let r2 = r1.drop_first();
    let r3 = r2.drop_first();
    let r4 = r3.drop_first();
    assert(r1[0] == run[1] && r2[0] == run[2] && r3[0] == run[3]);
    let x0 = actions(d0, run);
    let x1 = actions(d1, r1);
    let x2 = actions(d2, r2);
    let x3 = actions(d3, r3);
    let x4 = actions(d4, r4);
    assert(x0.drop_first() =~= x1);
    assert(x1.drop_first() =~= x2);
    assert(x2.drop_first() =~= x3);
    assert(x3.drop_first() =~= x4);
    assert(x0[0] == a1 && x1[0] == a2 && x2[0] == a3 && x3[0] == a4);
    assert(deliveries(x0) == sends(a1) + deliveries(x1));
    assert(deliveries(x1) == sends(a2) + deliveries(x2));
    assert(deliveries(x2) == sends(a3) + deliveries(x3));
    assert(deliveries(x3) == sends(a4) + deliveries(x4));
    assert(d1.stage == Stage::Acknowledging && !(a1 is Deliver));
    assert(d2.deliverable == (sent || !in_text(invocation.surface)));
    assert(d4.stage == Stage::Delivering || d4.stage == Stage::Finished);
    lemma_quiet_after_answer(d4, r4, Map::empty());
    if d2.stage == Stage::Delivering || d2.stage == Stage::Finished {
        lemma_quiet_after_answer(d2, r2, Map::empty());
    } else if d3.stage == Stage::Delivering || d3.stage == Stage::Finished {
        lemma_quiet_after_answer(d3, r3, Map::empty());
    }
}

/// The store is written to only with permission: in a run in which no
/// look-up shows that the user may manage the channel, whatever else
/// happens, the store is after the run what it was before.
pub proof fn lemma_no_write_without_permission(
    dispatch: DispatchView,
    events: Seq<EventView>,
    store: Map<Seq<char>, Option<Seq<char>>>,
)
    requires
        forall|i: int| 0 <= i < events.len() ==> !grants(#[trigger] events[i]),
    ensures
        store_after_all(store, actions(dispatch, events)) == store,
    decreases events.len(),
{
    if events.len() > 0 {
        let (after, action) = dispatch.next(events[0]);
        lemma_step(dispatch, events[0]);
        let run = actions(dispatch, events);
        assert(run.drop_first() =~= actions(after, events.drop_first()));
        assert(!grants(events[0]));
        assert forall|i: int| 0 <= i < events.drop_first().len() implies !grants(
            #[trigger] events.drop_first()[i],
        ) by {
            assert(events.drop_first()[i] == events[i + 1]);
        }
        lemma_no_write_without_permission(after, events.drop_first(), store);
    }
}

/// A user who may not manage the channel is told so, and the handler of the
/// announcement channel is not called: where the look-up does not show the
/// permission, the next action is the answer that the permission is
/// denied, or nothing where no answer can be sent.
pub proof fn lemma_denied_is_answered(dispatch: DispatchView, probe: PermissionProbeView)
    requires
        dispatch.stage == Stage::Authorizing,
        !probe.grants(),
    ensures
        ({
            let (after, action) = dispatch.next(EventView::Authorized(probe));
            &&& authorized(dispatch.invocation, probe) matches RouteView::Reply(outcome)
                && outcome is PermissionDenied && (if dispatch.deliverable {
                action == ActionView::Deliver(
                    DeliveryView {
                        mode: dispatch.mode(),
                        outcome: OutcomeKind::PermissionDenied,
                        payload: final_content(dispatch.invocation, outcome),
                    },
                )
            } else {
                action == ActionView::Finish
            })
            &&& !(action is Run)
        }),
{
}

/// The channels that an announcement goes to: the announcement channel of
/// every server that has one, in the order of the records. A channel whose
/// text is no number of 64 bits, or is 0, is passed over.
pub open spec fn targets(records: Seq<(Seq<char>, Option<Seq<char>>)>) -> Seq<u64>
    decreases records.len(),
{
    if records.len() == 0 {
        Seq::empty()
    } else {
        let before = targets(records.drop_last());
        match records.last().1 {
            Some(channel) => match parsed_u64(channel) {
                Some(id) => if id != 0 {
                    before.push(id)
                } else {
                    before
                },
                None => before,
            },
            None => before,
        }
    }
}

/// Picks the channels that an announcement goes to from a copy of the
/// store: see [`targets`].
pub fn announcement_targets(snapshot: &Vec<(String, ServerData)>) -> (channels: Vec<u64>)
    ensures
        channels@ == targets(snapshot.deep_view()),
{
    let mut channels: Vec<u64> = Vec::new();
    let mut i: usize = 0;
    assert(snapshot.deep_view().take(0) =~= Seq::empty());
    while i < snapshot.len()
        invariant
            i <= snapshot.len(),
            channels@ == targets(snapshot.deep_view().take(i as int)),
        decreases snapshot.len() - i,
    {
        let ghost part = snapshot.deep_view().take(i + 1);
        assert(part.drop_last() =~= snapshot.deep_view().take(i as int));
        assert(part.last() == snapshot.deep_view()[i as int]);
        match &snapshot[i].1.announcement_channel {
            Some(channel) => match parse_u64(channel.as_str()) {
                Some(id) => if id != 0 {
                    channels.push(id);
                },
                None => {},
            },
            None => {},
        }
        i += 1;
    }
    assert(snapshot.deep_view().take(snapshot.len() as int) =~= snapshot.deep_view());
    channels
}

} // verus!
