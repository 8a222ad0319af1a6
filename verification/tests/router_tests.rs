use pan_spicka::database::{Database, ServerData};
use pan_spicka::invocation::{Invocation, Origin, Surface};
use pan_spicka::registry::{guild_commands, help_about, help_content};
use pan_spicka::reply::ReplyPayload;
use pan_spicka::router::{
    announcement_targets, authorize, confirmation_words, failure_start, read_activity, render,
    resolve, route_invocation, startup_activity, Acknowledgement, Action, Activity, ActivityKind, Command,
    Delivery, DeliveryMode, Dispatch, Event, HandlerCall, Outcome, OutcomeKind, PermissionProbe,
    Route, Stage, ADMIN_ID, THINKING,
};
use pan_spicka::rozvrh::rozvrh_message;
use pan_spicka::zmeny::zmeny_message;

fn owned(words: &[&str]) -> Vec<String> {
    words.iter().map(|w| w.to_string()).collect()
}

fn asked(surface: Surface, name: &str, args: &[&str]) -> Invocation {
    Invocation {
        surface,
        command_name: name.to_string(),
        arguments: owned(args),
        origin: Origin {
            actor_id: "7".to_string(),
            channel_id: "20".to_string(),
            guild_id: Some("30".to_string()),
            reply_target: "r".to_string(),
        },
    }
}

fn by_admin(mut invocation: Invocation) -> Invocation {
    invocation.origin.actor_id = ADMIN_ID.to_string();
    invocation
}

fn in_private(mut invocation: Invocation) -> Invocation {
    invocation.origin.guild_id = None;
    invocation
}

fn text(words: &str) -> ReplyPayload {
    ReplyPayload { content: Some(words.to_string()), embeds: Vec::new(), attachment: None }
}

fn nothing() -> ReplyPayload {
    ReplyPayload { content: None, embeds: Vec::new(), attachment: None }
}

/// Starts a dispatch and acknowledges it; gives the action that follows.
fn acknowledged(invocation: Invocation, sent: bool) -> (Dispatch, Action) {
    let surface = invocation.surface;
    let mut dispatch = Dispatch::new(invocation);
    assert_eq!(dispatch.stage, Stage::Created);
    let first = dispatch.step(Event::Start);
    let expected = if surface == Surface::StructuredInteraction {
        Acknowledgement::Defer
    } else {
        Acknowledgement::Placeholder
    };
    assert_eq!(first, Action::Acknowledge(expected));
    assert_eq!(dispatch.stage, Stage::Acknowledging);
    let second = dispatch.step(Event::Acknowledged(sent));
    (dispatch, second)
}

fn delivered(action: Action) -> Delivery {
    match action {
        Action::Deliver(delivery) => delivery,
        other => panic!("no answer: {other:?}"),
    }
}

fn called(action: Action) -> HandlerCall {
    match action {
        Action::Run(call) => call,
        other => panic!("no handler: {other:?}"),
    }
}

const SURFACES: [Surface; 3] =
    [Surface::Mention, Surface::PrefixText, Surface::StructuredInteraction];

#[test]
fn names_resolve_to_commands() {
    let table = [
        ("rozvrh", Command::Rozvrh),
        ("zmeny", Command::Zmeny),
        ("register", Command::Register),
        ("unregister", Command::Unregister),
        ("help", Command::Help),
        ("ai", Command::Ai),
        ("status", Command::Status),
        ("obedy", Command::Obedy),
        ("announcements", Command::Announcements),
        ("announce", Command::Announce),
    ];
    for (name, command) in table {
        assert_eq!(resolve(name), Some(command));
    }
    for name in ["zzz", "", "Rozvrh", "announcement", "unknown command", "ai ", "ai\n"] {
        assert_eq!(resolve(name), None);
    }
}

#[test]
fn the_placeholder_says_thinking() {
    assert_eq!(THINKING, "Přemejšlim... 🤔");
}

#[test]
fn an_unknown_command_is_answered_on_every_surface() {
    for surface in SURFACES {
        let (dispatch, action) = acknowledged(asked(surface, "zzz", &["a"]), true);
        let delivery = delivered(action);
        assert_eq!(delivery.outcome, OutcomeKind::CommandNotRecognized);
        assert_eq!(dispatch.stage, Stage::Delivering);
        if surface == Surface::StructuredInteraction {
            assert_eq!(delivery.mode, DeliveryMode::FollowUp);
            assert_eq!(delivery.payload, text("to neexistuje"));
        } else {
            assert_eq!(delivery.mode, DeliveryMode::Edit);
            assert_eq!(
                delivery.payload,
                text("Failed to invoke command: Command `zzz` not recognized")
            );
        }
    }
}

#[test]
fn a_timetable_runs_through_all_stages() {
    let (mut dispatch, action) = acknowledged(asked(Surface::PrefixText, "rozvrh", &["7B", "0"]), true);
    assert_eq!(dispatch.stage, Stage::Running);
    assert!(dispatch.deliverable);
    let plan = match called(action) {
        HandlerCall::Timetable(plan) => plan,
        other => panic!("{other:?}"),
    };
    assert_eq!(plan, rozvrh_message(&owned(&["7B", "0"])).unwrap());
    let payload = plan.clone().payload();
    let delivery = delivered(dispatch.step(Event::HandlerDone(Ok(payload.clone()))));
    assert_eq!(
        delivery,
        Delivery {
            mode: DeliveryMode::Edit,
            outcome: OutcomeKind::Success,
            payload: ReplyPayload { content: Some("Bazinga ☝🤓".to_string()), ..payload },
        }
    );
    assert_eq!(dispatch.stage, Stage::Delivering);
    assert_eq!(dispatch.step(Event::Delivered(true)), Action::Finish);
    assert_eq!(dispatch.stage, Stage::Finished);
    assert_eq!(dispatch.step(Event::Start), Action::Finish);
    assert_eq!(dispatch.stage, Stage::Finished);
}

#[test]
fn a_timetable_by_interaction_is_followed_up_as_it_is() {
    let (mut dispatch, action) =
        acknowledged(asked(Surface::StructuredInteraction, "rozvrh", &["7B", "0"]), true);
    let plan = match called(action) {
        HandlerCall::Timetable(plan) => plan,
        other => panic!("{other:?}"),
    };
    let payload = plan.payload();
    let delivery = delivered(dispatch.step(Event::HandlerDone(Ok(payload.clone()))));
    assert_eq!(
        delivery,
        Delivery { mode: DeliveryMode::FollowUp, outcome: OutcomeKind::Success, payload }
    );
}

#[test]
fn this_week_and_next_week_differ() {
    let (_, this_week) = acknowledged(asked(Surface::PrefixText, "rozvrh", &["7B", "0"]), true);
    let (_, next_week) = acknowledged(asked(Surface::PrefixText, "rozvrh", &["7B", "+1"]), true);
    let this_week = called(this_week);
    let next_week = called(next_week);
    assert_ne!(this_week, next_week);
    match (this_week, next_week) {
        (HandlerCall::Timetable(a), HandlerCall::Timetable(b)) => {
            assert_eq!(a.url, "https://bakalari.gypce.cz/bakaweb/Timetable/Public/Actual/Class/1T");
            assert_eq!(b.url, "https://bakalari.gypce.cz/bakaweb/Timetable/Public/Next/Class/1T");
        }
        other => panic!("{other:?}"),
    }
}

#[test]
fn an_unknown_class_fails_with_words() {
    for surface in SURFACES {
        let (dispatch, action) = acknowledged(asked(surface, "rozvrh", &["9Z", "0"]), true);
        let delivery = delivered(action);
        assert_eq!(delivery.outcome, OutcomeKind::HandlerFailed);
        assert_eq!(dispatch.stage, Stage::Delivering);
        let expected = if surface == Surface::StructuredInteraction {
            "Command failed: Nechápu, kterej rozvrh chceš 🤔"
        } else {
            "Něco se pokazilo: Nechápu, kterej rozvrh chceš 🤔"
        };
        assert_eq!(delivery.payload, text(expected));
    }
}

#[test]
fn a_failed_handler_is_told_to_the_user() {
    let cases = [
        ("rozvrh", Surface::PrefixText, "Něco se pokazilo: boom"),
        ("zmeny", Surface::Mention, "Něco se pokazilo: boom"),
        ("ai", Surface::Mention, "Failed talking with AI: boom"),
        ("obedy", Surface::PrefixText, "Failed to invoke command: boom"),
        ("obedy", Surface::StructuredInteraction, "Command failed: boom"),
        ("ai", Surface::StructuredInteraction, "Command failed: boom"),
    ];
    for (name, surface, expected) in cases {
        let (mut dispatch, action) = acknowledged(asked(surface, name, &[]), true);
        called(action);
        let delivery = delivered(dispatch.step(Event::HandlerDone(Err("boom".to_string()))));
        assert_eq!(delivery.outcome, OutcomeKind::HandlerFailed);
        assert_eq!(delivery.payload, text(expected), "{name} {surface:?}");
    }
}

#[test]
fn a_placeholder_that_was_not_sent_is_not_edited() {
    let (mut dispatch, action) = acknowledged(asked(Surface::PrefixText, "ai", &["ahoj"]), false);
    assert!(!dispatch.deliverable);
    assert_eq!(called(action), HandlerCall::Chat("ahoj".to_string()));
    assert_eq!(dispatch.step(Event::HandlerDone(Ok(text("nazdar")))), Action::Finish);
    assert_eq!(dispatch.stage, Stage::Finished);
    let (dispatch, action) = acknowledged(asked(Surface::Mention, "zzz", &[]), false);
    assert_eq!(action, Action::Finish);
    assert_eq!(dispatch.stage, Stage::Finished);
}

#[test]
fn an_interaction_is_followed_up_even_after_a_failed_deferral() {
    let (mut dispatch, action) =
        acknowledged(asked(Surface::StructuredInteraction, "ai", &["ahoj"]), false);
    assert!(dispatch.deliverable);
    called(action);
    let delivery = delivered(dispatch.step(Event::HandlerDone(Ok(text("nazdar")))));
    assert_eq!(delivery.mode, DeliveryMode::FollowUp);
    assert_eq!(delivery.payload, text("nazdar"));
}

#[test]
fn the_conversation_gets_the_arguments_as_a_sentence() {
    let (mut dispatch, action) =
        acknowledged(asked(Surface::Mention, "ai", &["Jak", "se", "máš?"]), true);
    assert_eq!(called(action), HandlerCall::Chat("Jak se máš?".to_string()));
    let delivery = delivered(dispatch.step(Event::HandlerDone(Ok(text("Dobře.")))));
    assert_eq!(
        delivery,
        Delivery { mode: DeliveryMode::Edit, outcome: OutcomeKind::Success, payload: text("Dobře.") }
    );
}

#[test]
fn the_canteen_reads_its_day() {
    let days = [(vec!["2"], 2i64), (vec![], 0), (vec!["zítra"], 0), (vec!["-1"], -1), (vec!["+3", "x"], 3)];
    for (args, expected) in days {
        let (_, action) = acknowledged(asked(Surface::PrefixText, "obedy", &args), true);
        assert_eq!(called(action), HandlerCall::Lunch(expected));
    }
}

#[test]
fn the_changes_are_planned_by_the_router() {
    let (_, action) = acknowledged(asked(Surface::PrefixText, "zmeny", &["2A"]), true);
    assert_eq!(called(action), HandlerCall::Changes(zmeny_message(&owned(&["2A"]))));
}

#[test]
fn the_help_needs_no_handler() {
    let (dispatch, action) = acknowledged(asked(Surface::PrefixText, "help", &[]), true);
    assert_eq!(dispatch.stage, Stage::Delivering);
    let delivery = delivered(action);
    assert_eq!(delivery.outcome, OutcomeKind::Success);
    assert_eq!(delivery.payload, ReplyPayload::embed(help_content()));
    let (_, action) = acknowledged(asked(Surface::StructuredInteraction, "help", &["ai"]), true);
    assert_eq!(delivered(action).payload, ReplyPayload::embed(help_about(Some("ai"))));
}

#[test]
fn the_status_is_for_the_administrator() {
    let (dispatch, action) = acknowledged(asked(Surface::PrefixText, "status", &["playing", "x"]), true);
    let delivery = delivered(action);
    assert_eq!(delivery.outcome, OutcomeKind::PermissionDenied);
    assert_eq!(
        delivery.payload,
        text("Failed to invoke command: Insufficient permissions: Only admins can use this command.")
    );
    assert_eq!(dispatch.stage, Stage::Delivering);

    let (mut dispatch, action) =
        acknowledged(by_admin(asked(Surface::PrefixText, "status", &["playing", "na", "hale"])), true);
    assert_eq!(
        called(action),
        HandlerCall::SetActivity(Some(Activity {
            kind: ActivityKind::Playing,
            text: "na hale".to_string()
        }))
    );
    let delivery = delivered(dispatch.step(Event::HandlerDone(Ok(nothing()))));
    assert_eq!(delivery.payload, text("Bazinga ☝🤓"));
}

#[test]
fn a_status_of_no_kind_clears_the_status() {
    for args in [vec![], vec!["sleeping", "x"]] {
        let (_, action) = acknowledged(by_admin(asked(Surface::PrefixText, "status", &args)), true);
        assert_eq!(called(action), HandlerCall::SetActivity(None));
    }
}

#[test]
fn the_assistant_comes_up_checking_shoes() {
    assert_eq!(
        startup_activity(),
        Activity { kind: ActivityKind::Custom, text: "Kontroluju boty".to_string() }
    );
}

#[test]
fn read_activity_knows_five_kinds() {
    let kinds = [
        ("competing", ActivityKind::Competing),
        ("custom", ActivityKind::Custom),
        ("listening", ActivityKind::Listening),
        ("playing", ActivityKind::Playing),
        ("watching", ActivityKind::Watching),
    ];
    for (word, kind) in kinds {
        assert_eq!(
            read_activity(&owned(&[word, "Kontroluju", "boty"])),
            Some(Activity { kind, text: "Kontroluju boty".to_string() })
        );
    }
    assert_eq!(
        read_activity(&owned(&["custom"])),
        Some(Activity { kind: ActivityKind::Custom, text: String::new() })
    );
    assert_eq!(read_activity(&owned(&["Playing"])), None);
}

#[test]
fn an_announcement_is_for_the_administrator() {
    let (_, action) = acknowledged(asked(Surface::PrefixText, "announce", &["Pozor!"]), true);
    assert_eq!(delivered(action).outcome, OutcomeKind::PermissionDenied);
    let (mut dispatch, action) =
        acknowledged(by_admin(asked(Surface::PrefixText, "announce", &["Pozor,", "boty!"])), true);
    assert_eq!(called(action), HandlerCall::Broadcast("Pozor, boty!".to_string()));
    let delivery = delivered(dispatch.step(Event::HandlerDone(Ok(nothing()))));
    assert_eq!(delivery.payload, text("Bazinga ☝🤓"));
}

#[test]
fn registering_needs_a_server() {
    let (mut dispatch, action) = acknowledged(asked(Surface::PrefixText, "register", &[]), true);
    assert_eq!(
        called(action),
        HandlerCall::SetCommands { guild_id: "30".to_string(), commands: guild_commands() }
    );
    let delivery = delivered(dispatch.step(Event::HandlerDone(Ok(nothing()))));
    assert_eq!(delivery.payload, text("Registruju / commandy 🤓"));

    let (mut dispatch, action) = acknowledged(asked(Surface::PrefixText, "unregister", &[]), true);
    assert_eq!(
        called(action),
        HandlerCall::SetCommands { guild_id: "30".to_string(), commands: Vec::new() }
    );
    let delivery = delivered(dispatch.step(Event::HandlerDone(Ok(nothing()))));
    assert_eq!(delivery.payload, text("Odebírám / commandy 🤓"));

    for name in ["register", "unregister", "announcements"] {
        let (_, action) = acknowledged(in_private(asked(Surface::PrefixText, name, &[])), true);
        let delivery = delivered(action);
        assert_eq!(delivery.outcome, OutcomeKind::HandlerFailed);
        assert_eq!(delivery.payload, text("Failed to invoke command: Failed getting guild id"));
    }
}

#[test]
fn the_announcement_channel_waits_for_the_permissions() {
    let (mut dispatch, action) = acknowledged(asked(Surface::PrefixText, "announcements", &[]), true);
    assert_eq!(action, Action::Authorize);
    assert_eq!(dispatch.stage, Stage::Authorizing);
    let call = called(dispatch.step(Event::Authorized(PermissionProbe::Resolved {
        manage_channels: true,
    })));
    assert_eq!(
        call,
        HandlerCall::SetAnnouncementChannel {
            server_id: "30".to_string(),
            channel_id: Some("20".to_string())
        }
    );
    assert_eq!(dispatch.stage, Stage::Running);
    let delivery = delivered(dispatch.step(Event::HandlerDone(Ok(nothing()))));
    assert_eq!(delivery.outcome, OutcomeKind::Success);
    assert_eq!(delivery.payload, text("Kanál nastaven!"));
}

#[test]
fn disable_takes_the_channel_away() {
    let (mut dispatch, _) =
        acknowledged(asked(Surface::PrefixText, "announcements", &["disable"]), true);
    let call = called(dispatch.step(Event::Authorized(PermissionProbe::Resolved {
        manage_channels: true,
    })));
    assert_eq!(
        call,
        HandlerCall::SetAnnouncementChannel { server_id: "30".to_string(), channel_id: None }
    );
    let (mut dispatch, _) =
        acknowledged(asked(Surface::PrefixText, "announcements", &["enable", "disable"]), true);
    let call = called(dispatch.step(Event::Authorized(PermissionProbe::Resolved {
        manage_channels: true,
    })));
    assert_eq!(
        call,
        HandlerCall::SetAnnouncementChannel {
            server_id: "30".to_string(),
            channel_id: Some("20".to_string())
        }
    );
}

/// Carries a handler call out on the store, as the caller of the router
/// does.
fn perform(store: &mut Database, action: &Action) {
    if let Action::Run(HandlerCall::SetAnnouncementChannel { server_id, channel_id }) = action {
        store.set_announcement_channel(server_id.clone(), channel_id.clone()).unwrap();
    }
}

#[test]
fn without_the_permission_the_store_is_left_alone() {
    let mut store = Database::new();
    store.set_announcement_channel("30".to_string(), Some("5".to_string())).unwrap();
    store.set_announcement_channel("31".to_string(), None).unwrap();
    let before = store.get_data();
    for surface in SURFACES {
        let mut dispatch = Dispatch::new(asked(surface, "announcements", &[]));
        let events = vec![
            Event::Start,
            Event::Acknowledged(true),
            Event::Authorized(PermissionProbe::Resolved { manage_channels: false }),
            Event::Delivered(true),
            Event::HandlerDone(Ok(nothing())),
        ];
        let mut answers = Vec::new();
        for event in events {
            let action = dispatch.step(event);
            perform(&mut store, &action);
            if let Action::Deliver(delivery) = action {
                answers.push(delivery);
            }
        }
        assert_eq!(answers.len(), 1);
        assert_eq!(answers[0].outcome, OutcomeKind::PermissionDenied);
        let expected = if surface == Surface::StructuredInteraction {
            "Command failed: Insufficient permissions"
        } else {
            "Failed to invoke command: Insufficient permissions"
        };
        assert_eq!(answers[0].payload, text(expected));
        assert_eq!(store.get_data(), before);
    }
}

#[test]
fn with_the_permission_the_store_is_written() {
    let mut store = Database::new();
    let mut dispatch = Dispatch::new(asked(Surface::PrefixText, "announcements", &[]));
    for event in [
        Event::Start,
        Event::Acknowledged(true),
        Event::Authorized(PermissionProbe::Resolved { manage_channels: true }),
    ] {
        let action = dispatch.step(event);
        perform(&mut store, &action);
    }
    assert_eq!(store.get("30").announcement_channel, Some("20".to_string()));
}

#[test]
fn a_failed_look_up_denies_the_permission() {
    let probes = [
        (PermissionProbe::ChannelUnavailable("timeout".to_string()), "Failed getting channel: timeout"),
        (PermissionProbe::NotGuildChannel, "Failed getting guild channel"),
        (
            PermissionProbe::MemberUnavailable("gone".to_string()),
            "Failed getting member object: gone",
        ),
        (PermissionProbe::GuildUnavailable, "Failed checking permissions"),
    ];
    for (probe, why) in probes {
        let (mut dispatch, _) = acknowledged(asked(Surface::PrefixText, "announcements", &[]), true);
        let delivery = delivered(dispatch.step(Event::Authorized(probe)));
        assert_eq!(delivery.outcome, OutcomeKind::PermissionDenied);
        assert_eq!(delivery.payload, text(&format!("Failed to invoke command: {why}")));
    }
}

#[test]
fn an_event_out_of_turn_ends_the_dispatch() {
    let (mut dispatch, action) = acknowledged(asked(Surface::PrefixText, "ai", &["x"]), true);
    called(action);
    let delivery = delivered(dispatch.step(Event::Delivered(true)));
    assert_eq!(delivery.outcome, OutcomeKind::HandlerFailed);
    assert_eq!(delivery.payload, text("Failed talking with AI: unexpected event"));

    let (mut dispatch, _) = acknowledged(asked(Surface::PrefixText, "announcements", &[]), true);
    let delivery = delivered(dispatch.step(Event::HandlerDone(Ok(nothing()))));
    assert_eq!(delivery.outcome, OutcomeKind::HandlerFailed);

    let mut dispatch = Dispatch::new(asked(Surface::PrefixText, "ai", &["x"]));
    assert_eq!(dispatch.step(Event::Acknowledged(true)), Action::Finish);
    assert_eq!(dispatch.stage, Stage::Finished);

    let mut dispatch = Dispatch::new(asked(Surface::PrefixText, "ai", &["x"]));
    dispatch.step(Event::Start);
    assert_eq!(dispatch.step(Event::Start), Action::Finish);
    assert_eq!(dispatch.stage, Stage::Finished);
}

#[test]
fn every_run_answers_once() {
    let names = ["rozvrh", "zmeny", "register", "unregister", "help", "ai", "status", "obedy",
        "announcements", "announce", "zzz"];
    for name in names {
        for surface in SURFACES {
            for grant in [false, true] {
                let mut dispatch = Dispatch::new(asked(surface, name, &["9Z"]));
                let mut event = Event::Start;
                let mut answers = 0;
                let mut steps = 0;
                loop {
                    steps += 1;
                    assert!(steps <= 6);
                    event = match dispatch.step(event) {
                        Action::Acknowledge(_) => Event::Acknowledged(true),
                        Action::Authorize => {
                            Event::Authorized(PermissionProbe::Resolved { manage_channels: grant })
                        }
                        Action::Run(_) => Event::HandlerDone(Ok(nothing())),
                        Action::Deliver(_) => {
                            answers += 1;
                            Event::Delivered(false)
                        }
                        Action::Finish => break,
                    };
                }
                assert_eq!(answers, 1, "{name} {surface:?}");
                assert_eq!(dispatch.stage, Stage::Finished);
            }
        }
    }
}

#[test]
fn route_and_authorize_decide_alone() {
    assert_eq!(
        route_invocation(&asked(Surface::PrefixText, "zzz", &[])),
        Route::Reply(Outcome::CommandNotRecognized)
    );
    assert_eq!(route_invocation(&asked(Surface::PrefixText, "announcements", &[])), Route::Authorize);
    assert_eq!(
        route_invocation(&asked(Surface::PrefixText, "announce", &["x"])),
        Route::Reply(Outcome::PermissionDenied(
            "Insufficient permissions: Only admins can use this command.".to_string()
        ))
    );
    assert_eq!(
        authorize(
            &asked(Surface::PrefixText, "announcements", &[]),
            PermissionProbe::Resolved { manage_channels: false }
        ),
        Route::Reply(Outcome::PermissionDenied("Insufficient permissions".to_string()))
    );
    assert_eq!(
        authorize(
            &in_private(asked(Surface::PrefixText, "announcements", &[])),
            PermissionProbe::Resolved { manage_channels: true }
        ),
        Route::Reply(Outcome::HandlerFailed("Failed getting guild id".to_string()))
    );
}

#[test]
fn render_writes_the_final_words() {
    let invocation = asked(Surface::PrefixText, "zmeny", &[]);
    assert_eq!(
        render(&invocation, Outcome::Success(text("x"))),
        text("Bazinga ☝🤓")
    );
    assert_eq!(
        render(&invocation, Outcome::HandlerFailed("y".to_string())),
        text("Něco se pokazilo: y")
    );
    assert_eq!(Outcome::Success(nothing()).kind(), OutcomeKind::Success);
    assert_eq!(Outcome::CommandNotRecognized.kind(), OutcomeKind::CommandNotRecognized);
    assert_eq!(Outcome::PermissionDenied(String::new()).kind(), OutcomeKind::PermissionDenied);
    assert_eq!(Outcome::HandlerFailed(String::new()).kind(), OutcomeKind::HandlerFailed);
}

#[test]
fn confirmations_and_failure_starts() {
    assert_eq!(confirmation_words(Some(Command::Rozvrh), Surface::Mention), Some("Bazinga ☝🤓"));
    assert_eq!(confirmation_words(Some(Command::Rozvrh), Surface::StructuredInteraction), None);
    assert_eq!(confirmation_words(Some(Command::Ai), Surface::PrefixText), None);
    assert_eq!(confirmation_words(Some(Command::Obedy), Surface::PrefixText), None);
    assert_eq!(confirmation_words(None, Surface::PrefixText), None);
    assert_eq!(
        confirmation_words(Some(Command::Announcements), Surface::StructuredInteraction),
        Some("Kanál nastaven!")
    );
    assert_eq!(failure_start(Some(Command::Zmeny), Surface::PrefixText), "Něco se pokazilo: ");
    assert_eq!(failure_start(Some(Command::Ai), Surface::Mention), "Failed talking with AI: ");
    assert_eq!(failure_start(None, Surface::Mention), "Failed to invoke command: ");
    assert_eq!(failure_start(Some(Command::Zmeny), Surface::StructuredInteraction), "Command failed: ");
}

#[test]
fn an_announcement_goes_to_every_configured_channel() {
    let record = |id: &str, channel: Option<&str>| {
        (id.to_string(), ServerData { announcement_channel: channel.map(|c| c.to_string()) })
    };
    let snapshot = vec![
        record("1", Some("100")),
        record("2", None),
        record("3", Some("not a number")),
        record("4", Some("0")),
        record("5", Some("18446744073709551615")),
        record("6", Some("18446744073709551616")),
        record("7", Some("100")),
        record("8", Some("-5")),
        record("9", Some("+9")),
    ];
    assert_eq!(announcement_targets(&snapshot), vec![100, 18446744073709551615, 100, 9]);
    assert_eq!(announcement_targets(&Vec::new()), Vec::<u64>::new());
}
