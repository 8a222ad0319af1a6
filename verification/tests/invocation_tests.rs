use pan_spicka::invocation::{
    classify_message, command_name, get_option_str, mentions_bot, normalize_interaction,
    sentence, word_is_prefix, Invocation, MessageTrigger, Origin, Surface, PING, PONG,
    UNKNOWN_COMMAND,
};

const BOT: &str = "1371940848006074378";

fn origin(target: &str) -> Origin {
    Origin {
        actor_id: "7".to_string(),
        channel_id: "20".to_string(),
        guild_id: Some("30".to_string()),
        reply_target: target.to_string(),
    }
}

fn owned(words: &[&str]) -> Vec<String> {
    words.iter().map(|w| w.to_string()).collect()
}

fn options(pairs: &[(&str, &str)]) -> Vec<(String, String)> {
    pairs.iter().map(|(n, v)| (n.to_string(), v.to_string())).collect()
}

fn command(trigger: MessageTrigger) -> Invocation {
    match trigger {
        MessageTrigger::Command(invocation) => invocation,
        other => panic!("no command: {other:?}"),
    }
}

#[test]
fn the_probe_is_answered_with_pong() {
    assert_eq!(classify_message("!ping", &Vec::new(), BOT, origin("m")), MessageTrigger::Ping);
    assert_eq!(classify_message("!ping", &owned(&[BOT]), BOT, origin("m")), MessageTrigger::Ping);
    assert_eq!(PING, "!ping");
    assert_eq!(PONG, "Pong!");
}

#[test]
fn an_empty_message_is_ignored() {
    for body in ["", " ", "\n\t  "] {
        assert_eq!(classify_message(body, &Vec::new(), BOT, origin("m")), MessageTrigger::Nothing);
        assert_eq!(classify_message(body, &owned(&[BOT]), BOT, origin("m")), MessageTrigger::Nothing);
    }
}

#[test]
fn a_prefix_alone_is_ignored() {
    for body in ["!ps", "kys", "186", " kys ", "!ps\n"] {
        assert_eq!(
            classify_message(body, &Vec::new(), BOT, origin("m")),
            MessageTrigger::Nothing,
            "{body:?}"
        );
    }
}

#[test]
fn a_missing_command_has_a_name_of_its_own() {
    assert_eq!(UNKNOWN_COMMAND, "unknown command");
    assert_eq!(command_name(&owned(&["kys"])), "unknown command");
    assert_eq!(command_name(&Vec::new()), "unknown command");
    assert_eq!(command_name(&owned(&["kys", "rozvrh", "7B"])), "rozvrh");
    assert_eq!(command_name(&owned(&["x", "y"])), "y");
}

#[test]
fn a_message_without_a_prefix_is_ignored() {
    for body in ["rozvrh 7B", "ahoj všichni", "!pss rozvrh", "KYS rozvrh", "!ping pong", "1868 ai x"] {
        assert_eq!(
            classify_message(body, &Vec::new(), BOT, origin("m")),
            MessageTrigger::Nothing,
            "{body:?}"
        );
    }
}

#[test]
fn a_prefixed_message_names_a_command_and_its_arguments() {
    for prefix in ["kys", "!ps", "186"] {
        let body = format!("{prefix} rozvrh 7B +1");
        let invocation = command(classify_message(&body, &Vec::new(), BOT, origin("m")));
        assert_eq!(
            invocation,
            Invocation {
                surface: Surface::PrefixText,
                command_name: "rozvrh".to_string(),
                arguments: owned(&["7B", "+1"]),
                origin: origin("m"),
            }
        );
    }
}

#[test]
fn runs_of_whitespace_separate_words() {
    let invocation =
        command(classify_message("  !ps \t status   playing\nna  hale ", &Vec::new(), BOT, origin("m")));
    assert_eq!(invocation.command_name, "status");
    assert_eq!(invocation.arguments, owned(&["playing", "na", "hale"]));
}

#[test]
fn a_command_without_arguments_has_none() {
    let invocation = command(classify_message("kys help", &Vec::new(), BOT, origin("m")));
    assert_eq!(invocation.command_name, "help");
    assert!(invocation.arguments.is_empty());
}

#[test]
fn a_mention_goes_to_the_conversation_whatever_the_prefix() {
    let body = "!ps rozvrh <@1371940848006074378> 7B";
    let invocation = command(classify_message(body, &owned(&["5", BOT]), BOT, origin("m")));
    assert_eq!(
        invocation,
        Invocation {
            surface: Surface::Mention,
            command_name: "ai".to_string(),
            arguments: owned(&["!ps", "rozvrh", "Pan", "Špička", "7B"]),
            origin: origin("m"),
        }
    );
}

#[test]
fn a_mention_of_someone_else_is_no_mention() {
    let body = "!ps zmeny 2A <@5>";
    let invocation = command(classify_message(body, &owned(&["5"]), BOT, origin("m")));
    assert_eq!(invocation.surface, Surface::PrefixText);
    assert_eq!(invocation.command_name, "zmeny");
    assert_eq!(invocation.arguments, owned(&["2A", "<@5>"]));
    assert_eq!(
        classify_message("ahoj <@5>", &owned(&["5"]), BOT, origin("m")),
        MessageTrigger::Nothing
    );
}

#[test]
fn the_mention_token_is_replaced_inside_words_too() {
    let body = "hej,<@1371940848006074378>!";
    let invocation = command(classify_message(body, &owned(&[BOT]), BOT, origin("m")));
    assert_eq!(invocation.arguments, owned(&["hej,Pan", "Špička!"]));
    assert_eq!(sentence(&invocation), "hej,Pan Špička!");
}

#[test]
fn mentions_bot_looks_through_the_list() {
    assert!(mentions_bot(&owned(&["1", "2", BOT]), BOT));
    assert!(!mentions_bot(&owned(&["1", "2"]), BOT));
    assert!(!mentions_bot(&Vec::new(), BOT));
}

#[test]
fn prefixes_are_exactly_three() {
    for word in ["kys", "!ps", "186"] {
        assert!(word_is_prefix(word));
    }
    for word in ["", "ps", "!PS", "kys!", "1860", "!ping"] {
        assert!(!word_is_prefix(word));
    }
}

#[test]
fn an_interaction_follows_the_schema_and_its_defaults() {
    let timetable = normalize_interaction("rozvrh", &Vec::new(), origin("i"));
    assert_eq!(
        timetable,
        Invocation {
            surface: Surface::StructuredInteraction,
            command_name: "rozvrh".to_string(),
            arguments: owned(&["7B", "0"]),
            origin: origin("i"),
        }
    );
    let next = normalize_interaction("rozvrh", &options(&[("time", "+1")]), origin("i"));
    assert_eq!(next.arguments, owned(&["7B", "+1"]));
    let swapped =
        normalize_interaction("rozvrh", &options(&[("time", "+1"), ("class", "2A")]), origin("i"));
    assert_eq!(swapped.arguments, owned(&["2A", "+1"]));
    assert_eq!(normalize_interaction("zmeny", &Vec::new(), origin("i")).arguments, owned(&["7B"]));
    assert_eq!(normalize_interaction("ai", &Vec::new(), origin("i")).arguments, owned(&[""]));
    assert_eq!(normalize_interaction("obedy", &Vec::new(), origin("i")).arguments, owned(&["0"]));
    assert_eq!(
        normalize_interaction("obedy", &options(&[("days_forward", "3")]), origin("i")).arguments,
        owned(&["3"])
    );
}

#[test]
fn an_interaction_outside_the_catalogue_keeps_its_values() {
    let unknown = normalize_interaction("zzz", &options(&[("x", "a"), ("y", "b")]), origin("i"));
    assert_eq!(unknown.command_name, "zzz");
    assert_eq!(unknown.arguments, owned(&["a", "b"]));
    assert!(normalize_interaction("help", &Vec::new(), origin("i")).arguments.is_empty());
}

#[test]
fn get_option_str_takes_the_first_of_a_name() {
    let given = options(&[("class", "1A"), ("time", "0"), ("class", "2B")]);
    assert_eq!(get_option_str(&given, "class"), Some("1A"));
    assert_eq!(get_option_str(&given, "time"), Some("0"));
    assert_eq!(get_option_str(&given, "message"), None);
    assert_eq!(get_option_str(&Vec::new(), "class"), None);
}

#[test]
fn the_three_surfaces_agree_on_the_same_request() {
    let by_mention = command(classify_message("ahoj", &owned(&[BOT]), BOT, origin("m1")));
    let by_prefix = command(classify_message("kys ai ahoj", &Vec::new(), BOT, origin("m2")));
    let by_interaction =
        normalize_interaction("ai", &options(&[("message", "ahoj")]), origin("i3"));
    assert_eq!(by_mention.surface, Surface::Mention);
    assert_eq!(by_prefix.surface, Surface::PrefixText);
    assert_eq!(by_interaction.surface, Surface::StructuredInteraction);
    assert_eq!(by_mention.origin.reply_target, "m1");
    assert_eq!(by_prefix.origin.reply_target, "m2");
    assert_eq!(by_interaction.origin.reply_target, "i3");
    let level = |invocation: &Invocation| Invocation {
        surface: Surface::Mention,
        origin: Origin { reply_target: String::new(), ..invocation.origin.clone() },
        ..invocation.clone()
    };
    assert_eq!(level(&by_mention), level(&by_prefix));
    assert_eq!(level(&by_prefix), level(&by_interaction));
    assert_eq!(by_interaction.command_name, "ai");
    assert_eq!(by_interaction.arguments, owned(&["ahoj"]));
}

#[test]
fn the_surfaces_agree_on_a_timetable() {
    let by_prefix = command(classify_message("186 rozvrh 7B +1", &Vec::new(), BOT, origin("m")));
    let by_interaction =
        normalize_interaction("rozvrh", &options(&[("class", "7B"), ("time", "+1")]), origin("i"));
    assert_eq!(by_prefix.command_name, by_interaction.command_name);
    assert_eq!(by_prefix.arguments, by_interaction.arguments);
    assert_eq!(by_prefix.origin.actor_id, by_interaction.origin.actor_id);
    assert_eq!(by_prefix.origin.guild_id, by_interaction.origin.guild_id);
    assert_eq!(by_prefix.origin.channel_id, by_interaction.origin.channel_id);
}

#[test]
fn a_sentence_joins_the_arguments() {
    let invocation = command(classify_message("kys ai  Jak   se máš?", &Vec::new(), BOT, origin("m")));
    assert_eq!(sentence(&invocation), "Jak se máš?");
}
