use pan_spicka::chatbot::{chat, chat_answer, endpoint, ChatRequest};
use pan_spicka::lunch_fetch::{
    day_delay, day_name, fetch_food, fetch_food_image, food_id, food_query, get_lunch_embed,
    requested_day, unquote, Food, FoodQuery,
};
use pan_spicka::registry::all;
use pan_spicka::reply::{Attachment, Embed, ReplyPayload};
use pan_spicka::rozvrh::{find_target, rozvrh_message, CreateRozvrh, Kind, TABLE};
use pan_spicka::zmeny::{dotted_name, zmeny_message, CreateZmeny};

fn owned(words: &[&str]) -> Vec<String> {
    words.iter().map(|w| w.to_string()).collect()
}

#[test]
fn the_timetable_of_a_class() {
    let plan = rozvrh_message(&owned(&["7B", "0"])).unwrap();
    assert_eq!(
        plan,
        CreateRozvrh {
            url: "https://bakalari.gypce.cz/bakaweb/Timetable/Public/Actual/Class/1T".to_string(),
            script: "document.getElementById('c-p-bn').click()".to_string(),
            attachment: Attachment {
                path: "/tmp/rozvrh.png".to_string(),
                name: "rozvrh.png".to_string()
            },
            embed: Embed {
                title: Some("rozvrh pro 7B".to_string()),
                image: Some("rozvrh.png".to_string()),
                color: Some((5, 180, 255)),
                ..Embed::new()
            },
        }
    );
}

#[test]
fn the_timetable_of_next_week_differs() {
    let this_week = rozvrh_message(&owned(&["7B", "0"])).unwrap();
    let next_week = rozvrh_message(&owned(&["7B", "+1"])).unwrap();
    assert_ne!(this_week, next_week);
    assert_eq!(
        next_week.url,
        "https://bakalari.gypce.cz/bakaweb/Timetable/Public/Next/Class/1T"
    );
    assert_eq!(next_week.embed, this_week.embed);
}

#[test]
fn the_timetable_defaults() {
    assert_eq!(rozvrh_message(&Vec::new()), rozvrh_message(&owned(&["7B", "0"])));
    assert_eq!(rozvrh_message(&owned(&["7B"])), rozvrh_message(&owned(&["7B", "whenever"])));
    assert_eq!(rozvrh_message(&owned(&["7B", "+1", "x"])), rozvrh_message(&owned(&["7B", "+1"])));
}

#[test]
fn the_timetable_of_a_room() {
    let plan = rozvrh_message(&owned(&["ŠJ", "+1"])).unwrap();
    assert_eq!(plan.url, "https://bakalari.gypce.cz/bakaweb/Timetable/Public/Next/Room/01");
    assert_eq!(plan.embed.title, Some("rozvrh pro ŠJ".to_string()));
    let plan = rozvrh_message(&owned(&["106"])).unwrap();
    assert_eq!(plan.url, "https://bakalari.gypce.cz/bakaweb/Timetable/Public/Actual/Room/ZW");
}

#[test]
fn an_unknown_class_has_no_timetable() {
    for name in ["9Z", "", "7b", "7B ", "1C"] {
        assert_eq!(
            rozvrh_message(&owned(&[name, "0"])),
            Err("Nechápu, kterej rozvrh chceš 🤔".to_string()),
            "{name:?}"
        );
    }
}

#[test]
fn the_table_is_found_row_by_row() {
    assert_eq!(TABLE.len(), 74);
    for (name, code, kind) in TABLE {
        assert_eq!(find_target(name), Some((code, kind)));
    }
    assert_eq!(find_target("1A"), Some(("2G", Kind::Class)));
    assert_eq!(find_target("8B"), Some(("1P", Kind::Class)));
    assert_eq!(find_target("V4"), Some(("5H", Kind::Room)));
    assert_eq!(find_target("MM2"), Some(("OG", Kind::Room)));
    assert_eq!(find_target("2G"), None);
    assert_eq!(Kind::Class.as_str(), "Class");
    assert_eq!(Kind::Room.as_str(), "Room");
}

#[test]
fn the_timetable_payload_carries_the_picture() {
    let plan = rozvrh_message(&owned(&["1A"])).unwrap();
    assert_eq!(
        plan.clone().payload(),
        ReplyPayload {
            content: None,
            embeds: vec![plan.embed],
            attachment: Some(plan.attachment)
        }
    );
}

#[test]
fn a_class_is_written_with_dots() {
    assert_eq!(dotted_name("7B"), "7.B");
    assert_eq!(dotted_name("7"), "7");
    assert_eq!(dotted_name(""), "");
    assert_eq!(dotted_name("ŠJ1"), "Š.J.1");
}

#[test]
fn the_changes_of_a_class() {
    let plan = zmeny_message(&owned(&["2A", "x"]));
    assert_eq!(
        plan,
        CreateZmeny {
            url: "https://bakalari.gypce.cz/bakaweb/next/zmeny.aspx".to_string(),
            script: format!("[].forEach.call(document.querySelectorAll('table.datagrid > tbody > tr'), function(row) {{ if (row.firstElementChild && row.firstElementChild.textContent.trim() !== '{}') {{ row.style.display = 'none'; }} }});", "2.A"),
            attachment: Attachment {
                path: "/tmp/zmeny.png".to_string(),
                name: "zmeny.png".to_string()
            },
            embed: Embed {
                title: Some("Změny třídy 2A".to_string()),
                image: Some("zmeny.png".to_string()),
                color: Some((5, 180, 255)),
                ..Embed::new()
            },
        }
    );
    assert_eq!(zmeny_message(&Vec::new()), zmeny_message(&owned(&["7B"])));
    assert_eq!(plan.clone().payload().embeds, vec![plan.embed]);
}

#[test]
fn the_language_model_is_told_the_help_of_every_command() {
    let request = chat("ahoj <@1371940848006074378>, kdo je <@1>?");
    assert_eq!(request.text, "ahoj Pan Špička, kdo je <@1>?");
    assert!(request.system_instruction.starts_with("Mluvíš česky. Jsi správce sportovní haly"));
    assert!(request.system_instruction.ends_with("žádnou třetí nevymýšlej."));
    let mut help = String::new();
    for command in all() {
        help.push_str(&command.help_summary);
        help.push_str(&command.help_detail);
    }
    let marker = "aby ho discord mohl zformátovat: ";
    let at = request.system_instruction.find(marker).unwrap() + marker.len();
    assert!(request.system_instruction[at..].starts_with(&help));
    assert!(request.system_instruction[at + help.len()..].starts_with(". Nezapomeň, že"));
    assert_eq!(
        chat(""),
        ChatRequest { system_instruction: request.system_instruction, text: String::new() }
    );
}

#[test]
fn the_language_model_is_asked_with_the_key() {
    assert_eq!(
        endpoint("K3Y"),
        "https://generativelanguage.googleapis.com/v1beta/models/gemini-2.5-flash:generateContent?key=K3Y"
    );
}

#[test]
fn a_missing_answer_is_said_to_be_missing() {
    assert_eq!(chat_answer(Some("Dobrý den.".to_string())), "Dobrý den.");
    assert_eq!(chat_answer(None), "No response (this is an error, not the AI responding)");
}

#[test]
fn the_day_is_read_from_the_arguments() {
    assert_eq!(requested_day(&owned(&["3"])), 3);
    assert_eq!(requested_day(&owned(&["-2", "9"])), -2);
    assert_eq!(requested_day(&owned(&["x"])), 0);
    assert_eq!(requested_day(&owned(&["99999999999999999999"])), 0);
    assert_eq!(requested_day(&Vec::new()), 0);
}

#[test]
fn days_are_counted_in_seconds() {
    assert_eq!(day_delay(0), Some(0));
    assert_eq!(day_delay(1), Some(86400));
    assert_eq!(day_delay(-3), Some(-259200));
    assert_eq!(day_delay(106751991167300), Some(9223372036854720000));
    assert_eq!(day_delay(106751991167301), None);
    assert_eq!(day_delay(i64::MIN), None);
}

#[test]
fn the_question_names_canteen_and_moment() {
    assert_eq!(
        food_query(1_700_000_000, 86400, Some("3")),
        Some(FoodQuery { canteen_id: 3, timestamp: "1700086400000".to_string() })
    );
    assert_eq!(
        food_query(10, -20, None),
        Some(FoodQuery { canteen_id: 1, timestamp: "-10000".to_string() })
    );
    for setting in ["", "abc", "256", "-1", "1.5"] {
        assert_eq!(food_query(0, 0, Some(setting)).unwrap().canteen_id, 1, "{setting:?}");
    }
    assert_eq!(food_query(0, 0, Some("255")).unwrap().canteen_id, 255);
    assert_eq!(food_query(0, 0, Some("0")).unwrap().canteen_id, 0);
    assert_eq!(food_query(0, 0, Some("+7")).unwrap().canteen_id, 7);
}

#[test]
fn a_moment_out_of_range_gives_no_question() {
    assert_eq!(food_query(i64::MAX, 1, None), None);
    assert_eq!(food_query(i64::MAX / 1000 + 1, 0, None), None);
    assert_eq!(food_query(i64::MIN, -1, None), None);
    assert_eq!(
        food_query(i64::MAX / 1000, 0, None).unwrap().timestamp,
        "9223372036854775000"
    );
}

#[test]
fn fetch_food_asks_about_now() {
    let before = std::time::SystemTime::now()
        .duration_since(std::time::UNIX_EPOCH)
        .unwrap()
        .as_secs() as i64;
    let query = fetch_food(86400, Some("2")).expect("the moment is in range");
    let after = std::time::SystemTime::now()
        .duration_since(std::time::UNIX_EPOCH)
        .unwrap()
        .as_secs() as i64;
    assert_eq!(query.canteen_id, 2);
    let moment: i64 = query.timestamp.parse().unwrap();
    assert_eq!(moment % 1000, 0);
    assert!((before + 86400) * 1000 <= moment && moment <= (after + 86400) * 1000);
    assert_eq!(fetch_food(i64::MAX, None), None);
}

#[test]
fn the_number_of_a_meal_keeps_its_low_bits() {
    assert_eq!(food_id(Some(12345)), 12345);
    assert_eq!(food_id(None), 0);
    assert_eq!(food_id(Some(4294967296)), 0);
    assert_eq!(food_id(Some(4294967297 + 41)), 42);
    assert_eq!(food_id(Some(u64::MAX)), u32::MAX);
}

#[test]
fn the_first_picture_is_taken() {
    assert_eq!(fetch_food_image(&owned(&["\"https://a/1.jpg\"", "\"https://a/2.jpg\""])), "\"https://a/1.jpg\"");
    assert_eq!(fetch_food_image(&Vec::new()), "");
}

#[test]
fn days_have_names() {
    let names = [
        (0, "Dnes"),
        (1, "Zítra"),
        (2, "Za 2 dny"),
        (3, "Za 3 dny"),
        (4, "Za 4 dny"),
        (5, "Za 5 dnů"),
        (30, "Za 30 dnů"),
        (-1, "Za -1 dnů"),
    ];
    for (days, name) in names {
        assert_eq!(day_name(days), name);
    }
}

#[test]
fn quotes_are_taken_off() {
    assert_eq!(unquote("\"https://a/1.jpg\""), "https://a/1.jpg");
    assert_eq!(unquote("\"\""), "");
    assert_eq!(unquote("\""), "");
    assert_eq!(unquote(""), "");
    assert_eq!(unquote("null"), "ul");
    assert_eq!(unquote("čaj"), "a");
}

#[test]
fn meals_become_embeds() {
    let foods = vec![
        Food {
            name: "\"Svíčková na smetaně\"".to_string(),
            rating: "4.5".to_string(),
            image_url: "\"https://s3/svickova.jpg\"".to_string(),
        },
        Food { name: "\"Guláš\"".to_string(), rating: "null".to_string(), image_url: String::new() },
    ];
    let embeds = get_lunch_embed(2, Some(&foods)).unwrap();
    let star = "https://png.pngtree.com/png-vector/20230222/ourmid/pngtree-shiny-yellow-star-icon-clipart-png-image_6613580.png";
    let school = "https://www.gypce.cz/wp-content/uploads/2013/06/gypce-1.jpg";
    assert_eq!(
        embeds,
        vec![
            Embed {
                author: Some(("Oběd 1 · Za 2 dny".to_string(), school.to_string())),
                description: Some("# Svíčková na smetaně".to_string()),
                thumbnail: Some("https://s3/svickova.jpg".to_string()),
                color: Some((255, 20, 140)),
                footer: Some(("4.5".to_string(), star.to_string())),
                ..Embed::new()
            },
            Embed {
                author: Some(("Oběd 2 · Za 2 dny".to_string(), school.to_string())),
                description: Some("# Guláš".to_string()),
                thumbnail: Some(String::new()),
                color: Some((255, 20, 140)),
                footer: Some(("Bez hodnocení".to_string(), star.to_string())),
                ..Embed::new()
            },
        ]
    );
    assert_eq!(get_lunch_embed(0, Some(&Vec::new())), Ok(Vec::new()));
}

#[test]
fn a_day_without_an_offer_fails() {
    assert_eq!(get_lunch_embed(0, None), Err("Failed getting lunches".to_string()));
}

#[test]
fn embeds_are_built_line_by_line() {
    let embed = Embed::new().field("a", "b");
    assert_eq!(embed.fields.len(), 1);
    assert_eq!((embed.fields[0].name.as_str(), embed.fields[0].value.as_str()), ("a", "b"));
    assert!(!embed.fields[0].inline);
    assert_eq!(
        ReplyPayload::text("x".to_string()),
        ReplyPayload { content: Some("x".to_string()), embeds: Vec::new(), attachment: None }
    );
    assert_eq!(
        ReplyPayload::embed(embed.clone()),
        ReplyPayload { content: None, embeds: vec![embed], attachment: None }
    );
}
