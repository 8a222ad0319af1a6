//! The canteen command: which day is asked for and how the meals are shown.

use crate::reply::{Embed, EmbedView};
use crate::text::{
    chars_of, decimal, decimal_of, decimal_string, parse_i64, parse_u64, parsed_i64, parsed_u64,
    remove_char, signed_decimal, str_eq, string_from, without,
};
use crate::registry::{
    CommandOption, CommandOptionView, CommandSchema, CommandSchemaView, SlashCommand,
    SlashCommandView,
};
use vstd::prelude::*;

verus! {

/// The name of the command.
pub const NAME: &'static str = "obedy";

/// The line that the chat platform shows about the command.
pub const DESCRIPTION: &'static str = "Zašle obědy v gypce jídelně v daný den";

/// The name of the parameter `days_forward`.
pub const DAYS_FORWARD_OPTION: &'static str = "days_forward";

/// What the chat platform shows about `days_forward`.
pub const DAYS_FORWARD_HINT: &'static str = "Kolik dní dopředu oběd? 0 - dnes, 1 - zítra atd.";

/// The value of `days_forward` where the user gave none.
pub const DAYS_FORWARD_DEFAULT: &'static str = "0";

/// How the command is written, as the help shows it.
pub const HELP_SUMMARY: &'static str = "`obedy ~dny_dopředu`";

/// What the help tells of the command.
pub const HELP_DETAIL: &'static str =
    "Zašle obědy v gypce jídelně v daný den\n`~dny_dopředu` musí být kladné číslo, 0 - dnes, 1 - zítra atd.";

/// The structured form of the command.
pub open spec fn schema() -> CommandSchemaView {
    CommandSchemaView {
        name: NAME@,
        description: DESCRIPTION@,
        options: seq![
            CommandOptionView {
                name: DAYS_FORWARD_OPTION@,
                description: DAYS_FORWARD_HINT@,
                required: false,
                default: DAYS_FORWARD_DEFAULT@,
            },
        ],
    }
}

/// The command as the catalogue holds it.
pub open spec fn descriptor() -> SlashCommandView {
    SlashCommandView { schema: schema(), help_summary: HELP_SUMMARY@, help_detail: HELP_DETAIL@ }
}

/// The structured form under which the command is registered.
pub fn register() -> (command: CommandSchema)
    ensures
        command.deep_view() == schema(),
{
    let command = CommandSchema::new(NAME, DESCRIPTION).add_option(
        CommandOption::new(DAYS_FORWARD_OPTION, DAYS_FORWARD_HINT, false, DAYS_FORWARD_DEFAULT),
    );
    assert(command.deep_view().options =~= schema().options);
    command
}

/// The help entry of the command: how it is written, then what it does.
pub fn help_message() -> (entry: (&'static str, &'static str))
    ensures
        entry.0@ == HELP_SUMMARY@,
        entry.1@ == HELP_DETAIL@,
{
    (HELP_SUMMARY, HELP_DETAIL)
}

/// The command as the catalogue holds it.
pub fn command() -> (command: SlashCommand)
    ensures
        command.deep_view() == descriptor(),
{
    SlashCommand::new(register(), help_message())
}

/// The day that the arguments ask for, counted from today: the first
/// argument read as a number, today where there is none or it is no number.
pub open spec fn days_forward(args: Seq<Seq<char>>) -> i64 {
    if args.len() > 0 {
        match parsed_i64(args[0]) {
            Some(days) => days,
            None => 0,
        }
    } else {
        0
    }
}

/// Reads the day that the arguments ask for: see [`days_forward`].
pub fn requested_day(args: &Vec<String>) -> (days: i64)
    ensures
        days == days_forward(args.deep_view()),
{
    if args.len() > 0 {
        match parse_i64(args[0].as_str()) {
            Some(days) => days,
            None => 0,
        }
    } else {
        0
    }
}

/// Where the canteen's service is asked.
pub const API_URL: &'static str = "https://apiv2.natacu.cz/graphql";

/// The name of the question about a day's meals.
pub const OFFERS_OPERATION: &'static str = "canteenOffersQuery";

/// The question about a day's meals.
pub const OFFERS_QUERY: &'static str =
    "query canteenOffersQuery($query: GetOffersInput!) {\n  canteenOffers(query: $query) {\n    id\n    date\n    food {\n      id\n      name\n      averageRating\n      __typename\n    }\n    __typename\n  }\n}";

/// The name of the question about one meal.
pub const FOOD_OPERATION: &'static str = "foodQuery";

/// The question about one meal.
pub const FOOD_QUERY: &'static str =
    "query foodQuery($id: Int!) {\n  food(id: $id) {\n    id\n    name\n    description\n    canteenId\n    averageRating\n    similarNames {\n      alternateName\n      __typename\n    }\n    photos {\n      id\n      s3url\n      __typename\n    }\n    __typename\n  }\n}";

/// The canteen that is asked about where none is set.
pub const DEFAULT_CANTEEN: u8 = 1;

/// The seconds of a day.
pub const DAY: i64 = 86400;

/// What is answered where the day has no meals.
pub const NO_LUNCHES: &'static str = "Failed getting lunches";

/// The picture beside the heading of a meal.
pub const SCHOOL_ICON: &'static str = "https://www.gypce.cz/wp-content/uploads/2013/06/gypce-1.jpg";

/// The picture beside the rating of a meal.
pub const STAR_ICON: &'static str =
    "https://png.pngtree.com/png-vector/20230222/ourmid/pngtree-shiny-yellow-star-icon-clipart-png-image_6613580.png";

/// What stands in place of the rating of a meal that has none.
pub const NO_RATING: &'static str = "Bez hodnocení";

/// The colour of a meal's embed.
pub const COLOR: (u8, u8, u8) = (255, 20, 140);

/// `chrono::Utc::now().timestamp()`: the seconds since the start of 1970, by
/// the clock of the machine. Nothing is claimed of the number. The call
/// does not return where the clock stands before 1970.
#[verifier::external_body]
fn unix_now() -> i64 {
    chrono::Utc::now().timestamp()
}

/// The canteen that a setting names: the setting read as a number of 8
/// bits, [`DEFAULT_CANTEEN`] where there is no setting or it is no such
/// number.
pub open spec fn canteen_of(setting: Option<Seq<char>>) -> u8 {
    match setting {
        Some(text) => match parsed_u64(text) {
            Some(id) => if id <= u8::MAX {
                id as u8
            } else {
                DEFAULT_CANTEEN
            },
            None => DEFAULT_CANTEEN,
        },
        None => DEFAULT_CANTEEN,
    }
}

/// The moment that is asked about, in milliseconds since the start of
/// 1970: `time_delay` seconds after `now`. `None` where the number does not
/// fit in 64 bits.
pub open spec fn query_time(now: i64, time_delay: i64) -> Option<i64> {
    let moment = (now + time_delay) * 1000;
    if i64::MIN <= now + time_delay <= i64::MAX && i64::MIN <= moment <= i64::MAX {
        Some(moment as i64)
    } else {
        None
    }
}

/// The seconds that lie between today and the day so many days ahead;
/// `None` where the number does not fit in 64 bits.
pub open spec fn delay_of(days_forward: i64) -> Option<i64> {
    if i64::MIN <= days_forward * DAY <= i64::MAX {
        Some((days_forward * DAY) as i64)
    } else {
        None
    }
}

/// Counts the seconds to the day so many days ahead: see [`delay_of`].
pub fn day_delay(days_forward: i64) -> (delay: Option<i64>)
    ensures
        delay == delay_of(days_forward),
{
    let seconds: i128 = days_forward as i128 * DAY as i128;
    if seconds < i64::MIN as i128 || seconds > i64::MAX as i128 {
        None
    } else {
        Some(seconds as i64)
    }
}

/// What the canteen's service is asked about a day: which canteen, and the
/// moment, written in decimal, that stands for the day.
#[derive(Clone, Debug, PartialEq, Eq)]
pub struct FoodQuery {
    pub canteen_id: u8,
    pub timestamp: String,
}

/// The view of a [`FoodQuery`].
pub struct FoodQueryView {
    pub canteen_id: u8,
    pub timestamp: Seq<char>,
}

impl DeepView for FoodQuery {
    type V = FoodQueryView;

    open spec fn deep_view(&self) -> FoodQueryView {
        FoodQueryView { canteen_id: self.canteen_id, timestamp: self.timestamp@ }
    }
}

/// The question about the meals of the moment `time_delay` seconds after
/// `now`, for the canteen that the setting names; `None` where the moment
/// cannot be written in 64 bits.
pub open spec fn food_query_of(now: i64, time_delay: i64, canteen: Option<Seq<char>>) -> Option<
    FoodQueryView,
> {
    match query_time(now, time_delay) {
        Some(moment) => Some(
            FoodQueryView {
                canteen_id: canteen_of(canteen),
                timestamp: signed_decimal(moment as int),
            },
        ),
        None => None,
    }
}

/// Makes the question about the meals of a moment: see [`food_query_of`].
pub fn food_query(now: i64, time_delay: i64, canteen: Option<&str>) -> (query: Option<FoodQuery>)
    ensures
        query.deep_view() == food_query_of(now, time_delay, canteen.deep_view()),
{
    let canteen_id: u8 = match canteen {
        Some(text) => match parse_u64(text) {
            Some(id) => if id <= 255 {
                id as u8
            } else {
                DEFAULT_CANTEEN
            },
            None => DEFAULT_CANTEEN,
        },
        None => DEFAULT_CANTEEN,
    };
    let seconds: i128 = now as i128 + time_delay as i128;
    if seconds < i64::MIN as i128 || seconds > i64::MAX as i128 {
        return None;
    }
    let moment: i128 = seconds * 1000;
    if moment < i64::MIN as i128 || moment > i64::MAX as i128 {
        return None;
    }
    Some(FoodQuery { canteen_id, timestamp: decimal_string(moment as i64) })
}

/// Makes the question about the meals of the moment `time_delay` seconds
/// from now, by the clock of the machine.
pub fn fetch_food(time_delay: i64, canteen: Option<&str>) -> (query: Option<FoodQuery>)
    ensures
        exists|now: i64| query.deep_view() == food_query_of(now, time_delay, canteen.deep_view()),
{
    let now = unix_now();
    food_query(now, time_delay, canteen)
}

/// The number of a meal as the service is asked for it: the low 32 bits of
/// the number that the service gave, 0 where it gave none.
pub fn food_id(id: Option<u64>) -> (number: u32)
    ensures
        number == match id {
            Some(n) => n % 0x1_0000_0000,
            None => 0,
        },
{
    match id {
        Some(n) => (n % 0x1_0000_0000) as u32,
        None => 0,
    }
}

/// The picture of a meal among those that the service gave, each as the
/// JSON text of its address: the first, or the empty text where the service
/// gave none.
pub fn fetch_food_image(photos: &Vec<String>) -> (address: String)
    ensures
        address@ == if photos.len() > 0 {
            photos[0]@
        } else {
            Seq::<char>::empty()
        },
{
    if photos.len() > 0 {
        photos[0].clone()
    } else {
        String::new()
    }
}

/// A meal as the service describes it, each part in the JSON text in which
/// the service gave it.
#[derive(Clone, Debug, PartialEq, Eq)]
pub struct Food {
    /// The name, in quotes.
    pub name: String,
    /// The average rating: a number, or `null`.
    pub rating: String,
    /// The address of the meal's picture, in quotes; empty where the meal
    /// has no picture.
    pub image_url: String,
}

/// The view of a [`Food`].
pub struct FoodView {
    pub name: Seq<char>,
    pub rating: Seq<char>,
    pub image_url: Seq<char>,
}

impl DeepView for Food {
    type V = FoodView;

    open spec fn deep_view(&self) -> FoodView {
        FoodView { name: self.name@, rating: self.rating@, image_url: self.image_url@ }
    }
}

/// How a day is called that lies so many days ahead.
pub open spec fn date_label(days_forward: i64) -> Seq<char> {
    if days_forward == 0 {
        "Dnes"@
    } else if days_forward == 1 {
        "Zítra"@
    } else if 2 <= days_forward <= 4 {
        "Za "@ + signed_decimal(days_forward as int) + " dny"@
    } else {
        "Za "@ + signed_decimal(days_forward as int) + " dnů"@
    }
}

/// Names a day: see [`date_label`].
pub fn day_name(days_forward: i64) -> (label: String)
    ensures
        label@ == date_label(days_forward),
{
    if days_forward == 0 {
        "Dnes".to_owned()
    } else if days_forward == 1 {
        "Zítra".to_owned()
    } else {
        let mut label = "Za ".to_owned();
        label.append(decimal_string(days_forward).as_str());
        if 2 <= days_forward && days_forward <= 4 {
            label.append(" dny");
        } else {
            label.append(" dnů");
        }
        label
    }
}

/// A text without its first and its last character; empty where it has
/// fewer than two.
pub open spec fn unquoted(text: Seq<char>) -> Seq<char> {
    if text.len() >= 2 {
        text.subrange(1, text.len() - 1)
    } else {
        Seq::empty()
    }
}

/// Takes the quotes off a text: see [`unquoted`].
pub fn unquote(text: &str) -> (inner: String)
    ensures
        inner@ == unquoted(text@),
{
    let chars = chars_of(text);
    if chars.len() >= 2 {
        string_from(&chars, 1, chars.len() - 1)
    } else {
        String::new()
    }
}

/// The rating as it is shown: the words of [`NO_RATING`] for `null`.
pub open spec fn shown_rating(rating: Seq<char>) -> Seq<char> {
    if rating == "null"@ {
        NO_RATING@
    } else {
        rating
    }
}

/// The embed of the meal that is the `number`th of its day.
pub open spec fn lunch_embed(days_forward: i64, number: nat, food: FoodView) -> EmbedView {
    EmbedView {
        author: Some(
            ("Oběd "@ + decimal(number) + " · "@ + date_label(days_forward), SCHOOL_ICON@),
        ),
        description: Some("# "@ + without(food.name, '"')),
        thumbnail: Some(unquoted(food.image_url)),
        color: Some(COLOR),
        footer: Some((shown_rating(food.rating), STAR_ICON@)),
        ..EmbedView::empty()
    }
}

/// Makes the embed of one meal: see [`lunch_embed`].
fn embed_of(days_forward: i64, number: u64, food: &Food) -> (embed: Embed)
    ensures
        embed.deep_view() == lunch_embed(days_forward, number as nat, food.deep_view()),
{
    let mut heading = "Oběd ".to_owned();
    heading.append(decimal_of(number).as_str());
    heading.append(" · ");
    heading.append(day_name(days_forward).as_str());
    let mut description = "# ".to_owned();
    description.append(remove_char(food.name.as_str(), '"').as_str());
    let rating = if str_eq(food.rating.as_str(), "null") {
        NO_RATING.to_owned()
    } else {
        food.rating.clone()
    };
    let embed = Embed {
        title: None,
        description: Some(description),
        author: Some((heading, SCHOOL_ICON.to_owned())),
        thumbnail: Some(unquote(food.image_url.as_str())),
        image: None,
        color: Some(COLOR),
        footer: Some((rating, STAR_ICON.to_owned())),
        fields: Vec::new(),
    };
    assert(embed.fields.deep_view() =~= Seq::empty());
    embed
}

/// What the canteen command answers for a day: one embed per meal, in the
/// order of the service and numbered from 1; the words of [`NO_LUNCHES`]
/// where the service knows of no meals that day.
pub open spec fn lunch_embeds(days_forward: i64, foods: Option<Seq<FoodView>>) -> Result<
    Seq<EmbedView>,
    Seq<char>,
> {
    match foods {
        Some(meals) => Ok(
            Seq::new(meals.len(), |i: int| lunch_embed(days_forward, (i + 1) as nat, meals[i])),
        ),
        None => Err(NO_LUNCHES@),
    }
}

/// Makes the answer of the canteen command from the meals that the service
/// gave for the day, `None` where it gave no offer: see [`lunch_embeds`].
pub fn get_lunch_embed(days_forward: i64, foods: Option<&Vec<Food>>) -> (embeds: Result<
    Vec<Embed>,
    String,
>)
    ensures
        match embeds {
            Ok(made) => lunch_embeds(days_forward, foods.deep_view()) == Ok::<
                Seq<EmbedView>,
                Seq<char>,
            >(made.deep_view()),
            Err(why) => lunch_embeds(days_forward, foods.deep_view()) == Err::<
                Seq<EmbedView>,
                Seq<char>,
            >(why@),
        },
{
    match foods {
        Some(meals) => {
            let mut embeds: Vec<Embed> = Vec::new();
            let mut i: usize = 0;
            while i < meals.len()
                invariant
                    i <= meals.len(),
                    embeds.deep_view() == Seq::new(
                        i as nat,
                        |k: int| lunch_embed(days_forward, (k + 1) as nat, meals.deep_view()[k]),
                    ),
                decreases meals.len() - i,
            {
                let ghost before = embeds.deep_view();
                let embed = embed_of(days_forward, i as u64 + 1, &meals[i]);
                let ghost added = embed.deep_view();
                embeds.push(embed);
                assert(embeds.deep_view() =~= before.push(added));
                i += 1;
                assert(embeds.deep_view() =~= Seq::new(
                    i as nat,
                    |k: int| lunch_embed(days_forward, (k + 1) as nat, meals.deep_view()[k]),
                ));
            }
            assert(embeds.deep_view() =~= Seq::new(
                meals.deep_view().len(),
                |k: int| lunch_embed(days_forward, (k + 1) as nat, meals.deep_view()[k]),
            ));
            Ok(embeds)
        },
        None => Err(NO_LUNCHES.to_owned()),
    }
}

} // verus!
