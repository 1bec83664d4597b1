use crate::query::QueryName;
use crate::text::same_text;
use vstd::prelude::*;

verus! {

/// A text that holds HTML.
#[derive(Debug)]
pub struct Html(pub String);

impl Clone for Html {
    fn clone(&self) -> (r: Self)
        ensures
            r == *self,
    {
        Html(self.0.clone())
    }
}

impl Html {
    /// The text itself.
    pub fn as_str(&self) -> (r: &str)
        ensures
            r@ == self.0@,
    {
        self.0.as_str()
    }
}

/// How much of one category a user has seen.
#[derive(Debug)]
pub struct UserCategoryStat {
    pub route: String,
    pub name: String,
    pub amount: u64,
}

impl Clone for UserCategoryStat {
    fn clone(&self) -> (r: Self)
        ensures
            r == *self,
    {
        UserCategoryStat { route: self.route.clone(), name: self.name.clone(), amount: self.amount }
    }
}

/// The airing status to filter anime by.
#[derive(Debug, Clone, Copy, PartialEq, Eq, Structural)]
pub enum AirStatusQuery {
    Upcoming,
    Ongoing,
    Finished,
}

impl AirStatusQuery {
    /// The name of the variant, as text.
    pub open spec fn name(self) -> Seq<char> {
        match self {
            AirStatusQuery::Upcoming => "Upcoming"@,
            AirStatusQuery::Ongoing => "Ongoing"@,
            AirStatusQuery::Finished => "Finished"@,
        }
    }

    /// The name of the variant, as text.
    pub fn as_str(&self) -> (r: &'static str)
        ensures
            r@ == self.name(),
    {
        match self {
            AirStatusQuery::Upcoming => "Upcoming",
            AirStatusQuery::Ongoing => "Ongoing",
            AirStatusQuery::Finished => "Finished",
        }
    }
}

/// The streaming service to filter anime by.
#[derive(Debug, Clone, Copy, PartialEq, Eq, Structural)]
pub enum StreamsQuery {
    Crunchyroll,
    Funimation,
    Wakanim,
    Amazon,
    Hidive,
    Hulu,
    Youtube,
    Netflix,
}

impl StreamsQuery {
    /// The name of the variant, as text.
    pub open spec fn name(self) -> Seq<char> {
        match self {
            StreamsQuery::Crunchyroll => "Crunchyroll"@,
            StreamsQuery::Funimation => "Funimation"@,
            StreamsQuery::Wakanim => "Wakanim"@,
            StreamsQuery::Amazon => "Amazon"@,
            StreamsQuery::Hidive => "Hidive"@,
            StreamsQuery::Hulu => "Hulu"@,
            StreamsQuery::Youtube => "Youtube"@,
            StreamsQuery::Netflix => "Netflix"@,
        }
    }

    /// The name of the variant, as text.
    pub fn as_str(&self) -> (r: &'static str)
        ensures
            r@ == self.name(),
    {
        match self {
            StreamsQuery::Crunchyroll => "Crunchyroll",
            StreamsQuery::Funimation => "Funimation",
            StreamsQuery::Wakanim => "Wakanim",
            StreamsQuery::Amazon => "Amazon",
            StreamsQuery::Hidive => "Hidive",
            StreamsQuery::Hulu => "Hulu",
            StreamsQuery::Youtube => "Youtube",
            StreamsQuery::Netflix => "Netflix",
        }
    }
}

/// The kind of release that a timetable is asked for.
#[derive(Debug, Clone, Copy, PartialEq, Eq, Structural)]
pub enum AirTypeQuery {
    Raw,
    Sub,
    Dub,
    All,
}

impl AirTypeQuery {
    /// The name of the variant, as text.
    pub open spec fn name(self) -> Seq<char> {
        match self {
            AirTypeQuery::Raw => "raw"@,
            AirTypeQuery::Sub => "sub"@,
            AirTypeQuery::Dub => "dub"@,
            AirTypeQuery::All => "all"@,
        }
    }

    /// The name of the variant, as text.
    pub fn as_str(&self) -> (r: &'static str)
        ensures
            r@ == self.name(),
    {
        match self {
            AirTypeQuery::Raw => "raw",
            AirTypeQuery::Sub => "sub",
            AirTypeQuery::Dub => "dub",
            AirTypeQuery::All => "all",
        }
    }
}

/// Whether anime have to match any of the filters or all of them.
#[derive(Debug, Clone, Copy, PartialEq, Eq, Structural)]
pub enum MatchType {
    Any,
    All,
}

impl MatchType {
    /// The name of the variant, as text.
    pub open spec fn name(self) -> Seq<char> {
        match self {
            MatchType::Any => "Any"@,
            MatchType::All => "All"@,
        }
    }

    /// The name of the variant, as text.
    pub fn as_str(&self) -> (r: &'static str)
        ensures
            r@ == self.name(),
    {
        match self {
            MatchType::Any => "Any",
            MatchType::All => "All",
        }
    }
}

impl Default for MatchType {
    fn default() -> (r: Self)
        ensures
            r == MatchType::All,
    {
        MatchType::All
    }
}

/// The order in which anime are listed.
#[derive(Debug, Clone, Copy, PartialEq, Eq, Structural)]
pub enum SortingType {
    Popularity,
    Score,
    Alphabetic,
    ReleaseDate,
}

impl SortingType {
    /// The name of the variant, as text.
    pub open spec fn name(self) -> Seq<char> {
        match self {
            SortingType::Popularity => "Popularity"@,
            SortingType::Score => "Score"@,
            SortingType::Alphabetic => "Alphabetic"@,
            SortingType::ReleaseDate => "ReleaseDate"@,
        }
    }

    /// The name of the variant, as text.
    pub fn as_str(&self) -> (r: &'static str)
        ensures
            r@ == self.name(),
    {
        match self {
            SortingType::Popularity => "Popularity",
            SortingType::Score => "Score",
            SortingType::Alphabetic => "Alphabetic",
            SortingType::ReleaseDate => "ReleaseDate",
        }
    }
}

impl Default for SortingType {
    fn default() -> (r: Self)
        ensures
            r == SortingType::Popularity,
    {
        SortingType::Popularity
    }
}

/// The calendar season to filter anime by.
#[derive(Debug, Clone, Copy, PartialEq, Eq, Structural)]
pub enum SeasonQuery {
    Spring,
    Summer,
    Fall,
    Winter,
}

impl SeasonQuery {
    /// The name of the variant, as text.
    pub open spec fn name(self) -> Seq<char> {
        match self {
            SeasonQuery::Spring => "Spring"@,
            SeasonQuery::Summer => "Summer"@,
            SeasonQuery::Fall => "Fall"@,
            SeasonQuery::Winter => "Winter"@,
        }
    }

    /// The name of the variant, as text.
    pub fn as_str(&self) -> (r: &'static str)
        ensures
            r@ == self.name(),
    {
        match self {
            SeasonQuery::Spring => "Spring",
            SeasonQuery::Summer => "Summer",
            SeasonQuery::Fall => "Fall",
            SeasonQuery::Winter => "Winter",
        }
    }
}

/// The list that an anime is on.
#[derive(Debug, Clone, Copy, PartialEq, Eq, Structural)]
pub enum ListStatus {
    Completed,
    Watching,
    OnHold,
    Dropped,
    ToWatch,
}

impl ListStatus {
    /// The name of the variant, as text.
    pub open spec fn name(self) -> Seq<char> {
        match self {
            ListStatus::Completed => "Completed"@,
            ListStatus::Watching => "Watching"@,
            ListStatus::OnHold => "OnHold"@,
            ListStatus::Dropped => "Dropped"@,
            ListStatus::ToWatch => "ToWatch"@,
        }
    }

    /// The name of the variant, as text.
    pub fn as_str(&self) -> (r: &'static str)
        ensures
            r@ == self.name(),
    {
        match self {
            ListStatus::Completed => "Completed",
            ListStatus::Watching => "Watching",
            ListStatus::OnHold => "OnHold",
            ListStatus::Dropped => "Dropped",
            ListStatus::ToWatch => "ToWatch",
        }
    }
}

impl QueryName for AirStatusQuery {
    open spec fn query_name(&self) -> Seq<char> {
        match self {
            AirStatusQuery::Upcoming => "upcoming"@,
            AirStatusQuery::Ongoing => "ongoing"@,
            AirStatusQuery::Finished => "finished"@,
        }
    }

    fn as_query(&self) -> (r: &'static str) {
        match self {
            AirStatusQuery::Upcoming => "upcoming",
            AirStatusQuery::Ongoing => "ongoing",
            AirStatusQuery::Finished => "finished",
        }
    }
}

impl QueryName for StreamsQuery {
    open spec fn query_name(&self) -> Seq<char> {
        match self {
            StreamsQuery::Crunchyroll => "crunchyroll"@,
            StreamsQuery::Funimation => "funimation"@,
            StreamsQuery::Wakanim => "wakanim"@,
            StreamsQuery::Amazon => "amazon"@,
            StreamsQuery::Hidive => "hidive"@,
            StreamsQuery::Hulu => "hulu"@,
            StreamsQuery::Youtube => "youtube"@,
            StreamsQuery::Netflix => "netflix"@,
        }
    }

    fn as_query(&self) -> (r: &'static str) {
        match self {
            StreamsQuery::Crunchyroll => "crunchyroll",
            StreamsQuery::Funimation => "funimation",
            StreamsQuery::Wakanim => "wakanim",
            StreamsQuery::Amazon => "amazon",
            StreamsQuery::Hidive => "hidive",
            StreamsQuery::Hulu => "hulu",
            StreamsQuery::Youtube => "youtube",
            StreamsQuery::Netflix => "netflix",
        }
    }
}

impl QueryName for MatchType {
    open spec fn query_name(&self) -> Seq<char> {
        match self {
            MatchType::Any => "any"@,
            MatchType::All => "all"@,
        }
    }

    fn as_query(&self) -> (r: &'static str) {
        match self {
            MatchType::Any => "any",
            MatchType::All => "all",
        }
    }
}

impl QueryName for SortingType {
    open spec fn query_name(&self) -> Seq<char> {
        match self {
            SortingType::Popularity => "popularity"@,
            SortingType::Score => "score"@,
            SortingType::Alphabetic => "alphabetic"@,
            SortingType::ReleaseDate => "releaseDate"@,
        }
    }

    fn as_query(&self) -> (r: &'static str) {
        match self {
            SortingType::Popularity => "popularity",
            SortingType::Score => "score",
            SortingType::Alphabetic => "alphabetic",
            SortingType::ReleaseDate => "releaseDate",
        }
    }
}

impl QueryName for SeasonQuery {
    open spec fn query_name(&self) -> Seq<char> {
        match self {
            SeasonQuery::Spring => "spring"@,
            SeasonQuery::Summer => "summer"@,
            SeasonQuery::Fall => "fall"@,
            SeasonQuery::Winter => "winter"@,
        }
    }

    fn as_query(&self) -> (r: &'static str) {
        match self {
            SeasonQuery::Spring => "spring",
            SeasonQuery::Summer => "summer",
            SeasonQuery::Fall => "fall",
            SeasonQuery::Winter => "winter",
        }
    }
}

/// What a put is to do besides storing what it carries.
#[non_exhaustive]
#[derive(Debug, Clone, Copy, PartialEq, Eq, Structural)]
pub enum Action {
    DeleteNode,
}

/// One automatic score: what it means and what it is worth.
#[derive(Debug)]
pub struct AutoScore {
    /// The score's text or meaning.
    pub score_text: String,
    /// The score's value, from 0 to 100.
    pub score: u8,
}

impl Clone for AutoScore {
    fn clone(&self) -> (r: Self)
        ensures
            r == *self,
    {
        AutoScore { score_text: self.score_text.clone(), score: self.score }
    }
}

/// The four automatic scores of an anime on a list.
#[derive(Debug)]
pub struct AutoScores {
    pub score_one: AutoScore,
    pub score_two: AutoScore,
    pub score_three: AutoScore,
    pub score_four: AutoScore,
}

impl Clone for AutoScores {
    fn clone(&self) -> (r: Self)
        ensures
            r == *self,
    {
        AutoScores {
            score_one: self.score_one.clone(),
            score_two: self.score_two.clone(),
            score_three: self.score_three.clone(),
            score_four: self.score_four.clone(),
        }
    }
}

/// The offset of Japan from UTC, in seconds.
pub const JAPAN_OFFSET: i32 = 32400;

/// What the API writes where it has no date.
pub const NO_DATE: &'static str = "0001-01-01T00:00:00Z";

/// An instant with the offset from UTC that it is to be shown in: the seconds
/// since the Unix epoch, the nanoseconds into that second, and the offset in
/// seconds, east of UTC being positive.
#[derive(Debug, Clone, Copy, PartialEq, Eq, Structural)]
pub struct FixedDateTime {
    pub timestamp: i64,
    pub nanoseconds: u32,
    pub offset: i32,
}

impl FixedDateTime {
    /// The same instant, shown in Japan's offset.
    pub fn in_japan(self) -> (r: Self)
        ensures
            r == (FixedDateTime { offset: JAPAN_OFFSET, ..self }),
    {
        FixedDateTime {
            timestamp: self.timestamp,
            nanoseconds: self.nanoseconds,
            offset: JAPAN_OFFSET,
        }
    }
}

/// The error of `chrono`'s parsers, carried through unread.
#[verifier::external_type_specification]
#[verifier::external_body]
pub struct ExDateParseError(chrono::ParseError);

/// What `chrono` reads out of a text as an RFC 3339 date and time, for the
/// texts that are one.
pub uninterp spec fn rfc3339_reading(text: Seq<char>) -> Option<FixedDateTime>;

/// What `chrono` reads out of a text as a date and time in UTC, for the texts
/// that are one.
pub uninterp spec fn utc_reading(text: Seq<char>) -> Option<FixedDateTime>;

/// `chrono::DateTime::parse_from_rfc3339`, with the instant and its offset
/// taken out as numbers.
#[verifier::external_body]
fn read_rfc3339(text: &str) -> (r: Result<FixedDateTime, chrono::ParseError>)
    ensures
        r is Ok <==> rfc3339_reading(text@) is Some,
        r matches Ok(t) ==> rfc3339_reading(text@) == Some(t),
{
    match chrono::DateTime::parse_from_rfc3339(text) {
        Ok(t) => Ok(
            FixedDateTime {
                timestamp: t.timestamp(),
                nanoseconds: t.timestamp_subsec_nanos(),
                offset: t.offset().local_minus_utc(),
            },
        ),
        Err(e) => Err(e),
    }
}

/// `str::parse` into `chrono::DateTime<chrono::Utc>`, with the instant and
/// its offset taken out as numbers; the offset of a time in UTC is 0.
#[verifier::external_body]
fn read_utc(text: &str) -> (r: Result<FixedDateTime, chrono::ParseError>)
    ensures
        r is Ok <==> utc_reading(text@) is Some,
        r matches Ok(t) ==> utc_reading(text@) == Some(t) && t.offset == 0,
{
    match text.parse::<chrono::DateTime<chrono::Utc>>() {
        Ok(t) => Ok(
            FixedDateTime {
                timestamp: t.timestamp(),
                nanoseconds: t.timestamp_subsec_nanos(),
                offset: chrono::Offset::fix(t.offset()).local_minus_utc(),
            },
        ),
        Err(e) => Err(e),
    }
}

/// Reads a date that may be missing: the API writes `0001-01-01T00:00:00Z`
/// for no date, and an RFC 3339 date and time for every other.
pub fn datetime_opt(text: &str) -> (r: Result<Option<FixedDateTime>, chrono::ParseError>)
    ensures
        text@ == NO_DATE@ ==> r matches Ok(None),
        text@ != NO_DATE@ ==> (r is Ok <==> rfc3339_reading(text@) is Some),
        text@ != NO_DATE@ ==> (r matches Ok(t) ==> t == rfc3339_reading(text@)),
{
    if same_text(text, NO_DATE) {
        return Ok(None);
    }
    match read_rfc3339(text) {
        Ok(t) => Ok(Some(t)),
        Err(e) => Err(e),
    }
}

/// Reads a date and time in UTC and shows it in Japan's offset.
pub fn jpn_datetime(text: &str) -> (r: Result<FixedDateTime, chrono::ParseError>)
    ensures
        r is Ok <==> utc_reading(text@) is Some,
        r matches Ok(t) ==> Some(FixedDateTime { offset: 0, ..t }) == utc_reading(text@) && t.offset
            == JAPAN_OFFSET,
{
    match read_utc(text) {
        Ok(t) => Ok(t.in_japan()),
        Err(e) => Err(e),
    }
}

/// Reads a date and time in UTC that is always there, and shows it in Japan's
/// offset.
pub fn jpn_datetime_opt(text: &str) -> (r: Result<Option<FixedDateTime>, chrono::ParseError>)
    ensures
        r is Ok <==> utc_reading(text@) is Some,
        r matches Ok(o) ==> o matches Some(t) && Some(FixedDateTime { offset: 0, ..t })
            == utc_reading(text@) && t.offset == JAPAN_OFFSET,
{
    match jpn_datetime(text) {
        Ok(t) => Ok(Some(t)),
        Err(e) => Err(e),
    }
}

/// What a put changes of an anime on a list; what is `None` stays as it is.
#[derive(Debug)]
pub struct ListAnimePut {
    /// The list that the anime is on.
    pub list_status: Option<ListStatus>,
    /// How many episodes were seen.
    pub episodes_seen: Option<u64>,
    /// The score that the user gave, from 0 to 100.
    pub manual_score: Option<u8>,
    /// Whether the score is worked out from the automatic scores.
    pub use_auto_scores: Option<bool>,
    pub auto_scores: Option<AutoScores>,
    /// When watching began.
    pub start_date: Option<FixedDateTime>,
    /// When watching ended.
    pub end_date: Option<FixedDateTime>,
    /// The user's note, of 1000 bytes at most.
    pub note: Option<String>,
    /// What the put is to do besides.
    pub action: Option<Action>,
}

impl Default for ListAnimePut {
    fn default() -> (r: Self)
        ensures
            r == ListAnimePut::empty(),
    {
        ListAnimePut {
            list_status: None,
            episodes_seen: None,
            manual_score: None,
            use_auto_scores: None,
            auto_scores: None,
            start_date: None,
            end_date: None,
            note: None,
            action: None,
        }
    }
}

impl ListAnimePut {
    /// The put that changes nothing.
    pub open spec fn empty() -> ListAnimePut {
        ListAnimePut {
            list_status: None,
            episodes_seen: None,
            manual_score: None,
            use_auto_scores: None,
            auto_scores: None,
            start_date: None,
            end_date: None,
            note: None,
            action: None,
        }
    }
}

} // verus!
