use animeschedule::query::QueryName;
use animeschedule::objects::{
    datetime_opt, jpn_datetime, jpn_datetime_opt, AirStatusQuery, FixedDateTime, Html,
    ListAnimePut, ListStatus, MatchType, SeasonQuery, SortingType, StreamsQuery, UserCategoryStat,
};

#[test]
fn the_sentinel_date_is_no_date() {
    assert_eq!(datetime_opt("0001-01-01T00:00:00Z").unwrap(), None);
}

#[test]
fn dates_keep_their_offset() {
    let read = datetime_opt("2024-03-01T12:30:00+02:00").unwrap().unwrap();
    assert_eq!(read, FixedDateTime { timestamp: 1_709_289_000, nanoseconds: 0, offset: 7200 });
    let read = datetime_opt("1970-01-01T00:00:01.5Z").unwrap().unwrap();
    assert_eq!(read, FixedDateTime { timestamp: 1, nanoseconds: 500_000_000, offset: 0 });
    let read = datetime_opt("0001-01-01T00:00:01Z").unwrap().unwrap();
    assert_eq!(read.offset, 0);
    assert!(read.timestamp < 0);
}

#[test]
fn what_is_no_date_is_an_error() {
    assert!(datetime_opt("").is_err());
    assert!(datetime_opt("yesterday").is_err());
    assert!(datetime_opt("2024-03-01").is_err());
    assert!(jpn_datetime("").is_err());
    assert!(jpn_datetime("soon").is_err());
    assert!(jpn_datetime_opt("soon").is_err());
}

#[test]
fn japanese_dates_are_shown_nine_hours_east() {
    let read = jpn_datetime("2024-03-01T12:30:00Z").unwrap();
    assert_eq!(read, FixedDateTime { timestamp: 1_709_296_200, nanoseconds: 0, offset: 32400 });
    // the instant is what was written, whatever offset it was written in
    let read = jpn_datetime("2024-03-01T14:30:00+02:00").unwrap();
    assert_eq!(read, FixedDateTime { timestamp: 1_709_296_200, nanoseconds: 0, offset: 32400 });
    assert_eq!(jpn_datetime_opt("2024-03-01T12:30:00Z").unwrap(), Some(read));
    // here the sentinel is a date like any other
    let read = jpn_datetime_opt("0001-01-01T00:00:00Z").unwrap().unwrap();
    assert_eq!(read.offset, 32400);
    let there = FixedDateTime { timestamp: 5, nanoseconds: 6, offset: -60 }.in_japan();
    assert_eq!(there, FixedDateTime { timestamp: 5, nanoseconds: 6, offset: 32400 });
}

#[test]
fn variants_have_names() {
    assert_eq!(AirStatusQuery::Upcoming.as_str(), "Upcoming");
    assert_eq!(AirStatusQuery::Ongoing.as_str(), "Ongoing");
    assert_eq!(AirStatusQuery::Finished.as_str(), "Finished");
    assert_eq!(StreamsQuery::Crunchyroll.as_str(), "Crunchyroll");
    assert_eq!(StreamsQuery::Netflix.as_str(), "Netflix");
    assert_eq!(MatchType::Any.as_str(), "Any");
    assert_eq!(MatchType::All.as_str(), "All");
    assert_eq!(SortingType::ReleaseDate.as_str(), "ReleaseDate");
    assert_eq!(SeasonQuery::Fall.as_str(), "Fall");
    assert_eq!(ListStatus::OnHold.as_str(), "OnHold");
    assert_eq!(ListStatus::ToWatch.as_str(), "ToWatch");
}

#[test]
fn variants_have_query_names() {
    assert_eq!(AirStatusQuery::Upcoming.as_query(), "upcoming");
    assert_eq!(AirStatusQuery::Ongoing.as_query(), "ongoing");
    assert_eq!(AirStatusQuery::Finished.as_query(), "finished");
    assert_eq!(StreamsQuery::Crunchyroll.as_query(), "crunchyroll");
    assert_eq!(StreamsQuery::Funimation.as_query(), "funimation");
    assert_eq!(StreamsQuery::Wakanim.as_query(), "wakanim");
    assert_eq!(StreamsQuery::Amazon.as_query(), "amazon");
    assert_eq!(StreamsQuery::Hidive.as_query(), "hidive");
    assert_eq!(StreamsQuery::Hulu.as_query(), "hulu");
    assert_eq!(StreamsQuery::Youtube.as_query(), "youtube");
    assert_eq!(StreamsQuery::Netflix.as_query(), "netflix");
    assert_eq!(MatchType::Any.as_query(), "any");
    assert_eq!(MatchType::All.as_query(), "all");
    assert_eq!(SortingType::Popularity.as_query(), "popularity");
    assert_eq!(SortingType::Score.as_query(), "score");
    assert_eq!(SortingType::Alphabetic.as_query(), "alphabetic");
    assert_eq!(SortingType::ReleaseDate.as_query(), "releaseDate");
    assert_eq!(SeasonQuery::Spring.as_query(), "spring");
    assert_eq!(SeasonQuery::Summer.as_query(), "summer");
    assert_eq!(SeasonQuery::Fall.as_query(), "fall");
    assert_eq!(SeasonQuery::Winter.as_query(), "winter");
}

#[test]
fn defaults() {
    assert_eq!(MatchType::default(), MatchType::All);
    assert_eq!(SortingType::default(), SortingType::Popularity);
    let put = ListAnimePut::default();
    assert!(put.list_status.is_none() && put.episodes_seen.is_none());
    assert!(put.manual_score.is_none() && put.use_auto_scores.is_none());
    assert!(put.auto_scores.is_none() && put.start_date.is_none() && put.end_date.is_none());
    assert!(put.note.is_none() && put.action.is_none());
}

#[test]
fn plain_objects_clone() {
    let html = Html("<b>bold</b>".to_string());
    assert_eq!(html.clone().as_str(), "<b>bold</b>");
    let stat = UserCategoryStat { route: "action".to_string(), name: "Action".to_string(), amount: 3 };
    let copy = stat.clone();
    assert_eq!((copy.route, copy.name, copy.amount), ("action".to_string(), "Action".to_string(), 3));
}
