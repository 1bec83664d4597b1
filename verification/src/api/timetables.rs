use crate::api::API_TIMETABLES;
use crate::api_request::{is_prepared, ApiRequest, RequestMethod};
use crate::auth::Auth;
use crate::errors::ApiError;
use crate::objects::AirTypeQuery;
use crate::query::{
    copy_text, numeral_u16, one, params_view, push_one, query_text, text_view, write_number_u16,
    write_query, QueryParam, QueryParamView,
};
use crate::text::join3;
use vstd::prelude::*;

verus! {

/// The timetable part of the API.
pub struct TimetablesApi {}

impl TimetablesApi {
    /// This part of the API.
    pub fn new() -> Self {
        TimetablesApi {}
    }

    /// The timetable of the present week, for every kind of release, in the
    /// API's own time zone.
    pub fn get(&self) -> (r: TimetablesGet)
        ensures
            r == TimetablesGet::this_week(),
    {
        TimetablesGet { air_type: None, week: None, year: None, tz: None }
    }
}

/// The timetable of one week. What is `None` is left to the API's default.
pub struct TimetablesGet {
    /// The kind of release.
    pub air_type: Option<AirTypeQuery>,
    /// The week's number in its year; goes with `year`.
    pub week: Option<u16>,
    /// The year that the week is in; goes with `week`.
    pub year: Option<u16>,
    /// The time zone to show the times in, by its name.
    pub tz: Option<String>,
}

impl TimetablesGet {
    /// The timetable that nothing has been set for.
    pub open spec fn this_week() -> TimetablesGet {
        TimetablesGet { air_type: None, week: None, year: None, tz: None }
    }

    /// Where the timetable is, without what narrows it: under the name of
    /// the kind of release, if one is set, below the timetables.
    pub open spec fn place(self) -> Seq<char> {
        match self.air_type {
            Some(air_type) => API_TIMETABLES@ + "/"@ + air_type.name(),
            None => API_TIMETABLES@,
        }
    }

    /// Where the timetable is: its place, with the query behind a question
    /// mark, which is there even where nothing is set.
    pub open spec fn url(self) -> Seq<char> {
        self.place() + "?"@ + query_text(self.query_model())
    }

    /// Sets the kind of release.
    pub fn air_type(self, air_type: AirTypeQuery) -> (r: Self)
        ensures
            r == (TimetablesGet { air_type: Some(air_type), ..self }),
    {
        let mut out = self;
        out.air_type = Some(air_type);
        out
    }

    /// Sets the week's number in its year.
    pub fn week(self, week: u16) -> (r: Self)
        ensures
            r == (TimetablesGet { week: Some(week), ..self }),
    {
        let mut out = self;
        out.week = Some(week);
        out
    }

    /// Sets the year that the week is in.
    pub fn year(self, year: u16) -> (r: Self)
        ensures
            r == (TimetablesGet { year: Some(year), ..self }),
    {
        let mut out = self;
        out.year = Some(year);
        out
    }

    /// Sets the time zone to show the times in.
    pub fn tz(self, tz: &str) -> (r: Self)
        ensures
            r == (TimetablesGet { tz: r.tz, ..self }),
            r.tz is Some && r.tz->Some_0@ == tz@,
    {
        let mut out = self;
        out.tz = Some(tz.to_owned());
        out
    }

    /// The query of the timetable: week, year and time zone, as far as they are set.
    pub open spec fn query_model(self) -> Seq<QueryParamView> {
        Seq::<QueryParamView>::empty()
            + one("week"@, numeral_u16(self.week))
            + one("year"@, numeral_u16(self.year))
            + one("tz"@, text_view(self.tz))
    }

    /// The query of the timetable: week, year and time zone, as far as they are set.
    pub fn query(&self) -> (r: Vec<QueryParam>)
        ensures
            params_view(r@) == self.query_model(),
    {
        let mut params: Vec<QueryParam> = Vec::new();
        assert(params_view(params@) =~= Seq::<QueryParamView>::empty());
        push_one(&mut params, "week", write_number_u16(self.week));
        push_one(&mut params, "year", write_number_u16(self.year));
        push_one(&mut params, "tz", copy_text(&self.tz));
        params
    }

    /// Gets the call for the timetable ready, with week, year and time zone
    /// as its query. The call acts for the application.
    pub fn send(&self, auth: &Auth) -> (r: Result<ApiRequest, ApiError>)
        ensures
            is_prepared(r, auth@, RequestMethod::Get, self.url(), false),
    {
        let place = match self.air_type {
            Some(air_type) => join3(API_TIMETABLES, "/", air_type.as_str()),
            None => API_TIMETABLES.to_owned(),
        };
        let query = write_query(&self.query());
        ApiRequest::get(auth, join3(place.as_str(), "?", query.as_str()), false)
    }
}

} // verus!
