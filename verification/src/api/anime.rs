use crate::api::API_ANIME;
use crate::api_request::{is_prepared, ApiRequest, RequestMethod};
use crate::auth::Auth;
use crate::errors::ApiError;
use crate::objects::{AirStatusQuery, MatchType, SeasonQuery, SortingType, StreamsQuery};
use crate::query::{
    copy_text, copy_texts, list_view, many, name_of, names_of, numeral, numerals_u16,
    numerals_u64, one, params_view, push_many, push_one, text_view, write_name, write_names,
    query_text, write_number, write_numbers_u16, write_numbers_u64, write_query, QueryParam,
    QueryParamView,
};
use crate::text::{join3, truncate_text, truncated};
use vstd::prelude::*;
use vstd::utf8::encode_utf8;

verus! {

/// The most bytes of text that a listing can be filtered by.
pub const QUERY_TEXT_MAX: usize = 200;

/// The anime part of the API.
pub struct AnimeApi {}

impl AnimeApi {
    /// This part of the API.
    pub fn new() -> Self {
        AnimeApi {}
    }

    /// A listing of anime that no filter has been set for yet.
    pub fn get(&self) -> (r: AnimeGet)
        ensures
            r == AnimeGet::unfiltered(),
    {
        AnimeGet {
            page: None,
            q: None,
            mt: None,
            st: None,
            genres: None,
            genres_exclude: None,
            studios: None,
            studios_exclude: None,
            sources: None,
            sources_exclude: None,
            media_types: None,
            media_types_exclude: None,
            years: None,
            years_exclude: None,
            seasons: None,
            seasons_exclude: None,
            airing_statuses: None,
            airing_statuses_exclude: None,
            duration: None,
            episodes: None,
            streams: None,
            streams_exclude: None,
            mal_ids: None,
            anilist_ids: None,
            anidb_ids: None,
        }
    }
}

/// A listing of anime, a page at a time, with the filters that narrow it.
/// What is `None` is left to the API's default.
pub struct AnimeGet {
    /// The number of the page that is asked for, from 1.
    pub page: Option<u64>,
    /// Text to filter by, of 200 bytes at most.
    pub q: Option<String>,
    /// Whether anime have to match any of the filters or all of them.
    pub mt: Option<MatchType>,
    /// The order of the listing.
    pub st: Option<SortingType>,
    /// Genres to filter by, by slug.
    pub genres: Option<Vec<String>>,
    /// Genres to leave out, by slug.
    pub genres_exclude: Option<Vec<String>>,
    /// Studios to filter by, by slug.
    pub studios: Option<Vec<String>>,
    /// Studios to leave out, by slug.
    pub studios_exclude: Option<Vec<String>>,
    /// Sources to filter by, by slug.
    pub sources: Option<Vec<String>>,
    /// Sources to leave out, by slug.
    pub sources_exclude: Option<Vec<String>>,
    /// Media types to filter by, by slug.
    pub media_types: Option<Vec<String>>,
    /// Media types to leave out, by slug.
    pub media_types_exclude: Option<Vec<String>>,
    /// Years to filter by.
    pub years: Option<Vec<u16>>,
    /// Years to leave out.
    pub years_exclude: Option<Vec<u16>>,
    /// Calendar seasons to filter by.
    pub seasons: Option<Vec<SeasonQuery>>,
    /// Calendar seasons to leave out.
    pub seasons_exclude: Option<Vec<SeasonQuery>>,
    /// Airing statuses to filter by.
    pub airing_statuses: Option<Vec<AirStatusQuery>>,
    /// Airing statuses to leave out.
    pub airing_statuses_exclude: Option<Vec<AirStatusQuery>>,
    /// Episode duration in minutes to filter by, as a range.
    pub duration: Option<String>,
    /// Episode count to filter by, as a range.
    pub episodes: Option<String>,
    /// Streams to filter by.
    pub streams: Option<Vec<StreamsQuery>>,
    /// Streams to leave out.
    pub streams_exclude: Option<Vec<StreamsQuery>>,
    /// MyAnimeList ids to filter by.
    pub mal_ids: Option<Vec<u64>>,
    /// AniList ids to filter by.
    pub anilist_ids: Option<Vec<u64>>,
    /// AniDB ids to filter by.
    pub anidb_ids: Option<Vec<u64>>,
}

impl AnimeGet {
    /// The listing that no filter has been set for.
    pub open spec fn unfiltered() -> AnimeGet {
        AnimeGet {
            page: None,
            q: None,
            mt: None,
            st: None,
            genres: None,
            genres_exclude: None,
            studios: None,
            studios_exclude: None,
            sources: None,
            sources_exclude: None,
            media_types: None,
            media_types_exclude: None,
            years: None,
            years_exclude: None,
            seasons: None,
            seasons_exclude: None,
            airing_statuses: None,
            airing_statuses_exclude: None,
            duration: None,
            episodes: None,
            streams: None,
            streams_exclude: None,
            mal_ids: None,
            anilist_ids: None,
            anidb_ids: None,
        }
    }

    /// One anime, by its slug.
    pub fn slug(&self, slug: &str) -> (r: AnimeSlug)
        ensures
            r.slug@ == slug@,
    {
        AnimeSlug { slug: slug.to_owned() }
    }

    /// Asks for page `page`; pages count from 1, so page 0 is page 1.
    pub fn page(self, page: u64) -> (r: Self)
        ensures
            r == (AnimeGet { page: Some(if page < 1 { 1 } else { page }), ..self }),
    {
        let mut out = self;
        out.page = Some(if page < 1 { 1 } else { page });
        out
    }

    /// Filters by text: by the first 200 bytes of `q`, or as many of them as
    /// end where a character ends.
    pub fn q(self, q: &str) -> (r: Self)
        ensures
            r == (AnimeGet { q: r.q, ..self }),
            r.q is Some,
            r.q->Some_0@.is_prefix_of(q@),
            encode_utf8(r.q->Some_0@) == truncated(encode_utf8(q@), QUERY_TEXT_MAX as int),
            encode_utf8(q@).len() <= QUERY_TEXT_MAX ==> r.q->Some_0@ == q@,
    {
        let mut out = self;
        out.q = Some(truncate_text(q, QUERY_TEXT_MAX));
        out
    }

    /// Sets whether anime have to match any of the filters or all of them.
    pub fn mt(self, mt: MatchType) -> (r: Self)
        ensures
            r == (AnimeGet { mt: Some(mt), ..self }),
    {
        let mut out = self;
        out.mt = Some(mt);
        out
    }

    /// Sets the order of the listing.
    pub fn st(self, st: SortingType) -> (r: Self)
        ensures
            r == (AnimeGet { st: Some(st), ..self }),
    {
        let mut out = self;
        out.st = Some(st);
        out
    }

    /// Filters by genre, by slug.
    pub fn genres(self, genres: Vec<String>) -> (r: Self)
        ensures
            r == (AnimeGet { genres: Some(genres), ..self }),
    {
        let mut out = self;
        out.genres = Some(genres);
        out
    }

    /// Leaves out genres, by slug.
    pub fn genres_exclude(self, genres: Vec<String>) -> (r: Self)
        ensures
            r == (AnimeGet { genres_exclude: Some(genres), ..self }),
    {
        let mut out = self;
        out.genres_exclude = Some(genres);
        out
    }

    /// Filters by studio, by slug.
    pub fn studios(self, studios: Vec<String>) -> (r: Self)
        ensures
            r == (AnimeGet { studios: Some(studios), ..self }),
    {
        let mut out = self;
        out.studios = Some(studios);
        out
    }

    /// Leaves out studios, by slug.
    pub fn studios_exclude(self, studios: Vec<String>) -> (r: Self)
        ensures
            r == (AnimeGet { studios_exclude: Some(studios), ..self }),
    {
        let mut out = self;
        out.studios_exclude = Some(studios);
        out
    }

    /// Filters by source, by slug.
    pub fn sources(self, sources: Vec<String>) -> (r: Self)
        ensures
            r == (AnimeGet { sources: Some(sources), ..self }),
    {
        let mut out = self;
        out.sources = Some(sources);
        out
    }

    /// Leaves out sources, by slug.
    pub fn sources_exclude(self, sources: Vec<String>) -> (r: Self)
        ensures
            r == (AnimeGet { sources_exclude: Some(sources), ..self }),
    {
        let mut out = self;
        out.sources_exclude = Some(sources);
        out
    }

    /// Filters by media type, by slug.
    pub fn media_types(self, media_types: Vec<String>) -> (r: Self)
        ensures
            r == (AnimeGet { media_types: Some(media_types), ..self }),
    {
        let mut out = self;
        out.media_types = Some(media_types);
        out
    }

    /// Leaves out media types, by slug.
    pub fn media_types_exclude(self, media_types: Vec<String>) -> (r: Self)
        ensures
            r == (AnimeGet { media_types_exclude: Some(media_types), ..self }),
    {
        let mut out = self;
        out.media_types_exclude = Some(media_types);
        out
    }

    /// Filters by year.
    pub fn years(self, years: Vec<u16>) -> (r: Self)
        ensures
            r == (AnimeGet { years: Some(years), ..self }),
    {
        let mut out = self;
        out.years = Some(years);
        out
    }

    /// Leaves out years.
    pub fn years_exclude(self, years: Vec<u16>) -> (r: Self)
        ensures
            r == (AnimeGet { years_exclude: Some(years), ..self }),
    {
        let mut out = self;
        out.years_exclude = Some(years);
        out
    }

    /// Filters by calendar season.
    pub fn seasons(self, seasons: Vec<SeasonQuery>) -> (r: Self)
        ensures
            r == (AnimeGet { seasons: Some(seasons), ..self }),
    {
        let mut out = self;
        out.seasons = Some(seasons);
        out
    }

    /// Leaves out calendar seasons.
    pub fn seasons_exclude(self, seasons: Vec<SeasonQuery>) -> (r: Self)
        ensures
            r == (AnimeGet { seasons_exclude: Some(seasons), ..self }),
    {
        let mut out = self;
        out.seasons_exclude = Some(seasons);
        out
    }

    /// Filters by airing status.
    pub fn airing_statuses(self, statuses: Vec<AirStatusQuery>) -> (r: Self)
        ensures
            r == (AnimeGet { airing_statuses: Some(statuses), ..self }),
    {
        let mut out = self;
        out.airing_statuses = Some(statuses);
        out
    }

    /// Leaves out airing statuses.
    pub fn airing_statuses_exclude(self, statuses: Vec<AirStatusQuery>) -> (r: Self)
        ensures
            r == (AnimeGet { airing_statuses_exclude: Some(statuses), ..self }),
    {
        let mut out = self;
        out.airing_statuses_exclude = Some(statuses);
        out
    }

    /// Filters by episode duration in minutes, given as a range.
    pub fn duration(self, duration: &str) -> (r: Self)
        ensures
            r == (AnimeGet { duration: r.duration, ..self }),
            r.duration is Some && r.duration->Some_0@ == duration@,
    {
        let mut out = self;
        out.duration = Some(duration.to_owned());
        out
    }

    /// Filters by episode count, given as a range.
    pub fn episodes(self, episodes: &str) -> (r: Self)
        ensures
            r == (AnimeGet { episodes: r.episodes, ..self }),
            r.episodes is Some && r.episodes->Some_0@ == episodes@,
    {
        let mut out = self;
        out.episodes = Some(episodes.to_owned());
        out
    }

    /// Filters by stream.
    pub fn streams(self, streams: Vec<StreamsQuery>) -> (r: Self)
        ensures
            r == (AnimeGet { streams: Some(streams), ..self }),
    {
        let mut out = self;
        out.streams = Some(streams);
        out
    }

    /// Leaves out streams.
    pub fn streams_exclude(self, streams: Vec<StreamsQuery>) -> (r: Self)
        ensures
            r == (AnimeGet { streams_exclude: Some(streams), ..self }),
    {
        let mut out = self;
        out.streams_exclude = Some(streams);
        out
    }

    /// Filters by MyAnimeList id.
    pub fn mal_ids(self, mal_ids: Vec<u64>) -> (r: Self)
        ensures
            r == (AnimeGet { mal_ids: Some(mal_ids), ..self }),
    {
        let mut out = self;
        out.mal_ids = Some(mal_ids);
        out
    }

    /// Filters by AniList id.
    pub fn anilist_ids(self, anilist_ids: Vec<u64>) -> (r: Self)
        ensures
            r == (AnimeGet { anilist_ids: Some(anilist_ids), ..self }),
    {
        let mut out = self;
        out.anilist_ids = Some(anilist_ids);
        out
    }

    /// Filters by AniDB id.
    pub fn anidb_ids(self, anidb_ids: Vec<u64>) -> (r: Self)
        ensures
            r == (AnimeGet { anidb_ids: Some(anidb_ids), ..self }),
    {
        let mut out = self;
        out.anidb_ids = Some(anidb_ids);
        out
    }

    /// The query of the listing: every filter that is set, under its name, in the order of the fields.
    pub open spec fn query_model(self) -> Seq<QueryParamView> {
        Seq::<QueryParamView>::empty()
            + one("page"@, numeral(self.page))
            + one("q"@, text_view(self.q))
            + one("mt"@, name_of(self.mt))
            + one("st"@, name_of(self.st))
            + many("genres"@, list_view(self.genres))
            + many("genres-exclude"@, list_view(self.genres_exclude))
            + many("studios"@, list_view(self.studios))
            + many("studios-exclude"@, list_view(self.studios_exclude))
            + many("sources"@, list_view(self.sources))
            + many("sources-exclude"@, list_view(self.sources_exclude))
            + many("media-types"@, list_view(self.media_types))
            + many("media-types-exclude"@, list_view(self.media_types_exclude))
            + many("years"@, numerals_u16(self.years))
            + many("years-exclude"@, numerals_u16(self.years_exclude))
            + many("seasons"@, names_of(self.seasons))
            + many("seasons-exclude"@, names_of(self.seasons_exclude))
            + many("airing-statuses"@, names_of(self.airing_statuses))
            + many("airing-statuses-exclude"@, names_of(self.airing_statuses_exclude))
            + one("duration"@, text_view(self.duration))
            + one("episodes"@, text_view(self.episodes))
            + many("streams"@, names_of(self.streams))
            + many("streams-exclude"@, names_of(self.streams_exclude))
            + many("mal-ids"@, numerals_u64(self.mal_ids))
            + many("anilist-ids"@, numerals_u64(self.anilist_ids))
            + many("anidb-ids"@, numerals_u64(self.anidb_ids))
    }

    /// The query of the listing: every filter that is set, under its name, in the order of the fields.
    pub fn query(&self) -> (r: Vec<QueryParam>)
        ensures
            params_view(r@) == self.query_model(),
    {
        let mut params: Vec<QueryParam> = Vec::new();
        assert(params_view(params@) =~= Seq::<QueryParamView>::empty());
        push_one(&mut params, "page", write_number(self.page));
        push_one(&mut params, "q", copy_text(&self.q));
        push_one(&mut params, "mt", write_name(&self.mt));
        push_one(&mut params, "st", write_name(&self.st));
        push_many(&mut params, "genres", copy_texts(&self.genres));
        push_many(&mut params, "genres-exclude", copy_texts(&self.genres_exclude));
        push_many(&mut params, "studios", copy_texts(&self.studios));
        push_many(&mut params, "studios-exclude", copy_texts(&self.studios_exclude));
        push_many(&mut params, "sources", copy_texts(&self.sources));
        push_many(&mut params, "sources-exclude", copy_texts(&self.sources_exclude));
        push_many(&mut params, "media-types", copy_texts(&self.media_types));
        push_many(&mut params, "media-types-exclude", copy_texts(&self.media_types_exclude));
        push_many(&mut params, "years", write_numbers_u16(&self.years));
        push_many(&mut params, "years-exclude", write_numbers_u16(&self.years_exclude));
        push_many(&mut params, "seasons", write_names(&self.seasons));
        push_many(&mut params, "seasons-exclude", write_names(&self.seasons_exclude));
        push_many(&mut params, "airing-statuses", write_names(&self.airing_statuses));
        push_many(&mut params, "airing-statuses-exclude", write_names(&self.airing_statuses_exclude));
        push_one(&mut params, "duration", copy_text(&self.duration));
        push_one(&mut params, "episodes", copy_text(&self.episodes));
        push_many(&mut params, "streams", write_names(&self.streams));
        push_many(&mut params, "streams-exclude", write_names(&self.streams_exclude));
        push_many(&mut params, "mal-ids", write_numbers_u64(&self.mal_ids));
        push_many(&mut params, "anilist-ids", write_numbers_u64(&self.anilist_ids));
        push_many(&mut params, "anidb-ids", write_numbers_u64(&self.anidb_ids));
        params
    }

    /// Where the listing is, with its filters: the query behind a question
    /// mark, which is there even where no filter is set.
    pub open spec fn url(self) -> Seq<char> {
        API_ANIME@ + "?"@ + query_text(self.query_model())
    }

    /// Gets the call for the listing ready, with the filters as its query.
    /// The call acts for the application.
    pub fn send(&self, auth: &Auth) -> (r: Result<ApiRequest, ApiError>)
        ensures
            is_prepared(r, auth@, RequestMethod::Get, self.url(), false),
    {
        let query = write_query(&self.query());
        ApiRequest::get(auth, join3(API_ANIME, "?", query.as_str()), false)
    }
}

/// One anime, by its slug.
pub struct AnimeSlug {
    pub slug: String,
}

impl AnimeSlug {
    /// Where the anime is: under its slug, below the listing.
    pub open spec fn url(self) -> Seq<char> {
        API_ANIME@ + "/"@ + self.slug@
    }

    /// Gets the call for the anime ready. The call acts for the application.
    pub fn send(&self, auth: &Auth) -> (r: Result<ApiRequest, ApiError>)
        ensures
            is_prepared(r, auth@, RequestMethod::Get, self.url(), false),
    {
        ApiRequest::get(auth, join3(API_ANIME, "/", self.slug.as_str()), false)
    }
}

} // verus!
