use crate::api::{API_ANIMELISTS, API_ANIMELISTS_OAUTH};
use crate::api_request::{is_prepared, ApiRequest, RequestMethod};
use crate::auth::model::{opt_text, AuthView};
use crate::auth::Auth;
use crate::errors::ApiError;
use crate::objects::{Action, AutoScores, FixedDateTime, ListAnimePut, ListStatus};
use crate::rate_limit::{header_text, header_texts, lookup};
use crate::text::{join3, join4, truncate_text, truncated};
use vstd::prelude::*;
use vstd::utf8::encode_utf8;

verus! {

/// The most bytes that a note can have.
pub const NOTE_MAX: usize = 1000;

/// The highest score that can be given.
pub const SCORE_MAX: u8 = 100;

/// The name of the header that carries the version of a list entry.
pub const HEADER_ETAG: &'static str = "etag";

/// The name of the header that the version of a list entry is sent back
/// under.
pub const HEADER_ETAG_SENT: &'static str = "ETag";

/// The name of the form field that carries the list to import.
pub const IMPORT_FIELD: &'static str = "mal-list";

/// The file name that the list to import goes under.
pub const IMPORT_FILE_NAME: &'static str = "list.xml";

/// The media type of the list to import.
pub const IMPORT_MEDIA_TYPE: &'static str = "text/xml";

/// The name of the form field that asks for what is on the list already to
/// be overwritten; it is sent with the value `on`, or not at all.
pub const OVERWRITE_FIELD: &'static str = "overwrite-mal-list";

/// The value that the field that asks for overwriting is sent with.
pub const OVERWRITE_VALUE: &'static str = "on";

/// The form that an import is sent as: the field that asks for overwriting,
/// if it is asked for, and then the list as a file.
pub struct ImportForm {
    /// The name and the value of the field that asks for overwriting.
    pub overwrite: Option<(&'static str, &'static str)>,
    /// The name of the field that carries the file.
    pub field: &'static str,
    /// The name of the file.
    pub file_name: &'static str,
    /// The media type of the file.
    pub media_type: &'static str,
    /// What the file holds.
    pub content: String,
}

/// Where the anime list of a user is: under the user's id, or under `oauth`
/// for the user who granted access.
pub open spec fn list_url(user_id: Option<Seq<char>>) -> Seq<char> {
    match user_id {
        Some(id) => API_ANIMELISTS@ + "/"@ + id,
        None => API_ANIMELISTS_OAUTH@,
    }
}

/// Where one anime on the list of a user is: under its route, below the
/// list.
pub open spec fn entry_url(user_id: Option<Seq<char>>, route: Seq<char>) -> Seq<char> {
    list_url(user_id) + "/"@ + route
}

/// The URL of a user's anime list.
fn make_list_url(user_id: &Option<String>) -> (r: String)
    ensures
        r@ == list_url(opt_text(*user_id)),
{
    match user_id {
        Some(id) => join3(API_ANIMELISTS, "/", id.as_str()),
        None => API_ANIMELISTS_OAUTH.to_owned(),
    }
}

/// The URL of one anime on a user's anime list.
fn make_entry_url(user_id: &Option<String>, route: &str) -> (r: String)
    ensures
        r@ == entry_url(opt_text(*user_id), route@),
{
    let list = make_list_url(user_id);
    join3(list.as_str(), "/", route)
}

/// The version of a list entry, as the API hands it out with the entry and
/// wants it back with a change.
#[derive(Debug)]
pub struct ETag(pub String);

impl ETag {
    /// The text itself.
    pub fn as_str(&self) -> (r: &str)
        ensures
            r@ == self.0@,
    {
        self.0.as_str()
    }

    /// The version that the headers of a response carry; it is empty where
    /// they carry none.
    pub fn from_headers(headers: &http::HeaderMap<http::HeaderValue>) -> (r: Self)
        ensures
            r.0@ == (match lookup(header_texts(*headers), HEADER_ETAG@) {
                Some(text) => text,
                None => Seq::empty(),
            }),
    {
        match header_text(headers, HEADER_ETAG) {
            Some(text) => ETag(text),
            None => ETag(String::new()),
        }
    }
}

/// The anime list part of the API.
pub struct AnimeListsApi {}

impl AnimeListsApi {
    /// This part of the API.
    pub fn new() -> Self {
        AnimeListsApi {}
    }

    /// The anime list of the user who granted access, until another user is
    /// named.
    pub fn get(&self) -> (r: AnimeListsGet)
        ensures
            r.user_id is None,
    {
        AnimeListsGet { user_id: None }
    }

    /// An import into the anime list; the list to import is still to be
    /// given.
    pub fn put(&self) -> (r: AnimeListsPut)
        ensures
            r.user_id is None,
            !r.overwrite_mal_list,
            r.xml is None,
    {
        AnimeListsPut { user_id: None, overwrite_mal_list: false, xml: None }
    }

    /// The removal of an anime from the list; the anime is still to be named.
    pub fn delete(&self) -> (r: AnimeListsDelete)
        ensures
            r.user_id is None,
            r.route is None,
    {
        AnimeListsDelete { route: None, user_id: None }
    }
}

/// The anime list of a user.
pub struct AnimeListsGet {
    /// The user whose list it is; `None` for the user who granted access.
    pub user_id: Option<String>,
}

impl AnimeListsGet {
    /// Names the user whose list it is.
    pub fn user_id(self, user_id: &str) -> (r: Self)
        ensures
            r.user_id is Some && r.user_id->Some_0@ == user_id@,
    {
        let mut out = self;
        out.user_id = Some(user_id.to_owned());
        out
    }

    /// One anime on the list, by its route.
    pub fn route(self, route: &str) -> (r: AnimeListsGetRoute)
        ensures
            r.user_id == self.user_id,
            r.route@ == route@,
    {
        AnimeListsGetRoute { user_id: self.user_id, route: route.to_owned() }
    }

    /// Gets the call for the list ready. It acts for the user who granted
    /// access where the list is that user's own, and for the application
    /// where another user is named.
    pub fn send(&self, auth: &Auth) -> (r: Result<ApiRequest, ApiError>)
        ensures
            is_prepared(
                r,
                auth@,
                RequestMethod::Get,
                list_url(opt_text(self.user_id)),
                self.user_id is None,
            ),
    {
        let is_self = self.user_id.is_none();
        ApiRequest::get(auth, make_list_url(&self.user_id), is_self)
    }
}

/// One anime on the anime list of a user.
pub struct AnimeListsGetRoute {
    /// The user whose list it is; `None` for the user who granted access.
    pub user_id: Option<String>,
    /// The anime, by its slug.
    pub route: String,
}

impl AnimeListsGetRoute {
    /// Names the user whose list it is.
    pub fn user_id(self, user_id: &str) -> (r: Self)
        ensures
            r.user_id is Some && r.user_id->Some_0@ == user_id@,
            r.route == self.route,
    {
        let mut out = self;
        out.user_id = Some(user_id.to_owned());
        out
    }

    /// Gets the call for the entry ready. It acts for the user who granted
    /// access where the list is that user's own, and for the application
    /// where another user is named.
    pub fn send(&self, auth: &Auth) -> (r: Result<ApiRequest, ApiError>)
        ensures
            is_prepared(
                r,
                auth@,
                RequestMethod::Get,
                entry_url(opt_text(self.user_id), self.route@),
                self.user_id is None,
            ),
    {
        let is_self = self.user_id.is_none();
        ApiRequest::get(auth, make_entry_url(&self.user_id, self.route.as_str()), is_self)
    }
}

/// The import of an anime list from MyAnimeList, as an XML file.
pub struct AnimeListsPut {
    /// The user whose list it is; `None` for the user who granted access.
    pub user_id: Option<String>,
    /// Whether what is on the list already is overwritten by what is
    /// imported.
    pub overwrite_mal_list: bool,
    /// The list to import.
    pub xml: Option<String>,
}

impl AnimeListsPut {
    /// A change to one anime on the list, by its route, that changes nothing
    /// yet.
    pub fn route(self, route: &str) -> (r: AnimeListsPutRoute)
        ensures
            r.user_id == self.user_id,
            r.route@ == route@,
            r.etag is None,
            r.list == ListAnimePut::empty(),
    {
        AnimeListsPutRoute {
            user_id: self.user_id,
            route: route.to_owned(),
            etag: None,
            list: ListAnimePut::default(),
        }
    }

    /// Names the user whose list it is.
    pub fn user_id(self, user_id: &str) -> (r: Self)
        ensures
            r == (AnimeListsPut { user_id: r.user_id, ..self }),
            r.user_id is Some && r.user_id->Some_0@ == user_id@,
    {
        let mut out = self;
        out.user_id = Some(user_id.to_owned());
        out
    }

    /// Sets whether what is on the list already is overwritten.
    pub fn overwrite_mal_list(self, overwrite: bool) -> (r: Self)
        ensures
            r == (AnimeListsPut { overwrite_mal_list: overwrite, ..self }),
    {
        let mut out = self;
        out.overwrite_mal_list = overwrite;
        out
    }

    /// Gives the list to import.
    pub fn xml(self, data: String) -> (r: Self)
        ensures
            r == (AnimeListsPut { xml: Some(data), ..self }),
    {
        let mut out = self;
        out.xml = Some(data);
        out
    }

    /// The form to send with the call; there is none without a list to import.
    pub fn form(&self) -> (r: Option<ImportForm>)
        ensures
            r is Some <==> self.xml is Some,
            r matches Some(form) ==> {
                &&& form.content@ == self.xml->Some_0@
                &&& form.field@ == IMPORT_FIELD@
                &&& form.file_name@ == IMPORT_FILE_NAME@
                &&& form.media_type@ == IMPORT_MEDIA_TYPE@
                &&& form.overwrite is Some <==> self.overwrite_mal_list
                &&& form.overwrite matches Some(pair) ==> pair.0@ == OVERWRITE_FIELD@ && pair.1@
                    == OVERWRITE_VALUE@
            },
    {
        match &self.xml {
            Some(xml) => Some(
                ImportForm {
                    overwrite: if self.overwrite_mal_list {
                        Some((OVERWRITE_FIELD, OVERWRITE_VALUE))
                    } else {
                        None
                    },
                    field: IMPORT_FIELD,
                    file_name: IMPORT_FILE_NAME,
                    media_type: IMPORT_MEDIA_TYPE,
                    content: xml.clone(),
                },
            ),
            None => None,
        }
    }

    /// Gets the call for the import ready. Without a list to import there is
    /// no call, but `Xml`. The call acts for the user who granted access.
    pub fn send(&self, auth: &Auth) -> (r: Result<ApiRequest, ApiError>)
        ensures
            self.xml is None ==> r matches Err(ApiError::Xml),
            self.xml is Some ==> is_prepared(
                r,
                auth@,
                RequestMethod::Put,
                list_url(opt_text(self.user_id)),
                true,
            ),
    {
        if self.xml.is_none() {
            return Err(ApiError::Xml);
        }
        ApiRequest::put(auth, make_list_url(&self.user_id), true)
    }
}

/// A change to one anime on the anime list of a user, which also puts the
/// anime on the list if it is not there.
pub struct AnimeListsPutRoute {
    /// The user whose list it is; `None` for the user who granted access.
    pub user_id: Option<String>,
    /// The version of the entry that the change is made to.
    pub etag: Option<String>,
    /// The anime, by its slug.
    pub route: String,
    /// What is changed.
    pub list: ListAnimePut,
}

impl AnimeListsPutRoute {
    /// Names the user whose list it is.
    pub fn user_id(self, user_id: &str) -> (r: Self)
        ensures
            r == (AnimeListsPutRoute { user_id: r.user_id, ..self }),
            r.user_id is Some && r.user_id->Some_0@ == user_id@,
    {
        let mut out = self;
        out.user_id = Some(user_id.to_owned());
        out
    }

    /// Gives the version of the entry that the change is made to, as a `GET`
    /// of the entry handed it out.
    pub fn etag(self, etag: &str) -> (r: Self)
        ensures
            r == (AnimeListsPutRoute { etag: r.etag, ..self }),
            r.etag is Some && r.etag->Some_0@ == etag@,
    {
        let mut out = self;
        out.etag = Some(etag.to_owned());
        out
    }

    /// Sets the list that the anime is on.
    pub fn list_status(self, status: ListStatus) -> (r: Self)
        ensures
            r == (AnimeListsPutRoute {
                list: ListAnimePut { list_status: Some(status), ..self.list },
                ..self
            }),
    {
        let mut out = self;
        out.list.list_status = Some(status);
        out
    }

    /// Sets how many episodes were seen.
    pub fn episodes_seen(self, seen: u64) -> (r: Self)
        ensures
            r == (AnimeListsPutRoute {
                list: ListAnimePut { episodes_seen: Some(seen), ..self.list },
                ..self
            }),
    {
        let mut out = self;
        out.list.episodes_seen = Some(seen);
        out
    }

    /// Sets the score that the user gave; a score over 100 counts as 100.
    pub fn manual_score(self, score: u8) -> (r: Self)
        ensures
            r == (AnimeListsPutRoute {
                list: ListAnimePut {
                    manual_score: Some(if score > SCORE_MAX { SCORE_MAX } else { score }),
                    ..self.list
                },
                ..self
            }),
    {
        let mut out = self;
        out.list.manual_score = Some(if score > SCORE_MAX { SCORE_MAX } else { score });
        out
    }

    /// Sets whether the score is worked out from the automatic scores.
    pub fn use_auto_scores(self, use_auto_scores: bool) -> (r: Self)
        ensures
            r == (AnimeListsPutRoute {
                list: ListAnimePut { use_auto_scores: Some(use_auto_scores), ..self.list },
                ..self
            }),
    {
        let mut out = self;
        out.list.use_auto_scores = Some(use_auto_scores);
        out
    }

    /// Sets the automatic scores.
    pub fn auto_scores(self, scores: AutoScores) -> (r: Self)
        ensures
            r == (AnimeListsPutRoute {
                list: ListAnimePut { auto_scores: Some(scores), ..self.list },
                ..self
            }),
    {
        let mut out = self;
        out.list.auto_scores = Some(scores);
        out
    }

    /// Sets when watching began.
    pub fn start_date(self, datetime: FixedDateTime) -> (r: Self)
        ensures
            r == (AnimeListsPutRoute {
                list: ListAnimePut { start_date: Some(datetime), ..self.list },
                ..self
            }),
    {
        let mut out = self;
        out.list.start_date = Some(datetime);
        out
    }

    /// Sets when watching ended.
    pub fn end_date(self, datetime: FixedDateTime) -> (r: Self)
        ensures
            r == (AnimeListsPutRoute {
                list: ListAnimePut { end_date: Some(datetime), ..self.list },
                ..self
            }),
    {
        let mut out = self;
        out.list.end_date = Some(datetime);
        out
    }

    /// Sets the user's note: the first 1000 bytes of `note`, or as many of
    /// them as end where a character ends.
    pub fn note(self, note: &str) -> (r: Self)
        ensures
            r == (AnimeListsPutRoute {
                list: ListAnimePut { note: r.list.note, ..self.list },
                ..self
            }),
            r.list.note is Some,
            r.list.note->Some_0@.is_prefix_of(note@),
            encode_utf8(r.list.note->Some_0@) == truncated(encode_utf8(note@), NOTE_MAX as int),
            encode_utf8(note@).len() <= NOTE_MAX ==> r.list.note->Some_0@ == note@,
    {
        let mut out = self;
        out.list.note = Some(truncate_text(note, NOTE_MAX));
        out
    }

    /// Sets what the put is to do besides storing what it carries.
    pub fn action(self, action: Action) -> (r: Self)
        ensures
            r == (AnimeListsPutRoute {
                list: ListAnimePut { action: Some(action), ..self.list },
                ..self
            }),
    {
        let mut out = self;
        out.list.action = Some(action);
        out
    }

    /// The header to send with the call: the version of the entry, under the
    /// name that it is sent back under. There is none without a version.
    pub fn etag_header(&self) -> (r: Option<(&'static str, String)>)
        ensures
            r is Some <==> self.etag is Some,
            r matches Some(pair) ==> pair.0@ == HEADER_ETAG_SENT@ && pair.1@ == self.etag->Some_0@,
    {
        match &self.etag {
            Some(etag) => Some((HEADER_ETAG_SENT, etag.clone())),
            None => None,
        }
    }

    /// Gets the call for the change ready. Without the version of the entry
    /// there is no call, but `Etag`. The call acts for the user who granted
    /// access.
    pub fn send(&self, auth: &Auth) -> (r: Result<ApiRequest, ApiError>)
        ensures
            self.etag is None ==> r matches Err(ApiError::Etag),
            self.etag is Some ==> is_prepared(
                r,
                auth@,
                RequestMethod::Put,
                entry_url(opt_text(self.user_id), self.route@),
                true,
            ),
    {
        if self.etag.is_none() {
            return Err(ApiError::Etag);
        }
        ApiRequest::put(auth, make_entry_url(&self.user_id, self.route.as_str()), true)
    }
}

/// The removal of one anime from the anime list of a user.
pub struct AnimeListsDelete {
    /// The anime, by its slug.
    pub route: Option<String>,
    /// The user whose list it is; `None` for the user who granted access.
    pub user_id: Option<String>,
}

impl AnimeListsDelete {
    /// Names the user whose list it is.
    pub fn user_id(self, user_id: &str) -> (r: Self)
        ensures
            r == (AnimeListsDelete { user_id: r.user_id, ..self }),
            r.user_id is Some && r.user_id->Some_0@ == user_id@,
    {
        let mut out = self;
        out.user_id = Some(user_id.to_owned());
        out
    }

    /// Names the anime to remove.
    pub fn route(self, route: &str) -> (r: Self)
        ensures
            r == (AnimeListsDelete { route: r.route, ..self }),
            r.route is Some && r.route->Some_0@ == route@,
    {
        let mut out = self;
        out.route = Some(route.to_owned());
        out
    }

    /// Gets the call for the removal ready. Without an anime to remove there
    /// is no call, but `Route`. The call acts for the user who granted
    /// access.
    pub fn send(&self, auth: &Auth) -> (r: Result<ApiRequest, ApiError>)
        ensures
            self.route is None ==> r matches Err(ApiError::Route),
            self.route matches Some(route) ==> is_prepared(
                r,
                auth@,
                RequestMethod::Delete,
                entry_url(opt_text(self.user_id), route@),
                true,
            ),
    {
        match &self.route {
            Some(route) => ApiRequest::delete(
                auth,
                make_entry_url(&self.user_id, route.as_str()),
                true,
            ),
            None => Err(ApiError::Route),
        }
    }
}

} // verus!
