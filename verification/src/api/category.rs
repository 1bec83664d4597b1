use crate::api::anime::QUERY_TEXT_MAX;
use crate::api::API_CATEGORIES;
use crate::api_request::{is_prepared, ApiRequest, RequestMethod};
use crate::auth::Auth;
use crate::errors::ApiError;
use crate::query::{
    copy_text, one, params_view, push_one, query_text, text_view, write_query, QueryParam,
    QueryParamView,
};
use crate::text::{join, join4, truncate_text, truncated};
use vstd::prelude::*;
use vstd::utf8::encode_utf8;

verus! {

/// The part of the API for one kind of category: genres, studios, sources,
/// media types.
pub struct CategoryApi {
    pub category_type: String,
}

impl CategoryApi {
    /// The part of the API for the categories of the kind `category`.
    pub fn new(category: &str) -> (r: Self)
        ensures
            r.category_type@ == category@,
    {
        Self { category_type: category.to_owned() }
    }

    /// A listing of the categories of this kind, with no filter set.
    pub fn get(&self) -> (r: CategoryGet)
        ensures
            r.category_type@ == self.category_type@,
            r.q is None,
    {
        CategoryGet { category_type: self.category_type.clone(), q: None }
    }
}

/// A listing of the categories of one kind.
pub struct CategoryGet {
    pub category_type: String,
    /// Text to filter by, of 200 bytes at most.
    pub q: Option<String>,
}

impl CategoryGet {
    /// Where the listing is, with its filter: under the kind's name, below
    /// the categories, with the query behind a question mark, which is there
    /// even where no filter is set.
    pub open spec fn url(self) -> Seq<char> {
        API_CATEGORIES@ + "/"@ + self.category_type@ + "?"@ + query_text(self.query_model())
    }

    /// One category of this kind, by its slug.
    pub fn slug(&self, slug: &str) -> (r: CategorySlug)
        ensures
            r.slug@ == slug@,
            r.category_type@ == self.category_type@,
    {
        CategorySlug { slug: slug.to_owned(), category_type: self.category_type.clone() }
    }

    /// Filters by text: by the first 200 bytes of `q`, or as many of them as
    /// end where a character ends.
    pub fn q(self, q: &str) -> (r: Self)
        ensures
            r == (CategoryGet { q: r.q, ..self }),
            r.q is Some,
            r.q->Some_0@.is_prefix_of(q@),
            encode_utf8(r.q->Some_0@) == truncated(encode_utf8(q@), QUERY_TEXT_MAX as int),
            encode_utf8(q@).len() <= QUERY_TEXT_MAX ==> r.q->Some_0@ == q@,
    {
        let mut out = self;
        out.q = Some(truncate_text(q, QUERY_TEXT_MAX));
        out
    }

    /// The query of the listing: the filter, if it is set.
    pub open spec fn query_model(self) -> Seq<QueryParamView> {
        Seq::<QueryParamView>::empty()
            + one("q"@, text_view(self.q))
    }

    /// The query of the listing: the filter, if it is set.
    pub fn query(&self) -> (r: Vec<QueryParam>)
        ensures
            params_view(r@) == self.query_model(),
    {
        let mut params: Vec<QueryParam> = Vec::new();
        assert(params_view(params@) =~= Seq::<QueryParamView>::empty());
        push_one(&mut params, "q", copy_text(&self.q));
        params
    }

    /// Gets the call for the listing ready, with the filter as its query. The
    /// call acts for the application.
    pub fn send(&self, auth: &Auth) -> (r: Result<ApiRequest, ApiError>)
        ensures
            is_prepared(r, auth@, RequestMethod::Get, self.url(), false),
    {
        let query = write_query(&self.query());
        let below = join4(API_CATEGORIES, "/", self.category_type.as_str(), "?");
        ApiRequest::get(auth, join(below.as_str(), query.as_str()), false)
    }
}

/// One category, by its kind and its slug.
pub struct CategorySlug {
    pub slug: String,
    pub category_type: String,
}

impl CategorySlug {
    /// Where the category is: under its slug, below its kind.
    pub open spec fn url(self) -> Seq<char> {
        API_CATEGORIES@ + "/"@ + self.category_type@ + "/"@ + self.slug@
    }

    /// Gets the call for the category ready. The call acts for the
    /// application.
    pub fn send(&self, auth: &Auth) -> (r: Result<ApiRequest, ApiError>)
        ensures
            is_prepared(r, auth@, RequestMethod::Get, self.url(), false),
    {
        let below = join4(API_CATEGORIES, "/", self.category_type.as_str(), "/");
        let url = join(below.as_str(), self.slug.as_str());
        ApiRequest::get(auth, url, false)
    }
}

} // verus!
