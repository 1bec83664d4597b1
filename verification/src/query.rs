use crate::numeral::{decimal, render_decimal};
use vstd::prelude::*;
use vstd::string::StringExecFns;

verus! {

/// What one parameter of a query carries: one value, or a list of them.
pub enum QueryValue {
    One(String),
    Many(Vec<String>),
}

/// One parameter of a query: its name, and what it carries.
pub struct QueryParam {
    pub name: String,
    pub value: QueryValue,
}

/// What one parameter of a query carries, as text.
pub enum QueryValueView {
    One(Seq<char>),
    Many(Seq<Seq<char>>),
}

/// One parameter of a query, as text.
pub struct QueryParamView {
    pub name: Seq<char>,
    pub value: QueryValueView,
}

/// The views of `texts`, in order.
pub open spec fn texts_view(texts: Seq<String>) -> Seq<Seq<char>> {
    texts.map_values(|t: String| t@)
}

impl View for QueryValue {
    type V = QueryValueView;

    open spec fn view(&self) -> QueryValueView {
        match self {
            QueryValue::One(text) => QueryValueView::One(text@),
            QueryValue::Many(texts) => QueryValueView::Many(texts_view(texts@)),
        }
    }
}

impl View for QueryParam {
    type V = QueryParamView;

    open spec fn view(&self) -> QueryParamView {
        QueryParamView { name: self.name@, value: self.value@ }
    }
}

/// The views of `params`, in order.
pub open spec fn params_view(params: Seq<QueryParam>) -> Seq<QueryParamView> {
    params.map_values(|p: QueryParam| p@)
}

/// The parameter `name` with one value, if there is a value: what is not set
/// is not sent.
pub open spec fn one(name: Seq<char>, value: Option<Seq<char>>) -> Seq<QueryParamView> {
    match value {
        Some(text) => seq![QueryParamView { name, value: QueryValueView::One(text) }],
        None => Seq::empty(),
    }
}

/// The parameter `name` with a list of values, if there is a list: what is
/// not set is not sent.
pub open spec fn many(name: Seq<char>, values: Option<Seq<Seq<char>>>) -> Seq<QueryParamView> {
    match values {
        Some(texts) => seq![QueryParamView { name, value: QueryValueView::Many(texts) }],
        None => Seq::empty(),
    }
}

/// The view of an optional text.
pub open spec fn text_view(text: Option<String>) -> Option<Seq<char>> {
    match text {
        Some(t) => Some(t@),
        None => None,
    }
}

/// The view of an optional list of texts.
pub open spec fn list_view(texts: Option<Vec<String>>) -> Option<Seq<Seq<char>>> {
    match texts {
        Some(v) => Some(texts_view(v@)),
        None => None,
    }
}

/// The numeral of an optional number.
pub open spec fn numeral(n: Option<u64>) -> Option<Seq<char>> {
    match n {
        Some(n) => Some(decimal(n as nat)),
        None => None,
    }
}

/// The numeral of an optional number of 16 bits.
pub open spec fn numeral_u16(n: Option<u16>) -> Option<Seq<char>> {
    match n {
        Some(n) => Some(decimal(n as nat)),
        None => None,
    }
}

/// The numerals of an optional list of numbers of 16 bits.
pub open spec fn numerals_u16(numbers: Option<Vec<u16>>) -> Option<Seq<Seq<char>>> {
    match numbers {
        Some(v) => Some(v@.map_values(|n: u16| decimal(n as nat))),
        None => None,
    }
}

/// The numerals of an optional list of numbers of 64 bits.
pub open spec fn numerals_u64(numbers: Option<Vec<u64>>) -> Option<Seq<Seq<char>>> {
    match numbers {
        Some(v) => Some(v@.map_values(|n: u64| decimal(n as nat))),
        None => None,
    }
}

/// What has a name that a query knows it by.
pub trait QueryName {
    /// The name that a query knows this by.
    spec fn query_name(&self) -> Seq<char>;

    /// The name that a query knows this by.
    fn as_query(&self) -> (r: &'static str)
        ensures
            r@ == self.query_name(),
    ;
}

/// The query name of an optional value.
pub open spec fn name_of<T: QueryName>(value: Option<T>) -> Option<Seq<char>> {
    match value {
        Some(v) => Some(v.query_name()),
        None => None,
    }
}

/// The query names of an optional list of values.
pub open spec fn names_of<T: QueryName>(values: Option<Vec<T>>) -> Option<Seq<Seq<char>>> {
    match values {
        Some(v) => Some(v@.map_values(|t: T| t.query_name())),
        None => None,
    }
}

/// A copy of an optional text.
pub fn copy_text(text: &Option<String>) -> (r: Option<String>)
    ensures
        text_view(r) == text_view(*text),
{
    match text {
        Some(t) => Some(t.clone()),
        None => None,
    }
}

/// A copy of an optional list of texts.
pub fn copy_texts(texts: &Option<Vec<String>>) -> (r: Option<Vec<String>>)
    ensures
        list_view(r) == list_view(*texts),
{
    match texts {
        Some(v) => {
            let mut out: Vec<String> = Vec::new();
            let mut i: usize = 0;
            while i < v.len()
                invariant
                    i <= v.len(),
                    out@.len() == i,
                    forall|j: int| 0 <= j < i ==> (#[trigger] out@[j])@ == v@[j]@,
                decreases v.len() - i,
            {
                out.push(v[i].clone());
                i += 1;
            }
            assert(texts_view(out@) =~= texts_view(v@));
            Some(out)
        },
        None => None,
    }
}

/// An optional number as its numeral.
pub fn write_number(n: Option<u64>) -> (r: Option<String>)
    ensures
        text_view(r) == numeral(n),
{
    match n {
        Some(n) => Some(render_decimal(n)),
        None => None,
    }
}

/// An optional number of 16 bits as its numeral.
pub fn write_number_u16(n: Option<u16>) -> (r: Option<String>)
    ensures
        text_view(r) == numeral_u16(n),
{
    match n {
        Some(n) => Some(render_decimal(n as u64)),
        None => None,
    }
}

/// An optional list of numbers of 16 bits as their numerals.
pub fn write_numbers_u16(numbers: &Option<Vec<u16>>) -> (r: Option<Vec<String>>)
    ensures
        list_view(r) == numerals_u16(*numbers),
{
    match numbers {
        Some(v) => {
            let mut out: Vec<String> = Vec::new();
            let mut i: usize = 0;
            while i < v.len()
                invariant
                    i <= v.len(),
                    out@.len() == i,
                    forall|j: int| 0 <= j < i ==> (#[trigger] out@[j])@ == decimal(v@[j] as nat),
                decreases v.len() - i,
            {
                let n: u16 = v[i];
                out.push(render_decimal(n as u64));
                i += 1;
            }
            assert(texts_view(out@) =~= v@.map_values(|n: u16| decimal(n as nat)));
            Some(out)
        },
        None => None,
    }
}

/// An optional list of numbers of 64 bits as their numerals.
pub fn write_numbers_u64(numbers: &Option<Vec<u64>>) -> (r: Option<Vec<String>>)
    ensures
        list_view(r) == numerals_u64(*numbers),
{
    match numbers {
        Some(v) => {
            let mut out: Vec<String> = Vec::new();
            let mut i: usize = 0;
            while i < v.len()
                invariant
                    i <= v.len(),
                    out@.len() == i,
                    forall|j: int| 0 <= j < i ==> (#[trigger] out@[j])@ == decimal(v@[j] as nat),
                decreases v.len() - i,
            {
                let n: u64 = v[i];
                out.push(render_decimal(n));
                i += 1;
            }
            assert(texts_view(out@) =~= v@.map_values(|n: u64| decimal(n as nat)));
            Some(out)
        },
        None => None,
    }
}

/// An optional value as its query name.
pub fn write_name<T: QueryName>(value: &Option<T>) -> (r: Option<String>)
    ensures
        text_view(r) == name_of(*value),
{
    match value {
        Some(v) => Some(v.as_query().to_owned()),
        None => None,
    }
}

/// An optional list of values as their query names.
pub fn write_names<T: QueryName>(values: &Option<Vec<T>>) -> (r: Option<Vec<String>>)
    ensures
        list_view(r) == names_of(*values),
{
    match values {
        Some(v) => {
            let mut out: Vec<String> = Vec::new();
            let mut i: usize = 0;
            while i < v.len()
                invariant
                    i <= v.len(),
                    out@.len() == i,
                    forall|j: int| 0 <= j < i ==> (#[trigger] out@[j])@ == v@[j].query_name(),
                decreases v.len() - i,
            {
                out.push(v[i].as_query().to_owned());
                i += 1;
            }
            assert(texts_view(out@) =~= v@.map_values(|t: T| t.query_name()));
            Some(out)
        },
        None => None,
    }
}

/// Adds the parameter `name` with one value to `params`, if there is a value.
pub fn push_one(params: &mut Vec<QueryParam>, name: &str, value: Option<String>)
    ensures
        params_view(final(params)@) == params_view(old(params)@) + one(name@, text_view(value)),
{
    match value {
        Some(text) => {
            params.push(QueryParam { name: name.to_owned(), value: QueryValue::One(text) });
            assert(params_view(params@) =~= params_view(old(params)@) + one(
                name@,
                text_view(value),
            ));
        },
        None => {
            assert(params_view(params@) =~= params_view(old(params)@) + one(
                name@,
                text_view(value),
            ));
        },
    }
}

/// Adds the parameter `name` with a list of values to `params`, if there is a
/// list.
pub fn push_many(params: &mut Vec<QueryParam>, name: &str, values: Option<Vec<String>>)
    ensures
        params_view(final(params)@) == params_view(old(params)@) + many(name@, list_view(values)),
{
    match values {
        Some(texts) => {
            params.push(QueryParam { name: name.to_owned(), value: QueryValue::Many(texts) });
            assert(params_view(params@) =~= params_view(old(params)@) + many(
                name@,
                list_view(values),
            ));
        },
        None => {
            assert(params_view(params@) =~= params_view(old(params)@) + many(
                name@,
                list_view(values),
            ));
        },
    }
}

/// What `serde_qs` writes for one parameter that carries one value: the
/// name, an equals sign and the value, both percent-encoded.
pub uninterp spec fn encoded_one(name: Seq<char>, value: Seq<char>) -> Seq<char>;

/// What `serde_qs` writes for one parameter that carries a list of values:
/// one pair for each value, under the name with the value's index in
/// brackets, the pairs joined by `&`; nothing for no values.
pub uninterp spec fn encoded_many(name: Seq<char>, values: Seq<Seq<char>>) -> Seq<char>;

/// `serde_qs::to_string` on a map of one entry, from `name` to `value`. On
/// texts it does not fail; were it to, the result would be empty.
#[verifier::external_body]
fn encode_one(name: &str, value: &String) -> (r: String)
    ensures
        r@ == encoded_one(name@, value@),
{
    serde_qs::to_string(&std::collections::BTreeMap::from([(name, value)])).unwrap_or_default()
}

/// `serde_qs::to_string` on a map of one entry, from `name` to the list
/// `values`. On texts it does not fail; were it to, the result would be
/// empty.
#[verifier::external_body]
fn encode_many(name: &str, values: &Vec<String>) -> (r: String)
    ensures
        r@ == encoded_many(name@, texts_view(values@)),
{
    serde_qs::to_string(&std::collections::BTreeMap::from([(name, values)])).unwrap_or_default()
}

/// What is written for one parameter.
pub open spec fn encoded(param: QueryParamView) -> Seq<char> {
    match param.value {
        QueryValueView::One(value) => encoded_one(param.name, value),
        QueryValueView::Many(values) => encoded_many(param.name, values),
    }
}

/// `head` with `piece` behind it, and `&` between the two where neither is
/// empty.
pub open spec fn joined(head: Seq<char>, piece: Seq<char>) -> Seq<char> {
    if piece.len() == 0 {
        head
    } else if head.len() == 0 {
        piece
    } else {
        head + "&"@ + piece
    }
}

/// The query that `params` make: what is written for each of them, in order,
/// joined by `&`. A parameter for which nothing is written leaves no trace.
pub open spec fn query_text(params: Seq<QueryParamView>) -> Seq<char>
    decreases params.len(),
{
    if params.len() == 0 {
        Seq::empty()
    } else {
        joined(query_text(params.drop_last()), encoded(params.last()))
    }
}

/// Writes one parameter.
pub fn encode(param: &QueryParam) -> (r: String)
    ensures
        r@ == encoded(param@),
{
    match &param.value {
        QueryValue::One(value) => encode_one(param.name.as_str(), value),
        QueryValue::Many(values) => encode_many(param.name.as_str(), values),
    }
}

/// Writes the query that `params` make.
pub fn write_query(params: &Vec<QueryParam>) -> (r: String)
    ensures
        r@ == query_text(params_view(params@)),
{
    let mut out = String::new();
    let mut i: usize = 0;
    assert(params_view(params@).subrange(0, 0) =~= Seq::empty());
    while i < params.len()
        invariant
            i <= params.len(),
            out@ == query_text(params_view(params@).subrange(0, i as int)),
        decreases params.len() - i,
    {
        let piece = encode(&params[i]);
        let ghost so_far = params_view(params@).subrange(0, i as int);
        let ghost longer = params_view(params@).subrange(0, i + 1);
        assert(longer.drop_last() =~= so_far);
        assert(longer.last() == params@[i as int]@);
        if !piece.as_str().is_empty() {
            if !out.as_str().is_empty() {
                out.append("&");
            }
            out.append(piece.as_str());
        }
        i += 1;
    }
    assert(params_view(params@).subrange(0, params.len() as int) =~= params_view(params@));
    out
}

} // verus!
