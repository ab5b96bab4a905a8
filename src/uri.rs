//! Compilation of a method description into a concrete request URI.

use vstd::prelude::*;
use crate::method::{routes_view, RestApiMethod, RouteView};
use crate::params::{
    has_missing_required, lemma_serialize_law, pairs_view, serialized, value_pairs, ParamError,
    ParamView, RequestMethod, RestApiMethodRouteParam,
};
use crate::text::{replace_all, replaced};

verus! {

/// The serialisation of the URL that url's parser reads from the text.
pub uninterp spec fn parsed_url(s: Seq<char>) -> Option<Seq<char>>;

/// The serialisation of the URL that url's parser reads from the text, with
/// the pairs appended, in order and form-encoded, as its query.
pub uninterp spec fn parsed_url_with_params(s: Seq<char>, pairs: Seq<(Seq<char>, Seq<char>)>) -> Option<Seq<char>>;

#[verifier::external_type_specification]
#[verifier::external_body]
pub struct ExParseError(url::ParseError);

/// Relies on url::Url::parse followed by the URL's serialisation: both depend
/// on the text alone.
#[verifier::external_body]
fn parse_url(s: &str) -> (r: Result<String, url::ParseError>)
    ensures
        r matches Ok(t) ==> parsed_url(s@) == Some(t@),
        r is Err ==> parsed_url(s@) is None,
{
    url::Url::parse(s).map(String::from)
}

/// Relies on url::Url::parse_with_params followed by the URL's serialisation:
/// the text is parsed as by url::Url::parse, and when that succeeds each pair
/// is appended to the query in order.
#[verifier::external_body]
fn parse_url_with_params(s: &str, pairs: &Vec<(String, String)>) -> (r: Result<String, url::ParseError>)
    ensures
        r is Err <==> parsed_url(s@) is None,
        r matches Ok(t) ==> parsed_url_with_params(s@, pairs_view(pairs@)) == Some(t@),
        r is Err ==> parsed_url_with_params(s@, pairs_view(pairs@)) is None,
{
    url::Url::parse_with_params(s, pairs).map(String::from)
}

/// Why a method could not be compiled into a URI.
#[derive(Clone, Copy, Debug)]
pub enum UriError {
    MissingRouteParam(&'static str),
    MissingParam(&'static str),
    InvalidUrl,
}

/// The placeholder token of a route key: `{key}`.
pub open spec fn placeholder(k: Seq<char>) -> Seq<char> {
    seq!['{'] + k + seq!['}']
}

/// The path with each route placeholder replaced, in declaration order, by its
/// value; the key of the first placeholder without a value otherwise.
pub open spec fn substituted(path: Seq<char>, routes: Seq<RouteView>) -> Result<Seq<char>, Seq<char>>
    decreases routes.len(),
{
    if routes.len() == 0 {
        Ok(path)
    } else {
        match routes[0].value {
            None => Err(routes[0].key),
            Some(v) => substituted(replaced(path, placeholder(routes[0].key), v), routes.drop_first()),
        }
    }
}

/// The query pairs of a call: the body parameters when the verb carries no
/// body, then the query parameters; the key of the first required parameter
/// without a value otherwise.
pub open spec fn query_of(method: RequestMethod, params: Seq<ParamView>, query: Seq<ParamView>) -> Result<
    Seq<(Seq<char>, Seq<char>)>,
    Seq<char>,
> {
    let head = if method == RequestMethod::Get {
        serialized(params)
    } else {
        Ok(Seq::empty())
    };
    match head {
        Err(k) => Err(k),
        Ok(a) => match serialized(query) {
            Err(k) => Err(k),
            Ok(b) => Ok(a + b),
        },
    }
}

/// The URI text made of a location and its query pairs.
pub open spec fn rendered(location: Seq<char>, pairs: Seq<(Seq<char>, Seq<char>)>) -> Option<Seq<char>> {
    if pairs.len() == 0 {
        parsed_url(location)
    } else {
        parsed_url_with_params(location, pairs)
    }
}

fn placeholder_of(key: &str) -> (r: String)
    ensures
        r@ == placeholder(key@),
{
    let mut t = String::from_str("{");
    t.append(key);
    t.append("}");
    proof {
        reveal_strlit("{");
        reveal_strlit("}");
    }
    t
}

/// Substitutes every route placeholder of `path`; fails on the first one
/// without a value, before any substitution is returned.
pub fn substitute_route_params(path: &str, routes: &Vec<RestApiMethodRouteParam>) -> (r: Result<
    String,
    UriError,
>)
    ensures
        r matches Ok(p) ==> substituted(path@, routes_view(routes@)) == Ok::<_, Seq<char>>(p@),
        r matches Err(e) ==> exists|k: &'static str|
            e == UriError::MissingRouteParam(k) && substituted(path@, routes_view(routes@)) == Err::<
                Seq<char>,
                _,
            >(k@),
{
    let mut cur = String::from_str(path);
    let mut i: usize = 0;
    let ghost rv = routes_view(routes@);
    assert(rv.subrange(0, rv.len() as int) == rv);
    while i < routes.len()
        invariant
            i <= routes@.len(),
            rv == routes_view(routes@),
            substituted(path@, rv) == substituted(cur@, rv.subrange(i as int, rv.len() as int)),
        decreases routes@.len() - i,
    {
        let ghost rest = rv.subrange(i as int, rv.len() as int);
        assert(rest.drop_first() == rv.subrange(i + 1, rv.len() as int));
        assert(rest[0] == routes@[i as int]@);
        match &routes[i].value {
            None => return Err(UriError::MissingRouteParam(routes[i].key)),
            Some(v) => {
                let ph = placeholder_of(routes[i].key);
                cur = replace_all(cur.as_str(), ph.as_str(), v.as_str());
            },
        }
        i = i + 1;
    }
    assert(rv.subrange(rv.len() as int, rv.len() as int).len() == 0);
    Ok(cur)
}

fn serialized_pairs(
    ps: &crate::params::RestApiMethodParamBunch,
    out: &mut Vec<(String, String)>,
) -> (r: Result<(), UriError>)
    ensures
        r is Ok <==> serialized(ps@) is Ok,
        r is Ok ==> (serialized(ps@) matches Ok(t) && pairs_view(final(out)@) == pairs_view(old(out)@)
            + t),
        r matches Err(e) ==> exists|k: &'static str|
            e == UriError::MissingParam(k) && serialized(ps@) == Err::<Seq<(Seq<char>, Seq<char>)>, _>(
                k@,
            ),
{
    match ps.serialize() {
        Err(ParamError::MissingRequiredParam(k)) => Err(UriError::MissingParam(k)),
        Err(ParamError::UnknownParam(k)) => Err(UriError::MissingParam(k)),
        Err(ParamError::AlreadySet(k)) => Err(UriError::MissingParam(k)),
        Ok(v) => {
            let ghost start = pairs_view(out@);
            let mut j: usize = 0;
            while j < v.len()
                invariant
                    j <= v@.len(),
                    pairs_view(out@) == start + pairs_view(v@.subrange(0, j as int)),
                decreases v@.len() - j,
            {
                let pair = (v[j].0.clone(), v[j].1.clone());
                let ghost before = out@;
                out.push(pair);
                assert(out@.drop_last() == before);
                assert(pairs_view(out@) =~= pairs_view(before) + seq![(pair.0@, pair.1@)]);
                assert(pairs_view(v@.subrange(0, j + 1)) =~= pairs_view(v@.subrange(0, j as int))
                    + seq![(pair.0@, pair.1@)]);
                j = j + 1;
            }
            assert(v@.subrange(0, v@.len() as int) == v@);
            Ok(())
        },
    }
}

/// The query pairs of a call, in declaration order: the body parameters when
/// the verb carries no body, then the query parameters.
pub fn query_pairs<X, C>(m: &RestApiMethod<X, C>) -> (r: Result<Vec<(String, String)>, UriError>)
    ensures
        r matches Ok(v) ==> query_of(m.method, m.params@, m.query_params@) == Ok::<_, Seq<char>>(
            pairs_view(v@),
        ),
        r matches Err(e) ==> exists|k: &'static str|
            e == UriError::MissingParam(k) && query_of(m.method, m.params@, m.query_params@) == Err::<
                Seq<(Seq<char>, Seq<char>)>,
                _,
            >(k@),
{
    let mut out: Vec<(String, String)> = Vec::new();
    assert(pairs_view(out@) =~= Seq::empty());
    if m.method == RequestMethod::Get {
        serialized_pairs(&m.params, &mut out)?;
    }
    serialized_pairs(&m.query_params, &mut out)?;
    Ok(out)
}

/// The location of a call: the base URL followed by the path with its route
/// placeholders filled; the key of the first unfilled placeholder otherwise.
pub open spec fn location_of<X, C>(m: RestApiMethod<X, C>) -> Result<Seq<char>, Seq<char>> {
    match substituted(m.url@, routes_view(m.route_params@)) {
        Ok(p) => Ok(m.base_url@ + p),
        Err(k) => Err(k),
    }
}

/// Compiles a method into its URI: route placeholders substituted, then the
/// query pairs appended in declaration order.
pub fn compile_uri<X, C>(m: &RestApiMethod<X, C>) -> (r: Result<String, UriError>)
    ensures
        location_of(*m) matches Err(k) ==> exists|key: &'static str|
            r == Err::<String, _>(UriError::MissingRouteParam(key)) && key@ == k,
        location_of(*m) is Ok ==> (query_of(m.method, m.params@, m.query_params@) matches Err(k)
            ==> exists|key: &'static str| r == Err::<String, _>(UriError::MissingParam(key)) && key@ == k),
        location_of(*m) matches Ok(loc) ==> (query_of(m.method, m.params@, m.query_params@) matches Ok(q)
            ==> match rendered(loc, q) {
            Some(t) => r matches Ok(s) && s@ == t,
            None => r matches Err(UriError::InvalidUrl),
        }),
        location_of(*m) matches Ok(loc) ==> (query_of(m.method, m.params@, m.query_params@) matches Ok(_)
            ==> (r is Ok <==> parsed_url(loc) is Some)),
{
    let path = substitute_route_params(m.url, &m.route_params)?;
    let mut full = m.base_url.clone();
    full.append(path.as_str());
    let pairs = query_pairs(m)?;
    let res = if pairs.len() == 0 {
        parse_url(full.as_str())
    } else {
        parse_url_with_params(full.as_str(), &pairs)
    };
    match res {
        Ok(s) => Ok(s),
        Err(_) => Err(UriError::InvalidUrl),
    }
}

/// Query pairs keep declaration order: for a `Get`, the pairs of the body
/// parameters come first, then those of the query parameters, each in the
/// order declared, and unset optional parameters are left out.
pub proof fn lemma_query_declaration_order(
    method: RequestMethod,
    params: Seq<ParamView>,
    query: Seq<ParamView>,
)
    requires
        method == RequestMethod::Get ==> !has_missing_required(params),
        !has_missing_required(query),
    ensures
        query_of(method, params, query) == Ok::<_, Seq<char>>(
            if method == RequestMethod::Get {
                value_pairs(params) + value_pairs(query)
            } else {
                value_pairs(query)
            },
        ),
{
    lemma_serialize_law(params);
    lemma_serialize_law(query);
    assert(Seq::<(Seq<char>, Seq<char>)>::empty() + value_pairs(query) == value_pairs(query));
}

/// A method whose path template is `/x/{id}` and whose one route placeholder
/// `id` holds `42` is located at its base URL followed by `/x/42`.
pub proof fn lemma_route_filled<X, C>(m: RestApiMethod<X, C>)
    requires
        m.url@ == "/x/{id}"@,
        routes_view(m.route_params@) == seq![RouteView { key: "id"@, value: Some("42"@) }],
    ensures
        location_of(m) == Ok::<_, Seq<char>>(m.base_url@ + "/x/42"@),
{
    reveal_strlit("/x/{id}");
    reveal_strlit("id");
    reveal_strlit("42");
    reveal_strlit("/x/42");
    let rv = routes_view(m.route_params@);
    let s = "/x/{id}"@;
    let p = placeholder("id"@);
    let w = "42"@;
    assert(p =~= seq!['{', 'i', 'd', '}']);
    assert(s =~= seq!['/', 'x', '/', '{', 'i', 'd', '}']);
    let s1 = s.subrange(1, 7);
    let s2 = s1.subrange(1, 6);
    let s3 = s2.subrange(1, 5);
    assert(s.subrange(0, 4)[0] != p[0]);
    assert(s1.subrange(0, 4)[0] != p[0]);
    assert(s2.subrange(0, 4)[0] != p[0]);
    assert(s3 =~= p);
    assert(s3.subrange(0, 4) =~= p);
    assert(replaced(s3.subrange(4, 4), p, w) == s3.subrange(4, 4));
    assert(replaced(s3, p, w) =~= w);
    assert(replaced(s2, p, w) =~= seq!['/'] + w);
    assert(replaced(s1, p, w) =~= seq!['x', '/'] + w);
    assert(replaced(s, p, w) =~= "/x/42"@);
    assert(rv[0].key == "id"@ && rv[0].value == Some(w));
    assert(rv.drop_first().len() == 0);
    assert(substituted(replaced(s, p, w), rv.drop_first()) == Ok::<_, Seq<char>>(replaced(s, p, w)));
    assert(substituted(s, rv) == Ok::<_, Seq<char>>("/x/42"@));
}

/// A method whose one route placeholder `id` holds no value cannot be
/// located: compilation names `id`.
pub proof fn lemma_route_unfilled<X, C>(m: RestApiMethod<X, C>)
    requires
        routes_view(m.route_params@) == seq![RouteView { key: "id"@, value: None }],
    ensures
        location_of(m) == Err::<Seq<char>, _>("id"@),
{
}

} // verus!
