//! Descriptions of REST methods and the builder that stages them.

use vstd::prelude::*;
use crate::json::{pairs_to_json, json_object};
use crate::params::{
    is_first_key, key_absent, opt_view, serialized, ParamError, ParamView, RequestMethod,
    RestApiMethodParam, RestApiMethodParamBunch, RestApiMethodRouteParam,
};
use crate::text::str_eq;

verus! {

/// What a route placeholder holds, as plain values.
pub struct RouteView {
    pub key: Seq<char>,
    pub value: Option<Seq<char>>,
}

impl View for RestApiMethodRouteParam {
    type V = RouteView;

    open spec fn view(&self) -> RouteView {
        RouteView { key: self.key@, value: opt_view(self.value) }
    }
}

pub open spec fn params_view(v: Seq<RestApiMethodParam>) -> Seq<ParamView> {
    v.map_values(|p: RestApiMethodParam| p@)
}

pub open spec fn routes_view(v: Seq<RestApiMethodRouteParam>) -> Seq<RouteView> {
    v.map_values(|p: RestApiMethodRouteParam| p@)
}

/// Index `i` holds the first placeholder named `k`.
pub open spec fn is_first_route_key(rs: Seq<RouteView>, k: Seq<char>, i: int) -> bool {
    0 <= i < rs.len() && rs[i].key == k && forall|j: int| 0 <= j < i ==> rs[j].key != k
}

/// One REST call: where it goes, with which parameters, and how its response
/// is turned into a payload (`X`) and its request adjusted (`C`).
#[derive(Clone, Debug)]
pub struct RestApiMethod<X, C> {
    pub base_url: String,
    pub method: RequestMethod,
    pub url: &'static str,
    pub params: RestApiMethodParamBunch,
    pub query_params: RestApiMethodParamBunch,
    pub route_params: Vec<RestApiMethodRouteParam>,
    pub transform_response: X,
    pub configure_request: Option<C>,
}

/// The mutable pre-image of a [`RestApiMethod`]; cloned to serve as a template.
#[derive(Clone, Debug)]
pub struct RestApiMethodBuilder<X, C> {
    pub base_url: Option<String>,
    pub method: RequestMethod,
    pub url: Option<&'static str>,
    pub params: Vec<RestApiMethodParam>,
    pub query_params: Vec<RestApiMethodParam>,
    pub route_params: Vec<RestApiMethodRouteParam>,
    pub transform_response: Option<X>,
    pub configure_request: Option<C>,
}

/// A mandatory part of a method that its builder was never given.
#[derive(Clone, Copy, PartialEq, Eq, Structural, Debug)]
pub enum BuildError {
    MissingBaseUrl,
    MissingUrl,
    MissingTransformResponse,
}

fn copy_params(v: &Vec<RestApiMethodParam>) -> (r: Vec<RestApiMethodParam>)
    ensures
        params_view(r@) == params_view(v@),
{
    let mut r: Vec<RestApiMethodParam> = Vec::new();
    let mut i: usize = 0;
    while i < v.len()
        invariant
            i <= v@.len(),
            r@.len() == i,
            params_view(r@) == params_view(v@.subrange(0, i as int)),
        decreases v@.len() - i,
    {
        let p = &v[i];
        let value = match &p.value {
            Some(s) => Some(s.clone()),
            None => None,
        };
        let ghost before = r@;
        r.push(RestApiMethodParam { key: p.key, value, is_required: p.is_required });
        assert(v@.subrange(0, i + 1) == v@.subrange(0, i as int).push(v@[i as int]));
        assert(opt_view(r@[i as int].value) == opt_view(v@[i as int].value));
        assert(r@ == before.push(r@[i as int]));
        assert(r@[i as int]@ == v@[i as int]@);
        assert forall|j: int| 0 <= j < i implies #[trigger] r@[j]@ == v@[j]@ by {
            assert(params_view(before)[j] == params_view(v@.subrange(0, i as int))[j]);
        }
        assert(params_view(r@) =~= params_view(v@.subrange(0, i + 1)));
        i = i + 1;
    }
    assert(v@.subrange(0, v@.len() as int) == v@);
    r
}

fn copy_routes(v: &Vec<RestApiMethodRouteParam>) -> (r: Vec<RestApiMethodRouteParam>)
    ensures
        routes_view(r@) == routes_view(v@),
{
    let mut r: Vec<RestApiMethodRouteParam> = Vec::new();
    let mut i: usize = 0;
    while i < v.len()
        invariant
            i <= v@.len(),
            r@.len() == i,
            routes_view(r@) == routes_view(v@.subrange(0, i as int)),
        decreases v@.len() - i,
    {
        let p = &v[i];
        let value = match &p.value {
            Some(s) => Some(s.clone()),
            None => None,
        };
        let ghost before = r@;
        r.push(RestApiMethodRouteParam { key: p.key, value });
        assert(v@.subrange(0, i + 1) == v@.subrange(0, i as int).push(v@[i as int]));
        assert(opt_view(r@[i as int].value) == opt_view(v@[i as int].value));
        assert(r@ == before.push(r@[i as int]));
        assert(r@[i as int]@ == v@[i as int]@);
        assert forall|j: int| 0 <= j < i implies #[trigger] r@[j]@ == v@[j]@ by {
            assert(routes_view(before)[j] == routes_view(v@.subrange(0, i as int))[j]);
        }
        assert(routes_view(r@) =~= routes_view(v@.subrange(0, i + 1)));
        i = i + 1;
    }
    assert(v@.subrange(0, v@.len() as int) == v@);
    r
}

impl<X: Copy, C: Copy> RestApiMethodBuilder<X, C> {
    /// An empty builder; the verb defaults to `Get`.
    pub fn new() -> (r: Self)
        ensures
            r.base_url is None,
            r.method == RequestMethod::Get,
            r.url is None,
            r.params@.len() == 0,
            r.query_params@.len() == 0,
            r.route_params@.len() == 0,
            r.transform_response is None,
            r.configure_request is None,
    {
        RestApiMethodBuilder {
            base_url: None,
            method: RequestMethod::Get,
            url: None,
            params: Vec::new(),
            query_params: Vec::new(),
            route_params: Vec::new(),
            transform_response: None,
            configure_request: None,
        }
    }

    /// Sets the base URL the path is appended to.
    pub fn set_base_url(&mut self, base_url: String) -> (r: &mut Self)
        ensures
            *r == (Self { base_url: Some(base_url), ..*old(self) }),
            *final(self) == *final(r),
    {
        self.base_url = Some(base_url);
        self
    }

    /// Sets the HTTP verb.
    pub fn set_method(&mut self, method: RequestMethod) -> (r: &mut Self)
        ensures
            *r == (Self { method, ..*old(self) }),
            *final(self) == *final(r),
    {
        self.method = method;
        self
    }

    /// Sets the path template, with route placeholders written `{key}`.
    pub fn set_url(&mut self, url: &'static str) -> (r: &mut Self)
        ensures
            *r == (Self { url: Some(url), ..*old(self) }),
            *final(self) == *final(r),
    {
        self.url = Some(url);
        self
    }

    /// Declares one more route placeholder.
    pub fn add_route_param(&mut self, param: RestApiMethodRouteParam) -> (r: &mut Self)
        ensures
            r.route_params@ == old(self).route_params@.push(param),
            *r == (Self { route_params: r.route_params, ..*old(self) }),
            *final(self) == *final(r),
    {
        self.route_params.push(param);
        self
    }

    /// Declares one more body parameter (sent in the query for `Get`).
    pub fn add_param(&mut self, param: RestApiMethodParam) -> (r: &mut Self)
        ensures
            r.params@ == old(self).params@.push(param),
            *r == (Self { params: r.params, ..*old(self) }),
            *final(self) == *final(r),
    {
        self.params.push(param);
        self
    }

    /// Declares one more parameter that always goes in the query.
    pub fn add_query_param(&mut self, param: RestApiMethodParam) -> (r: &mut Self)
        ensures
            r.query_params@ == old(self).query_params@.push(param),
            *r == (Self { query_params: r.query_params, ..*old(self) }),
            *final(self) == *final(r),
    {
        self.query_params.push(param);
        self
    }

    /// Sets how a response is turned into a payload.
    pub fn set_transform_response(&mut self, transform_response: X) -> (r: &mut Self)
        ensures
            *r == (Self { transform_response: Some(transform_response), ..*old(self) }),
            *final(self) == *final(r),
    {
        self.transform_response = Some(transform_response);
        self
    }

    /// Sets the hook that adjusts the method before it is sent.
    pub fn set_configure_request(&mut self, configure_request: C) -> (r: &mut Self)
        ensures
            *r == (Self { configure_request: Some(configure_request), ..*old(self) }),
            *final(self) == *final(r),
    {
        self.configure_request = Some(configure_request);
        self
    }

    /// The method described so far; fails, naming the first missing part, when
    /// the base URL, the path template or the response transform was not set.
    /// A caller that cannot rule that out checks here before [`Self::build`].
    pub fn try_build(&self) -> (r: Result<RestApiMethod<X, C>, BuildError>)
        ensures
            self.base_url is None ==> r == Err::<RestApiMethod<X, C>, _>(BuildError::MissingBaseUrl),
            self.base_url is Some && self.url is None ==> r == Err::<RestApiMethod<X, C>, _>(
                BuildError::MissingUrl,
            ),
            self.base_url is Some && self.url is Some && self.transform_response is None ==> r
                == Err::<RestApiMethod<X, C>, _>(BuildError::MissingTransformResponse),
            r is Ok <==> (self.base_url is Some && self.url is Some && self.transform_response is Some),
            r matches Ok(m) ==> {
                &&& Some(m.base_url@) == opt_view(self.base_url)
                &&& m.method == self.method
                &&& Some(m.url) == self.url
                &&& m.params@ == params_view(self.params@)
                &&& m.query_params@ == params_view(self.query_params@)
                &&& routes_view(m.route_params@) == routes_view(self.route_params@)
                &&& Some(m.transform_response) == self.transform_response
                &&& m.configure_request == self.configure_request
            },
    {
        let base_url = match &self.base_url {
            Some(b) => b.clone(),
            None => return Err(BuildError::MissingBaseUrl),
        };
        let url = match self.url {
            Some(u) => u,
            None => return Err(BuildError::MissingUrl),
        };
        let transform_response = match self.transform_response {
            Some(t) => t,
            None => return Err(BuildError::MissingTransformResponse),
        };
        Ok(RestApiMethod {
            base_url,
            method: self.method,
            url,
            params: RestApiMethodParamBunch { items: copy_params(&self.params) },
            query_params: RestApiMethodParamBunch { items: copy_params(&self.query_params) },
            route_params: copy_routes(&self.route_params),
            transform_response,
            configure_request: self.configure_request,
        })
    }
    /// The method described so far. A template without a base URL, a path
    /// template or a response transform is a programmer error.
    pub fn build(&self) -> (m: RestApiMethod<X, C>)
        requires
            self.base_url is Some,
            self.url is Some,
            self.transform_response is Some,
        ensures
            Some(m.base_url@) == opt_view(self.base_url),
            m.method == self.method,
            Some(m.url) == self.url,
            m.params@ == params_view(self.params@),
            m.query_params@ == params_view(self.query_params@),
            routes_view(m.route_params@) == routes_view(self.route_params@),
            Some(m.transform_response) == self.transform_response,
            m.configure_request == self.configure_request,
    {
        self.try_build().unwrap()
    }

}

impl<X: Copy, C: Copy> RestApiMethod<X, C> {
    /// A fresh builder for a method.
    pub fn builder() -> (r: RestApiMethodBuilder<X, C>)
        ensures
            r.base_url is None,
            r.method == RequestMethod::Get,
            r.url is None,
            r.params@.len() == 0,
            r.query_params@.len() == 0,
            r.route_params@.len() == 0,
            r.transform_response is None,
            r.configure_request is None,
    {
        RestApiMethodBuilder::new()
    }
}

impl<X, C> RestApiMethod<X, C> {
    /// Fills the first body/query parameter named `key`, once.
    pub fn set_param_value(&mut self, key: &'static str, value: String) -> (r: Result<(), ParamError>)
        ensures
            key_absent(old(self).params@, key@) ==> r == Err::<(), ParamError>(
                ParamError::UnknownParam(key),
            ) && final(self).params@ == old(self).params@,
            forall|i: int| #[trigger]
                is_first_key(old(self).params@, key@, i) ==> if old(self).params@[i].value is Some {
                    r == Err::<(), ParamError>(ParamError::AlreadySet(key)) && final(self).params@
                        == old(self).params@
                } else {
                    r is Ok && final(self).params@ == old(self).params@.update(
                        i,
                        ParamView { value: Some(value@), ..old(self).params@[i] },
                    )
                },
            final(self).query_params == old(self).query_params,
            final(self).route_params == old(self).route_params,
            final(self).base_url == old(self).base_url,
            final(self).url == old(self).url,
            final(self).method == old(self).method,
            final(self).transform_response == old(self).transform_response,
            final(self).configure_request == old(self).configure_request,
    {
        self.params.set_value(key, value)
    }

    /// Fills the first query-only parameter named `key`, once.
    pub fn set_query_param_value(&mut self, key: &'static str, value: String) -> (r: Result<
        (),
        ParamError,
    >)
        ensures
            key_absent(old(self).query_params@, key@) ==> r == Err::<(), ParamError>(
                ParamError::UnknownParam(key),
            ) && final(self).query_params@ == old(self).query_params@,
            forall|i: int| #[trigger]
                is_first_key(old(self).query_params@, key@, i) ==> if old(self).query_params@[i].value is Some {
                    r == Err::<(), ParamError>(ParamError::AlreadySet(key))
                        && final(self).query_params@ == old(self).query_params@
                } else {
                    r is Ok && final(self).query_params@ == old(self).query_params@.update(
                        i,
                        ParamView { value: Some(value@), ..old(self).query_params@[i] },
                    )
                },
            final(self).params == old(self).params,
            final(self).route_params == old(self).route_params,
            final(self).base_url == old(self).base_url,
            final(self).url == old(self).url,
            final(self).method == old(self).method,
            final(self).transform_response == old(self).transform_response,
            final(self).configure_request == old(self).configure_request,
    {
        self.query_params.set_value(key, value)
    }

    /// Fills the first route placeholder named `key`, once.
    pub fn set_route_param_value(&mut self, key: &'static str, value: String) -> (r: Result<
        (),
        ParamError,
    >)
        ensures
            (forall|i: int| 0 <= i < old(self).route_params@.len() ==> old(self).route_params@[i]@.key != key@)
                ==> r == Err::<(), ParamError>(ParamError::UnknownParam(key)) && final(self).route_params
                == old(self).route_params,
            forall|i: int| #[trigger]
                is_first_route_key(routes_view(old(self).route_params@), key@, i) ==> if old(
                    self,
                ).route_params@[i].value is Some {
                    r == Err::<(), ParamError>(ParamError::AlreadySet(key)) && final(self).route_params
                        == old(self).route_params
                } else {
                    r is Ok && routes_view(final(self).route_params@) == routes_view(
                        old(self).route_params@,
                    ).update(i, RouteView { key: key@, value: Some(value@) })
                },
            final(self).params == old(self).params,
            final(self).query_params == old(self).query_params,
            final(self).base_url == old(self).base_url,
            final(self).url == old(self).url,
            final(self).method == old(self).method,
            final(self).transform_response == old(self).transform_response,
            final(self).configure_request == old(self).configure_request,
    {
        let mut i: usize = 0;
        while i < self.route_params.len()
            invariant
                i <= self.route_params@.len(),
                self.route_params == old(self).route_params,
                self.params == old(self).params,
                self.query_params == old(self).query_params,
                self.base_url == old(self).base_url,
                self.url == old(self).url,
                self.method == old(self).method,
                self.transform_response == old(self).transform_response,
                self.configure_request == old(self).configure_request,
                forall|j: int| 0 <= j < i ==> self.route_params@[j]@.key != key@,
            decreases self.route_params@.len() - i,
        {
            if str_eq(self.route_params[i].key, key) {
                assert forall|j: int|
                    is_first_route_key(routes_view(old(self).route_params@), key@, j) implies j
                    == i by {
                    if j > i {
                        assert(routes_view(old(self).route_params@)[i as int].key == key@);
                    }
                }
                if self.route_params[i].value.is_some() {
                    return Err(ParamError::AlreadySet(key));
                }
                let ghost before = self.route_params@;
                self.route_params.set(i, RestApiMethodRouteParam { key, value: Some(value) });
                assert(routes_view(self.route_params@) =~= routes_view(before).update(
                    i as int,
                    RouteView { key: key@, value: Some(value@) },
                ));
                return Ok(());
            }
            i = i + 1;
        }
        Err(ParamError::UnknownParam(key))
    }

    /// The body parameters as one JSON object whose members keep their
    /// declaration order; fails on the first required parameter without a value.
    pub fn convert_params_into_json_string(&self) -> (r: Result<String, ParamError>)
        ensures
            serialized(self.params@) matches Ok(p) ==> (r matches Ok(t) && t@ == json_object(p)),
            serialized(self.params@) matches Err(k) ==> exists|key: &'static str|
                r == Err::<String, _>(ParamError::MissingRequiredParam(key)) && key@ == k,
    {
        let pairs = self.params.serialize()?;
        Ok(pairs_to_json(&pairs))
    }

}

} // verus!
